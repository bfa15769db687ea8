use wallet_tracker::enums::{action_from_line, transaction_offset_from, Action};
use wallet_tracker::error::{ErrorKind, WalletError};
use wallet_tracker::export::{statistics_csv, statistics_record, transaction_record, transactions_csv};
use wallet_tracker::fraction::Fraction;
use wallet_tracker::json::JsonValue;
use wallet_tracker::query::{
    balance_request, check_address, get_balance, get_fiat_balance, get_total_transactions,
    get_transactions, history_limit, total_url, transaction_from_json, transactions_url,
};
use wallet_tracker::stats::{
    generate_statistics, get_average_eth, get_average_gas, get_first_transaction_date,
};
use wallet_tracker::structs::{Statistics, Transaction};

const WALLET: &str = "0x00000000219ab540356cBB839Cbe05303d7705Fa";

fn as_f64(f: &Fraction) -> f64 {
    f.numerator as f64 / f.denominator as f64
}

fn obj(pairs: Vec<(&str, JsonValue)>) -> JsonValue {
    JsonValue::Object(pairs.into_iter().map(|(k, v)| (k.to_string(), v)).collect())
}

fn text(s: &str) -> JsonValue {
    JsonValue::Text(s.to_string())
}

fn element(from: &str, to: &str, gas: &str, value: &str, stamp: &str) -> JsonValue {
    obj(vec![
        ("from", text(from)),
        ("to", text(to)),
        ("gasUsed", text(gas)),
        ("value", text(value)),
        ("timeStamp", text(stamp)),
    ])
}

fn tx(gas: &str, value_wei: u128, date: &str) -> Transaction {
    Transaction {
        from: "0xAAA".to_string(),
        to: "0xBBB".to_string(),
        value_wei,
        gas: gas.to_string(),
        date: date.to_string(),
    }
}

fn detail(e: &WalletError) -> String {
    match e {
        WalletError::Missing { field } => field.clone(),
        WalletError::NumericParse { text } => text.clone(),
        WalletError::InvalidAddress { address } => address.clone(),
        _ => String::new(),
    }
}

#[test]
fn valid_address_builds_balance_request() {
    assert!(check_address(WALLET).is_ok());
    let body = balance_request(WALLET).unwrap();
    match body {
        JsonValue::Object(es) => {
            assert_eq!(es.len(), 4);
            assert_eq!(es[0].0, "id");
            assert!(matches!(es[0].1, JsonValue::Integer(1)));
            assert_eq!(es[2].0, "method");
            assert!(matches!(&es[2].1, JsonValue::Text(t) if t == "eth_getBalance"));
            match &es[3].1 {
                JsonValue::Array(ps) => {
                    assert!(matches!(&ps[0], JsonValue::Text(t) if t == WALLET));
                    assert!(matches!(&ps[1], JsonValue::Text(t) if t == "pending"));
                }
                _ => panic!("params is not an array"),
            }
        }
        _ => panic!("body is not an object"),
    }
}

#[test]
fn malformed_addresses_are_refused() {
    for bad in ["0x123", "1x00000000219ab540356cBB839Cbe05303d7705Fa", "", "00000000219ab540356cBB839Cbe05303d7705Fa00"] {
        let e = balance_request(bad).unwrap_err();
        assert_eq!(e.kind(), ErrorKind::InvalidAddress);
        assert_eq!(detail(&e), bad);
    }
}

#[test]
fn balance_reads_hex_result() {
    let r = obj(vec![("jsonrpc", text("2.0")), ("result", text("0x1bc16d674ec80000"))]);
    let b = get_balance(&r).unwrap();
    assert_eq!(b.numerator, 2_000_000_000_000_000_000);
    assert_eq!(as_f64(&b), 2.0);
}

#[test]
fn balance_failures() {
    let e = get_balance(&obj(vec![("error", text("x"))])).unwrap_err();
    assert_eq!(e.kind(), ErrorKind::Missing);
    assert_eq!(detail(&e), "result");
    let e = get_balance(&obj(vec![("result", text("12"))])).unwrap_err();
    assert_eq!(e.kind(), ErrorKind::NumericParse);
    assert_eq!(detail(&e), "12");
    let e = get_balance(&obj(vec![("result", JsonValue::Integer(5))])).unwrap_err();
    assert_eq!(e.kind(), ErrorKind::Missing);
}

#[test]
fn fiat_balance_multiplies_rate() {
    let rates = obj(vec![("data", obj(vec![("rates", obj(vec![("EUR", text("1.0")), ("USD", text("2000.5"))]))]))]);
    let balance = Fraction { numerator: 1_500_000_000_000_000_000, denominator: 1_000_000_000_000_000_000 };
    let usd = get_fiat_balance(&balance, &rates).unwrap();
    assert_eq!(usd.to_decimal_text(18), "3000.75");
    assert_eq!(as_f64(&usd), 3000.75);
}

#[test]
fn fiat_balance_failures() {
    let e = get_fiat_balance(&Fraction { numerator: 1, denominator: 1 }, &obj(vec![("data", obj(vec![]))])).unwrap_err();
    assert_eq!(e.kind(), ErrorKind::Missing);
    assert_eq!(detail(&e), "data.rates.USD");
    let bad = obj(vec![("data", obj(vec![("rates", obj(vec![("USD", text("abc"))]))]))]);
    let e = get_fiat_balance(&Fraction { numerator: 1, denominator: 1 }, &bad).unwrap_err();
    assert_eq!(e.kind(), ErrorKind::NumericParse);
    assert_eq!(detail(&e), "abc");
}

#[test]
fn transactions_are_read_in_order() {
    let r = obj(vec![
        ("status", text("1")),
        (
            "result",
            JsonValue::Array(vec![
                element("0xA1", "0xB1", "21000", "1000000000000000000", "1609459200"),
                element("0xA2", "0xB2", "42000", "0", "0"),
            ]),
        ),
    ]);
    let txs = get_transactions(&r, 10).unwrap();
    assert_eq!(txs.len(), 2);
    assert_eq!(txs[0].from, "0xA1");
    assert_eq!(txs[0].to, "0xB1");
    assert_eq!(txs[0].gas, "21000");
    assert_eq!(txs[0].value_wei, 1_000_000_000_000_000_000);
    assert_eq!(txs[0].date, "2021-01-01 00:00:00");
    assert_eq!(txs[1].from, "0xA2");
    assert_eq!(txs[1].date, "1970-01-01 00:00:00");
}

#[test]
fn empty_transaction_list_is_success() {
    let r = obj(vec![("result", JsonValue::Array(vec![]))]);
    assert_eq!(get_transactions(&r, 5).unwrap().len(), 0);
}

#[test]
fn missing_result_fails_transactions() {
    let e = get_transactions(&obj(vec![("result", text("Max rate limit reached"))]), 5).unwrap_err();
    assert_eq!(e.kind(), ErrorKind::Missing);
    assert_eq!(detail(&e), "result");
}

#[test]
fn missing_field_fails_whole_list() {
    let incomplete = obj(vec![("from", text("0xA")), ("to", text("0xB")), ("value", text("1")), ("timeStamp", text("0"))]);
    let r = obj(vec![(
        "result",
        JsonValue::Array(vec![element("0xA1", "0xB1", "21000", "1", "0"), incomplete]),
    )]);
    let e = get_transactions(&r, 2).unwrap_err();
    assert_eq!(e.kind(), ErrorKind::Missing);
    assert_eq!(detail(&e), "gasUsed");
    assert_eq!(get_transactions(&r, 1).unwrap().len(), 1);
}

#[test]
fn malformed_numbers_fail_an_element() {
    let e = transaction_from_json(&element("0xA", "0xB", "1", "1.5", "0")).unwrap_err();
    assert_eq!(e.kind(), ErrorKind::NumericParse);
    assert_eq!(detail(&e), "1.5");
    let e = transaction_from_json(&element("0xA", "0xB", "1", "1", "yesterday")).unwrap_err();
    assert_eq!(e.kind(), ErrorKind::NumericParse);
    assert_eq!(detail(&e), "yesterday");
}

#[test]
fn total_count_is_read() {
    assert_eq!(get_total_transactions(&obj(vec![("n_tx", JsonValue::Integer(42))])).unwrap(), 42);
    let e = get_total_transactions(&obj(vec![("n_tx", text("42"))])).unwrap_err();
    assert_eq!(detail(&e), "n_tx");
    assert!(get_total_transactions(&obj(vec![("n_tx", JsonValue::Integer(-1))])).is_err());
    assert!(get_total_transactions(&JsonValue::Null).is_err());
}

#[test]
fn history_limit_adds_one() {
    assert_eq!(history_limit(0), 1);
    assert_eq!(history_limit(41), 42);
    assert_eq!(history_limit(u64::MAX), u64::MAX);
}

#[test]
fn query_urls() {
    assert_eq!(
        transactions_url(WALLET, 10, "KEY"),
        format!(
            "https://api.etherscan.io/v2/api?chainid=1&module=account&action=txlist&address={}&startblock=0&endblock=99999999&page=1&offset=10&sort=asc&apikey=KEY",
            WALLET
        )
    );
    assert_eq!(total_url(WALLET), format!("https://api.blockcypher.com/v1/eth/main/addrs/{}", WALLET));
}

#[test]
fn averages_of_empty_set_fail() {
    let none: Vec<Transaction> = vec![];
    assert_eq!(get_average_gas(&none).unwrap_err().kind(), ErrorKind::EmptySet);
    assert_eq!(get_average_eth(&none).unwrap_err().kind(), ErrorKind::EmptySet);
    assert_eq!(get_first_transaction_date(&none).unwrap_err().kind(), ErrorKind::NoTransactions);
}

#[test]
fn average_gas_of_two() {
    let txs = vec![tx("21000", 0, "2021-01-01 00:00:00"), tx("42000", 0, "2021-01-02 00:00:00")];
    let avg = get_average_gas(&txs).unwrap();
    assert_eq!(avg, Fraction { numerator: 63000, denominator: 2 });
    assert_eq!(as_f64(&avg), 31500.0);
}

#[test]
fn malformed_gas_invalidates_average() {
    let txs = vec![tx("21000", 0, "d"), tx("lots", 0, "d"), tx("x", 0, "d")];
    let e = get_average_gas(&txs).unwrap_err();
    assert_eq!(e.kind(), ErrorKind::NumericParse);
    assert_eq!(detail(&e), "lots");
}

#[test]
fn average_eth_overflow_is_reported() {
    let txs = vec![tx("1", u128::MAX, "d"), tx("1", 1, "d")];
    let e = get_average_eth(&txs).unwrap_err();
    assert_eq!(e.kind(), ErrorKind::NumericParse);
    assert_eq!(detail(&e), "1");
}

fn three() -> Vec<Transaction> {
    vec![
        tx("21000", 1_000_000_000_000_000_000, "2019-05-04 10:11:12"),
        tx("21000", 2_000_000_000_000_000_000, "2020-01-01 00:00:00"),
        tx("42000", 3_000_000_000_000_000_000, "2021-07-08 09:10:11"),
    ]
}

#[test]
fn statistics_scenario() {
    let stats = generate_statistics(WALLET, 3, &three()).unwrap();
    assert_eq!(as_f64(&stats.average_eth), 2.0);
    assert_eq!(as_f64(&stats.average_gas), 28000.0);
    assert_eq!(stats.first_transaction, "2019-05-04");
    assert_eq!(stats.address, WALLET);
}

#[test]
fn statistics_counts_round_trip() {
    let stats = generate_statistics(WALLET, 3, &three()).unwrap();
    assert_eq!(stats.total_transactions, 3);
    assert!(stats.counts_agree());
    let stats = generate_statistics(WALLET, 5, &three()).unwrap();
    assert!(!stats.counts_agree());
}

#[test]
fn statistics_fail_without_history() {
    let e = generate_statistics(WALLET, 0, &vec![]).unwrap_err();
    assert_eq!(e.kind(), ErrorKind::EmptySet);
}

#[test]
fn transactions_csv_scenario() {
    let t = Transaction {
        from: "0xAAA".to_string(),
        to: "0xBBB".to_string(),
        gas: "21000".to_string(),
        value_wei: 1_500_000_000_000_000_000,
        date: "2021-01-01 00:00:00".to_string(),
    };
    assert_eq!(
        transactions_csv(&vec![t]).unwrap(),
        "From,To,Gas,Quantity,Date\n0xAAA,0xBBB,21000,1.5,2021-01-01 00:00:00\n"
    );
}

#[test]
fn csv_quotes_fields_that_need_it() {
    let t = Transaction {
        from: "a,b".to_string(),
        to: "say \"hi\"".to_string(),
        gas: "1".to_string(),
        value_wei: 0,
        date: "d".to_string(),
    };
    assert_eq!(transaction_record(&t), vec!["a,b", "say \"hi\"", "1", "0", "d"]);
    assert_eq!(
        transactions_csv(&vec![t]).unwrap(),
        "From,To,Gas,Quantity,Date\n\"a,b\",\"say \"\"hi\"\"\",1,0,d\n"
    );
}

#[test]
fn statistics_csv_scenario() {
    let stats = Statistics {
        address: WALLET.to_string(),
        total_transactions: 3,
        average_gas: Fraction { numerator: 84000, denominator: 3 },
        average_eth: Fraction { numerator: 6_000_000_000_000_000_000, denominator: 3_000_000_000_000_000_000 },
        first_transaction: "2019-05-04".to_string(),
        sampled: 3,
    };
    assert_eq!(statistics_record(&stats), vec![WALLET, "3", "28000", "2", "2019-05-04"]);
    assert_eq!(
        statistics_csv(&stats).unwrap(),
        format!("Address,Total Transactions,Average Gas,Average ETH,First Transaction\n{},3,28000,2,2019-05-04\n", WALLET)
    );
}

#[test]
fn menu_lines() {
    assert_eq!(action_from_line("1\n"), Some(Action::Balance));
    assert_eq!(action_from_line("4\n"), Some(Action::Gas));
    assert_eq!(action_from_line("5\n"), Some(Action::Stats));
    assert_eq!(action_from_line("7\n"), Some(Action::Exit));
    assert_eq!(action_from_line("8\n"), None);
    assert_eq!(action_from_line("1"), None);
}

#[test]
fn offset_bounds() {
    assert_eq!(transaction_offset_from("1"), Some(1));
    assert_eq!(transaction_offset_from("20"), Some(20));
    assert_eq!(transaction_offset_from("0"), None);
    assert_eq!(transaction_offset_from("21"), None);
    assert_eq!(transaction_offset_from("x"), None);
    assert_eq!(transaction_offset_from("+5"), Some(5));
    assert_eq!(transaction_offset_from("+"), None);
    assert_eq!(transaction_offset_from("++5"), None);
    assert_eq!(transaction_offset_from("-5"), None);
}

#[test]
fn transactions_are_capped_at_limit() {
    let r = obj(vec![(
        "result",
        JsonValue::Array(vec![
            element("0xA1", "0xB1", "1", "1", "0"),
            element("0xA2", "0xB2", "2", "2", "0"),
            element("0xA3", "0xB3", "3", "3", "0"),
        ]),
    )]);
    let txs = get_transactions(&r, 2).unwrap();
    assert_eq!(txs.len(), 2);
    assert_eq!(txs[0].from, "0xA1");
    assert_eq!(txs[1].from, "0xA2");
    assert_eq!(get_transactions(&r, 0).unwrap().len(), 0);
    assert_eq!(get_transactions(&r, 7).unwrap().len(), 3);
}

#[test]
fn statistics_text_rounds_average_gas() {
    let stats = Statistics {
        address: "0xabc".to_string(),
        total_transactions: 3,
        average_gas: Fraction { numerator: 84000, denominator: 3 },
        average_eth: Fraction { numerator: 6_000_000_000_000_000_000, denominator: 3_000_000_000_000_000_000 },
        first_transaction: "2021-01-01".to_string(),
        sampled: 3,
    };
    assert_eq!(
        stats.to_text(),
        "Wallet address: 0xabc\nTotal number of transactions: 3\nAverage gas per transaction: 28000.00\nAverage ETH per transaction: 2\nDate of first transaction: 2021-01-01\n"
    );
}

#[test]
fn export_writes_both_files() {
    let history = three();
    let stats = generate_statistics(WALLET, 3, &history).unwrap();
    let (statistics, transactions) = wallet_tracker::export::export_to_csv(&stats, &history).unwrap();
    assert_eq!(
        statistics,
        format!("Address,Total Transactions,Average Gas,Average ETH,First Transaction\n{},3,28000,2,2019-05-04\n", WALLET)
    );
    assert_eq!(
        transactions,
        "From,To,Gas,Quantity,Date\n0xAAA,0xBBB,21000,1,2019-05-04 10:11:12\n0xAAA,0xBBB,21000,2,2020-01-01 00:00:00\n0xAAA,0xBBB,42000,3,2021-07-08 09:10:11\n"
    );
}

#[test]
fn transaction_texts() {
    let t = Transaction {
        from: "0x1234567890".to_string(),
        to: "0xAB".to_string(),
        gas: "21000".to_string(),
        value_wei: 250_000_000_000_000_000,
        date: "2021-01-01 00:00:00".to_string(),
    };
    assert_eq!(
        t.detailed_text(),
        "Transaction on 2021-01-01 00:00:00\nFrom: 0x1234567890\nTo: 0xAB\nValue: 0.25 ETH\nGas: 21000 wei\n"
    );
    assert_eq!(t.compact_text(), "0x123456 -> 0xAB | 0.25 ETH");
}

#[test]
fn statistics_text_lists_fields() {
    let stats = Statistics {
        address: WALLET.to_string(),
        total_transactions: 3,
        average_gas: Fraction { numerator: 100, denominator: 3 },
        average_eth: Fraction { numerator: 1, denominator: 2 },
        first_transaction: "2019-05-04".to_string(),
        sampled: 3,
    };
    assert_eq!(
        stats.to_text(),
        format!(
            "Wallet address: {}\nTotal number of transactions: 3\nAverage gas per transaction: 33.33\nAverage ETH per transaction: 0.5\nDate of first transaction: 2019-05-04\n",
            WALLET
        )
    );
}

#[test]
fn error_messages_and_hints() {
    let e = wallet_tracker::error::WalletError::missing("n_tx");
    assert_eq!(e.message(), "Missing field: n_tx");
    assert_eq!(e.hint(), "The API response format may have changed");
    let e = balance_request("0x1").unwrap_err();
    assert_eq!(e.message(), "Invalid wallet address: 0x1");
    assert_eq!(e.hint(), "Addresses should start with 0x and be 42 characters long");
    assert_eq!(WalletError::NoTransactions.message(), "No transactions found for this address");
    assert_eq!(WalletError::EmptySet.message(), "No transactions to average");
}
