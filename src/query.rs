use vstd::prelude::*;
use crate::error::{ErrorKind, WalletError};
use crate::fraction::Fraction;
use crate::date::{epoch_converter, epoch_text_date_time};
use crate::json::{array_member, integer_member, member, text_member, JsonValue};
use crate::numeric::{
    checked_pow10, decimal_u128, has_hex_prefix, hex_quantity_u128, lemma_pow10_monotone,
    parse_decimal, parse_hex_quantity, parse_point_decimal, point_decimal_u128, pow10,
};
use crate::structs::{Transaction, WEI_PER_ETHER};
use crate::text::{decimal_text, push_decimal};

verus! {

/// An address of the expected shape: `0x` followed by 40 more characters.
pub open spec fn is_valid_address(s: Seq<char>) -> bool {
    s.len() == 42 && s[0] == '0' && s[1] == 'x'
}

/// Checks the shape of a wallet address before any request is made for it.
pub fn check_address(wallet: &str) -> (r: Result<(), WalletError>)
    ensures
        r is Ok <==> is_valid_address(wallet@),
        r matches Err(e) ==> e@ == (ErrorKind::InvalidAddress, wallet@),
{
    if wallet.unicode_len() == 42 && wallet.get_char(0) == '0' && wallet.get_char(1) == 'x' {
        Ok(())
    } else {
        Err(WalletError::InvalidAddress { address: String::from_str(wallet) })
    }
}

/// The number of wei that a raw value names: `0x`-prefixed hexadecimal, as a
/// node reports balances, or decimal, as an explorer reports transfers.
pub open spec fn raw_wei(raw: Seq<char>) -> Option<u128> {
    if has_hex_prefix(raw) {
        hex_quantity_u128(raw)
    } else {
        decimal_u128(raw)
    }
}

/// Converts a raw wei value, hexadecimal with `0x` or decimal, to ether.
pub fn wei_to_ether(raw: &str) -> (r: Result<Fraction, WalletError>)
    ensures
        match raw_wei(raw@) {
            Some(w) => r == Ok::<Fraction, WalletError>(
                Fraction { numerator: w, denominator: WEI_PER_ETHER },
            ),
            None => r matches Err(e) && e@ == (ErrorKind::NumericParse, raw@),
        },
{
    let n = raw.unicode_len();
    let parsed = if n >= 2 && raw.get_char(0) == '0' && raw.get_char(1) == 'x' {
        parse_hex_quantity(raw)
    } else {
        parse_decimal(raw)
    };
    match parsed {
        Some(w) => Ok(Fraction { numerator: w, denominator: WEI_PER_ETHER }),
        None => Err(WalletError::numeric(raw)),
    }
}

/// `v` is the JSON-RPC body that asks a node for the pending balance of `wallet`:
/// `{"id":1,"jsonrpc":"2.0","method":"eth_getBalance","params":[wallet,"pending"]}`.
pub open spec fn is_balance_request(v: JsonValue, wallet: Seq<char>) -> bool {
    match v {
        JsonValue::Object(es) => {
            &&& es@.len() == 4
            &&& es@[0].0@ == "id"@
            &&& es@[0].1 == JsonValue::Integer(1)
            &&& es@[1].0@ == "jsonrpc"@
            &&& is_text(es@[1].1, "2.0"@)
            &&& es@[2].0@ == "method"@
            &&& is_text(es@[2].1, "eth_getBalance"@)
            &&& es@[3].0@ == "params"@
            &&& match es@[3].1 {
                JsonValue::Array(ps) => ps@.len() == 2 && is_text(ps@[0], wallet) && is_text(
                    ps@[1],
                    "pending"@,
                ),
                _ => false,
            }
        },
        _ => false,
    }
}

/// `v` is the JSON string `s`.
pub open spec fn is_text(v: JsonValue, s: Seq<char>) -> bool {
    match v {
        JsonValue::Text(t) => t@ == s,
        _ => false,
    }
}

fn text_value(s: &str) -> (r: JsonValue)
    ensures
        is_text(r, s@),
{
    JsonValue::Text(String::from_str(s))
}

/// The request body of a balance query for `wallet`; an address of the wrong
/// shape is refused before any request exists.
pub fn balance_request(wallet: &str) -> (r: Result<JsonValue, WalletError>)
    ensures
        r is Ok <==> is_valid_address(wallet@),
        r matches Ok(v) ==> is_balance_request(v, wallet@),
        r matches Err(e) ==> e@ == (ErrorKind::InvalidAddress, wallet@),
{
    check_address(wallet)?;
    let mut params: Vec<JsonValue> = Vec::new();
    params.push(text_value(wallet));
    params.push(text_value("pending"));
    let mut es: Vec<(String, JsonValue)> = Vec::new();
    es.push((String::from_str("id"), JsonValue::Integer(1)));
    es.push((String::from_str("jsonrpc"), text_value("2.0")));
    es.push((String::from_str("method"), text_value("eth_getBalance")));
    es.push((String::from_str("params"), JsonValue::Array(params)));
    Ok(JsonValue::Object(es))
}

/// Reads the balance that a node reports: a `0x`-prefixed hexadecimal count of
/// wei under `result`, returned in ether. The address was checked before the
/// request, so for a well-formed address no address failure arises at all.
pub fn get_balance(response: &JsonValue) -> (r: Result<Fraction, WalletError>)
    ensures
        match text_member(*response, "result"@) {
            None => r matches Err(e) && e@ == (ErrorKind::Missing, "result"@),
            Some(t) => match hex_quantity_u128(t) {
                Some(w) => r == Ok::<Fraction, WalletError>(
                    Fraction { numerator: w, denominator: WEI_PER_ETHER },
                ),
                None => r matches Err(e) && e@ == (ErrorKind::NumericParse, t),
            },
        },
{
    let text = match response.text_member("result") {
        Some(t) => t,
        None => return Err(WalletError::missing("result")),
    };
    match parse_hex_quantity(text.as_str()) {
        Some(w) => Ok(Fraction { numerator: w, denominator: WEI_PER_ETHER }),
        None => Err(WalletError::NumericParse { text }),
    }
}

/// The ether-to-dollar rate text under `data.rates.USD`.
pub open spec fn usd_rate_text(response: JsonValue) -> Option<Seq<char>> {
    match member(response, "data"@) {
        Some(d) => match member(d, "rates"@) {
            Some(rates) => text_member(rates, "USD"@),
            None => None,
        },
        None => None,
    }
}

/// `balance` ether at the dollar rate `rate`, exactly, when it fits in 128-bit terms.
pub open spec fn fiat_product(balance: Fraction, rate: Seq<char>) -> Option<Fraction> {
    match point_decimal_u128(rate) {
        Some(v) => {
            let num = v.0 * balance.numerator;
            let den = pow10(v.1) * balance.denominator;
            if num <= u128::MAX && den <= u128::MAX {
                Some(Fraction { numerator: num as u128, denominator: den as u128 })
            } else {
                None
            }
        },
        None => None,
    }
}

/// The dollar value of an ether `balance` at the rate under `data.rates.USD`
/// of an exchange-rate response.
pub fn get_fiat_balance(balance: &Fraction, response: &JsonValue) -> (r: Result<Fraction, WalletError>)
    requires
        balance.wf(),
    ensures
        match usd_rate_text(*response) {
            None => r matches Err(e) && e@ == (ErrorKind::Missing, "data.rates.USD"@),
            Some(t) => match fiat_product(*balance, t) {
                Some(v) => r == Ok::<Fraction, WalletError>(v),
                None => r matches Err(e) && e@ == (ErrorKind::NumericParse, t),
            },
        },
        r matches Ok(v) ==> v.wf(),
{
    let rate = match response.member("data") {
        Some(d) => match d.member("rates") {
            Some(rates) => rates.text_member("USD"),
            None => None,
        },
        None => None,
    };
    let rate = match rate {
        Some(t) => t,
        None => return Err(WalletError::missing("data.rates.USD")),
    };
    let (m, k) = match parse_point_decimal(rate.as_str()) {
        Some(v) => v,
        None => return Err(WalletError::NumericParse { text: rate }),
    };
    let scale = match checked_pow10(k) {
        Some(p) => p,
        None => {
            proof {
                assert(pow10(k as nat) * balance.denominator >= pow10(k as nat)) by (nonlinear_arith)
                    requires
                        balance.denominator >= 1,
                ;
            }
            return Err(WalletError::NumericParse { text: rate });
        },
    };
    let num = match m.checked_mul(balance.numerator) {
        Some(v) => v,
        None => return Err(WalletError::NumericParse { text: rate }),
    };
    let den = match scale.checked_mul(balance.denominator) {
        Some(v) => v,
        None => return Err(WalletError::NumericParse { text: rate }),
    };
    proof {
        lemma_pow10_monotone(0, k as nat);
        assert(den > 0) by (nonlinear_arith)
            requires
                den == scale * balance.denominator,
                scale >= 1,
                balance.denominator >= 1,
        ;
    }
    Ok(Fraction { numerator: num, denominator: den })
}

/// Why an element of a transaction list cannot become a transaction, if it
/// cannot: the first of its fields, in the order `from`, `to`, `gasUsed`,
/// `value`, `timeStamp`, that is absent or does not parse.
pub open spec fn element_failure(e: JsonValue) -> Option<(ErrorKind, Seq<char>)> {
    if text_member(e, "from"@) is None {
        Some((ErrorKind::Missing, "from"@))
    } else if text_member(e, "to"@) is None {
        Some((ErrorKind::Missing, "to"@))
    } else if text_member(e, "gasUsed"@) is None {
        Some((ErrorKind::Missing, "gasUsed"@))
    } else if text_member(e, "value"@) is None {
        Some((ErrorKind::Missing, "value"@))
    } else if decimal_u128(text_member(e, "value"@)->0) is None {
        Some((ErrorKind::NumericParse, text_member(e, "value"@)->0))
    } else if text_member(e, "timeStamp"@) is None {
        Some((ErrorKind::Missing, "timeStamp"@))
    } else if epoch_text_date_time(text_member(e, "timeStamp"@)->0) is None {
        Some((ErrorKind::NumericParse, text_member(e, "timeStamp"@)->0))
    } else {
        None
    }
}

/// `t` holds what the list element `e` says: its addresses and gas as given,
/// its value in wei, and its epoch time as a UTC date and time.
pub open spec fn transaction_from(t: Transaction, e: JsonValue) -> bool {
    &&& text_member(e, "from"@) == Some(t.from@)
    &&& text_member(e, "to"@) == Some(t.to@)
    &&& text_member(e, "gasUsed"@) == Some(t.gas@)
    &&& (text_member(e, "value"@) matches Some(v) && decimal_u128(v) == Some(t.value_wei))
    &&& (text_member(e, "timeStamp"@) matches Some(s) && epoch_text_date_time(s) == Some(t.date@))
}

/// Builds one transaction from an element of an explorer's transaction list.
pub fn transaction_from_json(e: &JsonValue) -> (r: Result<Transaction, WalletError>)
    ensures
        match element_failure(*e) {
            Some(f) => r matches Err(x) && x@ == f,
            None => r matches Ok(t) && transaction_from(t, *e),
        },
{
    let from = match e.text_member("from") {
        Some(v) => v,
        None => return Err(WalletError::missing("from")),
    };
    let to = match e.text_member("to") {
        Some(v) => v,
        None => return Err(WalletError::missing("to")),
    };
    let gas = match e.text_member("gasUsed") {
        Some(v) => v,
        None => return Err(WalletError::missing("gasUsed")),
    };
    let value = match e.text_member("value") {
        Some(v) => v,
        None => return Err(WalletError::missing("value")),
    };
    let value_wei = match parse_decimal(value.as_str()) {
        Some(w) => w,
        None => return Err(WalletError::NumericParse { text: value }),
    };
    let stamp = match e.text_member("timeStamp") {
        Some(v) => v,
        None => return Err(WalletError::missing("timeStamp")),
    };
    let date = epoch_converter(stamp)?;
    Ok(Transaction { from, to, value_wei, gas, date })
}

/// How many of `len` listed transactions a request for `limit` keeps.
pub open spec fn kept_count(len: nat, limit: u64) -> int {
    if limit < len {
        limit as int
    } else {
        len as int
    }
}

/// Reads the transaction list of an explorer response, in the order given
/// (oldest first), keeping at most `limit` transactions: the oldest ones.
/// Every kept element must carry `from`, `to`, `gasUsed`, `value` and
/// `timeStamp`; the first that does not fails the whole list, so no partial
/// transaction is ever returned. An empty list is a success.
pub fn get_transactions(response: &JsonValue, limit: u64) -> (r: Result<Vec<Transaction>, WalletError>)
    ensures
        match array_member(*response, "result"@) {
            None => r matches Err(e) && e@ == (ErrorKind::Missing, "result"@),
            Some(items) => {
                let k = kept_count(items.len(), limit);
                &&& r is Ok <==> forall|i: int| 0 <= i < k ==> element_failure(#[trigger] items[i]) is None
                &&& r matches Ok(txs) ==> txs@.len() == k && txs@.len() <= limit && forall|i: int|
                    0 <= i < k ==> transaction_from(#[trigger] txs@[i], items[i])
                &&& r matches Err(e) ==> exists|i: int|
                    0 <= i < k && (forall|j: int| 0 <= j < i ==> element_failure(#[trigger] items[j]) is None)
                        && element_failure(#[trigger] items[i]) == Some(e@)
            },
        },
{
    let items = match response.array_member("result") {
        Some(items) => items,
        None => return Err(WalletError::missing("result")),
    };
    let k: usize = if (limit as u128) < (items.len() as u128) {
        limit as usize
    } else {
        items.len()
    };
    let mut txs: Vec<Transaction> = Vec::new();
    let mut i: usize = 0;
    while i < k
        invariant
            k == kept_count(items@.len(), limit),
            k <= items@.len(),
            i <= k,
            array_member(*response, "result"@) == Some(items@),
            txs@.len() == i,
            forall|j: int| 0 <= j < i ==> element_failure(#[trigger] items@[j]) is None,
            forall|j: int| 0 <= j < i ==> transaction_from(#[trigger] txs@[j], items@[j]),
        decreases k - i,
    {
        match transaction_from_json(&items[i]) {
            Ok(t) => {
                txs.push(t);
            },
            Err(e) => {
                assert(element_failure(items@[i as int]) == Some(e@));
                return Err(e);
            },
        }
        i = i + 1;
    }
    Ok(txs)
}

/// What `get_total_transactions` reads: a non-negative integer under `n_tx`.
pub open spec fn reported_total(response: JsonValue) -> Option<u64> {
    match integer_member(response, "n_tx"@) {
        Some(n) => if 0 <= n <= u64::MAX {
            Some(n as u64)
        } else {
            None
        },
        None => None,
    }
}

/// Reads the lifetime transaction count that the statistics provider reports.
pub fn get_total_transactions(response: &JsonValue) -> (r: Result<u64, WalletError>)
    ensures
        match reported_total(*response) {
            Some(n) => r == Ok::<u64, WalletError>(n),
            None => r matches Err(e) && e@ == (ErrorKind::Missing, "n_tx"@),
        },
{
    match response.integer_member("n_tx") {
        Some(n) => if 0 <= n && n <= u64::MAX as i128 {
            Ok(n as u64)
        } else {
            Err(WalletError::missing("n_tx"))
        },
        None => Err(WalletError::missing("n_tx")),
    }
}

/// How many transactions to ask for so that the whole history of a wallet
/// with `total` reported transactions is covered: one more than reported, to
/// absorb a provider that counts one short.
pub fn history_limit(total: u64) -> (r: u64)
    ensures
        r == if total < u64::MAX {
            total + 1
        } else {
            total as int
        },
{
    if total < u64::MAX {
        total + 1
    } else {
        total
    }
}

/// The address of the explorer query that lists, oldest first, up to `limit`
/// transactions of `wallet`.
pub open spec fn transactions_url_text(wallet: Seq<char>, limit: nat, api_key: Seq<char>) -> Seq<char> {
    "https://api.etherscan.io/v2/api?chainid=1&module=account&action=txlist&address="@ + wallet
        + "&startblock=0&endblock=99999999&page=1&offset="@ + decimal_text(limit)
        + "&sort=asc&apikey="@ + api_key
}

/// The explorer query for up to `limit` transactions of `wallet`, in ascending block order.
pub fn transactions_url(wallet: &str, limit: u64, api_key: &str) -> (r: String)
    ensures
        r@ == transactions_url_text(wallet@, limit as nat, api_key@),
{
    let mut out = String::from_str(
        "https://api.etherscan.io/v2/api?chainid=1&module=account&action=txlist&address=",
    );
    out.append(wallet);
    out.append("&startblock=0&endblock=99999999&page=1&offset=");
    push_decimal(&mut out, limit as u128);
    out.append("&sort=asc&apikey=");
    out.append(api_key);
    out
}

/// The address of the statistics query for `wallet`.
pub open spec fn total_url_text(wallet: Seq<char>) -> Seq<char> {
    "https://api.blockcypher.com/v1/eth/main/addrs/"@ + wallet
}

/// The statistics query that reports the lifetime transaction count of `wallet`.
pub fn total_url(wallet: &str) -> (r: String)
    ensures
        r@ == total_url_text(wallet@),
{
    let mut out = String::from_str("https://api.blockcypher.com/v1/eth/main/addrs/");
    out.append(wallet);
    out
}

} // verus!
