use vstd::prelude::*;
use crate::date::{date_of, date_portion};
use crate::error::{ErrorKind, WalletError};
use crate::fraction::Fraction;
use crate::numeric::{decimal_u128, parse_decimal};
use crate::structs::{Statistics, Transaction, WEI_PER_ETHER};
use crate::text::{decimal_string, decimal_text};

verus! {

/// The gas of a transaction as a number, when its text is an unsigned 64-bit integer.
pub open spec fn gas_amount(t: Transaction) -> Option<u64> {
    match decimal_u128(t.gas@) {
        Some(g) => if g <= u64::MAX {
            Some(g as u64)
        } else {
            None
        },
        None => None,
    }
}

/// The sum of the gas of `txs`, counting an unreadable gas as zero.
pub open spec fn gas_total(txs: Seq<Transaction>) -> nat
    decreases txs.len(),
{
    if txs.len() == 0 {
        0
    } else {
        gas_total(txs.drop_last()) + match gas_amount(txs.last()) {
            Some(g) => g as nat,
            None => 0,
        }
    }
}

/// The sum of the values of `txs`, in wei.
pub open spec fn value_total(txs: Seq<Transaction>) -> nat
    decreases txs.len(),
{
    if txs.len() == 0 {
        0
    } else {
        value_total(txs.drop_last()) + txs.last().value_wei as nat
    }
}

/// Every transaction of `txs` has a readable gas.
pub open spec fn all_gas_readable(txs: Seq<Transaction>) -> bool {
    forall|i: int| 0 <= i < txs.len() ==> (#[trigger] gas_amount(txs[i])) is Some
}

/// Transaction `i` holds the first unreadable gas of `txs`, and `e` reports it.
pub open spec fn gas_failure_at(txs: Seq<Transaction>, i: int, e: (ErrorKind, Seq<char>)) -> bool {
    &&& 0 <= i < txs.len()
    &&& forall|j: int| 0 <= j < i ==> (#[trigger] gas_amount(txs[j])) is Some
    &&& gas_amount(txs[i]) is None
    &&& e == (ErrorKind::NumericParse, txs[i].gas@)
}

/// Adding the value of transaction `i` first takes the running sum of `txs`
/// past 128 bits, and `e` reports that value.
pub open spec fn value_overflow_at(txs: Seq<Transaction>, i: int, e: (ErrorKind, Seq<char>)) -> bool {
    &&& 0 <= i < txs.len()
    &&& value_total(txs.take(i)) <= u128::MAX
    &&& value_total(txs.take(i + 1)) > u128::MAX
    &&& e == (ErrorKind::NumericParse, decimal_text(txs[i].value_wei as nat))
}

/// The failure that an average over zero transactions reports.
pub open spec fn empty_set_failure() -> (ErrorKind, Seq<char>) {
    (ErrorKind::EmptySet, Seq::empty())
}

proof fn lemma_value_total_monotone(txs: Seq<Transaction>, i: int, j: int)
    requires
        0 <= i <= j <= txs.len(),
    ensures
        value_total(txs.take(i)) <= value_total(txs.take(j)),
    decreases j - i,
{
    if i < j {
        lemma_value_total_monotone(txs, i, j - 1);
        assert(txs.take(j).drop_last() =~= txs.take(j - 1));
    }
}

/// The mean gas used by `txs`. Every gas text must be an unsigned 64-bit
/// integer: the first that is not fails the average. Fails with an empty-set
/// error when there are no transactions.
pub fn get_average_gas(txs: &Vec<Transaction>) -> (r: Result<Fraction, WalletError>)
    ensures
        txs@.len() == 0 ==> (r matches Err(e) && e@ == empty_set_failure()),
        r is Ok <==> txs@.len() > 0 && all_gas_readable(txs@),
        r matches Ok(f) ==> f == (Fraction {
            numerator: gas_total(txs@) as u128,
            denominator: txs@.len() as u128,
        }) && f.wf(),
        r matches Err(e) ==> (txs@.len() > 0 ==> exists|i: int| gas_failure_at(txs@, i, e@)),
{
    let n = txs.len();
    if n == 0 {
        return Err(WalletError::EmptySet);
    }
    let mut total: u128 = 0;
    let mut i: usize = 0;
    while i < n
        invariant
            n == txs@.len(),
            i <= n,
            total == gas_total(txs@.take(i as int)),
            total <= i * (u64::MAX as nat),
            forall|j: int| 0 <= j < i ==> (#[trigger] gas_amount(txs@[j])) is Some,
        decreases n - i,
    {
        assert(txs@.take(i + 1).drop_last() =~= txs@.take(i as int));
        let g = match parse_decimal(txs[i].gas.as_str()) {
            Some(g) => g,
            None => {
                let e = WalletError::NumericParse { text: txs[i].gas.clone() };
                assert(gas_failure_at(txs@, i as int, e@));
                return Err(e);
            },
        };
        if g > u64::MAX as u128 {
            let e = WalletError::NumericParse { text: txs[i].gas.clone() };
            assert(gas_failure_at(txs@, i as int, e@));
            return Err(e);
        }
        proof {
            assert((i + 1) * (u64::MAX as nat) <= (u64::MAX as nat) * (u64::MAX as nat)) by (nonlinear_arith)
                requires
                    i + 1 <= u64::MAX,
            ;
            assert(total + g <= (i + 1) * (u64::MAX as nat)) by (nonlinear_arith)
                requires
                    total <= i * (u64::MAX as nat),
                    g <= u64::MAX,
            ;
        }
        total = total + g;
        i = i + 1;
    }
    assert(txs@.take(n as int) =~= txs@);
    Ok(Fraction { numerator: total, denominator: n as u128 })
}

/// The mean value transferred by `txs`, in ether. Fails with an empty-set
/// error when there are no transactions, and with a numeric error naming the
/// value at which the sum of values leaves 128 bits.
pub fn get_average_eth(txs: &Vec<Transaction>) -> (r: Result<Fraction, WalletError>)
    ensures
        txs@.len() == 0 ==> (r matches Err(e) && e@ == empty_set_failure()),
        r is Ok <==> txs@.len() > 0 && value_total(txs@) <= u128::MAX,
        r matches Ok(f) ==> f == (Fraction {
            numerator: value_total(txs@) as u128,
            denominator: (txs@.len() * WEI_PER_ETHER) as u128,
        }) && f.wf(),
        r matches Err(e) ==> (txs@.len() > 0 ==> exists|i: int| value_overflow_at(txs@, i, e@)),
{
    let n = txs.len();
    if n == 0 {
        return Err(WalletError::EmptySet);
    }
    let mut total: u128 = 0;
    let mut i: usize = 0;
    while i < n
        invariant
            n == txs@.len(),
            i <= n,
            total == value_total(txs@.take(i as int)),
        decreases n - i,
    {
        assert(txs@.take(i + 1).drop_last() =~= txs@.take(i as int));
        match total.checked_add(txs[i].value_wei) {
            Some(t) => {
                total = t;
            },
            None => {
                proof {
                    lemma_value_total_monotone(txs@, i + 1, n as int);
                    assert(txs@.take(n as int) =~= txs@);
                }
                let e = WalletError::NumericParse { text: decimal_string(txs[i].value_wei) };
                assert(value_overflow_at(txs@, i as int, e@));
                return Err(e);
            },
        }
        i = i + 1;
    }
    assert(txs@.take(n as int) =~= txs@);
    proof {
        assert(n * WEI_PER_ETHER <= (u64::MAX as nat) * WEI_PER_ETHER) by (nonlinear_arith)
            requires
                n <= u64::MAX,
        ;
        assert(n * WEI_PER_ETHER > 0) by (nonlinear_arith)
            requires
                n > 0,
        ;
    }
    Ok(Fraction { numerator: total, denominator: n as u128 * WEI_PER_ETHER })
}

/// The date (`YYYY-MM-DD`) of the first transaction of `txs`, which the
/// explorer lists oldest first. Fails when there are no transactions.
pub fn get_first_transaction_date(txs: &Vec<Transaction>) -> (r: Result<String, WalletError>)
    ensures
        txs@.len() == 0 ==> (r matches Err(e) && e@ == (ErrorKind::NoTransactions, Seq::<char>::empty())),
        txs@.len() > 0 ==> (r matches Ok(d) && d@ == date_portion(txs@[0].date@)),
{
    if txs.len() == 0 {
        Err(WalletError::NoTransactions)
    } else {
        Ok(date_of(txs[0].date.as_str()))
    }
}

/// `s` is the snapshot of `wallet` built from a lifetime count `total` and
/// the full transaction history `txs`.
pub open spec fn statistics_from(s: Statistics, wallet: Seq<char>, total: u64, txs: Seq<Transaction>) -> bool {
    &&& s.address@ == wallet
    &&& s.total_transactions == total
    &&& s.sampled == txs.len()
    &&& s.average_gas == Fraction { numerator: gas_total(txs) as u128, denominator: txs.len() as u128 }
    &&& s.average_eth == Fraction {
        numerator: value_total(txs) as u128,
        denominator: (txs.len() * WEI_PER_ETHER) as u128,
    }
    &&& s.first_transaction@ == date_portion(txs[0].date@)
}

/// Assembles the statistics of `wallet` from the lifetime count that the
/// statistics provider reported and the full history fetched with that
/// count: the averages and the first date all come from the one list.
/// Fails, with no partial result, as the first of the three aggregates fails.
pub fn generate_statistics(wallet: &str, total_transactions: u64, transactions: &Vec<Transaction>) -> (r: Result<Statistics, WalletError>)
    ensures
        r is Ok <==> transactions@.len() > 0 && all_gas_readable(transactions@)
            && value_total(transactions@) <= u128::MAX,
        r matches Ok(s) ==> statistics_from(s, wallet@, total_transactions, transactions@) && s.wf(),
        r matches Err(e) ==> {
            ||| transactions@.len() == 0 && e@ == empty_set_failure()
            ||| exists|i: int| gas_failure_at(transactions@, i, e@)
            ||| all_gas_readable(transactions@) && exists|i: int| value_overflow_at(transactions@, i, e@)
        },
{
    let average_gas = get_average_gas(transactions)?;
    let average_eth = get_average_eth(transactions)?;
    let first_transaction = get_first_transaction_date(transactions)?;
    Ok(Statistics {
        address: String::from_str(wallet),
        total_transactions,
        average_gas,
        average_eth,
        first_transaction,
        sampled: transactions.len() as u64,
    })
}

} // verus!

verus! {

/// Statistics built from a full history of N transactions carry N as their
/// lifetime count when the statistics provider also reported N, and then
/// their two counts agree; when the provider reported another number the
/// disagreement shows, as the counts do not agree.
pub proof fn lemma_statistics_count_round_trip(
    s: Statistics,
    wallet: Seq<char>,
    total: u64,
    txs: Seq<Transaction>,
)
    requires
        statistics_from(s, wallet, total, txs),
    ensures
        txs.len() == total ==> s.total_transactions == txs.len() && s.counts_agree_spec(),
        txs.len() != total ==> !s.counts_agree_spec(),
{
}

} // verus!
