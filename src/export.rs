use vstd::prelude::*;
use crate::error::WalletError;
use crate::fraction::fraction_text;
use crate::structs::{Statistics, Transaction, WEI_PER_ETHER};
use crate::text::{decimal_string, decimal_text};

verus! {

/// Fractional digits written for ether amounts and averages: enough to show
/// any wei amount exactly.
pub const DECIMAL_PLACES: u32 = 18;

/// The CSV line, terminator included, that csv's default writer produces for
/// one record with these fields.
pub uninterp spec fn csv_record_text(fields: Seq<Seq<char>>) -> Seq<char>;

/// The views of a record's fields.
pub open spec fn field_views(fields: Seq<String>) -> Seq<Seq<char>> {
    fields.map_values(|f: String| f@)
}

/// Relies on csv's `Writer::from_writer`, `write_record` and `into_inner`
/// with the default settings (comma delimiter, `\n` terminator, quotes only
/// where needed): one record written into memory, as UTF-8 text. A fresh
/// writer's first record fixes the field count, writing into a `Vec` cannot
/// fail, and UTF-8 fields with ASCII separators and quotes stay UTF-8, so
/// the text is always produced.
#[verifier::external_body]
fn encode_record(fields: &Vec<String>) -> (r: Option<String>)
    ensures
        r is Some,
        r matches Some(t) ==> t@ == csv_record_text(field_views(fields@)),
{
    let mut writer = csv::Writer::from_writer(Vec::new());
    writer.write_record(fields).ok()?;
    String::from_utf8(writer.into_inner().ok()?).ok()
}

/// The CSV line of one record.
fn record_line(fields: &Vec<String>) -> (r: Result<String, WalletError>)
    ensures
        r matches Ok(t) && t@ == csv_record_text(field_views(fields@)),
{
    match encode_record(fields) {
        Some(t) => Ok(t),
        None => Err(WalletError::Csv { message: String::from_str("a record could not be encoded") }),
    }
}

/// The text of an ether amount given in wei.
pub open spec fn ether_text(wei: u128) -> Seq<char> {
    fraction_text(wei as nat, WEI_PER_ETHER as nat, DECIMAL_PLACES as nat)
}

/// The fields of a transaction's CSV row: sender, recipient, gas, ether, date.
pub open spec fn transaction_fields(t: Transaction) -> Seq<Seq<char>> {
    seq![t.from@, t.to@, t.gas@, ether_text(t.value_wei), t.date@]
}

/// The fields of the statistics CSV row.
pub open spec fn statistics_fields(s: Statistics) -> Seq<Seq<char>> {
    seq![
        s.address@,
        decimal_text(s.total_transactions as nat),
        fraction_text(s.average_gas.numerator as nat, s.average_gas.denominator as nat, DECIMAL_PLACES as nat),
        fraction_text(s.average_eth.numerator as nat, s.average_eth.denominator as nat, DECIMAL_PLACES as nat),
        s.first_transaction@,
    ]
}

/// The header fields of `transactions.csv`.
pub open spec fn transaction_header_fields() -> Seq<Seq<char>> {
    seq!["From"@, "To"@, "Gas"@, "Quantity"@, "Date"@]
}

/// The header fields of `statistics.csv`.
pub open spec fn statistics_header_fields() -> Seq<Seq<char>> {
    seq!["Address"@, "Total Transactions"@, "Average Gas"@, "Average ETH"@, "First Transaction"@]
}

fn strings(parts: &[&str]) -> (r: Vec<String>)
    ensures
        field_views(r@) == parts@.map_values(|p: &str| p@),
{
    let mut out: Vec<String> = Vec::new();
    let mut i: usize = 0;
    while i < parts.len()
        invariant
            i <= parts@.len(),
            field_views(out@) =~= parts@.take(i as int).map_values(|p: &str| p@),
        decreases parts@.len() - i,
    {
        let ghost before = out@;
        let s = String::from_str(parts[i]);
        out.push(s);
        assert(field_views(out@) =~= field_views(before).push(s@));
        assert(parts@.take(i + 1) =~= parts@.take(i as int).push(parts@[i as int]));
        assert(parts@.take(i + 1).map_values(|p: &str| p@) =~= parts@.take(i as int).map_values(
            |p: &str| p@,
        ).push(parts@[i as int]@));
        i = i + 1;
    }
    assert(parts@.take(parts@.len() as int) =~= parts@);
    out
}

/// The CSV row of one transaction.
pub fn transaction_record(tx: &Transaction) -> (r: Vec<String>)
    ensures
        field_views(r@) == transaction_fields(*tx),
{
    let mut r: Vec<String> = Vec::new();
    r.push(tx.from.clone());
    r.push(tx.to.clone());
    r.push(tx.gas.clone());
    r.push(tx.quantity().to_decimal_text(DECIMAL_PLACES));
    r.push(tx.date.clone());
    assert(field_views(r@) =~= transaction_fields(*tx));
    r
}

/// The CSV row of a statistics snapshot.
pub fn statistics_record(stats: &Statistics) -> (r: Vec<String>)
    requires
        stats.wf(),
    ensures
        field_views(r@) == statistics_fields(*stats),
{
    let mut r: Vec<String> = Vec::new();
    r.push(stats.address.clone());
    r.push(decimal_string(stats.total_transactions as u128));
    r.push(stats.average_gas.to_decimal_text(DECIMAL_PLACES));
    r.push(stats.average_eth.to_decimal_text(DECIMAL_PLACES));
    r.push(stats.first_transaction.clone());
    assert(field_views(r@) =~= statistics_fields(*stats));
    r
}

/// The CSV lines of the rows of `txs`, in order.
pub open spec fn transaction_lines(txs: Seq<Transaction>) -> Seq<char>
    decreases txs.len(),
{
    if txs.len() == 0 {
        Seq::empty()
    } else {
        transaction_lines(txs.drop_last()) + csv_record_text(transaction_fields(txs.last()))
    }
}

/// The contents of `transactions.csv`: the header, then one row per
/// transaction in the order given.
pub fn transactions_csv(txs: &Vec<Transaction>) -> (r: Result<String, WalletError>)
    ensures
        r matches Ok(t) && t@ == csv_record_text(transaction_header_fields()) + transaction_lines(
            txs@,
        ),
{
    let header = strings(&["From", "To", "Gas", "Quantity", "Date"]);
    assert(field_views(header@) =~= transaction_header_fields());
    let mut out = record_line(&header)?;
    let ghost head = out@;
    let mut i: usize = 0;
    while i < txs.len()
        invariant
            i <= txs@.len(),
            out@ == head + transaction_lines(txs@.take(i as int)),
        decreases txs@.len() - i,
    {
        let line = record_line(&transaction_record(&txs[i]))?;
        out.append(line.as_str());
        assert(txs@.take(i + 1).drop_last() =~= txs@.take(i as int));
        i = i + 1;
    }
    assert(txs@.take(txs@.len() as int) =~= txs@);
    Ok(out)
}

/// The contents of `statistics.csv`: the header, then the one row of `stats`.
pub fn statistics_csv(stats: &Statistics) -> (r: Result<String, WalletError>)
    requires
        stats.wf(),
    ensures
        r matches Ok(t) && t@ == csv_record_text(statistics_header_fields()) + csv_record_text(
            statistics_fields(*stats),
        ),
{
    let header = strings(&["Address", "Total Transactions", "Average Gas", "Average ETH", "First Transaction"]);
    assert(field_views(header@) =~= statistics_header_fields());
    let mut out = record_line(&header)?;
    let row = record_line(&statistics_record(stats))?;
    out.append(row.as_str());
    Ok(out)
}

} // verus!

verus! {

/// The contents of the two export files, `statistics.csv` then
/// `transactions.csv`, for a snapshot and the history it was built from.
pub fn export_to_csv(stats: &Statistics, txs: &Vec<Transaction>) -> (r: Result<(String, String), WalletError>)
    requires
        stats.wf(),
    ensures
        r matches Ok(files) && files.0@ == csv_record_text(statistics_header_fields())
            + csv_record_text(statistics_fields(*stats)) && files.1@ == csv_record_text(
            transaction_header_fields(),
        ) + transaction_lines(txs@),
{
    let statistics = statistics_csv(stats)?;
    let transactions = transactions_csv(txs)?;
    Ok((statistics, transactions))
}

} // verus!
