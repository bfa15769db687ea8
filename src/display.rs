use vstd::prelude::*;
use crate::export::{ether_text, DECIMAL_PLACES};
use crate::fraction::{fraction_text, hundredths_text};
use crate::structs::{Statistics, Transaction};
use crate::text::{decimal_string, decimal_text};

verus! {

/// The multi-line description of a transaction.
pub open spec fn detailed_text(t: Transaction) -> Seq<char> {
    "Transaction on "@ + t.date@ + "\nFrom: "@ + t.from@ + "\nTo: "@ + t.to@ + "\nValue: "@
        + ether_text(t.value_wei) + " ETH\nGas: "@ + t.gas@ + " wei\n"@
}

/// The first eight characters of `s`, or all of it when it is shorter.
pub open spec fn short_address(s: Seq<char>) -> Seq<char> {
    if s.len() <= 8 {
        s
    } else {
        s.take(8)
    }
}

/// The one-line summary of a transaction.
pub open spec fn compact_text(t: Transaction) -> Seq<char> {
    short_address(t.from@) + " -> "@ + short_address(t.to@) + " | "@ + ether_text(t.value_wei)
        + " ETH"@
}

/// The multi-line description of a statistics snapshot.
pub open spec fn statistics_text(s: Statistics) -> Seq<char> {
    "Wallet address: "@ + s.address@ + "\nTotal number of transactions: "@ + decimal_text(
        s.total_transactions as nat,
    ) + "\nAverage gas per transaction: "@ + hundredths_text(
        s.average_gas.numerator as nat,
        s.average_gas.denominator as nat,
    ) + "\nAverage ETH per transaction: "@ + fraction_text(
        s.average_eth.numerator as nat,
        s.average_eth.denominator as nat,
        DECIMAL_PLACES as nat,
    ) + "\nDate of first transaction: "@ + s.first_transaction@ + "\n"@
}

fn short_address_of(s: &String) -> (r: &str)
    ensures
        r@ == short_address(s@),
{
    let n = s.as_str().unicode_len();
    if n <= 8 {
        assert(s@.subrange(0, n as int) =~= s@);
        s.as_str().substring_char(0, n)
    } else {
        s.as_str().substring_char(0, 8)
    }
}

impl Transaction {
    /// The multi-line description: date, addresses, value in ether and gas.
    pub fn detailed_text(&self) -> (r: String)
        ensures
            r@ == detailed_text(*self),
    {
        let mut out = String::from_str("Transaction on ");
        out.append(self.date.as_str());
        out.append("\nFrom: ");
        out.append(self.from.as_str());
        out.append("\nTo: ");
        out.append(self.to.as_str());
        out.append("\nValue: ");
        out.append(self.quantity().to_decimal_text(DECIMAL_PLACES).as_str());
        out.append(" ETH\nGas: ");
        out.append(self.gas.as_str());
        out.append(" wei\n");
        out
    }

    /// The one-line summary: shortened addresses and the value in ether.
    pub fn compact_text(&self) -> (r: String)
        ensures
            r@ == compact_text(*self),
    {
        let mut out = String::from_str(short_address_of(&self.from));
        out.append(" -> ");
        out.append(short_address_of(&self.to));
        out.append(" | ");
        out.append(self.quantity().to_decimal_text(DECIMAL_PLACES).as_str());
        out.append(" ETH");
        out
    }
}

impl Statistics {
    /// The multi-line description of the snapshot, the average gas with two
    /// decimals, rounded to nearest.
    pub fn to_text(&self) -> (r: String)
        requires
            self.wf(),
        ensures
            r@ == statistics_text(*self),
    {
        let mut out = String::from_str("Wallet address: ");
        out.append(self.address.as_str());
        out.append("\nTotal number of transactions: ");
        out.append(decimal_string(self.total_transactions as u128).as_str());
        out.append("\nAverage gas per transaction: ");
        out.append(self.average_gas.to_hundredths_text().as_str());
        out.append("\nAverage ETH per transaction: ");
        out.append(self.average_eth.to_decimal_text(DECIMAL_PLACES).as_str());
        out.append("\nDate of first transaction: ");
        out.append(self.first_transaction.as_str());
        out.append("\n");
        out
    }
}

} // verus!
