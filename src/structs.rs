use vstd::prelude::*;
use crate::fraction::Fraction;

verus! {

/// Wei in one ether.
pub const WEI_PER_ETHER: u128 = 1_000_000_000_000_000_000;

/// One transfer of a wallet's history.
#[derive(Debug)]
pub struct Transaction {
    /// Sender address.
    pub from: String,
    /// Recipient address.
    pub to: String,
    /// Value transferred, in wei.
    pub value_wei: u128,
    /// Gas used, as the provider reports it.
    pub gas: String,
    /// UTC date and time, `YYYY-MM-DD HH:MM:SS`.
    pub date: String,
}

impl Transaction {
    /// The value transferred, in ether.
    pub fn quantity(&self) -> (r: Fraction)
        ensures
            r == (Fraction { numerator: self.value_wei, denominator: WEI_PER_ETHER }),
            r.wf(),
    {
        Fraction { numerator: self.value_wei, denominator: WEI_PER_ETHER }
    }
}

/// One aggregate snapshot of a wallet.
#[derive(Debug)]
pub struct Statistics {
    /// The queried wallet address.
    pub address: String,
    /// Lifetime transaction count that the statistics provider reports.
    pub total_transactions: u64,
    /// Mean gas used over the sampled transactions.
    pub average_gas: Fraction,
    /// Mean value transferred over the sampled transactions, in ether.
    pub average_eth: Fraction,
    /// Date (`YYYY-MM-DD`) of the earliest sampled transaction.
    pub first_transaction: String,
    /// Number of transactions that the averages were taken over.
    pub sampled: u64,
}

impl Statistics {
    /// Both averages have positive denominators.
    pub open spec fn wf(&self) -> bool {
        self.average_gas.wf() && self.average_eth.wf()
    }

    /// The reported lifetime count and the number of sampled transactions agree.
    pub open spec fn counts_agree_spec(&self) -> bool {
        self.total_transactions == self.sampled
    }

    /// Whether the reported lifetime count equals the number of transactions
    /// that were fetched and averaged; a mismatch means the two providers disagree.
    pub fn counts_agree(&self) -> (r: bool)
        ensures
            r == self.counts_agree_spec(),
    {
        self.total_transactions == self.sampled
    }
}

} // verus!
