use vstd::prelude::*;
use crate::numeric::{decimal_u128, parse_decimal};

verus! {

/// What the user can ask of a wallet.
#[derive(Debug, Clone, Copy, PartialEq, Eq, Structural)]
pub enum Action {
    /// Show the balance in ether.
    Balance,
    /// Show the balance in dollars.
    Fiat,
    /// List recent transactions.
    Transactions,
    /// Show the aggregate statistics.
    Stats,
    /// Write the statistics and the history to CSV files.
    Export,
    /// Show the average gas of recent transactions.
    Gas,
    /// Leave.
    Exit,
}

/// The action that a menu line names: one digit from `1` to `7` and a newline.
pub open spec fn choice_action(line: Seq<char>) -> Option<Action> {
    if line.len() != 2 || line[1] != '\n' {
        None
    } else if line[0] == '1' {
        Some(Action::Balance)
    } else if line[0] == '2' {
        Some(Action::Fiat)
    } else if line[0] == '3' {
        Some(Action::Transactions)
    } else if line[0] == '4' {
        Some(Action::Gas)
    } else if line[0] == '5' {
        Some(Action::Stats)
    } else if line[0] == '6' {
        Some(Action::Export)
    } else if line[0] == '7' {
        Some(Action::Exit)
    } else {
        None
    }
}

/// Reads the menu choice on one input line, newline included.
pub fn action_from_line(line: &str) -> (r: Option<Action>)
    ensures
        r == choice_action(line@),
{
    if line.unicode_len() != 2 || line.get_char(1) != '\n' {
        return None;
    }
    let c = line.get_char(0);
    if c == '1' {
        Some(Action::Balance)
    } else if c == '2' {
        Some(Action::Fiat)
    } else if c == '3' {
        Some(Action::Transactions)
    } else if c == '4' {
        Some(Action::Gas)
    } else if c == '5' {
        Some(Action::Stats)
    } else if c == '6' {
        Some(Action::Export)
    } else if c == '7' {
        Some(Action::Exit)
    } else {
        None
    }
}

/// The most transactions that can be listed at once.
pub const MAX_TRANSACTION_OFFSET: u64 = 20;

/// The digits of a text that may open with a `+` sign.
pub open spec fn unsigned_digits(text: Seq<char>) -> Seq<char> {
    if text.len() > 0 && text[0] == '+' {
        text.skip(1)
    } else {
        text
    }
}

/// The count of transactions to list that a text names: an integer from 1 to
/// `MAX_TRANSACTION_OFFSET`, optionally with a leading `+`.
pub open spec fn offset_choice(text: Seq<char>) -> Option<u64> {
    match decimal_u128(unsigned_digits(text)) {
        Some(n) => if 1 <= n <= MAX_TRANSACTION_OFFSET {
            Some(n as u64)
        } else {
            None
        },
        None => None,
    }
}

/// Reads how many transactions to list, from a line stripped of its
/// surrounding whitespace.
pub fn transaction_offset_from(text: &str) -> (r: Option<u64>)
    ensures
        r == offset_choice(text@),
{
    let n = text.unicode_len();
    let digits = if n > 0 && text.get_char(0) == '+' {
        text.substring_char(1, n)
    } else {
        text
    };
    assert(digits@ =~= unsigned_digits(text@));
    match parse_decimal(digits) {
        Some(n) => if 1 <= n && n <= MAX_TRANSACTION_OFFSET as u128 {
            Some(n as u64)
        } else {
            None
        },
        None => None,
    }
}

} // verus!
