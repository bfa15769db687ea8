use vstd::prelude::*;

verus! {

/// The kind of a wallet failure, without its detail text.
#[derive(Debug, Clone, Copy, PartialEq, Eq, Structural)]
pub enum ErrorKind {
    Network,
    MalformedResponse,
    Missing,
    NumericParse,
    InvalidAddress,
    EmptySet,
    NoTransactions,
    Io,
    Csv,
}

/// Every way an inspection step can fail.
#[derive(Debug)]
pub enum WalletError {
    /// The transport or the HTTP exchange failed.
    Network { message: String },
    /// A response body was not valid JSON.
    MalformedResponse { message: String },
    /// An expected JSON key was absent or held a value of the wrong type.
    Missing { field: String },
    /// A text that should hold a number did not, or the number does not fit.
    NumericParse { text: String },
    /// An address does not have the `0x` + 40 characters shape.
    InvalidAddress { address: String },
    /// An average was asked of zero transactions.
    EmptySet,
    /// A first transaction was asked of an empty history.
    NoTransactions,
    /// Writing an export file failed.
    Io { message: String },
    /// Encoding an export record failed.
    Csv { message: String },
}

impl View for WalletError {
    type V = (ErrorKind, Seq<char>);

    open spec fn view(&self) -> (ErrorKind, Seq<char>) {
        match self {
            WalletError::Network { message } => (ErrorKind::Network, message@),
            WalletError::MalformedResponse { message } => (ErrorKind::MalformedResponse, message@),
            WalletError::Missing { field } => (ErrorKind::Missing, field@),
            WalletError::NumericParse { text } => (ErrorKind::NumericParse, text@),
            WalletError::InvalidAddress { address } => (ErrorKind::InvalidAddress, address@),
            WalletError::EmptySet => (ErrorKind::EmptySet, Seq::empty()),
            WalletError::NoTransactions => (ErrorKind::NoTransactions, Seq::empty()),
            WalletError::Io { message } => (ErrorKind::Io, message@),
            WalletError::Csv { message } => (ErrorKind::Csv, message@),
        }
    }
}

/// The words that open the message of a failure of `kind`.
pub open spec fn message_prefix(kind: ErrorKind) -> Seq<char> {
    match kind {
        ErrorKind::Network => "Network error: "@,
        ErrorKind::MalformedResponse => "JSON parse error: "@,
        ErrorKind::Missing => "Missing field: "@,
        ErrorKind::NumericParse => "Number parse error: "@,
        ErrorKind::InvalidAddress => "Invalid wallet address: "@,
        ErrorKind::EmptySet => "No transactions to average"@,
        ErrorKind::NoTransactions => "No transactions found for this address"@,
        ErrorKind::Io => "I/O error: "@,
        ErrorKind::Csv => "CSV error: "@,
    }
}

/// What a user can do about a failure of `kind`.
pub open spec fn error_hint(kind: ErrorKind) -> Seq<char> {
    match kind {
        ErrorKind::Network => "Check your internet connection and try again"@,
        ErrorKind::MalformedResponse => "The API response may not be valid JSON"@,
        ErrorKind::Missing => "The API response format may have changed"@,
        ErrorKind::NumericParse => "The data might contain non-numeric values where numbers are expected"@,
        ErrorKind::InvalidAddress => "Addresses should start with 0x and be 42 characters long"@,
        ErrorKind::EmptySet => "Try again later or verify the address has activity"@,
        ErrorKind::NoTransactions => "Try again later or verify the address has activity"@,
        ErrorKind::Io => "Check file paths, permissions, or disk availability"@,
        ErrorKind::Csv => "Ensure the CSV file is properly formatted"@,
    }
}

fn prefix_of(kind: ErrorKind) -> (r: &'static str)
    ensures
        r@ == message_prefix(kind),
{
    match kind {
        ErrorKind::Network => "Network error: ",
        ErrorKind::MalformedResponse => "JSON parse error: ",
        ErrorKind::Missing => "Missing field: ",
        ErrorKind::NumericParse => "Number parse error: ",
        ErrorKind::InvalidAddress => "Invalid wallet address: ",
        ErrorKind::EmptySet => "No transactions to average",
        ErrorKind::NoTransactions => "No transactions found for this address",
        ErrorKind::Io => "I/O error: ",
        ErrorKind::Csv => "CSV error: ",
    }
}

impl WalletError {
    /// The message that reports this failure: its kind, then its detail.
    pub fn message(&self) -> (r: String)
        ensures
            r@ == message_prefix(self@.0) + self@.1,
    {
        let mut out = String::from_str(prefix_of(self.kind()));
        match self {
            WalletError::Network { message } => out.append(message.as_str()),
            WalletError::MalformedResponse { message } => out.append(message.as_str()),
            WalletError::Missing { field } => out.append(field.as_str()),
            WalletError::NumericParse { text } => out.append(text.as_str()),
            WalletError::InvalidAddress { address } => out.append(address.as_str()),
            WalletError::EmptySet => {
                assert(out@ =~= out@ + Seq::<char>::empty());
            },
            WalletError::NoTransactions => {
                assert(out@ =~= out@ + Seq::<char>::empty());
            },
            WalletError::Io { message } => out.append(message.as_str()),
            WalletError::Csv { message } => out.append(message.as_str()),
        }
        out
    }

    /// What a user can do about this failure.
    pub fn hint(&self) -> (r: &'static str)
        ensures
            r@ == error_hint(self@.0),
    {
        match self.kind() {
            ErrorKind::Network => "Check your internet connection and try again",
            ErrorKind::MalformedResponse => "The API response may not be valid JSON",
            ErrorKind::Missing => "The API response format may have changed",
            ErrorKind::NumericParse => "The data might contain non-numeric values where numbers are expected",
            ErrorKind::InvalidAddress => "Addresses should start with 0x and be 42 characters long",
            ErrorKind::EmptySet => "Try again later or verify the address has activity",
            ErrorKind::NoTransactions => "Try again later or verify the address has activity",
            ErrorKind::Io => "Check file paths, permissions, or disk availability",
            ErrorKind::Csv => "Ensure the CSV file is properly formatted",
        }
    }

    /// The kind of this failure.
    pub fn kind(&self) -> (r: ErrorKind)
        ensures
            r == self@.0,
    {
        match self {
            WalletError::Network { .. } => ErrorKind::Network,
            WalletError::MalformedResponse { .. } => ErrorKind::MalformedResponse,
            WalletError::Missing { .. } => ErrorKind::Missing,
            WalletError::NumericParse { .. } => ErrorKind::NumericParse,
            WalletError::InvalidAddress { .. } => ErrorKind::InvalidAddress,
            WalletError::EmptySet => ErrorKind::EmptySet,
            WalletError::NoTransactions => ErrorKind::NoTransactions,
            WalletError::Io { .. } => ErrorKind::Io,
            WalletError::Csv { .. } => ErrorKind::Csv,
        }
    }

    /// A missing-field failure naming `field`.
    pub fn missing(field: &str) -> (r: WalletError)
        ensures
            r@ == (ErrorKind::Missing, field@),
    {
        WalletError::Missing { field: String::from_str(field) }
    }

    /// A numeric-parse failure quoting `text`.
    pub fn numeric(text: &str) -> (r: WalletError)
        ensures
            r@ == (ErrorKind::NumericParse, text@),
    {
        WalletError::NumericParse { text: String::from_str(text) }
    }
}

} // verus!
