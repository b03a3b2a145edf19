//! What a ledger operation reports when it refuses a request.

use vstd::prelude::*;

verus! {

/// The ways a request to the wallet can fail.
#[derive(Debug, Clone, PartialEq, Eq)]
pub enum WalletError {
    /// A field or an entry number was not acceptable; the text says why.
    InvalidInput(String),
    /// An expense was larger than the current balance.
    InsufficientFunds,
    /// A piece of text could not be read as a number.
    ParseError,
}

impl WalletError {
    /// The words that tell the user about this error.
    pub open spec fn message_text(self) -> Seq<char> {
        match self {
            WalletError::InvalidInput(reason) => "Input Tidak Valid: "@ + reason@,
            WalletError::InsufficientFunds => "Saldo Tidak Cukup"@,
            WalletError::ParseError => "Error Parsing"@,
        }
    }

    /// The words that tell the user about this error.
    pub fn message(&self) -> (text: String)
        ensures
            text@ == self.message_text(),
    {
        match self {
            WalletError::InvalidInput(reason) => String::from_str("Input Tidak Valid: ").concat(
                reason.as_str(),
            ),
            WalletError::InsufficientFunds => String::from_str("Saldo Tidak Cukup"),
            WalletError::ParseError => String::from_str("Error Parsing"),
        }
    }
}

} // verus!
