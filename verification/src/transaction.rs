//! The entries a ledger records.

use vstd::prelude::*;

verus! {

/// Whether an entry adds money to the wallet or takes money out of it.
#[derive(Debug, Clone, Copy, PartialEq, Eq, Structural)]
pub enum TypeTransaction {
    Income,
    Expense,
}

impl TypeTransaction {
    /// The name of the kind as the user reads it.
    pub open spec fn label_text(self) -> Seq<char> {
        match self {
            TypeTransaction::Income => "Pemasukan"@,
            TypeTransaction::Expense => "Pengeluaran"@,
        }
    }

    /// The name of the kind as the user reads it.
    pub fn label(&self) -> (text: String)
        ensures
            text@ == self.label_text(),
    {
        match self {
            TypeTransaction::Income => String::from_str("Pemasukan"),
            TypeTransaction::Expense => String::from_str("Pengeluaran"),
        }
    }

    /// The sign written before an amount of this kind.
    pub open spec fn sign_text(self) -> Seq<char> {
        match self {
            TypeTransaction::Income => "+"@,
            TypeTransaction::Expense => "-"@,
        }
    }

    /// The sign written before an amount of this kind.
    pub fn sign(&self) -> (text: &'static str)
        ensures
            text@ == self.sign_text(),
    {
        match self {
            TypeTransaction::Income => "+",
            TypeTransaction::Expense => "-",
        }
    }
}

/// The mathematical value of an entry: its text as a sequence of characters,
/// its amount as an unbounded integer, and its kind.
pub struct ItemView {
    pub description: Seq<char>,
    pub amount: int,
    pub transaction_type: TypeTransaction,
}

/// One ledger entry.
#[derive(Debug)]
pub struct WalletItems {
    pub description: String,
    pub amount: i64,
    pub transaction_type: TypeTransaction,
}

impl View for WalletItems {
    type V = ItemView;

    open spec fn view(&self) -> ItemView {
        ItemView {
            description: self.description@,
            amount: self.amount as int,
            transaction_type: self.transaction_type,
        }
    }
}

impl Clone for WalletItems {
    /// A copy with the same text, amount and kind.
    fn clone(&self) -> (copy: Self)
        ensures
            copy == *self,
    {
        WalletItems {
            description: self.description.clone(),
            amount: self.amount,
            transaction_type: self.transaction_type,
        }
    }
}

impl WalletItems {
    /// Builds an entry from its three fields.
    pub fn new(description: String, amount: i64, transaction_type: TypeTransaction) -> (item: Self)
        ensures
            item@.description == description@,
            item@.amount == amount,
            item@.transaction_type == transaction_type,
    {
        Self { description, amount, transaction_type }
    }
}

} // verus!
