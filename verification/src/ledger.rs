//! The ledger: an ordered list of entries and the operations that keep it.

use vstd::prelude::*;

use crate::currency::{currency_string, currency_text};
use crate::error::WalletError;
use crate::laws::{lemma_balance_after_recording, lemma_balance_is_income_minus_expense};
use crate::text::{
    contains_chars, contains_ignoring_case, decimal_string, decimal_text, lowercase_chars,
    lowercase_of, occurs_at,
};
use crate::transaction::{ItemView, TypeTransaction, WalletItems};

verus! {

/// What one entry contributes to the balance: its amount for an income, the
/// negated amount for an expense.
pub open spec fn signed_amount(item: ItemView) -> int {
    match item.transaction_type {
        TypeTransaction::Income => item.amount,
        TypeTransaction::Expense => -item.amount,
    }
}

/// The balance of a list of entries: the sum of their signed amounts.
pub open spec fn balance_of(entries: Seq<ItemView>) -> int
    decreases entries.len(),
{
    if entries.len() == 0 {
        0
    } else {
        balance_of(entries.drop_last()) + signed_amount(entries.last())
    }
}

/// Whether a value can be held in an `i64`.
pub open spec fn fits_i64(value: int) -> bool {
    i64::MIN <= value <= i64::MAX
}

/// Whether the two totals and the balance of a list of entries can each be
/// held in an `i64`.
pub open spec fn summary_fits(entries: Seq<ItemView>) -> bool {
    &&& fits_i64(total_of(entries, TypeTransaction::Income))
    &&& fits_i64(total_of(entries, TypeTransaction::Expense))
    &&& fits_i64(balance_of(entries))
}

/// Whether recording `item` on top of `entries` is refused: it is an expense
/// and the balance does not cover it.
pub open spec fn overdraws(entries: Seq<ItemView>, item: ItemView) -> bool {
    item.transaction_type == TypeTransaction::Expense && balance_of(entries) < item.amount
}

/// The sum of the amounts of the entries of one kind.
pub open spec fn total_of(entries: Seq<ItemView>, kind: TypeTransaction) -> int
    decreases entries.len(),
{
    if entries.len() == 0 {
        0
    } else {
        total_of(entries.drop_last(), kind) + if entries.last().transaction_type == kind {
            entries.last().amount
        } else {
            0
        }
    }
}

/// The entries of one kind, in ledger order.
pub open spec fn entries_of_kind(entries: Seq<ItemView>, kind: TypeTransaction) -> Seq<ItemView> {
    entries.filter(|item: ItemView| item.transaction_type == kind)
}

/// The entries whose text contains `query` when letter case is ignored, in
/// ledger order.
pub open spec fn search_results(entries: Seq<ItemView>, query: Seq<char>) -> Seq<ItemView> {
    entries.filter(|item: ItemView| contains_ignoring_case(item.description, query))
}

/// Whether `index`, counted from one, names an entry of a ledger of `len`
/// entries.
pub open spec fn names_entry(index: int, len: nat) -> bool {
    1 <= index <= len
}

/// The reason given when no entry has the transaction number `index`.
pub open spec fn invalid_index_reason(index: nat) -> Seq<char> {
    "Indeks tidak valid: "@ + decimal_text(index)
}

/// The views of a list of entries, position by position.
pub open spec fn views(items: Seq<WalletItems>) -> Seq<ItemView> {
    Seq::new(items.len(), |i: int| items[i]@)
}

/// An ordered list of entries. The position of an entry, counted from one,
/// is its transaction number.
pub struct WalletList {
    items: Vec<WalletItems>,
}

impl View for WalletList {
    type V = Seq<ItemView>;

    closed spec fn view(&self) -> Seq<ItemView> {
        views(self.items@)
    }
}

impl WalletList {
    /// An empty ledger.
    pub fn new() -> (list: Self)
        ensures
            list@ == Seq::<ItemView>::empty(),
    {
        Self { items: Vec::new() }
    }

    /// The number of entries.
    pub fn len(&self) -> (count: usize)
        ensures
            count == self@.len(),
    {
        self.items.len()
    }

    /// The entries in ledger order, for reading.
    pub fn entries(&self) -> (items: &Vec<WalletItems>)
        ensures
            views(items@) == self@,
    {
        &self.items
    }

    /// The entry with transaction number `index`, for changing in place, or
    /// `None` when no entry has that number.
    pub fn get_checked(&mut self, index: usize) -> (slot: Option<&mut WalletItems>)
        ensures
            slot is Some <==> names_entry(index as int, old(self)@.len()),
            slot is None ==> final(self)@ == old(self)@,
            slot matches Some(item) ==> (*item)@ == old(self)@[index - 1]
                && final(self)@ == old(self)@.update(index - 1, (*final(item))@),
    {
        if index == 0 || index > self.items.len() {
            None
        } else {
            Some(&mut self.items[index - 1])
        }
    }

    /// The balance as a wide integer, which no ledger can overflow.
    fn signed_total(&self) -> (total: i128)
        ensures
            total == balance_of(self@),
    {
        let mut total: i128 = 0;
        let mut i: usize = 0;
        while i < self.items.len()
            invariant
                i <= self.items.len(),
                total == balance_of(self@.take(i as int)),
                -(i as int) * 0x8000_0000_0000_0000 <= total <= i * 0x8000_0000_0000_0000,
            decreases self.items.len() - i,
        {
            proof {
                lemma_balance_step(self@, i as int);
            }
            let item = &self.items[i];
            match item.transaction_type {
                TypeTransaction::Income => {
                    total = total + item.amount as i128;
                },
                TypeTransaction::Expense => {
                    total = total - item.amount as i128;
                },
            }
            i = i + 1;
        }
        proof {
            assert(self@.take(i as int) =~= self@);
        }
        total
    }

    /// The current balance: incomes minus expenses.
    pub fn calculate_balance(&self) -> (balance: i64)
        requires
            fits_i64(balance_of(self@)),
        ensures
            balance == balance_of(self@),
    {
        self.signed_total() as i64
    }

    /// The current balance, or `None` when it is outside the range of `i64`.
    pub fn checked_balance(&self) -> (balance: Option<i64>)
        ensures
            fits_i64(balance_of(self@)) ==> balance == Some(balance_of(self@) as i64),
            !fits_i64(balance_of(self@)) ==> balance is None,
    {
        let total = self.signed_total();
        if in_i64(total) {
            Some(total as i64)
        } else {
            None
        }
    }

    /// Records an entry at the end of the ledger, where it gets the next
    /// transaction number. An expense larger than the current balance is
    /// refused and the ledger stays as it was. An entry that is recorded
    /// moves the balance by its signed amount.
    pub fn add(&mut self, items: WalletItems) -> (result: Result<(), WalletError>)
        ensures
            overdraws(old(self)@, items@) ==> result == Err::<(), WalletError>(
                WalletError::InsufficientFunds,
            ) && final(self)@ == old(self)@,
            !overdraws(old(self)@, items@) ==> result == Ok::<(), WalletError>(())
                && final(self)@ == old(self)@.push(items@) && balance_of(final(self)@)
                == balance_of(old(self)@) + signed_amount(items@),
    {
        if let TypeTransaction::Expense = items.transaction_type {
            let current_balance = self.signed_total();
            if current_balance < items.amount as i128 {
                return Err(WalletError::InsufficientFunds);
            }
        }
        proof {
            assert(views(self.items@.push(items)) =~= views(self.items@).push(items@));
            lemma_balance_after_recording(self@, items@);
        }
        self.items.push(items);
        Ok(())
    }

    /// Replaces the entry with transaction number `index` by `items`. The
    /// balance is not consulted: the replacement is stored as given.
    pub fn update(&mut self, index: usize, items: WalletItems) -> (result: Result<(), WalletError>)
        ensures
            names_entry(index as int, old(self)@.len()) ==> result == Ok::<(), WalletError>(())
                && final(self)@ == old(self)@.update(index - 1, items@),
            !names_entry(index as int, old(self)@.len()) ==> final(self)@ == old(self)@ && (
            result matches Err(WalletError::InvalidInput(reason)) && reason@
                == invalid_index_reason(index as nat)),
    {
        if let Some(item) = self.get_checked(index) {
            item.description = items.description;
            item.amount = items.amount;
            item.transaction_type = items.transaction_type;
            Ok(())
        } else {
            let number = decimal_string(index as u64);
            let reason = String::from_str("Indeks tidak valid: ").concat(number.as_str());
            Err(WalletError::InvalidInput(reason))
        }
    }

    /// Removes the entry with transaction number `index`; the entries after
    /// it move up by one. Says whether an entry was removed.
    pub fn remove_transaction(&mut self, index: usize) -> (removed: bool)
        ensures
            removed == names_entry(index as int, old(self)@.len()),
            removed ==> final(self)@ == old(self)@.remove(index - 1),
            !removed ==> final(self)@ == old(self)@,
    {
        if index == 0 || index > self.items.len() {
            false
        } else {
            self.items.remove(index - 1);
            assert(views(self.items@) =~= views(old(self).items@).remove(index - 1));
            true
        }
    }

    /// Copies of the entries of one kind, in ledger order.
    pub fn filter_by_type(&self, transaction_type: TypeTransaction) -> (found: Vec<WalletItems>)
        ensures
            views(found@) == entries_of_kind(self@, transaction_type),
    {
        let mut found: Vec<WalletItems> = Vec::new();
        let mut i: usize = 0;
        while i < self.items.len()
            invariant
                i <= self.items.len(),
                views(found@) == entries_of_kind(self@.take(i as int), transaction_type),
            decreases self.items.len() - i,
        {
            let ghost before = views(found@);
            let item = &self.items[i];
            proof {
                assert(self@.take(i + 1) =~= self@.take(i as int).push(item@));
                self@.take(i as int).lemma_filter_push(
                    item@,
                    |item: ItemView| item.transaction_type == transaction_type,
                );
            }
            if item.transaction_type == transaction_type {
                found.push(item.clone());
                assert(views(found@) =~= before.push(item@));
            }
            i = i + 1;
        }
        proof {
            assert(self@.take(i as int) =~= self@);
        }
        found
    }

    /// The totals as wide integers, which no ledger can overflow: the sum
    /// of the incomes and the sum of the expenses.
    fn wide_totals(&self) -> (totals: (i128, i128))
        ensures
            totals.0 == total_of(self@, TypeTransaction::Income),
            totals.1 == total_of(self@, TypeTransaction::Expense),
            i128::MIN <= totals.0 - totals.1 <= i128::MAX,
    {
        let mut total_income: i128 = 0;
        let mut total_expense: i128 = 0;
        let mut i: usize = 0;
        while i < self.items.len()
            invariant
                i <= self.items.len(),
                total_income == total_of(self@.take(i as int), TypeTransaction::Income),
                total_expense == total_of(self@.take(i as int), TypeTransaction::Expense),
                -(i as int) * 0x8000_0000_0000_0000 <= total_income <= i * 0x8000_0000_0000_0000,
                -(i as int) * 0x8000_0000_0000_0000 <= total_expense <= i * 0x8000_0000_0000_0000,
                -(i as int) * 0x8000_0000_0000_0000 <= total_income - total_expense <= i
                    * 0x8000_0000_0000_0000,
            decreases self.items.len() - i,
        {
            proof {
                lemma_total_step(self@, TypeTransaction::Income, i as int);
                lemma_total_step(self@, TypeTransaction::Expense, i as int);
            }
            let transaction = &self.items[i];
            match transaction.transaction_type {
                TypeTransaction::Income => {
                    total_income = total_income + transaction.amount as i128;
                },
                TypeTransaction::Expense => {
                    total_expense = total_expense + transaction.amount as i128;
                },
            }
            i = i + 1;
        }
        proof {
            assert(self@.take(i as int) =~= self@);
        }
        (total_income, total_expense)
    }

    /// The sum of the incomes, the sum of the expenses, and the balance,
    /// which is the first minus the second.
    pub fn get_summary(&self) -> (summary: (i64, i64, i64))
        requires
            summary_fits(self@),
        ensures
            summary.0 == total_of(self@, TypeTransaction::Income),
            summary.1 == total_of(self@, TypeTransaction::Expense),
            summary.2 == balance_of(self@),
            summary.2 == summary.0 - summary.1,
    {
        let (total_income, total_expense) = self.wide_totals();
        proof {
            lemma_balance_is_income_minus_expense(self@);
        }
        (total_income as i64, total_expense as i64, (total_income - total_expense) as i64)
    }

    /// The summary, or `None` when one of its three values is outside the
    /// range of `i64`.
    pub fn checked_summary(&self) -> (summary: Option<(i64, i64, i64)>)
        ensures
            summary is Some <==> summary_fits(self@),
            summary matches Some(values) ==> values.0 == total_of(self@, TypeTransaction::Income)
                && values.1 == total_of(self@, TypeTransaction::Expense) && values.2 == balance_of(
                self@,
            ) && values.2 == values.0 - values.1,
    {
        let (total_income, total_expense) = self.wide_totals();
        proof {
            lemma_balance_is_income_minus_expense(self@);
        }
        let balance = total_income - total_expense;
        if in_i64(total_income) && in_i64(total_expense) && in_i64(balance) {
            Some((total_income as i64, total_expense as i64, balance as i64))
        } else {
            None
        }
    }

    /// Copies of the entries whose text contains `query` when letter case
    /// is ignored, in ledger order.
    fn matching(&self, query: &str) -> (found: Vec<WalletItems>)
        ensures
            views(found@) == search_results(self@, query@),
            query@.len() == 0 ==> views(found@) == self@,
    {
        let needle = lowercase_chars(query);
        let mut found: Vec<WalletItems> = Vec::new();
        let mut i: usize = 0;
        while i < self.items.len()
            invariant
                i <= self.items.len(),
                needle@ == lowercase_of(query@),
                query@.len() == 0 ==> needle@.len() == 0,
                views(found@) == search_results(self@.take(i as int), query@),
                query@.len() == 0 ==> views(found@) == self@.take(i as int),
            decreases self.items.len() - i,
        {
            let ghost before = views(found@);
            let item = &self.items[i];
            proof {
                assert(self@.take(i + 1) =~= self@.take(i as int).push(item@));
                self@.take(i as int).lemma_filter_push(
                    item@,
                    |item: ItemView| contains_ignoring_case(item.description, query@),
                );
            }
            let text = lowercase_chars(item.description.as_str());
            proof {
                if needle@.len() == 0 {
                    assert(text@.subrange(0, 0) =~= needle@);
                    assert(occurs_at(needle@, text@, 0));
                }
            }
            if contains_chars(&text, &needle) {
                found.push(item.clone());
                assert(views(found@) =~= before.push(item@));
            }
            i = i + 1;
        }
        proof {
            assert(self@.take(i as int) =~= self@);
        }
        found
    }

    /// Copies of the entries whose text contains `description` when letter
    /// case is ignored, in ledger order. The empty text is contained in
    /// every text, so it finds every entry. The ledger is not changed.
    pub fn search_transaction(&mut self, description: &str) -> (found: Vec<WalletItems>)
        ensures
            final(self)@ == old(self)@,
            views(found@) == search_results(old(self)@, description@),
            description@.len() == 0 ==> views(found@) == old(self)@,
    {
        self.matching(description)
    }

    /// The text of a currency amount: decimal digits in groups of three
    /// from the right, with a full stop between groups.
    pub fn format_currency(amount: i64) -> (text: String)
        ensures
            text@ == currency_text(amount as int),
    {
        currency_string(amount)
    }
}

/// Whether a wide value can be held in an `i64`.
fn in_i64(value: i128) -> (fits: bool)
    ensures
        fits == fits_i64(value as int),
{
    -0x8000_0000_0000_0000 <= value && value <= 0x7fff_ffff_ffff_ffff
}

/// One more entry changes a total by its amount, if it is of that kind.
proof fn lemma_total_step(entries: Seq<ItemView>, kind: TypeTransaction, i: int)
    requires
        0 <= i < entries.len(),
    ensures
        total_of(entries.take(i + 1), kind) == total_of(entries.take(i), kind) + if entries[i]
            .transaction_type == kind {
            entries[i].amount
        } else {
            0
        },
{
    assert(entries.take(i + 1).drop_last() =~= entries.take(i));
}

/// One more entry changes the balance by its signed amount.
proof fn lemma_balance_step(entries: Seq<ItemView>, i: int)
    requires
        0 <= i < entries.len(),
    ensures
        balance_of(entries.take(i + 1)) == balance_of(entries.take(i)) + signed_amount(entries[i]),
{
    assert(entries.take(i + 1).drop_last() =~= entries.take(i));
}

} // verus!
