//! What holds of every ledger, whatever entries it has and however it came
//! about.

use vstd::prelude::*;

use crate::ledger::{
    balance_of, entries_of_kind, names_entry, overdraws, search_results, signed_amount, total_of,
};
use crate::text::{contains_ignoring_case, lowercase_of};
use crate::transaction::{ItemView, TypeTransaction};

verus! {

/// The balance is the sum of the incomes minus the sum of the expenses.
pub proof fn lemma_balance_is_income_minus_expense(entries: Seq<ItemView>)
    ensures
        balance_of(entries) == total_of(entries, TypeTransaction::Income) - total_of(
            entries,
            TypeTransaction::Expense,
        ),
    decreases entries.len(),
{
    if entries.len() > 0 {
        lemma_balance_is_income_minus_expense(entries.drop_last());
    }
}

/// Recording an entry changes the balance by the signed amount of the
/// entry: up for an income, down for an expense.
pub proof fn lemma_balance_after_recording(entries: Seq<ItemView>, item: ItemView)
    ensures
        balance_of(entries.push(item)) == balance_of(entries) + signed_amount(item),
{
    assert(entries.push(item).drop_last() =~= entries);
}

/// An expense larger than the balance is refused, whatever else the ledger
/// holds; an expense that the balance covers and every income are accepted.
pub proof fn lemma_refusal_is_overdraft(entries: Seq<ItemView>, item: ItemView)
    ensures
        item.transaction_type == TypeTransaction::Expense && item.amount > balance_of(entries)
            ==> overdraws(entries, item),
        item.transaction_type == TypeTransaction::Expense && item.amount <= balance_of(entries)
            ==> !overdraws(entries, item),
        item.transaction_type == TypeTransaction::Income ==> !overdraws(entries, item),
{
}

/// An expense of exactly the balance is accepted and leaves a balance of
/// zero.
pub proof fn lemma_spending_the_whole_balance(entries: Seq<ItemView>, item: ItemView)
    requires
        item.transaction_type == TypeTransaction::Expense,
        item.amount == balance_of(entries),
    ensures
        !overdraws(entries, item),
        balance_of(entries.push(item)) == 0,
{
    lemma_balance_after_recording(entries, item);
}

/// Whether every entry has a positive amount and was acceptable on top of
/// the entries before it: the ledgers that recording alone can produce from
/// valid entries.
pub open spec fn recorded_in_order(entries: Seq<ItemView>) -> bool {
    forall|k: int|
        0 <= k < entries.len() ==> (#[trigger] entries[k]).amount > 0 && !overdraws(
            entries.take(k),
            entries[k],
        )
}

/// A ledger that only recording has touched was never overdrawn: after each
/// of its entries the balance was zero or more.
pub proof fn lemma_never_overdrawn(entries: Seq<ItemView>, k: int)
    requires
        recorded_in_order(entries),
        0 <= k <= entries.len(),
    ensures
        balance_of(entries.take(k)) >= 0,
    decreases k,
{
    if k > 0 {
        lemma_never_overdrawn(entries, k - 1);
        assert(entries.take(k) =~= entries.take(k - 1).push(entries[k - 1]));
        lemma_balance_after_recording(entries.take(k - 1), entries[k - 1]);
    }
}

/// Replacing an entry changes the balance by the difference of the signed
/// amounts, and no rule about the balance is applied: the result may be
/// negative.
pub proof fn lemma_balance_after_replacing(entries: Seq<ItemView>, index: int, item: ItemView)
    requires
        names_entry(index, entries.len()),
    ensures
        balance_of(entries.update(index - 1, item)) == balance_of(entries) - signed_amount(
            entries[index - 1],
        ) + signed_amount(item),
    decreases entries.len(),
{
    let replaced = entries.update(index - 1, item);
    if index == entries.len() {
        assert(replaced.drop_last() =~= entries.drop_last());
    } else {
        lemma_balance_after_replacing(entries.drop_last(), index, item);
        assert(replaced.drop_last() =~= entries.drop_last().update(index - 1, item));
    }
}

/// Removing the entry with transaction number `index` shortens the ledger
/// by one. The entries before it keep their numbers; each entry after it
/// gets the number one below its old one. The balance loses the signed
/// amount of the removed entry.
pub proof fn lemma_removal_shifts_later_entries(entries: Seq<ItemView>, index: int)
    requires
        names_entry(index, entries.len()),
    ensures
        entries.remove(index - 1).len() == entries.len() - 1,
        forall|number: int|
            1 <= number < index ==> (#[trigger] entries.remove(index - 1)[number - 1])
                == entries[number - 1],
        forall|number: int|
            index <= number < entries.len() ==> (#[trigger] entries.remove(index - 1)[number - 1])
                == entries[number],
        balance_of(entries.remove(index - 1)) == balance_of(entries) - signed_amount(
            entries[index - 1],
        ),
    decreases entries.len(),
{
    let shorter = entries.remove(index - 1);
    if index == entries.len() {
        assert(shorter =~= entries.drop_last());
    } else {
        lemma_removal_shifts_later_entries(entries.drop_last(), index);
        assert(shorter.drop_last() =~= entries.drop_last().remove(index - 1));
        assert(shorter.last() == entries.last());
    }
}

/// Two queries with the same lower-case form find the same entries, so a
/// search does not depend on the letter case of the query.
pub proof fn lemma_search_ignores_case(entries: Seq<ItemView>, first: Seq<char>, second: Seq<char>)
    ensures
        lowercase_of(first) == lowercase_of(second) ==> search_results(entries, first)
            == search_results(entries, second),
{
    if lowercase_of(first) == lowercase_of(second) {
        let by_first = |item: ItemView| contains_ignoring_case(item.description, first);
        let by_second = |item: ItemView| contains_ignoring_case(item.description, second);
        assert(by_first =~= by_second);
    }
}

/// Two entries whose texts have the same lower-case form are found by the
/// same queries, so a search does not depend on the letter case of the
/// entries.
pub proof fn lemma_search_ignores_case_of_entries(
    first: Seq<char>,
    second: Seq<char>,
    query: Seq<char>,
)
    ensures
        lowercase_of(first) == lowercase_of(second) ==> contains_ignoring_case(first, query)
            == contains_ignoring_case(second, query),
{
}

/// Every entry is an income or an expense and never both: the incomes and
/// the expenses together hold each entry as often as the ledger does, and
/// no entry is among both.
pub proof fn lemma_kinds_partition(entries: Seq<ItemView>)
    ensures
        entries_of_kind(entries, TypeTransaction::Income).to_multiset().add(
            entries_of_kind(entries, TypeTransaction::Expense).to_multiset(),
        ) == entries.to_multiset(),
        entries_of_kind(entries, TypeTransaction::Income).to_multiset().is_disjoint_from(
            entries_of_kind(entries, TypeTransaction::Expense).to_multiset(),
        ),
        entries_of_kind(entries, TypeTransaction::Income).len() + entries_of_kind(
            entries,
            TypeTransaction::Expense,
        ).len() == entries.len(),
    decreases entries.len(),
{
    broadcast use vstd::multiset::group_multiset_axioms;
    broadcast use vstd::seq_lib::group_to_multiset_ensures;

    let is_income = |item: ItemView| item.transaction_type == TypeTransaction::Income;
    let is_expense = |item: ItemView| item.transaction_type == TypeTransaction::Expense;
    let incomes = entries.filter(is_income);
    let expenses = entries.filter(is_expense);
    if entries.len() == 0 {
        reveal(Seq::filter);
        assert(incomes =~= Seq::<ItemView>::empty());
        assert(expenses =~= Seq::<ItemView>::empty());
        assert(incomes.to_multiset().add(expenses.to_multiset()) =~= entries.to_multiset());
    } else {
        let rest = entries.drop_last();
        let last = entries.last();
        lemma_kinds_partition(rest);
        assert(entries =~= rest.push(last));
        rest.lemma_filter_push(last, is_income);
        rest.lemma_filter_push(last, is_expense);
        assert(incomes.to_multiset().add(expenses.to_multiset()) =~= entries.to_multiset());
    }
    assert forall|item: ItemView|
        incomes.to_multiset().count(item) > 0 implies expenses.to_multiset().count(item) == 0 by {
        entries.lemma_filter_contains_rev(is_income, item);
        if expenses.to_multiset().count(item) > 0 {
            entries.lemma_filter_contains_rev(is_expense, item);
        }
    }
}

} // verus!
