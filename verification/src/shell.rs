//! The state behind the interactive menu and the decisions the menu takes.

use vstd::prelude::*;

use crate::ledger::WalletList;
use crate::text::chars_of;
use crate::transaction::ItemView;

verus! {

/// What the menu does next.
#[derive(Debug, Clone, Copy, PartialEq, Eq, Structural)]
pub enum MenuAction {
    /// List every entry and the balance.
    ShowHistory,
    /// Ask for a new entry and record it.
    AddTransaction,
    /// Show the balance.
    CheckBalance,
    /// Show the totals and the balance.
    ShowSummary,
    /// Ask for a kind and list its entries.
    FilterByType,
    /// Ask for a transaction number and remove that entry.
    DeleteTransaction,
    /// Ask for a transaction number and replace that entry.
    UpdateTransaction,
    /// Ask for a text and list the entries that contain it.
    SearchTransaction,
    /// Say goodbye and stop.
    Quit,
    /// Tell the user that the choice is none of the menu's.
    Invalid,
}

/// What the menu does for a choice: the digits one to nine name its nine
/// entries, and every other text is no choice at all.
pub open spec fn action_for(choice: Seq<char>) -> MenuAction {
    if choice == seq!['1'] {
        MenuAction::ShowHistory
    } else if choice == seq!['2'] {
        MenuAction::AddTransaction
    } else if choice == seq!['3'] {
        MenuAction::CheckBalance
    } else if choice == seq!['4'] {
        MenuAction::ShowSummary
    } else if choice == seq!['5'] {
        MenuAction::FilterByType
    } else if choice == seq!['6'] {
        MenuAction::DeleteTransaction
    } else if choice == seq!['7'] {
        MenuAction::UpdateTransaction
    } else if choice == seq!['8'] {
        MenuAction::SearchTransaction
    } else if choice == seq!['9'] {
        MenuAction::Quit
    } else {
        MenuAction::Invalid
    }
}

/// The wallet application: one ledger, handed from menu choice to menu
/// choice.
pub struct WalletApp {
    pub wallet: WalletList,
}

impl WalletApp {
    /// An application with an empty ledger.
    pub fn new() -> (app: Self)
        ensures
            app.wallet@ == Seq::<ItemView>::empty(),
    {
        Self { wallet: WalletList::new() }
    }

    /// Decides what a menu choice asks for, and whether the menu is shown
    /// again afterwards: it is, unless the choice was to quit.
    pub fn handle_choice(&self, choice: &str) -> (step: (MenuAction, bool))
        ensures
            step.0 == action_for(choice@),
            step.1 == (step.0 != MenuAction::Quit),
    {
        let chars = chars_of(choice);
        if chars.len() != 1 {
            assert(chars@ != seq!['1'] && chars@ != seq!['2'] && chars@ != seq!['3']);
            return (MenuAction::Invalid, true);
        }
        assert(chars@ =~= seq![chars@[0]]);
        let c = chars[0];
        let action = if c == '1' {
            MenuAction::ShowHistory
        } else if c == '2' {
            MenuAction::AddTransaction
        } else if c == '3' {
            MenuAction::CheckBalance
        } else if c == '4' {
            MenuAction::ShowSummary
        } else if c == '5' {
            MenuAction::FilterByType
        } else if c == '6' {
            MenuAction::DeleteTransaction
        } else if c == '7' {
            MenuAction::UpdateTransaction
        } else if c == '8' {
            MenuAction::SearchTransaction
        } else if c == '9' {
            MenuAction::Quit
        } else {
            MenuAction::Invalid
        };
        (action, action != MenuAction::Quit)
    }
}

} // verus!
