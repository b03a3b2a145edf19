use wallet_manager::ledger::WalletList;
use wallet_manager::text::{chars_of, contains_chars, string_of};
use wallet_manager::transaction::{TypeTransaction, WalletItems};

fn wallet_with(descriptions: &[&str]) -> WalletList {
    let mut wallet = WalletList::new();
    for description in descriptions {
        wallet
            .add(WalletItems::new(description.to_string(), 1000, TypeTransaction::Income))
            .unwrap();
    }
    wallet
}

fn names(items: &[WalletItems]) -> Vec<String> {
    items.iter().map(|item| item.description.clone()).collect()
}

#[test]
fn search_ignores_case() {
    let mut wallet = wallet_with(&["Morning coffee run", "Bus ticket"]);
    let upper = wallet.search_transaction("COFFEE");
    let lower = wallet.search_transaction("coffee");
    assert_eq!(names(&upper), vec!["Morning coffee run"]);
    assert_eq!(names(&lower), vec!["Morning coffee run"]);
}

#[test]
fn search_ignores_case_of_entries() {
    let mut wallet = wallet_with(&["MORNING COFFEE", "Evening Coffee", "tea"]);
    let found = wallet.search_transaction("coffee");
    assert_eq!(names(&found), vec!["MORNING COFFEE", "Evening Coffee"]);
}

#[test]
fn search_for_empty_text_finds_everything() {
    let mut wallet = wallet_with(&["Salary", "", "Bus ticket"]);
    let found = wallet.search_transaction("");
    assert_eq!(names(&found), vec!["Salary", "", "Bus ticket"]);
}

#[test]
fn search_keeps_ledger_order() {
    let mut wallet = wallet_with(&["bus to work", "lunch", "Bus home", "minibus"]);
    let found = wallet.search_transaction("bus");
    assert_eq!(names(&found), vec!["bus to work", "Bus home", "minibus"]);
}

#[test]
fn search_without_match_is_empty() {
    let mut wallet = wallet_with(&["Salary", "Bus ticket"]);
    assert!(wallet.search_transaction("rent").is_empty());
    assert!(wallet.search_transaction("Salary!").is_empty());
}

#[test]
fn search_leaves_the_ledger_alone() {
    let mut wallet = wallet_with(&["Salary", "Bus ticket"]);
    let mut found = wallet.search_transaction("s");
    found[0].amount = 7;
    assert_eq!(wallet.len(), 2);
    assert_eq!(wallet.entries()[0].description, "Salary");
    assert_eq!(wallet.entries()[0].amount, 1000);
    assert_eq!(wallet.entries()[1].description, "Bus ticket");
}

#[test]
fn search_handles_letters_beyond_ascii() {
    let mut wallet = wallet_with(&["CAFÉ au lait", "Ärger", "plain"]);
    assert_eq!(names(&wallet.search_transaction("café")), vec!["CAFÉ au lait"]);
    assert_eq!(names(&wallet.search_transaction("ÄRGER")), vec!["Ärger"]);
}

#[test]
fn contains_chars_agrees_with_std() {
    let texts = ["", "a", "ab", "abc", "aab", "abab", "morning coffee run", "ééa", "日本語"];
    for text in texts {
        for needle in texts {
            assert_eq!(
                contains_chars(&chars_of(text), &chars_of(needle)),
                text.contains(needle),
                "{:?} in {:?}",
                needle,
                text
            );
        }
    }
}

#[test]
fn contains_chars_finds_runs_only() {
    assert!(contains_chars(&chars_of("morning coffee run"), &chars_of("coffee")));
    assert!(contains_chars(&chars_of("coffee"), &chars_of("coffee")));
    assert!(contains_chars(&chars_of("coffee"), &chars_of("")));
    assert!(contains_chars(&chars_of(""), &chars_of("")));
    assert!(!contains_chars(&chars_of("coffee"), &chars_of("coffees")));
    assert!(!contains_chars(&chars_of("c-o-f-f-e-e"), &chars_of("coffee")));
    assert!(!contains_chars(&chars_of(""), &chars_of("a")));
}

#[test]
fn chars_and_strings_convert_both_ways() {
    assert_eq!(chars_of("añ日"), vec!['a', 'ñ', '日']);
    assert_eq!(chars_of(""), Vec::<char>::new());
    assert_eq!(string_of(&vec!['a', 'ñ', '日']), "añ日");
    assert_eq!(string_of(&Vec::new()), "");
}
