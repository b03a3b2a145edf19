use wallet_manager::error::WalletError;
use wallet_manager::report::{balance_status, entry_amount, menu_sign, shortened, BalanceStatus};
use wallet_manager::shell::{MenuAction, WalletApp};
use wallet_manager::transaction::{TypeTransaction, WalletItems};

#[test]
fn error_messages() {
    assert_eq!(
        WalletError::InvalidInput("Pilihan tidak valid".to_string()).message(),
        "Input Tidak Valid: Pilihan tidak valid"
    );
    assert_eq!(WalletError::InvalidInput(String::new()).message(), "Input Tidak Valid: ");
    assert_eq!(WalletError::InsufficientFunds.message(), "Saldo Tidak Cukup");
    assert_eq!(WalletError::ParseError.message(), "Error Parsing");
}

#[test]
fn kind_labels_and_signs() {
    assert_eq!(TypeTransaction::Income.label(), "Pemasukan");
    assert_eq!(TypeTransaction::Expense.label(), "Pengeluaran");
    assert_eq!(TypeTransaction::Income.sign(), "+");
    assert_eq!(TypeTransaction::Expense.sign(), "-");
}

#[test]
fn balance_status_follows_the_sign() {
    assert_eq!(balance_status(1), BalanceStatus::Surplus);
    assert_eq!(balance_status(i64::MAX), BalanceStatus::Surplus);
    assert_eq!(balance_status(0), BalanceStatus::Balanced);
    assert_eq!(balance_status(-1), BalanceStatus::Deficit);
    assert_eq!(balance_status(i64::MIN), BalanceStatus::Deficit);
}

#[test]
fn balance_status_words() {
    assert_eq!(BalanceStatus::Surplus.sign(), "+");
    assert_eq!(BalanceStatus::Balanced.sign(), "");
    assert_eq!(BalanceStatus::Deficit.sign(), "-");
    assert_eq!(BalanceStatus::Surplus.report_label(), "SURPLUS");
    assert_eq!(BalanceStatus::Balanced.report_label(), "SEIMBANG");
    assert_eq!(BalanceStatus::Deficit.report_label(), "DEFISIT");
    assert_eq!(BalanceStatus::Surplus.balance_label(), "UNTUNG");
    assert_eq!(BalanceStatus::Balanced.balance_label(), "SEIMBANG");
    assert_eq!(BalanceStatus::Deficit.balance_label(), "RUGI");
}

#[test]
fn menu_sign_counts_zero_as_plus() {
    assert_eq!(menu_sign(5), "+");
    assert_eq!(menu_sign(0), "+");
    assert_eq!(menu_sign(-5), "-");
}

#[test]
fn entry_amount_has_sign_mark_and_groups() {
    let income = WalletItems::new("Salary".to_string(), 1500000, TypeTransaction::Income);
    let expense = WalletItems::new("Coffee".to_string(), 500, TypeTransaction::Expense);
    assert_eq!(entry_amount(&income), "+Rp1.500.000");
    assert_eq!(entry_amount(&expense), "-Rp500");
}

#[test]
fn short_descriptions_are_shown_in_full() {
    assert_eq!(shortened(""), "");
    assert_eq!(shortened("Morning coffee run"), "Morning coffee run");
    let thirty_five = "12345678901234567890123456789012345";
    assert_eq!(thirty_five.len(), 35);
    assert_eq!(shortened(thirty_five), thirty_five);
}

#[test]
fn long_descriptions_are_cut() {
    let thirty_six = "123456789012345678901234567890123456";
    assert_eq!(shortened(thirty_six), "12345678901234567890123456789012...");
    let long = "Monthly payment for the flat in the old town, paid in cash";
    assert_eq!(shortened(long), "Monthly payment for the flat in ...");
}

#[test]
fn long_descriptions_keep_their_first_32_bytes() {
    for text in [
        "Groceries for the whole week at the market",
        "123456789012345678901234567890123456",
        "a description that goes on and on and on and on",
    ] {
        assert_eq!(shortened(text), format!("{}...", &text[..32]), "{:?}", text);
    }
}

#[test]
fn long_descriptions_are_cut_by_bytes() {
    let text = "éééééééééééééééééééé";
    assert_eq!(text.len(), 40);
    assert_eq!(shortened(text), "éééééééééééééééé...");
}

#[test]
fn new_app_has_an_empty_ledger() {
    let app = WalletApp::new();
    assert_eq!(app.wallet.len(), 0);
    assert_eq!(app.wallet.calculate_balance(), 0);
}

#[test]
fn menu_choices_name_their_actions() {
    let app = WalletApp::new();
    assert_eq!(app.handle_choice("1"), (MenuAction::ShowHistory, true));
    assert_eq!(app.handle_choice("2"), (MenuAction::AddTransaction, true));
    assert_eq!(app.handle_choice("3"), (MenuAction::CheckBalance, true));
    assert_eq!(app.handle_choice("4"), (MenuAction::ShowSummary, true));
    assert_eq!(app.handle_choice("5"), (MenuAction::FilterByType, true));
    assert_eq!(app.handle_choice("6"), (MenuAction::DeleteTransaction, true));
    assert_eq!(app.handle_choice("7"), (MenuAction::UpdateTransaction, true));
    assert_eq!(app.handle_choice("8"), (MenuAction::SearchTransaction, true));
    assert_eq!(app.handle_choice("9"), (MenuAction::Quit, false));
}

#[test]
fn other_choices_are_invalid() {
    let app = WalletApp::new();
    for choice in ["", "0", "10", "a", " 1", "1 ", "one", "١"] {
        assert_eq!(app.handle_choice(choice), (MenuAction::Invalid, true), "{:?}", choice);
    }
}

fn sample_wallet() -> wallet_manager::ledger::WalletList {
    let mut wallet = wallet_manager::ledger::WalletList::new();
    wallet
        .add(WalletItems::new("Salary".to_string(), 100000, TypeTransaction::Income))
        .unwrap();
    wallet
        .add(WalletItems::new(
            "Groceries for the whole week at the market".to_string(),
            40000,
            TypeTransaction::Expense,
        ))
        .unwrap();
    wallet
}

#[test]
fn rule_repeats_the_stroke() {
    assert_eq!(wallet_manager::report::rule(0), "   ");
    assert_eq!(wallet_manager::report::rule(3), "   ───");
    assert_eq!(wallet_manager::report::rule(70), format!("   {}", "─".repeat(70)));
}

#[test]
fn align_right_agrees_with_std() {
    for text in ["", "a", "No", "Jenis", "+Rp1.000", "exactly 12 c", "longer than twelve", "é日"] {
        for width in [0usize, 1, 3, 12, 15] {
            assert_eq!(
                wallet_manager::text::align_right(text, width),
                format!("{:>1$}", text, width),
                "{:?} in {}",
                text,
                width
            );
        }
    }
}

#[test]
fn history_of_an_empty_ledger() {
    let wallet = wallet_manager::ledger::WalletList::new();
    assert_eq!(
        wallet_manager::report::history(&wallet),
        vec![
            "".to_string(),
            "   RIWAYAT TRANSAKSI".to_string(),
            format!("   {}", "─".repeat(70)),
            "   Tidak ada transaksi ditemukan.".to_string(),
            "   Tambahkan transaksi pertama Anda untuk memulai.".to_string(),
            "".to_string(),
        ]
    );
}

#[test]
fn history_lists_every_entry_and_the_balance() {
    let wallet = sample_wallet();
    assert_eq!(
        wallet_manager::report::history(&wallet),
        vec![
            "".to_string(),
            "   RIWAYAT TRANSAKSI".to_string(),
            format!("   {}", "─".repeat(70)),
            "    No |        Jenis |          Jumlah | Deskripsi".to_string(),
            format!("   {}", "─".repeat(70)),
            "     1 | Pemasukan |      +Rp100.000 | Salary".to_string(),
            "     2 | Pengeluaran |       -Rp40.000 | Groceries for the whole week at ...".to_string(),
            format!("   {}", "─".repeat(70)),
            "   TOTAL SALDO: Rp60.000 [SURPLUS]".to_string(),
            "".to_string(),
        ]
    );
}

#[test]
fn history_heading_agrees_with_std() {
    assert_eq!(
        wallet_manager::report::history_heading(),
        format!("   {:>3} | {:>12} | {:>15} | Deskripsi", "No", "Jenis", "Jumlah")
    );
}

#[test]
fn history_row_numbers_past_the_field() {
    let item = WalletItems::new("Tea".to_string(), 1234567890123456, TypeTransaction::Income);
    assert_eq!(
        wallet_manager::report::history_row(1000, &item),
        "   1000 | Pemasukan | +Rp1.234.567.890.123.456 | Tea"
    );
    assert_eq!(
        wallet_manager::report::history_row(12, &item),
        format!("   {:>3} | Pemasukan | {:>15} | Tea", 12, "+Rp1.234.567.890.123.456")
    );
}

#[test]
fn history_total_says_how_the_balance_stands() {
    assert_eq!(wallet_manager::report::history_total(0), "   TOTAL SALDO: Rp0 [SEIMBANG]");
    assert_eq!(
        wallet_manager::report::history_total(-160000),
        "   TOTAL SALDO: Rp160.000 [DEFISIT]"
    );
}

#[test]
fn balance_report_lines() {
    assert_eq!(
        wallet_manager::report::balance_report(60000),
        vec![
            "".to_string(),
            "   INFORMASI SALDO".to_string(),
            format!("   {}", "─".repeat(50)),
            "".to_string(),
            "   Saldo Saat Ini: +Rp60.000".to_string(),
            "   Status: UNTUNG".to_string(),
            "".to_string(),
        ]
    );
    assert_eq!(wallet_manager::report::balance_report(0)[4], "   Saldo Saat Ini: Rp0");
    assert_eq!(wallet_manager::report::balance_report(0)[5], "   Status: SEIMBANG");
    assert_eq!(wallet_manager::report::balance_report(-1500)[4], "   Saldo Saat Ini: -Rp1.500");
    assert_eq!(wallet_manager::report::balance_report(-1500)[5], "   Status: RUGI");
}

#[test]
fn summary_report_lines() {
    let wallet = sample_wallet();
    assert_eq!(
        wallet_manager::report::summary_report(&wallet),
        vec![
            "".to_string(),
            "   RINGKASAN KEUANGAN".to_string(),
            format!("   {}", "─".repeat(50)),
            "".to_string(),
            "   Total Pemasukan  : +Rp100.000".to_string(),
            "   Total Pengeluaran: -Rp40.000".to_string(),
            format!("   {}", "─".repeat(50)),
            "   Saldo Akhir      : +Rp60.000".to_string(),
            "   Status Keuangan  : SURPLUS".to_string(),
            "".to_string(),
        ]
    );
}

#[test]
fn summary_report_of_a_deficit() {
    let mut wallet = sample_wallet();
    wallet
        .update(1, WalletItems::new("Debt".to_string(), 5000, TypeTransaction::Expense))
        .unwrap();
    let lines = wallet_manager::report::summary_report(&wallet);
    assert_eq!(lines[4], "   Total Pemasukan  : +Rp0");
    assert_eq!(lines[5], "   Total Pengeluaran: -Rp45.000");
    assert_eq!(lines[7], "   Saldo Akhir      : -Rp45.000");
    assert_eq!(lines[8], "   Status Keuangan  : DEFISIT");
}

#[test]
fn menu_balance_line() {
    assert_eq!(wallet_manager::report::menu_balance(60000), "   Saldo Saat Ini: +Rp60.000");
    assert_eq!(wallet_manager::report::menu_balance(0), "   Saldo Saat Ini: +Rp0");
    assert_eq!(wallet_manager::report::menu_balance(-7), "   Saldo Saat Ini: -Rp7");
}

#[test]
fn listing_numbers_the_found_entries() {
    let wallet = sample_wallet();
    assert_eq!(
        wallet_manager::report::listing(wallet.entries()),
        vec![
            "   1. Salary | +Rp100.000".to_string(),
            "   2. Groceries for the whole week at the market | -Rp40.000".to_string(),
            "".to_string(),
        ]
    );
    assert_eq!(wallet_manager::report::listing(&Vec::new()), vec!["".to_string()]);
}

#[test]
fn decimal_string_agrees_with_std() {
    for value in [0u64, 1, 9, 10, 11, 99, 100, 101, 65535, 18446744073709551615] {
        assert_eq!(wallet_manager::text::decimal_string(value), value.to_string());
    }
}
