//! What the reports say about a balance and about single entries.

use vstd::prelude::*;
use vstd::string::StringSliceAdditionalSpecFns;
use vstd::utf8::{decode_utf8, is_char_boundary};

use crate::currency::{currency_string, currency_text, magnitude_string, magnitude_text};
use crate::ledger::{balance_of, fits_i64, summary_fits, total_of, views, WalletList};
use crate::text::{
    align_right, append_repeated, decimal_string, decimal_text, repeated, right_aligned,
};
use crate::transaction::{ItemView, TypeTransaction, WalletItems};

verus! {

/// How a balance stands against zero.
#[derive(Debug, Clone, Copy, PartialEq, Eq, Structural)]
pub enum BalanceStatus {
    /// More came in than went out.
    Surplus,
    /// As much came in as went out.
    Balanced,
    /// More went out than came in.
    Deficit,
}

/// How a balance stands against zero.
pub open spec fn status_of(balance: int) -> BalanceStatus {
    if balance > 0 {
        BalanceStatus::Surplus
    } else if balance == 0 {
        BalanceStatus::Balanced
    } else {
        BalanceStatus::Deficit
    }
}

/// How a balance stands against zero.
pub fn balance_status(balance: i64) -> (status: BalanceStatus)
    ensures
        status == status_of(balance as int),
{
    if balance > 0 {
        BalanceStatus::Surplus
    } else if balance == 0 {
        BalanceStatus::Balanced
    } else {
        BalanceStatus::Deficit
    }
}

impl BalanceStatus {
    /// The sign written before the size of the balance; none for zero.
    pub open spec fn sign_text(self) -> Seq<char> {
        match self {
            BalanceStatus::Surplus => "+"@,
            BalanceStatus::Balanced => ""@,
            BalanceStatus::Deficit => "-"@,
        }
    }

    /// The sign written before the size of the balance; none for zero.
    pub fn sign(&self) -> (text: &'static str)
        ensures
            text@ == self.sign_text(),
    {
        match self {
            BalanceStatus::Surplus => "+",
            BalanceStatus::Balanced => "",
            BalanceStatus::Deficit => "-",
        }
    }

    /// The word for the status in the history and in the summary.
    pub open spec fn report_label_text(self) -> Seq<char> {
        match self {
            BalanceStatus::Surplus => "SURPLUS"@,
            BalanceStatus::Balanced => "SEIMBANG"@,
            BalanceStatus::Deficit => "DEFISIT"@,
        }
    }

    /// The word for the status in the history and in the summary.
    pub fn report_label(&self) -> (text: &'static str)
        ensures
            text@ == self.report_label_text(),
    {
        match self {
            BalanceStatus::Surplus => "SURPLUS",
            BalanceStatus::Balanced => "SEIMBANG",
            BalanceStatus::Deficit => "DEFISIT",
        }
    }

    /// The word for the status where the balance alone is shown.
    pub open spec fn balance_label_text(self) -> Seq<char> {
        match self {
            BalanceStatus::Surplus => "UNTUNG"@,
            BalanceStatus::Balanced => "SEIMBANG"@,
            BalanceStatus::Deficit => "RUGI"@,
        }
    }

    /// The word for the status where the balance alone is shown.
    pub fn balance_label(&self) -> (text: &'static str)
        ensures
            text@ == self.balance_label_text(),
    {
        match self {
            BalanceStatus::Surplus => "UNTUNG",
            BalanceStatus::Balanced => "SEIMBANG",
            BalanceStatus::Deficit => "RUGI",
        }
    }
}

/// The sign that the menu writes before the size of the balance: a plus
/// for zero and above, a minus below.
pub fn menu_sign(balance: i64) -> (text: &'static str)
    ensures
        text@ == if balance >= 0 {
            "+"@
        } else {
            "-"@
        },
{
    if balance >= 0 {
        "+"
    } else {
        "-"
    }
}

/// The amount of an entry as the lists show it: the sign of its kind, the
/// currency mark, and the amount in groups of three.
pub open spec fn entry_amount_text(item: ItemView) -> Seq<char> {
    item.transaction_type.sign_text() + "Rp"@ + currency_text(item.amount)
}

/// The amount of an entry as the lists show it.
pub fn entry_amount(item: &WalletItems) -> (text: String)
    ensures
        text@ == entry_amount_text(item@),
{
    let amount = currency_string(item.amount);
    String::from_str(item.transaction_type.sign()).concat("Rp").concat(amount.as_str())
}

/// The longest description, in bytes, that the history shows in full.
pub const FULL_DESCRIPTION_BYTES: usize = 35;

/// The number of bytes that the history keeps of a longer description.
pub const SHORT_DESCRIPTION_BYTES: usize = 32;

/// Whether the history can show a description: its bytes can be counted in
/// a `usize`, and it is short enough to be shown in full or the place where
/// it is cut lies between two characters.
pub open spec fn can_shorten(description: Seq<char>) -> bool {
    let bytes = vstd::utf8::encode_utf8(description);
    &&& bytes.len() <= usize::MAX
    &&& bytes.len() > FULL_DESCRIPTION_BYTES ==> is_char_boundary(
        bytes,
        SHORT_DESCRIPTION_BYTES as int,
    )
}

/// A description as the history shows it: in full when it takes no more
/// than 35 bytes, else its first 32 bytes followed by three full stops.
pub open spec fn shortened_text(description: Seq<char>) -> Seq<char> {
    let bytes = vstd::utf8::encode_utf8(description);
    if bytes.len() > FULL_DESCRIPTION_BYTES {
        decode_utf8(bytes.subrange(0, SHORT_DESCRIPTION_BYTES as int)) + "..."@
    } else {
        description
    }
}

/// A description as the history shows it.
pub fn shortened(description: &str) -> (text: String)
    requires
        can_shorten(description@),
    ensures
        text@ == shortened_text(description@),
{
    if description.len() > FULL_DESCRIPTION_BYTES {
        let (head, _) = description.split_at(SHORT_DESCRIPTION_BYTES);
        proof {
            vstd::utf8::encode_utf8_decode_utf8(head@);
        }
        String::from_str(head).concat("...")
    } else {
        String::from_str(description)
    }
}

/// The texts of a list of lines, line by line.
pub open spec fn texts(lines: Seq<String>) -> Seq<Seq<char>> {
    Seq::new(lines.len(), |i: int| lines[i]@)
}

/// A horizontal rule of `width` strokes, indented like every line of a
/// report.
pub open spec fn rule_text(width: nat) -> Seq<char> {
    "   "@ + repeated('─', width)
}

/// A horizontal rule of `width` strokes.
pub fn rule(width: usize) -> (line: String)
    ensures
        line@ == rule_text(width as nat),
{
    let mut line = String::from_str("   ");
    append_repeated(&mut line, '─', width);
    line
}

/// The line above the rows of the history: the names of the four columns,
/// the first three set to the right of their fields.
pub open spec fn history_heading_text() -> Seq<char> {
    "   "@ + right_aligned("No"@, 3) + " | "@ + right_aligned("Jenis"@, 12) + " | "@
        + right_aligned("Jumlah"@, 15) + " | Deskripsi"@
}

/// The line above the rows of the history.
pub fn history_heading() -> (line: String)
    ensures
        line@ == history_heading_text(),
{
    String::from_str("   ").concat(align_right("No", 3).as_str()).concat(" | ").concat(
        align_right("Jenis", 12).as_str(),
    ).concat(" | ").concat(align_right("Jumlah", 15).as_str()).concat(" | Deskripsi")
}

/// The row of the history for the entry with transaction number `number`:
/// the number in a field of three, the name of the kind, the amount in a
/// field of fifteen, and the description, cut if it is long.
pub open spec fn history_row_text(number: nat, item: ItemView) -> Seq<char> {
    "   "@ + right_aligned(decimal_text(number), 3) + " | "@ + item.transaction_type.label_text()
        + " | "@ + right_aligned(entry_amount_text(item), 15) + " | "@ + shortened_text(
        item.description,
    )
}

/// The row of the history for the entry with transaction number `number`.
pub fn history_row(number: usize, item: &WalletItems) -> (line: String)
    requires
        can_shorten(item@.description),
    ensures
        line@ == history_row_text(number as nat, item@),
{
    let number_text = decimal_string(number as u64);
    let amount = entry_amount(item);
    let description = shortened(item.description.as_str());
    String::from_str("   ").concat(align_right(number_text.as_str(), 3).as_str()).concat(
        " | ",
    ).concat(item.transaction_type.label().as_str()).concat(" | ").concat(
        align_right(amount.as_str(), 15).as_str(),
    ).concat(" | ").concat(description.as_str())
}

/// The line below the rows of the history: the size of the balance and, in
/// brackets, how it stands.
pub open spec fn history_total_text(balance: int) -> Seq<char> {
    "   TOTAL SALDO: Rp"@ + magnitude_text(balance) + " ["@ + status_of(
        balance,
    ).report_label_text() + "]"@
}

/// The line below the rows of the history.
pub fn history_total(balance: i64) -> (line: String)
    ensures
        line@ == history_total_text(balance as int),
{
    String::from_str("   TOTAL SALDO: Rp").concat(magnitude_string(balance).as_str()).concat(
        " [",
    ).concat(balance_status(balance).report_label()).concat("]")
}

/// The rows of the history, one for each entry, numbered from one.
pub open spec fn history_rows_text(entries: Seq<ItemView>) -> Seq<Seq<char>> {
    Seq::new(entries.len(), |i: int| history_row_text((i + 1) as nat, entries[i]))
}

/// The history of a ledger, line by line. An empty ledger is said to be
/// empty; any other is shown as a table with a row for each entry and the
/// balance below.
pub open spec fn history_text(entries: Seq<ItemView>) -> Seq<Seq<char>> {
    if entries.len() == 0 {
        seq![
            ""@,
            "   RIWAYAT TRANSAKSI"@,
            rule_text(70),
            "   Tidak ada transaksi ditemukan."@,
            "   Tambahkan transaksi pertama Anda untuk memulai."@,
            ""@,
        ]
    } else {
        seq![""@, "   RIWAYAT TRANSAKSI"@, rule_text(70), history_heading_text(), rule_text(70)]
            + history_rows_text(entries) + seq![
            rule_text(70),
            history_total_text(balance_of(entries)),
            ""@,
        ]
    }
}

/// Whether the history of a ledger can be shown: the balance can be held in
/// an `i64` and every description can be shown.
pub open spec fn can_show_history(entries: Seq<ItemView>) -> bool {
    &&& fits_i64(balance_of(entries))
    &&& forall|i: int| 0 <= i < entries.len() ==> can_shorten(#[trigger] entries[i].description)
}

/// The history of a ledger, line by line.
pub fn history(wallet: &WalletList) -> (lines: Vec<String>)
    requires
        can_show_history(wallet@),
    ensures
        texts(lines@) == history_text(wallet@),
{
    let items = wallet.entries();
    let mut lines: Vec<String> = Vec::new();
    lines.push(String::from_str(""));
    lines.push(String::from_str("   RIWAYAT TRANSAKSI"));
    lines.push(rule(70));
    if items.len() == 0 {
        lines.push(String::from_str("   Tidak ada transaksi ditemukan."));
        lines.push(String::from_str("   Tambahkan transaksi pertama Anda untuk memulai."));
        lines.push(String::from_str(""));
        assert(texts(lines@) =~= history_text(wallet@));
        return lines;
    }
    lines.push(history_heading());
    lines.push(rule(70));
    let ghost head = seq![
        ""@,
        "   RIWAYAT TRANSAKSI"@,
        rule_text(70),
        history_heading_text(),
        rule_text(70),
    ];
    assert(texts(lines@) =~= head + history_rows_text(wallet@.take(0)));
    let mut i: usize = 0;
    while i < items.len()
        invariant
            i <= items.len(),
            views(items@) == wallet@,
            can_show_history(wallet@),
            texts(lines@) == head + history_rows_text(wallet@.take(i as int)),
        decreases items.len() - i,
    {
        let ghost before = texts(lines@);
        assert(items[i as int]@ == wallet@[i as int]);
        assert(can_shorten(wallet@[i as int].description));
        let row = history_row(i + 1, &items[i]);
        lines.push(row);
        i = i + 1;
        proof {
            assert(texts(lines@) =~= before.push(row@));
            assert(history_rows_text(wallet@.take(i as int)) =~= history_rows_text(
                wallet@.take(i - 1),
            ).push(row@));
            assert(texts(lines@) =~= head + history_rows_text(wallet@.take(i as int)));
        }
    }
    assert(wallet@.take(i as int) =~= wallet@);
    lines.push(rule(70));
    lines.push(history_total(wallet.calculate_balance()));
    lines.push(String::from_str(""));
    assert(texts(lines@) =~= history_text(wallet@));
    lines
}

/// What is shown of the balance alone, line by line: its sign and size,
/// and how it stands.
pub open spec fn balance_report_text(balance: int) -> Seq<Seq<char>> {
    seq![
        ""@,
        "   INFORMASI SALDO"@,
        rule_text(50),
        ""@,
        "   Saldo Saat Ini: "@ + status_of(balance).sign_text() + "Rp"@ + magnitude_text(balance),
        "   Status: "@ + status_of(balance).balance_label_text(),
        ""@,
    ]
}

/// What is shown of the balance alone, line by line.
pub fn balance_report(balance: i64) -> (lines: Vec<String>)
    ensures
        texts(lines@) == balance_report_text(balance as int),
{
    let status = balance_status(balance);
    let mut lines: Vec<String> = Vec::new();
    lines.push(String::from_str(""));
    lines.push(String::from_str("   INFORMASI SALDO"));
    lines.push(rule(50));
    lines.push(String::from_str(""));
    lines.push(
        String::from_str("   Saldo Saat Ini: ").concat(status.sign()).concat("Rp").concat(
            magnitude_string(balance).as_str(),
        ),
    );
    lines.push(String::from_str("   Status: ").concat(status.balance_label()));
    lines.push(String::from_str(""));
    assert(texts(lines@) =~= balance_report_text(balance as int));
    lines
}

/// The summary of a ledger, line by line: the two totals, the balance with
/// its sign, and how the balance stands.
pub open spec fn summary_report_text(total_income: int, total_expense: int, balance: int) -> Seq<
    Seq<char>,
> {
    seq![
        ""@,
        "   RINGKASAN KEUANGAN"@,
        rule_text(50),
        ""@,
        "   Total Pemasukan  : +Rp"@ + currency_text(total_income),
        "   Total Pengeluaran: -Rp"@ + currency_text(total_expense),
        rule_text(50),
        "   Saldo Akhir      : "@ + status_of(balance).sign_text() + "Rp"@ + magnitude_text(
            balance,
        ),
        "   Status Keuangan  : "@ + status_of(balance).report_label_text(),
        ""@,
    ]
}

/// The summary of a ledger, line by line.
pub fn summary_report(wallet: &WalletList) -> (lines: Vec<String>)
    requires
        summary_fits(wallet@),
    ensures
        texts(lines@) == summary_report_text(
            total_of(wallet@, TypeTransaction::Income),
            total_of(wallet@, TypeTransaction::Expense),
            balance_of(wallet@),
        ),
{
    let (total_income, total_expense, balance) = wallet.get_summary();
    let status = balance_status(balance);
    let mut lines: Vec<String> = Vec::new();
    lines.push(String::from_str(""));
    lines.push(String::from_str("   RINGKASAN KEUANGAN"));
    lines.push(rule(50));
    lines.push(String::from_str(""));
    lines.push(
        String::from_str("   Total Pemasukan  : +Rp").concat(
            currency_string(total_income).as_str(),
        ),
    );
    lines.push(
        String::from_str("   Total Pengeluaran: -Rp").concat(
            currency_string(total_expense).as_str(),
        ),
    );
    lines.push(rule(50));
    lines.push(
        String::from_str("   Saldo Akhir      : ").concat(status.sign()).concat("Rp").concat(
            magnitude_string(balance).as_str(),
        ),
    );
    lines.push(String::from_str("   Status Keuangan  : ").concat(status.report_label()));
    lines.push(String::from_str(""));
    assert(texts(lines@) =~= summary_report_text(
        total_income as int,
        total_expense as int,
        balance as int,
    ));
    lines
}

/// The line of the menu that shows the balance.
pub open spec fn menu_balance_text(balance: int) -> Seq<char> {
    "   Saldo Saat Ini: "@ + (if balance >= 0 {
        "+"@
    } else {
        "-"@
    }) + "Rp"@ + magnitude_text(balance)
}

/// The line of the menu that shows the balance.
pub fn menu_balance(balance: i64) -> (line: String)
    ensures
        line@ == menu_balance_text(balance as int),
{
    String::from_str("   Saldo Saat Ini: ").concat(menu_sign(balance)).concat("Rp").concat(
        magnitude_string(balance).as_str(),
    )
}

/// The row for one entry in a list of found entries: its place in the
/// list, its description in full, and its amount.
pub open spec fn listing_row_text(number: nat, item: ItemView) -> Seq<char> {
    "   "@ + decimal_text(number) + ". "@ + item.description + " | "@ + entry_amount_text(item)
}

/// The row for one entry in a list of found entries.
pub fn listing_row(number: usize, item: &WalletItems) -> (line: String)
    ensures
        line@ == listing_row_text(number as nat, item@),
{
    String::from_str("   ").concat(decimal_string(number as u64).as_str()).concat(". ").concat(
        item.description.as_str(),
    ).concat(" | ").concat(entry_amount(item).as_str())
}

/// A list of found entries, line by line: a row for each, numbered from
/// one, and an empty line at the end.
pub open spec fn listing_text(entries: Seq<ItemView>) -> Seq<Seq<char>> {
    Seq::new(entries.len(), |i: int| listing_row_text((i + 1) as nat, entries[i])).push(""@)
}

/// A list of found entries, line by line.
pub fn listing(items: &Vec<WalletItems>) -> (lines: Vec<String>)
    ensures
        texts(lines@) == listing_text(views(items@)),
{
    let ghost entries = views(items@);
    let mut lines: Vec<String> = Vec::new();
    let mut i: usize = 0;
    while i < items.len()
        invariant
            i <= items.len(),
            entries == views(items@),
            texts(lines@) == Seq::new(
                i as nat,
                |k: int| listing_row_text((k + 1) as nat, entries[k]),
            ),
        decreases items.len() - i,
    {
        let ghost before = texts(lines@);
        assert(items[i as int]@ == entries[i as int]);
        let row = listing_row(i + 1, &items[i]);
        lines.push(row);
        i = i + 1;
        proof {
            assert(texts(lines@) =~= before.push(row@));
            assert(texts(lines@) =~= Seq::new(
                i as nat,
                |k: int| listing_row_text((k + 1) as nat, entries[k]),
            ));
        }
    }
    lines.push(String::from_str(""));
    assert(texts(lines@) =~= listing_text(entries));
    lines
}

} // verus!
