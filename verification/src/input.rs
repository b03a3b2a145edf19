//! Reading what the user typed: one line of text in, a validated value or
//! the reason for refusing it out.

use vstd::prelude::*;

use crate::error::WalletError;
use crate::text::{chars_of, lowercase_chars, lowercase_of, matches_at, string_of};
use crate::transaction::TypeTransaction;

verus! {

/// Whether a character is white space: a tab, a line feed, a vertical tab,
/// a form feed, a carriage return, a space, or one of the spaces and line
/// separators beyond the ASCII range that Unicode lists as white space.
pub open spec fn is_whitespace(c: char) -> bool {
    let code = c as u32;
    ||| 0x09 <= code <= 0x0d
    ||| code == 0x20
    ||| code == 0x85
    ||| code == 0xa0
    ||| code == 0x1680
    ||| 0x2000 <= code <= 0x200a
    ||| code == 0x2028
    ||| code == 0x2029
    ||| code == 0x202f
    ||| code == 0x205f
    ||| code == 0x3000
}

/// Whether a character is white space.
pub fn whitespace(c: char) -> (white: bool)
    ensures
        white == is_whitespace(c),
{
    let code = c as u32;
    (0x09 <= code && code <= 0x0d) || code == 0x20 || code == 0x85 || code == 0xa0 || code
        == 0x1680 || (0x2000 <= code && code <= 0x200a) || code == 0x2028 || code == 0x2029
        || code == 0x202f || code == 0x205f || code == 0x3000
}

/// A text without the white space at its start.
pub open spec fn trimmed_start(text: Seq<char>) -> Seq<char>
    decreases text.len(),
{
    if text.len() > 0 && is_whitespace(text[0]) {
        trimmed_start(text.drop_first())
    } else {
        text
    }
}

/// A text without the white space at its end.
pub open spec fn trimmed_end(text: Seq<char>) -> Seq<char>
    decreases text.len(),
{
    if text.len() > 0 && is_whitespace(text.last()) {
        trimmed_end(text.drop_last())
    } else {
        text
    }
}

/// A text without the white space at its start and at its end.
pub open spec fn trimmed(text: Seq<char>) -> Seq<char> {
    trimmed_end(trimmed_start(text))
}

/// The given characters without the white space at their start and end.
pub fn trim_chars(chars: &Vec<char>) -> (kept: Vec<char>)
    ensures
        kept@ == trimmed(chars@),
{
    let len = chars.len();
    let mut start: usize = 0;
    assert(chars@.subrange(0, len as int) =~= chars@);
    while start < len && whitespace(chars[start])
        invariant
            start <= len,
            len == chars.len(),
            trimmed_start(chars@) == trimmed_start(chars@.subrange(start as int, len as int)),
        decreases len - start,
    {
        proof {
            assert(chars@.subrange(start as int, len as int).drop_first() =~= chars@.subrange(
                start + 1,
                len as int,
            ));
        }
        start = start + 1;
    }
    assert(trimmed_start(chars@) == chars@.subrange(start as int, len as int));
    let mut end: usize = len;
    while end > start && whitespace(chars[end - 1])
        invariant
            start <= end <= len,
            len == chars.len(),
            trimmed_end(chars@.subrange(start as int, len as int)) == trimmed_end(
                chars@.subrange(start as int, end as int),
            ),
        decreases end - start,
    {
        proof {
            assert(chars@.subrange(start as int, end as int).drop_last() =~= chars@.subrange(
                start as int,
                end - 1,
            ));
        }
        end = end - 1;
    }
    assert(trimmed(chars@) == chars@.subrange(start as int, end as int));
    let mut kept: Vec<char> = Vec::new();
    let mut i: usize = start;
    while i < end
        invariant
            start <= i <= end <= len,
            len == chars.len(),
            kept@ == chars@.subrange(start as int, i as int),
        decreases end - i,
    {
        kept.push(chars[i]);
        i = i + 1;
        assert(kept@ =~= chars@.subrange(start as int, i as int));
    }
    kept
}

/// A text with every occurrence of `pattern` taken out. Occurrences are
/// looked for from the left, and one that is found is skipped whole before
/// the search goes on. An empty pattern takes nothing out.
pub open spec fn without_text(text: Seq<char>, pattern: Seq<char>) -> Seq<char>
    decreases text.len(),
{
    if pattern.len() == 0 || text.len() < pattern.len() {
        text
    } else if text.subrange(0, pattern.len() as int) == pattern {
        without_text(text.subrange(pattern.len() as int, text.len() as int), pattern)
    } else {
        seq![text[0]] + without_text(text.drop_first(), pattern)
    }
}

/// The given characters with every occurrence of `pattern` taken out.
pub fn remove_text(chars: &Vec<char>, pattern: &Vec<char>) -> (kept: Vec<char>)
    ensures
        kept@ == without_text(chars@, pattern@),
{
    let len = chars.len();
    let width = pattern.len();
    let mut kept: Vec<char> = Vec::new();
    let mut i: usize = 0;
    assert(chars@.subrange(0, len as int) =~= chars@);
    while i < len
        invariant
            i <= len,
            len == chars.len(),
            width == pattern.len(),
            without_text(chars@, pattern@) == kept@ + without_text(
                chars@.subrange(i as int, len as int),
                pattern@,
            ),
        decreases len - i,
    {
        let ghost rest = chars@.subrange(i as int, len as int);
        if width == 0 || len - i < width {
            kept.push(chars[i]);
            proof {
                assert(rest =~= seq![chars@[i as int]] + chars@.subrange(i + 1, len as int));
                assert(without_text(chars@.subrange(i + 1, len as int), pattern@)
                    == chars@.subrange(i + 1, len as int));
            }
            i = i + 1;
        } else if matches_at(pattern, chars, i) {
            proof {
                assert(rest.subrange(0, width as int) =~= chars@.subrange(i as int, i + width));
                assert(rest.subrange(width as int, rest.len() as int) =~= chars@.subrange(
                    i + width,
                    len as int,
                ));
            }
            i = i + width;
        } else {
            kept.push(chars[i]);
            proof {
                assert(rest.subrange(0, width as int) =~= chars@.subrange(i as int, i + width));
                assert(rest.drop_first() =~= chars@.subrange(i + 1, len as int));
            }
            i = i + 1;
        }
    }
    assert(kept@ + Seq::<char>::empty() =~= kept@);
    kept
}

/// Whether a character is one of the ten decimal digits.
pub open spec fn is_digit(c: char) -> bool {
    '0' <= c <= '9'
}

/// Whether a text is made of decimal digits alone.
pub open spec fn all_digits(text: Seq<char>) -> bool {
    forall|i: int| 0 <= i < text.len() ==> is_digit(#[trigger] text[i])
}

/// The number that a text of decimal digits writes.
pub open spec fn digits_value(digits: Seq<char>) -> nat
    decreases digits.len(),
{
    if digits.len() == 0 {
        0
    } else {
        (digits_value(digits.drop_last()) * 10 + (digits.last() as int - '0' as int)) as nat
    }
}

/// The number that `digits` writes, provided that the text is not empty,
/// holds digits alone, and writes no more than `limit`.
pub open spec fn magnitude_of(digits: Seq<char>, limit: nat) -> Option<nat> {
    if digits.len() > 0 && all_digits(digits) && digits_value(digits) <= limit {
        Some(digits_value(digits))
    } else {
        None
    }
}

/// The integer that a text writes in the range of `i64`: an optional plus
/// or minus sign, then at least one digit and nothing else.
pub open spec fn integer_of(text: Seq<char>) -> Option<int> {
    if text.len() > 0 && text[0] == '-' {
        match magnitude_of(text.drop_first(), 0x8000_0000_0000_0000) {
            Some(magnitude) => Some(-(magnitude as int)),
            None => None,
        }
    } else if text.len() > 0 && text[0] == '+' {
        match magnitude_of(text.drop_first(), 0x7fff_ffff_ffff_ffff) {
            Some(magnitude) => Some(magnitude as int),
            None => None,
        }
    } else {
        match magnitude_of(text, 0x7fff_ffff_ffff_ffff) {
            Some(magnitude) => Some(magnitude as int),
            None => None,
        }
    }
}

/// The count that a text writes in the range of `usize`: an optional plus
/// sign, then at least one digit and nothing else.
pub open spec fn count_of(text: Seq<char>) -> Option<nat> {
    if text.len() > 0 && text[0] == '+' {
        magnitude_of(text.drop_first(), usize::MAX as nat)
    } else {
        magnitude_of(text, usize::MAX as nat)
    }
}

/// A longer text of digits writes at least what its first digits write.
proof fn lemma_digits_value_grows(digits: Seq<char>, k: int)
    requires
        all_digits(digits),
        0 <= k <= digits.len(),
    ensures
        digits_value(digits.take(k)) <= digits_value(digits),
    decreases digits.len() - k,
{
    if k < digits.len() {
        lemma_digits_value_grows(digits, k + 1);
        assert(digits.take(k + 1).drop_last() =~= digits.take(k));
        assert(is_digit(digits[k]));
    } else {
        assert(digits.take(k) =~= digits);
    }
}

/// Reads the characters from position `start` on as a number of at most
/// `limit`.
fn parse_magnitude(chars: &Vec<char>, start: usize, limit: u64) -> (value: Option<u64>)
    requires
        start <= chars.len(),
    ensures
        value matches Some(v) ==> magnitude_of(
            chars@.subrange(start as int, chars.len() as int),
            limit as nat,
        ) == Some(v as nat),
        value is None ==> magnitude_of(
            chars@.subrange(start as int, chars.len() as int),
            limit as nat,
        ) is None,
{
    let len = chars.len();
    let ghost digits = chars@.subrange(start as int, len as int);
    if start == len {
        return None;
    }
    let mut value: u64 = 0;
    let mut i: usize = start;
    while i < len
        invariant
            start <= i <= len,
            len == chars.len(),
            digits == chars@.subrange(start as int, len as int),
            all_digits(digits.take(i - start)),
            value == digits_value(digits.take(i - start)),
            value <= limit,
        decreases len - i,
    {
        let c = chars[i];
        if c < '0' || c > '9' {
            assert(!is_digit(digits[i - start]));
            return None;
        }
        let digit: u64 = (c as u64) - ('0' as u64);
        proof {
            assert(digits.take(i - start + 1).drop_last() =~= digits.take(i - start));
            assert(digits.take(i - start + 1).last() == c);
            assert forall|j: int| 0 <= j < i - start + 1 implies is_digit(
                #[trigger] digits.take(i - start + 1)[j],
            ) by {
                if j < i - start {
                    assert(digits.take(i - start + 1)[j] == digits.take(i - start)[j]);
                }
            }
        }
        let next: u128 = (value as u128) * 10 + (digit as u128);
        if next > limit as u128 {
            proof {
                if all_digits(digits) {
                    lemma_digits_value_grows(digits, i - start + 1);
                }
            }
            return None;
        }
        value = next as u64;
        i = i + 1;
    }
    proof {
        assert(digits.take(i - start) =~= digits);
    }
    Some(value)
}

/// Reads the given characters as an integer in the range of `i64`.
pub fn parse_integer(chars: &Vec<char>) -> (value: Option<i64>)
    ensures
        value matches Some(v) ==> integer_of(chars@) == Some(v as int),
        value is None ==> integer_of(chars@) is None,
{
    let len = chars.len();
    proof {
        assert(chars@.subrange(0, len as int) =~= chars@);
        if len > 0 {
            assert(chars@.subrange(1, len as int) =~= chars@.drop_first());
        }
    }
    if len > 0 && chars[0] == '-' {
        match parse_magnitude(chars, 1, 0x8000_0000_0000_0000) {
            Some(magnitude) => Some((-(magnitude as i128)) as i64),
            None => None,
        }
    } else if len > 0 && chars[0] == '+' {
        match parse_magnitude(chars, 1, 0x7fff_ffff_ffff_ffff) {
            Some(magnitude) => Some(magnitude as i64),
            None => None,
        }
    } else {
        match parse_magnitude(chars, 0, 0x7fff_ffff_ffff_ffff) {
            Some(magnitude) => Some(magnitude as i64),
            None => None,
        }
    }
}

/// Reads the given characters as a count in the range of `usize`.
pub fn parse_count(chars: &Vec<char>) -> (value: Option<usize>)
    ensures
        value matches Some(v) ==> count_of(chars@) == Some(v as nat),
        value is None ==> count_of(chars@) is None,
{
    let len = chars.len();
    proof {
        assert(chars@.subrange(0, len as int) =~= chars@);
        if len > 0 {
            assert(chars@.subrange(1, len as int) =~= chars@.drop_first());
        }
    }
    let start: usize = if len > 0 && chars[0] == '+' {
        1
    } else {
        0
    };
    match parse_magnitude(chars, start, usize::MAX as u64) {
        Some(magnitude) => Some(magnitude as usize),
        None => None,
    }
}

/// Whether two lists hold the same characters.
fn same_chars(first: &Vec<char>, second: &Vec<char>) -> (same: bool)
    ensures
        same == (first@ == second@),
{
    if first.len() != second.len() {
        return false;
    }
    let same = matches_at(first, second, 0);
    proof {
        assert(second@.subrange(0, first.len() as int) =~= second@);
    }
    same
}

/// Whether a list of characters holds the given text.
fn is_text(chars: &Vec<char>, text: &str) -> (same: bool)
    ensures
        same == (chars@ == text@),
{
    let expected = chars_of(text);
    same_chars(chars, &expected)
}

/// Reads a typed menu choice: the text without the white space at its ends.
pub fn parse_choice(input: &str) -> (choice: String)
    ensures
        choice@ == trimmed(input@),
{
    string_of(&trim_chars(&chars_of(input)))
}

/// The amount as typed, made ready for reading as a number: white space at
/// both ends, full stops, commas and the currency mark taken out, in this
/// order, and what is left trimmed once more.
pub open spec fn amount_digits(input: Seq<char>) -> Seq<char> {
    trimmed(without_text(without_text(without_text(trimmed(input), "."@), ","@), "Rp"@))
}

/// The reason given for an amount that is zero or less.
pub open spec fn amount_not_positive_reason() -> Seq<char> {
    "Jumlah harus lebih besar dari 0"@
}

/// Reads a typed amount. Text that is no integer is a parse error; an
/// integer of zero or less is refused as invalid input.
pub fn parse_amount(input: &str) -> (amount: Result<i64, WalletError>)
    ensures
        match integer_of(amount_digits(input@)) {
            None => amount == Err::<i64, WalletError>(WalletError::ParseError),
            Some(value) => if value <= 0 {
                amount matches Err(WalletError::InvalidInput(reason)) && reason@
                    == amount_not_positive_reason()
            } else {
                amount == Ok::<i64, WalletError>(value as i64)
            },
        },
{
    let typed = trim_chars(&chars_of(input));
    let without_stops = remove_text(&typed, &chars_of("."));
    let without_commas = remove_text(&without_stops, &chars_of(","));
    let without_mark = remove_text(&without_commas, &chars_of("Rp"));
    let digits = trim_chars(&without_mark);
    match parse_integer(&digits) {
        None => Err(WalletError::ParseError),
        Some(value) => {
            if value <= 0 {
                Err(WalletError::InvalidInput(String::from_str("Jumlah harus lebih besar dari 0")))
            } else {
                Ok(value)
            }
        },
    }
}

/// The reason given for a description that is empty once trimmed.
pub open spec fn empty_description_reason() -> Seq<char> {
    "Deskripsi tidak boleh kosong"@
}

/// Reads a typed description: the text without the white space at its
/// ends, refused when nothing is left.
pub fn parse_description(input: &str) -> (description: Result<String, WalletError>)
    ensures
        trimmed(input@).len() > 0 ==> (description matches Ok(text) && text@ == trimmed(input@)),
        trimmed(input@).len() == 0 ==> (description matches Err(WalletError::InvalidInput(reason))
            && reason@ == empty_description_reason()),
{
    let kept = trim_chars(&chars_of(input));
    if kept.len() == 0 {
        Err(WalletError::InvalidInput(String::from_str("Deskripsi tidak boleh kosong")))
    } else {
        Ok(string_of(&kept))
    }
}

/// The reason given for a transaction number that cannot be read.
pub open spec fn unreadable_index_reason() -> Seq<char> {
    "Nomor transaksi tidak valid"@
}

/// Reads a typed transaction number.
pub fn parse_index(input: &str) -> (index: Result<usize, WalletError>)
    ensures
        match count_of(trimmed(input@)) {
            Some(value) => index == Ok::<usize, WalletError>(value as usize),
            None => index matches Err(WalletError::InvalidInput(reason)) && reason@
                == unreadable_index_reason(),
        },
{
    let kept = trim_chars(&chars_of(input));
    match parse_count(&kept) {
        Some(value) => Ok(value),
        None => Err(WalletError::InvalidInput(String::from_str("Nomor transaksi tidak valid"))),
    }
}

/// The kind that a lower-case answer names: its number in the menu or its
/// name.
pub open spec fn kind_named(answer: Seq<char>) -> Option<TypeTransaction> {
    if answer == "1"@ || answer == "pemasukan"@ {
        Some(TypeTransaction::Income)
    } else if answer == "2"@ || answer == "pengeluaran"@ {
        Some(TypeTransaction::Expense)
    } else {
        None
    }
}

/// The kind that a lower-case answer names.
pub fn kind_of_answer(answer: &Vec<char>) -> (kind: Option<TypeTransaction>)
    ensures
        kind == kind_named(answer@),
{
    if is_text(answer, "1") || is_text(answer, "pemasukan") {
        Some(TypeTransaction::Income)
    } else if is_text(answer, "2") || is_text(answer, "pengeluaran") {
        Some(TypeTransaction::Expense)
    } else {
        None
    }
}

/// The kind that a typed answer names, white space at its ends and letter
/// case ignored.
pub fn kind_of_input(input: &str) -> (kind: Option<TypeTransaction>)
    ensures
        kind == kind_named(lowercase_of(trimmed(input@))),
{
    let kept = string_of(&trim_chars(&chars_of(input)));
    let answer = lowercase_chars(kept.as_str());
    kind_of_answer(&answer)
}

/// The reason given for an answer that names no kind of transaction.
pub open spec fn unknown_kind_reason() -> Seq<char> {
    "Jenis transaksi tidak valid"@
}

/// The reason given for an answer that names no kind to filter by.
pub open spec fn unknown_filter_reason() -> Seq<char> {
    "Pilihan tidak valid"@
}

/// Reads the kind of a transaction that is being entered.
pub fn parse_type_transaction(input: &str) -> (kind: Result<TypeTransaction, WalletError>)
    ensures
        match kind_named(lowercase_of(trimmed(input@))) {
            Some(named) => kind == Ok::<TypeTransaction, WalletError>(named),
            None => kind matches Err(WalletError::InvalidInput(reason)) && reason@
                == unknown_kind_reason(),
        },
{
    match kind_of_input(input) {
        Some(named) => Ok(named),
        None => Err(WalletError::InvalidInput(String::from_str("Jenis transaksi tidak valid"))),
    }
}

/// Reads the kind of transaction to filter by.
pub fn parse_filter_type(input: &str) -> (kind: Result<TypeTransaction, WalletError>)
    ensures
        match kind_named(lowercase_of(trimmed(input@))) {
            Some(named) => kind == Ok::<TypeTransaction, WalletError>(named),
            None => kind matches Err(WalletError::InvalidInput(reason)) && reason@
                == unknown_filter_reason(),
        },
{
    match kind_of_input(input) {
        Some(named) => Ok(named),
        None => Err(WalletError::InvalidInput(String::from_str("Pilihan tidak valid"))),
    }
}

} // verus!
