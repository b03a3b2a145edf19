//! Currency amounts as text: decimal digits in groups of three.

use vstd::prelude::*;

use crate::text::{decimal_text, push_char, push_decimal};

verus! {

/// The decimal text of an integer: a minus sign for a negative value, then
/// the digits of its magnitude.
pub open spec fn signed_decimal_text(value: int) -> Seq<char> {
    if value < 0 {
        seq!['-'] + decimal_text((-value) as nat)
    } else {
        decimal_text(value as nat)
    }
}

/// A text cut into groups of three characters counted from the right, with a
/// full stop between neighbouring groups. A text of at most three characters
/// is left as it is.
pub open spec fn grouped(text: Seq<char>) -> Seq<char>
    decreases text.len(),
{
    if text.len() <= 3 {
        text
    } else {
        grouped(text.subrange(0, text.len() - 3)).push('.') + text.subrange(
            text.len() - 3,
            text.len() as int,
        )
    }
}

/// The text of a currency amount: its decimal text, grouped.
pub open spec fn currency_text(amount: int) -> Seq<char> {
    grouped(signed_decimal_text(amount))
}

/// The characters of the decimal text of `value`.
pub fn signed_decimal_chars(value: i64) -> (chars: Vec<char>)
    ensures
        chars@ == signed_decimal_text(value as int),
{
    let mut chars: Vec<char> = Vec::new();
    if value < 0 {
        chars.push('-');
        let magnitude: u64 = ((-(value as i128)) as u64);
        push_decimal(&mut chars, magnitude);
        assert(chars@ =~= seq!['-'] + decimal_text((-value) as nat));
    } else {
        push_decimal(&mut chars, value as u64);
        assert(chars@ =~= decimal_text(value as nat));
    }
    chars
}

/// The given characters as a text in groups of three.
pub fn group_chars(chars: &Vec<char>) -> (text: String)
    ensures
        text@ == grouped(chars@),
{
    let len = chars.len();
    let mut text = String::new();
    let lead: usize = if len <= 3 {
        len
    } else if len % 3 == 0 {
        3
    } else {
        len % 3
    };
    let mut i: usize = 0;
    while i < lead
        invariant
            i <= lead <= len,
            lead <= 3,
            len == chars.len(),
            text@ == chars@.take(i as int),
        decreases lead - i,
    {
        push_char(&mut text, chars[i]);
        i = i + 1;
        assert(text@ =~= chars@.take(i as int));
    }
    while i < len
        invariant
            i <= len,
            1 <= i || len == 0,
            (len - i) % 3 == 0,
            len == chars.len(),
            text@ == grouped(chars@.take(i as int)),
        decreases len - i,
    {
        let ghost before = chars@.take(i as int);
        let ghost after = chars@.take(i + 3);
        push_char(&mut text, '.');
        push_char(&mut text, chars[i]);
        push_char(&mut text, chars[i + 1]);
        push_char(&mut text, chars[i + 2]);
        proof {
            assert(after.subrange(0, after.len() - 3) =~= before);
            assert(text@ =~= grouped(before).push('.') + after.subrange(
                after.len() - 3,
                after.len() as int,
            ));
        }
        i = i + 3;
    }
    assert(chars@.take(i as int) =~= chars@);
    text
}

/// The size of an integer without its sign.
pub open spec fn magnitude(value: int) -> nat {
    if value < 0 {
        (-value) as nat
    } else {
        value as nat
    }
}

/// The text of the size of a currency amount: the digits of the amount
/// without its sign, grouped.
pub open spec fn magnitude_text(amount: int) -> Seq<char> {
    grouped(decimal_text(magnitude(amount)))
}

/// The text of the size of a currency amount, for a caller that writes the
/// sign itself.
pub fn magnitude_string(amount: i64) -> (text: String)
    ensures
        text@ == magnitude_text(amount as int),
{
    let size: u64 = if amount < 0 {
        (-(amount as i128)) as u64
    } else {
        amount as u64
    };
    let mut chars: Vec<char> = Vec::new();
    push_decimal(&mut chars, size);
    assert(chars@ =~= decimal_text(magnitude(amount as int)));
    group_chars(&chars)
}

/// The text of a currency amount.
pub fn currency_string(amount: i64) -> (text: String)
    ensures
        text@ == currency_text(amount as int),
{
    let chars = signed_decimal_chars(amount);
    group_chars(&chars)
}

} // verus!
