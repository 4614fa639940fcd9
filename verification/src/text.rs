//! Building the texts of messages and file names.

use vstd::prelude::*;

verus! {

/// `String::push` of the standard library appends one character to the text
/// and changes nothing else.
pub assume_specification[ String::push ](text: &mut String, ch: char)
    ensures
        final(text)@ == old(text)@.push(ch),
;

/// Whether `part` occurs in `text` as a contiguous run of characters.
pub open spec fn contains_text(text: Seq<char>, part: Seq<char>) -> bool {
    exists|start: int|
        0 <= start && start + part.len() <= text.len() && #[trigger] text.subrange(
            start,
            start + part.len(),
        ) == part
}

/// A text that was put together from three pieces contains the middle one.
pub proof fn lemma_middle_is_contained(before: Seq<char>, part: Seq<char>, after: Seq<char>)
    ensures
        contains_text(before + part + after, part),
{
    let text = before + part + after;
    let start = before.len() as int;
    assert(text.subrange(start, start + part.len()) =~= part);
}

/// The character that stands for the decimal digit `digit`.
pub open spec fn digit_char(digit: int) -> char
    recommends
        0 <= digit <= 9,
{
    (48 + digit) as u8 as char
}

/// The decimal numeral of `n`, without sign or leading zeros.
pub open spec fn decimal_text(n: nat) -> Seq<char>
    decreases n,
{
    if n < 10 {
        seq![digit_char(n as int)]
    } else {
        decimal_text(n / 10).push(digit_char((n % 10) as int))
    }
}

/// Writes `n` as a decimal numeral.
pub fn decimal(n: usize) -> (text: String)
    ensures
        text@ == decimal_text(n as nat),
    decreases n,
{
    let digit: u8 = (n % 10) as u8;
    let ch: char = (48u8 + digit) as char;
    if n < 10 {
        let mut text = String::new();
        text.push(ch);
        assert(text@ =~= seq![digit_char(n as int)]);
        text
    } else {
        let mut text = decimal(n / 10);
        text.push(ch);
        text
    }
}

/// Appends `second` to a copy of `first`.
pub fn join(first: &str, second: &str) -> (text: String)
    ensures
        text@ == first@ + second@,
{
    let mut text = first.to_owned();
    text.append(second);
    text
}

} // verus!
