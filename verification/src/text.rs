//! Small helpers on characters and decimal text.

use vstd::prelude::*;

verus! {

/// The Unicode scalar value of a character.
pub open spec fn code_point(c: char) -> int {
    c as int
}

/// The decimal digit character for `d`, for `d < 10`.
pub open spec fn digit_char(d: nat) -> char {
    ((d + 48) as u8) as char
}

/// The decimal numeral of `n`, most significant digit first, without padding.
pub open spec fn decimal_digits(n: nat) -> Seq<char>
    decreases n,
{
    if n < 10 {
        seq![digit_char(n)]
    } else {
        decimal_digits(n / 10).push(digit_char(n % 10))
    }
}

/// Trusted: `u64`'s `to_string` from std, which writes the number in decimal
/// without sign, padding or separators.
#[verifier::external_body]
pub(crate) fn u64_to_decimal(n: u64) -> (r: String)
    ensures
        r@ == decimal_digits(n as nat),
{
    n.to_string()
}

/// `text` with every non-overlapping occurrence of `pattern`, found from the
/// left, replaced by `with`.
pub open spec fn replaced(text: Seq<char>, pattern: Seq<char>, with: Seq<char>) -> Seq<char>
    decreases text.len(),
{
    if pattern.len() == 0 || text.len() < pattern.len() {
        text
    } else if text.subrange(0, pattern.len() as int) == pattern {
        with + replaced(text.subrange(pattern.len() as int, text.len() as int), pattern, with)
    } else {
        seq![text[0]] + replaced(text.subrange(1, text.len() as int), pattern, with)
    }
}

/// Trusted: `str::replace` from std with the pattern `%DATE%`: every match,
/// taken from the left without overlap, is replaced by `date`.
#[verifier::external_body]
pub(crate) fn expand_date(template: &str, date: &str) -> (r: String)
    ensures
        r@ == replaced(template@, "%DATE%"@, date@),
{
    template.replace("%DATE%", date)
}

} // verus!
