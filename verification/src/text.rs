use vstd::prelude::*;

verus! {

/// The character that writes the digit `digit`.
pub open spec fn digit_char(digit: int) -> char {
    (('0' as int) + digit) as char
}

/// Whether `c` is one of the ten ASCII digits.
pub open spec fn is_digit(c: char) -> bool {
    ('0' as int) <= (c as int) <= ('9' as int)
}

/// The decimal numeral of `n`, without sign or leading zeros.
pub open spec fn decimal(n: nat) -> Seq<char>
    decreases n,
{
    if n < 10 {
        seq![digit_char(n as int)]
    } else {
        decimal(n / 10).push(digit_char((n % 10) as int))
    }
}

/// The number that a run of digits writes in base ten.
pub open spec fn digits_value(digits: Seq<char>) -> nat
    decreases digits.len(),
{
    if digits.len() == 0 {
        0
    } else {
        (digits_value(digits.drop_last()) * 10 + ((digits.last() as int) - ('0' as int))) as nat
    }
}

/// The `u32` that a text writes: an optional `+`, then one or more digits
/// and nothing else, with a value that fits.
pub open spec fn decimal_u32(text: Seq<char>) -> Option<u32> {
    let digits = if text.len() > 0 && text[0] == '+' {
        text.skip(1)
    } else {
        text
    };
    if digits.len() > 0 && (forall|i: int| 0 <= i < digits.len() ==> is_digit(digits[i]))
        && digits_value(digits) <= u32::MAX {
        Some(digits_value(digits) as u32)
    } else {
        None
    }
}

/// The text in lower case, as the standard library turns it.
pub uninterp spec fn lowercase(text: Seq<char>) -> Seq<char>;

/// Whether `query` occurs in `text` as a run of characters.
pub open spec fn contains_text(text: Seq<char>, query: Seq<char>) -> bool {
    exists|start: int|
        0 <= start <= text.len() - query.len() && #[trigger] text.subrange(
            start,
            start + query.len(),
        ) == query
}

/// `str::to_lowercase` of the standard library: the result depends on the
/// text alone.
#[verifier::external_body]
pub(crate) fn to_lowercase(text: &str) -> (lower: String)
    ensures
        lower@ == lowercase(text@),
{
    text.to_lowercase()
}

/// `str::contains` of the standard library with a string slice as the
/// pattern: whether the pattern occurs in the text.
#[verifier::external_body]
pub(crate) fn str_contains(text: &str, query: &str) -> (found: bool)
    ensures
        found == contains_text(text@, query@),
{
    text.contains(query)
}

/// Equality of string slices, `==` on `str` of the standard library: two
/// slices are equal exactly when they hold the same characters.
#[verifier::external_body]
pub(crate) fn str_eq(a: &str, b: &str) -> (same: bool)
    ensures
        same == (a@ == b@),
{
    a == b
}

/// `str::parse::<u32>` of the standard library, its error dropped: the text
/// is read as [`decimal_u32`] says, which is how the library documents the
/// parsing of unsigned integers in base ten.
#[verifier::external_body]
pub(crate) fn parse_u32(text: &str) -> (number: Option<u32>)
    ensures
        number == decimal_u32(text@),
{
    text.parse::<u32>().ok()
}

/// `to_string` of the standard library on a `u64`: the number's decimal
/// numeral, as `Display` for integers writes it.
#[verifier::external_body]
pub(crate) fn u64_to_string(n: u64) -> (text: String)
    ensures
        text@ == decimal(n as nat),
{
    n.to_string()
}

} // verus!
