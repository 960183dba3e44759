use vstd::prelude::*;

verus! {

/// The text that `str::trim` leaves of `s`.
pub uninterp spec fn trimmed(s: Seq<char>) -> Seq<char>;

/// `c` is one of the decimal digits `0` to `9`.
pub open spec fn is_digit(c: char) -> bool {
    '0' <= c <= '9'
}

/// The number written by the decimal digits `d`, most significant first.
pub open spec fn digits_value(d: Seq<char>) -> nat
    decreases d.len(),
{
    if d.len() == 0 {
        0
    } else {
        digits_value(d.drop_last()) * 10 + ((d.last() as int - '0' as int) as nat)
    }
}

/// The `usize` written by `s`: an optional `+` followed by one or more
/// decimal digits, and nothing else, whose value fits in a `usize`.
pub open spec fn unsigned_value(s: Seq<char>) -> Option<usize> {
    let d = if s.len() > 0 && s[0] == '+' {
        s.drop_first()
    } else {
        s
    };
    if d.len() > 0 && (forall|i: int| 0 <= i < d.len() ==> is_digit(d[i])) && digits_value(d)
        <= usize::MAX {
        Some(digits_value(d) as usize)
    } else {
        None
    }
}

/// Relies on `str::trim`: the text without its leading and trailing
/// whitespace, which depends on the text alone.
#[verifier::external_body]
fn trim(s: &str) -> (r: &str)
    ensures
        r@ == trimmed(s@),
{
    s.trim()
}

/// Relies on `usize`'s `FromStr`, which accepts exactly an optional `+`
/// followed by decimal digits whose value fits in a `usize`.
#[verifier::external_body]
fn parse_unsigned(s: &str) -> (r: Option<usize>)
    ensures
        r == unsigned_value(s@),
{
    s.parse::<usize>().ok()
}

/// Reads one coordinate from a line of input: the number that the line
/// holds once surrounding whitespace is removed, or `None` when the line
/// holds no such number.
pub fn parse_coordinate(line: &str) -> (r: Option<usize>)
    ensures
        r == unsigned_value(trimmed(line@)),
{
    parse_unsigned(trim(line))
}

} // verus!
