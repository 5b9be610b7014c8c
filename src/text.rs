//! Text helpers: substring search, case folding and the decimal forms of
//! booleans and 64-bit integers, each stated over sequences of characters.
use vstd::prelude::*;

verus! {

/// `needle` occurs in `hay` as a contiguous run of characters.
pub open spec fn is_infix(needle: Seq<char>, hay: Seq<char>) -> bool {
    exists|i: int|
        0 <= i && i + needle.len() <= hay.len() && #[trigger] hay.subrange(i, i + needle.len())
            == needle
}

/// The text `str::parse::<bool>` accepts: exactly `true` or `false`.
pub open spec fn bool_of_text(s: Seq<char>) -> Option<bool> {
    if s == seq!['t', 'r', 'u', 'e'] {
        Some(true)
    } else if s == seq!['f', 'a', 'l', 's', 'e'] {
        Some(false)
    } else {
        None
    }
}

/// The text that `bool`'s `to_string` produces.
pub open spec fn text_of_bool(b: bool) -> Seq<char> {
    if b {
        seq!['t', 'r', 'u', 'e']
    } else {
        seq!['f', 'a', 'l', 's', 'e']
    }
}

pub open spec fn is_digit(c: char) -> bool {
    '0' <= c && c <= '9'
}

pub open spec fn digit_value(c: char) -> int {
    c as int - '0' as int
}

/// The value of a run of decimal digits, most significant first.
pub open spec fn digits_value(s: Seq<char>) -> int
    decreases s.len(),
{
    if s.len() == 0 {
        0
    } else {
        digits_value(s.drop_last()) * 10 + digit_value(s.last())
    }
}

pub open spec fn all_digits(s: Seq<char>) -> bool {
    forall|i: int| 0 <= i < s.len() ==> is_digit(#[trigger] s[i])
}

/// The text `str::parse::<i64>` accepts: an optional `+` or `-`, then one or
/// more decimal digits, with a value that fits in an `i64`.
pub open spec fn i64_of_text(s: Seq<char>) -> Option<i64> {
    let signed = s.len() > 0 && (s[0] == '-' || s[0] == '+');
    let body = if signed {
        s.drop_first()
    } else {
        s
    };
    let v = if s.len() > 0 && s[0] == '-' {
        -digits_value(body)
    } else {
        digits_value(body)
    };
    if body.len() > 0 && all_digits(body) && i64::MIN <= v <= i64::MAX {
        Some(v as i64)
    } else {
        None
    }
}

/// The decimal digits of a natural number, without leading zeros.
pub open spec fn digits_of(n: nat) -> Seq<char>
    decreases n,
{
    if n < 10 {
        seq![('0' as u8 + n as u8) as char]
    } else {
        digits_of(n / 10).push(('0' as u8 + (n % 10) as u8) as char)
    }
}

/// The text that `i64`'s `to_string` produces.
pub open spec fn text_of_i64(v: i64) -> Seq<char> {
    if v < 0 {
        seq!['-'] + digits_of((-(v as int)) as nat)
    } else {
        digits_of(v as nat)
    }
}

/// What `str::to_lowercase` makes of a text.
pub uninterp spec fn lower_of(s: Seq<char>) -> Seq<char>;

/// Relies on `str::contains` with a `&str` pattern: true exactly when the
/// pattern occurs in the text.
#[verifier::external_body]
pub(crate) fn text_contains(hay: &str, needle: &str) -> (r: bool)
    ensures
        r == is_infix(needle@, hay@),
{
    hay.contains(needle)
}

/// Relies on `str::to_lowercase`: the result depends on the characters alone.
#[verifier::external_body]
pub(crate) fn lowercase(s: &str) -> (r: String)
    ensures
        r@ == lower_of(s@),
{
    s.to_lowercase()
}

/// A boolean read as `bool`'s `FromStr` reads it: `true` and `false` are
/// accepted, nothing else.
pub fn parse_bool(s: &str) -> (r: Option<bool>)
    ensures
        r == bool_of_text(s@),
{
    let t = String::from_str(s);
    let yes = String::from_str("true");
    let no = String::from_str("false");
    proof {
        reveal_strlit("true");
        reveal_strlit("false");
    }
    assert(yes@ =~= seq!['t', 'r', 'u', 'e']);
    assert(no@ =~= seq!['f', 'a', 'l', 's', 'e']);
    if t == yes {
        Some(true)
    } else if t == no {
        Some(false)
    } else {
        None
    }
}

/// Relies on `i64`'s `FromStr`: an optional sign and decimal digits, within
/// the range of `i64`.
#[verifier::external_body]
pub(crate) fn parse_i64(s: &str) -> (r: Option<i64>)
    ensures
        r == i64_of_text(s@),
{
    s.parse::<i64>().ok()
}

/// Relies on `i64`'s `Display`: a `-` for negative values, then the decimal
/// digits without leading zeros.
#[verifier::external_body]
pub(crate) fn i64_text(v: i64) -> (r: String)
    ensures
        r@ == text_of_i64(v),
{
    v.to_string()
}

/// The text of a boolean, as its `Display` writes it.
pub fn bool_text(b: bool) -> (r: String)
    ensures
        r@ == text_of_bool(b),
{
    if b {
        let s = String::from_str("true");
        proof {
            reveal_strlit("true");
        }
        s
    } else {
        let s = String::from_str("false");
        proof {
            reveal_strlit("false");
        }
        s
    }
}

} // verus!
