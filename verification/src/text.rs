//! Text renderings of the values that end up in a command's environment.
use vstd::prelude::*;
use vstd::string::*;

verus! {

/// The decimal digit character for `d` (meant for `d < 10`).
pub open spec fn digit_char(d: nat) -> char {
    ('0' as nat + d) as char
}

/// The decimal rendering of a natural number, most significant digit first,
/// with no leading zeros (and "0" for zero).
pub open spec fn decimal(n: nat) -> Seq<char>
    decreases n,
{
    if n < 10 {
        seq![digit_char(n)]
    } else {
        decimal(n / 10).push(digit_char(n % 10))
    }
}

/// The decimal rendering of an integer: a minus sign before the digits of a
/// negative number.
pub open spec fn signed_decimal(n: int) -> Seq<char> {
    if n < 0 {
        seq!['-'] + decimal((-n) as nat)
    } else {
        decimal(n as nat)
    }
}

/// The rendering of a boolean: "true" or "false".
pub open spec fn bool_text(b: bool) -> Seq<char> {
    if b {
        seq!['t', 'r', 'u', 'e']
    } else {
        seq!['f', 'a', 'l', 's', 'e']
    }
}

fn digit_text(d: u64) -> (r: &'static str)
    requires
        d < 10,
    ensures
        r@ == seq![digit_char(d as nat)],
{
    proof {
        reveal_strlit("0");
        reveal_strlit("1");
        reveal_strlit("2");
        reveal_strlit("3");
        reveal_strlit("4");
        reveal_strlit("5");
        reveal_strlit("6");
        reveal_strlit("7");
        reveal_strlit("8");
        reveal_strlit("9");
    }
    match d {
        0 => "0",
        1 => "1",
        2 => "2",
        3 => "3",
        4 => "4",
        5 => "5",
        6 => "6",
        7 => "7",
        8 => "8",
        _ => "9",
    }
}

/// The decimal text of an unsigned number, as `to_string` writes it.
pub fn u64_text(n: u64) -> (r: String)
    ensures
        r@ == decimal(n as nat),
    decreases n,
{
    if n < 10 {
        String::from_str(digit_text(n))
    } else {
        let mut s = u64_text(n / 10);
        s.append(digit_text(n % 10));
        s
    }
}

/// The decimal text of a signed number, as `to_string` writes it.
pub fn i64_text(n: i64) -> (r: String)
    ensures
        r@ == signed_decimal(n as int),
{
    if n < 0 {
        let magnitude: u64 = (0i128 - n as i128) as u64;
        let digits = u64_text(magnitude);
        proof {
            reveal_strlit("-");
        }
        let mut s = String::from_str("-");
        s.append(digits.as_str());
        s
    } else {
        u64_text(n as u64)
    }
}

/// The text of a boolean, as `to_string` writes it.
pub fn bool_to_text(b: bool) -> (r: String)
    ensures
        r@ == bool_text(b),
{
    proof {
        reveal_strlit("true");
        reveal_strlit("false");
    }
    if b {
        String::from_str("true")
    } else {
        String::from_str("false")
    }
}

/// The text `a` followed by the text `b`.
pub fn join(a: &str, b: &str) -> (r: String)
    ensures
        r@ == a@ + b@,
{
    String::from_str(a).concat(b)
}

/// The upper case of a text by the Unicode rules that `str::to_uppercase`
/// applies, which hold for every platform and locale.
pub uninterp spec fn upper_case(text: Seq<char>) -> Seq<char>;

/// Calls `str::to_uppercase`. Claimed: the result is the upper case of the
/// text and depends on nothing else; what that upper case is, character by
/// character, is left unstated.
#[verifier::external_body]
pub fn to_uppercase(text: &str) -> (r: String)
    ensures
        r@ == upper_case(text@),
{
    text.to_uppercase()
}

/// Whether two texts are equal.
pub fn text_eq(a: &str, b: &str) -> (r: bool)
    ensures
        r == (a@ == b@),
{
    String::from_str(a) == String::from_str(b)
}

} // verus!
