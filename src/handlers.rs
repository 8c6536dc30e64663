use vstd::prelude::*;

verus! {

/// Why a handler refused its (well-typed) arguments.
#[derive(Clone, Copy, Debug, PartialEq, Eq, Structural)]
pub enum HandlerError {
    /// The text is not a decimal integer that an `i32` can hold.
    NotAnInteger,
    /// The sum does not fit in an `i32`.
    Overflow,
}

/// The upper-case form of a text, as std's Unicode case mapping gives it.
pub uninterp spec fn upper_of(s: Seq<char>) -> Seq<char>;

pub open spec fn is_digit(c: char) -> bool {
    '0' <= c && c <= '9'
}

pub open spec fn all_digits(d: Seq<char>) -> bool {
    forall|i: int| 0 <= i < d.len() ==> is_digit(#[trigger] d[i])
}

/// The number that a sequence of decimal digits writes.
pub open spec fn digits_value(d: Seq<char>) -> int
    decreases d.len(),
{
    if d.len() == 0 {
        0
    } else {
        digits_value(d.drop_last()) * 10 + (d.last() as int - '0' as int)
    }
}

/// The number that an optional sign followed by one or more decimal digits writes.
pub open spec fn decimal_value(s: Seq<char>) -> Option<int> {
    if s.len() > 0 && (s[0] == '-' || s[0] == '+') {
        let d = s.subrange(1, s.len() as int);
        if d.len() > 0 && all_digits(d) {
            Some(if s[0] == '-' { -digits_value(d) } else { digits_value(d) })
        } else {
            None
        }
    } else if s.len() > 0 && all_digits(s) {
        Some(digits_value(s))
    } else {
        None
    }
}

/// What parsing `s` as an `i32` gives: the number it writes, if an `i32` holds it.
pub open spec fn parse_i32_spec(s: Seq<char>) -> Option<i32> {
    match decimal_value(s) {
        Some(v) => if i32::MIN <= v <= i32::MAX {
            Some(v as i32)
        } else {
            None
        },
        None => None,
    }
}

/// Relies on `str::to_uppercase`: the result depends on the characters alone,
/// and an empty text stays empty.
#[verifier::external_body]
fn str_to_uppercase(s: &str) -> (r: String)
    ensures
        r@ == upper_of(s@),
        s@.len() == 0 ==> r@.len() == 0,
{
    s.to_uppercase()
}

/// Relies on `<i32 as FromStr>::from_str`: an optional `+` or `-`, then one or
/// more ASCII digits, whose value an `i32` holds; anything else is an error.
#[verifier::external_body]
fn str_parse_i32(s: &str) -> (r: Option<i32>)
    ensures
        r == parse_i32_spec(s@),
{
    s.parse::<i32>().ok()
}

/// The upper-case form of `s`.
pub fn to_uppercase(s: &String) -> (r: String)
    ensures
        r@ == upper_of(s@),
{
    str_to_uppercase(s.as_str())
}

/// The sum of two integers; an error where it does not fit in an `i32`.
pub fn add_int(a: i32, b: i32) -> (r: Result<i32, HandlerError>)
    ensures
        i32::MIN <= a + b <= i32::MAX ==> r == Ok::<i32, HandlerError>((a + b) as i32),
        !(i32::MIN <= a + b <= i32::MAX) ==> r == Err::<i32, HandlerError>(HandlerError::Overflow),
{
    match a.checked_add(b) {
        Some(s) => Ok(s),
        None => Err(HandlerError::Overflow),
    }
}

/// The integer that `s` writes in decimal.
pub fn parse_int(s: &String) -> (r: Result<i32, HandlerError>)
    ensures
        parse_i32_spec(s@) matches Some(v) ==> r == Ok::<i32, HandlerError>(v),
        parse_i32_spec(s@) is None ==> r == Err::<i32, HandlerError>(HandlerError::NotAnInteger),
{
    match str_parse_i32(s.as_str()) {
        Some(v) => Ok(v),
        None => Err(HandlerError::NotAnInteger),
    }
}

} // verus!
