use vstd::prelude::*;

use crate::reading::Reading;
use crate::scale::{scale_of_char, Scale};

verus! {

/// Why an input string is not a temperature reading.
#[derive(Clone, Debug, PartialEq, Eq)]
pub enum ParseError {
    /// The input has no characters.
    EmptyInput,
    /// The number part is not a number and holds a space.
    ContainsSpace,
    /// The number part (carried here) is not a number.
    InvalidNumber(String),
    /// The number is fine but the last character (carried here) is no scale
    /// letter.
    UnknownScale(char),
}

/// The mathematical form of a `ParseError`.
pub enum Rejection {
    EmptyInput,
    ContainsSpace,
    InvalidNumber(Seq<char>),
    UnknownScale(char),
}

impl View for ParseError {
    type V = Rejection;

    open spec fn view(&self) -> Rejection {
        match self {
            ParseError::EmptyInput => Rejection::EmptyInput,
            ParseError::ContainsSpace => Rejection::ContainsSpace,
            ParseError::InvalidNumber(t) => Rejection::InvalidNumber(t@),
            ParseError::UnknownScale(c) => Rejection::UnknownScale(*c),
        }
    }
}

/// The text that reports a rejection to the user.
pub open spec fn message_of(r: Rejection) -> Seq<char> {
    match r {
        Rejection::EmptyInput => "empty input"@,
        Rejection::ContainsSpace => "invalid entry: contains space"@,
        Rejection::InvalidNumber(t) => "invalid number "@ + t,
        Rejection::UnknownScale(c) => "unknown scale "@.push(c),
    }
}

/// Relies on `String::push`: the character is appended at the end.
#[verifier::external_body]
fn push_char(s: &mut String, c: char)
    ensures
        final(s)@ == old(s)@.push(c),
{
    s.push(c);
}

impl ParseError {
    /// The human-readable text of the error, e.g. `invalid number 10qwe` or
    /// `unknown scale t`.
    pub fn message(&self) -> (r: String)
        ensures
            r@ == message_of(self@),
    {
        match self {
            ParseError::EmptyInput => String::from_str("empty input"),
            ParseError::ContainsSpace => String::from_str("invalid entry: contains space"),
            ParseError::InvalidNumber(t) => {
                let mut m = String::from_str("invalid number ");
                m.append(t.as_str());
                m
            },
            ParseError::UnknownScale(c) => {
                let mut m = String::from_str("unknown scale ");
                push_char(&mut m, *c);
                m
            },
        }
    }
}

/// The part of an input that holds the number: every character but the last.
pub open spec fn number_text(input: Seq<char>) -> Seq<char> {
    if input.len() == 0 {
        Seq::empty()
    } else {
        input.drop_last()
    }
}

/// What parsing `input` gives, where `number` is the outcome of reading
/// `number_text(input)` as a number: the empty input is refused first, then a
/// number part that is not a number, then an unknown scale letter.
pub open spec fn parse_spec<V>(input: Seq<char>, number: Option<V>) -> Result<Reading<V>, Rejection> {
    if input.len() == 0 {
        Err(Rejection::EmptyInput)
    } else {
        match number {
            None => if input.drop_last().contains(' ') {
                Err(Rejection::ContainsSpace)
            } else {
                Err(Rejection::InvalidNumber(input.drop_last()))
            },
            Some(value) => match scale_of_char(input.last()) {
                Some(scale) => Ok(Reading { scale, value }),
                None => Err(Rejection::UnknownScale(input.last())),
            },
        }
    }
}

/// A parse result with its error in mathematical form.
pub open spec fn outcome_view<V>(r: Result<Reading<V>, ParseError>) -> Result<Reading<V>, Rejection> {
    match r {
        Ok(reading) => Ok(reading),
        Err(e) => Err(e@),
    }
}

/// The number part of `input`: all its characters but the last (empty for the
/// empty input). This is the text that the caller reads as a number before
/// calling `parse_temp_input`.
pub fn numeric_part(input: &str) -> (r: String)
    ensures
        r@ == number_text(input@),
{
    let n = input.unicode_len();
    if n == 0 {
        String::new()
    } else {
        String::from_str(input.substring_char(0, n - 1))
    }
}

/// Whether `s` holds a space character.
fn has_space(s: &str) -> (r: bool)
    ensures
        r == s@.contains(' '),
{
    let n = s.unicode_len();
    let mut i: usize = 0;
    while i < n
        invariant
            n == s@.len(),
            i <= n,
            forall|j: int| 0 <= j < i ==> s@[j] != ' ',
        decreases n - i,
    {
        if s.get_char(i) == ' ' {
            assert(s@[i as int] == ' ');
            return true;
        }
        i += 1;
    }
    false
}

/// Parses `<number><scale letter>`, e.g. `-10.5C`. `number` is the outcome of
/// reading `numeric_part(input)` as a number: `Some` of the value, or `None`
/// where that text is not a number.
///
/// The empty input gives `EmptyInput`. Otherwise, where the number part is not
/// a number, the result is `ContainsSpace` if that part holds a space and
/// `InvalidNumber` with that part if not. Otherwise the last character decides:
/// `c`, `f` or `k` in either case gives the reading of `number`'s value in
/// Celsius, Fahrenheit or Kelvin, and any other character gives
/// `UnknownScale` with that character.
pub fn parse_temp_input<V>(input: &str, number: Option<V>) -> (r: Result<Reading<V>, ParseError>)
    ensures
        outcome_view(r) == parse_spec(input@, number),
{
    let n = input.unicode_len();
    if n == 0 {
        return Err(ParseError::EmptyInput);
    }
    let digits = input.substring_char(0, n - 1);
    assert(digits@ == input@.drop_last());
    let value = match number {
        Some(v) => v,
        None => {
            if has_space(digits) {
                return Err(ParseError::ContainsSpace);
            } else {
                return Err(ParseError::InvalidNumber(String::from_str(digits)));
            }
        },
    };
    let last = input.get_char(n - 1);
    match Scale::from_char(last) {
        Some(scale) => Ok(Reading { scale, value }),
        None => Err(ParseError::UnknownScale(last)),
    }
}

/// The scale letter is read without regard to case: an input that ends in `c`
/// parses exactly as the same input ending in `C`, and likewise for `f` and
/// `F` and for `k` and `K`.
pub proof fn scale_letter_case_is_ignored<V>(digits: Seq<char>, number: Option<V>)
    ensures
        parse_spec(digits.push('c'), number) == parse_spec(digits.push('C'), number),
        parse_spec(digits.push('f'), number) == parse_spec(digits.push('F'), number),
        parse_spec(digits.push('k'), number) == parse_spec(digits.push('K'), number),
{
    assert(digits.push('c').drop_last() =~= digits);
    assert(digits.push('C').drop_last() =~= digits);
    assert(digits.push('f').drop_last() =~= digits);
    assert(digits.push('F').drop_last() =~= digits);
    assert(digits.push('k').drop_last() =~= digits);
    assert(digits.push('K').drop_last() =~= digits);
}

/// The number part enters the result only through the number read from it:
/// two inputs with the same last character whose number parts both read as
/// the same number parse to the same reading. So `-0C`, once its number is
/// read as zero, parses exactly as `0C`.
pub proof fn same_number_same_reading<V>(a: Seq<char>, b: Seq<char>, last: char, value: V)
    ensures
        parse_spec(a.push(last), Some(value)) == parse_spec(b.push(last), Some(value)),
        parse_spec(a.push(last), Some(value)) is Ok <==> scale_of_char(last) is Some,
{
    assert(a.push(last).last() == last);
    assert(b.push(last).last() == last);
}

} // verus!
