//! Durations as they are typed: hours, minutes and seconds, each a whole
//! number followed by its unit, in that order and each at most once, as in
//! `1h30m` or `45s`.

use crate::clock::{clamp_nanos, duration_nanos, span};
use std::num::ParseIntError;
use std::time::Duration;
use vstd::prelude::*;
use vstd::string::*;

verus! {

/// `std::num::ParseIntError`, the error of `str::parse` for an integer. It is
/// carried along and never looked into.
#[verifier::external_type_specification]
#[verifier::external_body]
pub struct ExParseIntError(ParseIntError);

/// Why a text is no duration.
#[derive(Debug, PartialEq)]
pub enum ParseTimeError {
    /// The text before a unit is not a whole number that fits 64 bits.
    IntError(ParseIntError),
    /// Text is left over after the units; the variant holds it.
    InvalidUnit(String),
    /// The text before a unit holds a letter; the variant holds that text.
    InvalidChar(String),
}

/// A parse error without the cause that the standard library reports.
pub enum ParseFailure {
    IntError,
    InvalidUnit(Seq<char>),
    InvalidChar(Seq<char>),
}

impl View for ParseTimeError {
    type V = ParseFailure;

    open spec fn view(&self) -> ParseFailure {
        match self {
            ParseTimeError::IntError(_) => ParseFailure::IntError,
            ParseTimeError::InvalidUnit(rest) => ParseFailure::InvalidUnit(rest@),
            ParseTimeError::InvalidChar(text) => ParseFailure::InvalidChar(text@),
        }
    }
}

/// Whether a character is white space: one of the code points that have the
/// Unicode property `White_Space`.
pub open spec fn is_white_space(c: char) -> bool {
    ||| '\u{9}' <= c <= '\u{d}'
    ||| c == '\u{20}'
    ||| c == '\u{85}'
    ||| c == '\u{a0}'
    ||| c == '\u{1680}'
    ||| '\u{2000}' <= c <= '\u{200a}'
    ||| c == '\u{2028}'
    ||| c == '\u{2029}'
    ||| c == '\u{202f}'
    ||| c == '\u{205f}'
    ||| c == '\u{3000}'
}

/// Whether a character is a letter of the basic Latin alphabet.
pub open spec fn is_ascii_letter(c: char) -> bool {
    'a' <= c <= 'z' || 'A' <= c <= 'Z'
}

/// Whether a character has the Unicode property `Alphabetic`.
pub uninterp spec fn char_is_alphabetic(c: char) -> bool;

/// Whether a character is alphabetic. Up to U+007F the letters of the basic
/// Latin alphabet are, and nothing else is.
pub open spec fn is_letter(c: char) -> bool {
    if c <= '\u{7f}' {
        is_ascii_letter(c)
    } else {
        char_is_alphabetic(c)
    }
}

/// `char::is_whitespace` tells whether the character has the property
/// `White_Space`, which the code points of [`is_white_space`] have and no
/// others.
pub assume_specification[ char::is_whitespace ](c: char) -> (b: bool)
    ensures
        b == is_white_space(c),
;

/// `char::is_alphabetic` tells whether the character has the property
/// `Alphabetic`. Up to U+007F the letters `a` to `z` and `A` to `Z` have it
/// and nothing else has.
pub assume_specification[ char::is_alphabetic ](c: char) -> (b: bool)
    ensures
        c <= '\u{7f}' ==> b == is_ascii_letter(c),
        c > '\u{7f}' ==> b == char_is_alphabetic(c),
;

/// Whether a character is one of the decimal digits `0` to `9`.
pub open spec fn is_digit(c: char) -> bool {
    '0' <= c && c <= '9'
}

/// The number that a decimal digit stands for.
pub open spec fn digit_value(c: char) -> nat {
    (c as u32 - '0' as u32) as nat
}

/// The number that a run of decimal digits writes.
pub open spec fn digits_value(digits: Seq<char>) -> nat
    decreases digits.len(),
{
    if digits.len() == 0 {
        0
    } else {
        digits_value(digits.drop_last()) * 10 + digit_value(digits.last())
    }
}

/// A number's text without the `+` that may stand in front of it.
pub open spec fn unsigned(text: Seq<char>) -> Seq<char> {
    if text.len() > 0 && text[0] == '+' {
        text.drop_first()
    } else {
        text
    }
}

/// Whether `text` writes a number that fits 64 bits: at least one decimal
/// digit and nothing else, but for one `+` in front.
pub open spec fn is_number(text: Seq<char>) -> bool {
    &&& unsigned(text).len() > 0
    &&& forall|i: int| 0 <= i < unsigned(text).len() ==> is_digit(#[trigger] unsigned(text)[i])
    &&& digits_value(unsigned(text)) <= u64::MAX
}

/// The number that `text` writes, where it writes one.
pub open spec fn number_value(text: Seq<char>) -> nat {
    digits_value(unsigned(text))
}

/// `str::parse::<u64>` reads an optional `+` and then decimal digits. It
/// gives the number written when that is all the text holds, there is at
/// least one digit and the number fits, and an error otherwise.
#[verifier::external_body]
fn parse_u64(text: &str) -> (r: Result<u64, ParseIntError>)
    ensures
        match r {
            Ok(v) => is_number(text@) && v == number_value(text@),
            Err(_) => !is_number(text@),
        },
{
    text.parse::<u64>()
}

/// A text without the white space at its start.
pub open spec fn trim_start(s: Seq<char>) -> Seq<char>
    decreases s.len(),
{
    if s.len() > 0 && is_white_space(s[0]) {
        trim_start(s.drop_first())
    } else {
        s
    }
}

/// A text without the white space at its end.
pub open spec fn trim_end(s: Seq<char>) -> Seq<char>
    decreases s.len(),
{
    if s.len() > 0 && is_white_space(s.last()) {
        trim_end(s.drop_last())
    } else {
        s
    }
}

/// A text without the white space at its two ends.
pub open spec fn trimmed(s: Seq<char>) -> Seq<char> {
    trim_end(trim_start(s))
}

/// Whether `at` is the first place in `s` where `c` stands.
pub open spec fn is_first(s: Seq<char>, c: char, at: int) -> bool {
    &&& 0 <= at < s.len()
    &&& s[at] == c
    &&& forall|j: int| 0 <= j < at ==> s[j] != c
}

/// The first place in `s` where `c` stands, where it stands at all.
pub open spec fn first_index(s: Seq<char>, c: char) -> int {
    choose|at: int| is_first(s, c, at)
}

/// Whether any character of `text` is alphabetic.
pub open spec fn has_letter(text: Seq<char>) -> bool {
    exists|i: int| 0 <= i < text.len() && is_letter(#[trigger] text[i])
}

/// The seconds in one of a unit: in an hour for `h`, in a minute for `m`,
/// and one otherwise.
pub open spec fn unit_seconds(unit: char) -> nat {
    if unit == 'h' {
        3600
    } else if unit == 'm' {
        60
    } else {
        1
    }
}

/// One unit read from the front of `s`: the seconds it stands for and the
/// text after it. A text without the unit gives no seconds and stays whole.
/// Otherwise what stands before the first occurrence of the unit must be a
/// number.
pub open spec fn segment(s: Seq<char>, unit: char) -> Result<(nat, Seq<char>), ParseFailure> {
    if !s.contains(unit) {
        Ok((0, s))
    } else {
        let at = first_index(s, unit);
        let text = s.subrange(0, at);
        let rest = s.subrange(at + 1, s.len() as int);
        if is_number(text) {
            Ok((number_value(text) * unit_seconds(unit), rest))
        } else if has_letter(text) {
            Err(ParseFailure::InvalidChar(text))
        } else {
            Err(ParseFailure::IntError)
        }
    }
}

/// The seconds that a text without white space at its ends stands for: its
/// hours, minutes and seconds in this order, with nothing left over.
pub open spec fn units(s: Seq<char>) -> Result<nat, ParseFailure> {
    match segment(s, 'h') {
        Err(e) => Err(e),
        Ok((hours, after_hours)) => match segment(after_hours, 'm') {
            Err(e) => Err(e),
            Ok((minutes, after_minutes)) => match segment(after_minutes, 's') {
                Err(e) => Err(e),
                Ok((seconds, rest)) => if rest.len() == 0 {
                    Ok(hours + minutes + seconds)
                } else {
                    Err(ParseFailure::InvalidUnit(rest))
                },
            },
        },
    }
}

/// Whether `r` is the duration, or the error, that `expected` describes. A
/// duration beyond the longest representable one is that longest one.
pub open spec fn reads_as(r: Result<Duration, ParseTimeError>, expected: Result<nat, ParseFailure>)
    -> bool {
    match expected {
        Ok(seconds) => r matches Ok(d) && duration_nanos(d) == clamp_nanos(
            seconds * 1_000_000_000,
        ),
        Err(failure) => r matches Err(e) && e@ == failure,
    }
}

fn find(text: &str, unit: char) -> (at: Option<usize>)
    ensures
        match at {
            Some(i) => is_first(text@, unit, i as int),
            None => !text@.contains(unit),
        },
{
    let n = text.unicode_len();
    let mut i: usize = 0;
    while i < n
        invariant
            n == text@.len(),
            i <= n,
            forall|j: int| 0 <= j < i ==> text@[j] != unit,
        decreases n - i,
    {
        if text.get_char(i) == unit {
            return Some(i);
        }
        i += 1;
    }
    None
}

fn any_letter(text: &str) -> (found: bool)
    ensures
        found == has_letter(text@),
{
    let n = text.unicode_len();
    let mut i: usize = 0;
    while i < n
        invariant
            n == text@.len(),
            i <= n,
            forall|j: int| 0 <= j < i ==> !is_letter(#[trigger] text@[j]),
        decreases n - i,
    {
        if text.get_char(i).is_alphabetic() {
            return true;
        }
        i += 1;
    }
    false
}

/// The error for a text that stands before a unit and is no number: it names
/// the text if that holds a letter, and passes on the cause otherwise.
pub fn number_error(text: &str, letter: bool, cause: ParseIntError) -> (e: ParseTimeError)
    ensures
        letter ==> e@ == ParseFailure::InvalidChar(text@),
        !letter ==> e@ == ParseFailure::IntError,
        !letter ==> e == ParseTimeError::IntError(cause),
{
    if letter {
        ParseTimeError::InvalidChar(String::from_str(text))
    } else {
        ParseTimeError::IntError(cause)
    }
}

/// Reads one unit from the front of `input`.
pub fn do_parse(input: &str, unit: char) -> (r: Result<(Duration, &str), ParseTimeError>)
    requires
        unit == 'h' || unit == 'm' || unit == 's',
    ensures
        match segment(input@, unit) {
            Ok((seconds, rest)) => r matches Ok((d, after)) && after@ == rest && duration_nanos(d)
                == clamp_nanos(seconds * 1_000_000_000),
            Err(failure) => r matches Err(e) && e@ == failure,
        },
{
    match find(input, unit) {
        Some(at) => {
            let n = input.unicode_len();
            let time = input.substring_char(0, at);
            let rest = input.substring_char(at + 1, n);
            match parse_u64(time) {
                Ok(value) => {
                    let seconds: u128 = if unit == 'h' {
                        (value as u128) * 3600
                    } else if unit == 'm' {
                        (value as u128) * 60
                    } else {
                        value as u128
                    };
                    Ok((span(seconds * 1_000_000_000), rest))
                },
                Err(cause) => Err(number_error(time, any_letter(time), cause)),
            }
        },
        None => Ok((Duration::new(0, 0), input)),
    }
}

/// Reads a duration from a text that has no white space at its ends.
pub fn parse_trimmed(text: &str) -> (r: Result<Duration, ParseTimeError>)
    ensures
        reads_as(r, units(text@)),
{
    let (hours, after_hours) = match do_parse(text, 'h') {
        Ok(pair) => pair,
        Err(e) => { return Err(e); },
    };
    let (minutes, after_minutes) = match do_parse(after_hours, 'm') {
        Ok(pair) => pair,
        Err(e) => { return Err(e); },
    };
    let (seconds, rest) = match do_parse(after_minutes, 's') {
        Ok(pair) => pair,
        Err(e) => { return Err(e); },
    };
    if rest.unicode_len() == 0 {
        Ok(span(hours.as_nanos() + minutes.as_nanos() + seconds.as_nanos()))
    } else {
        Err(ParseTimeError::InvalidUnit(String::from_str(rest)))
    }
}

/// The text without the white space at its two ends.
pub fn trim(text: &str) -> (inner: &str)
    ensures
        inner@ == trimmed(text@),
{
    let n = text.unicode_len();
    let mut start: usize = 0;
    assert(text@.subrange(0, n as int) =~= text@);
    while start < n && text.get_char(start).is_whitespace()
        invariant
            n == text@.len(),
            start <= n,
            trim_start(text@) == trim_start(text@.subrange(start as int, n as int)),
        decreases n - start,
    {
        proof {
            assert(text@.subrange(start as int, n as int).drop_first() =~= text@.subrange(
                start + 1,
                n as int,
            ));
        }
        start += 1;
    }
    let mut end: usize = n;
    while end > start && text.get_char(end - 1).is_whitespace()
        invariant
            n == text@.len(),
            start <= end <= n,
            trim_end(text@.subrange(start as int, n as int)) == trim_end(
                text@.subrange(start as int, end as int),
            ),
        decreases end - start,
    {
        proof {
            assert(text@.subrange(start as int, end as int).drop_last() =~= text@.subrange(
                start as int,
                end - 1,
            ));
        }
        end -= 1;
    }
    text.substring_char(start, end)
}

/// Reads a duration such as `1h30m`, `25m` or `90s`. White space around the
/// text is ignored.
pub fn parse_duration(input: &str) -> (r: Result<Duration, ParseTimeError>)
    ensures
        reads_as(r, units(trimmed(input@))),
{
    parse_trimmed(trim(input))
}

impl ParseTimeError {
    /// An error in words.
    pub open spec fn message(failure: ParseFailure) -> Seq<char> {
        match failure {
            ParseFailure::IntError => "Time must be an integer"@,
            ParseFailure::InvalidUnit(rest) => "Invalid unit format: "@ + rest,
            ParseFailure::InvalidChar(text) => "Invalid character in time format: "@ + text,
        }
    }

    /// The error in words.
    pub fn to_text(&self) -> (text: String)
        ensures
            text@ == Self::message(self@),
    {
        match self {
            ParseTimeError::IntError(_) => String::from_str("Time must be an integer"),
            ParseTimeError::InvalidUnit(rest) => String::from_str("Invalid unit format: ").concat(
                rest.as_str(),
            ),
            ParseTimeError::InvalidChar(text) => String::from_str(
                "Invalid character in time format: ",
            ).concat(text.as_str()),
        }
    }
}

} // verus!
