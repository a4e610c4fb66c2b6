//! The executable time parser.
//!
//! `TimeParser::parse` (and the free function [`time`]) turn a clock-time
//! string into the number of minutes elapsed since midnight, `0..=1439`,
//! exactly as [`crate::grammar::spec_parse`] describes: the full 12-hour,
//! full 24-hour and short productions are tried in that order, and only an
//! input that one of them consumes in its entirety is accepted.

use vstd::prelude::*;

use crate::grammar::digit_val;
use crate::grammar::full12_val;
use crate::grammar::full24_val;
use crate::grammar::is_digit;
use crate::grammar::is_full12;
use crate::grammar::is_full24;
use crate::grammar::is_hour12_one;
use crate::grammar::is_hour12_two;
use crate::grammar::is_hour24_one;
use crate::grammar::is_hour24_two;
use crate::grammar::is_meridiem_pair;
use crate::grammar::is_minute_pair;
use crate::grammar::is_short;
use crate::grammar::meridiem_of;
use crate::grammar::short_val;
use crate::grammar::spec_hour12_to_24;
use crate::grammar::spec_parse;
use crate::grammar::Meridiem;

verus! {

/// Rejection of an input that matches none of the recognised time formats.
#[derive(Clone, Copy, Debug, PartialEq, Eq, Structural)]
pub enum ParseError {
    MalformedTime,
}

/// `c` is a decimal digit `0`..`9`.
fn digit_char(c: char) -> (r: bool)
    ensures
        r == is_digit(c),
{
    let u = c as u32;
    48 <= u && u <= 57
}

/// Numeric value of a decimal digit character.
fn digit(c: char) -> (r: u32)
    requires
        is_digit(c),
    ensures
        r == digit_val(c),
        r <= 9,
{
    c as u32 - 48
}

/// `c` spells a one-digit `Hour12` token.
fn hour12_one_char(c: char) -> (r: bool)
    ensures
        r == is_hour12_one(c),
{
    let u = c as u32;
    49 <= u && u <= 57
}

/// `c0 c1` spell a two-digit `Hour12` token.
fn hour12_two_chars(c0: char, c1: char) -> (r: bool)
    ensures
        r == is_hour12_two(c0, c1),
{
    let u = c1 as u32;
    c0 == '1' && 48 <= u && u <= 50
}

/// `c0 c1` spell a two-digit `Hour24` token.
fn hour24_two_chars(c0: char, c1: char) -> (r: bool)
    ensures
        r == is_hour24_two(c0, c1),
{
    let u = c1 as u32;
    (c0 == '1' && digit_char(c1)) || (c0 == '2' && 48 <= u && u <= 51)
}

/// `c0 c1` spell a `Minute` token.
fn minute_chars(c0: char, c1: char) -> (r: bool)
    ensures
        r == is_minute_pair(c0, c1),
{
    let u = c0 as u32;
    48 <= u && u <= 53 && digit_char(c1)
}

/// `c0 c1` spell a `Meridiem` token.
fn meridiem_chars(c0: char, c1: char) -> (r: bool)
    ensures
        r == is_meridiem_pair(c0, c1),
{
    (c0 == 'A' || c0 == 'P') && c1 == 'M'
}

/// The marker a meridiem token starting with `c0` denotes.
fn meridiem_from(c0: char) -> (r: Meridiem)
    ensures
        r == meridiem_of(c0),
{
    if c0 == 'P' {
        Meridiem::Pm
    } else {
        Meridiem::Am
    }
}

/// Matches the full 12-hour production `Hour12 ":" Minute Meridiem` against
/// the whole of `s`.
fn full12_time(s: &str) -> (r: Option<u32>)
    ensures
        match r {
            Some(v) => is_full12(s@) && v == full12_val(s@),
            None => !is_full12(s@),
        },
{
    let n = s.unicode_len();
    if n == 6 {
        let c0 = s.get_char(0);
        let c1 = s.get_char(1);
        let c2 = s.get_char(2);
        let c3 = s.get_char(3);
        let c4 = s.get_char(4);
        let c5 = s.get_char(5);
        if hour12_one_char(c0) && c1 == ':' && minute_chars(c2, c3) && meridiem_chars(c4, c5) {
            let hour = TimeParser::hour12_to_24(digit(c0), meridiem_from(c4));
            Some(hour * 60 + 10 * digit(c2) + digit(c3))
        } else {
            None
        }
    } else if n == 7 {
        let c0 = s.get_char(0);
        let c1 = s.get_char(1);
        let c2 = s.get_char(2);
        let c3 = s.get_char(3);
        let c4 = s.get_char(4);
        let c5 = s.get_char(5);
        let c6 = s.get_char(6);
        if hour12_two_chars(c0, c1) && c2 == ':' && minute_chars(c3, c4) && meridiem_chars(
            c5,
            c6,
        ) {
            let hour = TimeParser::hour12_to_24(10 + digit(c1), meridiem_from(c5));
            Some(hour * 60 + 10 * digit(c3) + digit(c4))
        } else {
            None
        }
    } else {
        None
    }
}

/// Matches the full 24-hour production `Hour24 ":" Minute` against the whole
/// of `s`.
fn full24_time(s: &str) -> (r: Option<u32>)
    ensures
        match r {
            Some(v) => is_full24(s@) && v == full24_val(s@),
            None => !is_full24(s@),
        },
{
    let n = s.unicode_len();
    if n == 4 {
        let c0 = s.get_char(0);
        let c1 = s.get_char(1);
        let c2 = s.get_char(2);
        let c3 = s.get_char(3);
        if digit_char(c0) && c1 == ':' && minute_chars(c2, c3) {
            Some(digit(c0) * 60 + 10 * digit(c2) + digit(c3))
        } else {
            None
        }
    } else if n == 5 {
        let c0 = s.get_char(0);
        let c1 = s.get_char(1);
        let c2 = s.get_char(2);
        let c3 = s.get_char(3);
        let c4 = s.get_char(4);
        if hour24_two_chars(c0, c1) && c2 == ':' && minute_chars(c3, c4) {
            Some((10 * digit(c0) + digit(c1)) * 60 + 10 * digit(c3) + digit(c4))
        } else {
            None
        }
    } else {
        None
    }
}

/// Matches the short production `Hour12 Meridiem` against the whole of `s`.
fn short_time(s: &str) -> (r: Option<u32>)
    ensures
        match r {
            Some(v) => is_short(s@) && v == short_val(s@),
            None => !is_short(s@),
        },
{
    let n = s.unicode_len();
    if n == 3 {
        let c0 = s.get_char(0);
        let c1 = s.get_char(1);
        let c2 = s.get_char(2);
        if hour12_one_char(c0) && meridiem_chars(c1, c2) {
            Some(TimeParser::hour12_to_24(digit(c0), meridiem_from(c1)) * 60)
        } else {
            None
        }
    } else if n == 4 {
        let c0 = s.get_char(0);
        let c1 = s.get_char(1);
        let c2 = s.get_char(2);
        let c3 = s.get_char(3);
        if hour12_two_chars(c0, c1) && meridiem_chars(c2, c3) {
            Some(TimeParser::hour12_to_24(10 + digit(c1), meridiem_from(c2)) * 60)
        } else {
            None
        }
    } else {
        None
    }
}

/// The time parser. It holds no state: parsing is a pure function of the
/// input string.
pub struct TimeParser {}

impl TimeParser {
    /// Builds a parser.
    pub fn new() -> (r: Self) {
        TimeParser {}
    }

    /// Converts a 12-hour reading to its 24-hour hour: `12AM` is hour 0,
    /// `12PM` is hour 12, and every other PM hour gains 12.
    pub fn hour12_to_24(hour: u32, meridiem: Meridiem) -> (r: u32)
        requires
            1 <= hour <= 12,
        ensures
            r == spec_hour12_to_24(hour as int, meridiem),
            r <= 23,
    {
        match (meridiem, hour) {
            (Meridiem::Am, 12) => 0,
            (Meridiem::Am, _) => hour,
            (Meridiem::Pm, 12) => 12,
            (Meridiem::Pm, _) => hour + 12,
        }
    }

    /// Parses a clock-time string into minutes since midnight.
    ///
    /// Returns `Some(v)` exactly when the whole of `time_str` spells one of
    /// the three recognised productions, with `v` the minutes that production
    /// denotes; any other input yields `None`.
    pub fn parse(&self, time_str: &str) -> (r: Option<u32>)
        ensures
            match r {
                Some(v) => spec_parse(time_str@) == Some(v as int) && v <= 1439,
                None => spec_parse(time_str@) is None,
            },
    {
        match full12_time(time_str) {
            Some(v) => Some(v),
            None => match full24_time(time_str) {
                Some(v) => Some(v),
                None => short_time(time_str),
            },
        }
    }
}

/// Parses a clock-time string into minutes since midnight, reporting
/// rejection as an error value.
///
/// Returns `Ok(v)` exactly when the whole of `s` spells one of the three
/// recognised productions, with `v` the minutes that production denotes;
/// any other input yields `Err(ParseError::MalformedTime)`.
pub fn time(s: &str) -> (r: Result<u32, ParseError>)
    ensures
        match r {
            Ok(v) => spec_parse(s@) == Some(v as int) && v <= 1439,
            Err(e) => spec_parse(s@) is None && e == ParseError::MalformedTime,
        },
{
    let parser = TimeParser::new();
    match parser.parse(s) {
        Some(v) => Ok(v),
        None => Err(ParseError::MalformedTime),
    }
}

} // verus!
