//! Laws of the parser, proved over the grammar's specification functions.
//!
//! Every validly written time string is accepted with the expected value:
//! one law per production. A further law shows the three productions are
//! mutually exclusive, so their fixed priority order never decides the
//! outcome of a successful parse, and a last one bounds every accepted
//! value by the minutes of one day.

use vstd::prelude::*;

use crate::grammar::digit_val;
use crate::grammar::full12_val;
use crate::grammar::full24_val;
use crate::grammar::is_digit;
use crate::grammar::is_full12;
use crate::grammar::is_full24;
use crate::grammar::is_short;
use crate::grammar::short_val;
use crate::grammar::spec_hour12_to_24;
use crate::grammar::spec_parse;
use crate::grammar::Meridiem;

verus! {

/// The character that spells the decimal digit `d`.
pub open spec fn char_of_digit(d: int) -> char {
    if d == 0 {
        '0'
    } else if d == 1 {
        '1'
    } else if d == 2 {
        '2'
    } else if d == 3 {
        '3'
    } else if d == 4 {
        '4'
    } else if d == 5 {
        '5'
    } else if d == 6 {
        '6'
    } else if d == 7 {
        '7'
    } else if d == 8 {
        '8'
    } else {
        '9'
    }
}

/// `char_of_digit` spells the digit it is given.
proof fn lemma_char_of_digit(d: int)
    requires
        0 <= d <= 9,
    ensures
        is_digit(char_of_digit(d)),
        digit_val(char_of_digit(d)) == d,
{
}

/// How an `Hour12` value is written: `1`..`9` as one digit, `10`..`12` as
/// two, never with a leading zero.
pub open spec fn fmt_hour12(h: int) -> Seq<char>
    recommends
        1 <= h <= 12,
{
    if h <= 9 {
        seq![char_of_digit(h)]
    } else {
        seq!['1', char_of_digit(h - 10)]
    }
}

/// How an `Hour24` value is written: `0`..`9` as one digit, `10`..`23` as
/// two, never with a leading zero.
pub open spec fn fmt_hour24(h: int) -> Seq<char>
    recommends
        0 <= h <= 23,
{
    if h <= 9 {
        seq![char_of_digit(h)]
    } else {
        seq![char_of_digit(h / 10), char_of_digit(h % 10)]
    }
}

/// How a `Minute` value is written: always exactly two digits.
pub open spec fn fmt_minute(m: int) -> Seq<char>
    recommends
        0 <= m <= 59,
{
    seq![char_of_digit(m / 10), char_of_digit(m % 10)]
}

/// How a `Meridiem` marker is written: the literal `AM` or `PM`.
pub open spec fn fmt_meridiem(meridiem: Meridiem) -> Seq<char> {
    if meridiem == Meridiem::Pm {
        seq!['P', 'M']
    } else {
        seq!['A', 'M']
    }
}

/// Every validly written `Hour12 ":" Minute Meridiem` string parses, to the
/// converted hour times sixty plus the minute.
pub proof fn lemma_parse_full12(h: int, m: int, meridiem: Meridiem)
    requires
        1 <= h <= 12,
        0 <= m <= 59,
    ensures
        spec_parse(fmt_hour12(h) + seq![':'] + fmt_minute(m) + fmt_meridiem(meridiem)) == Some(
            spec_hour12_to_24(h, meridiem) * 60 + m,
        ),
{
    let s = fmt_hour12(h) + seq![':'] + fmt_minute(m) + fmt_meridiem(meridiem);
    lemma_char_of_digit(m / 10);
    lemma_char_of_digit(m % 10);
    if h <= 9 {
        lemma_char_of_digit(h);
        assert(s.len() == 6);
        assert(s[0] == char_of_digit(h));
        assert(s[1] == ':');
        assert(s[2] == char_of_digit(m / 10));
        assert(s[3] == char_of_digit(m % 10));
        assert(s[4] == fmt_meridiem(meridiem)[0]);
        assert(s[5] == 'M');
        assert(is_full12(s));
        assert(full12_val(s) == spec_hour12_to_24(h, meridiem) * 60 + m);
    } else {
        lemma_char_of_digit(h - 10);
        assert(s.len() == 7);
        assert(s[0] == '1');
        assert(s[1] == char_of_digit(h - 10));
        assert(s[2] == ':');
        assert(s[3] == char_of_digit(m / 10));
        assert(s[4] == char_of_digit(m % 10));
        assert(s[5] == fmt_meridiem(meridiem)[0]);
        assert(s[6] == 'M');
        assert(is_full12(s));
        assert(full12_val(s) == spec_hour12_to_24(h, meridiem) * 60 + m);
    }
}

/// Every validly written `Hour24 ":" Minute` string parses, to the hour
/// times sixty plus the minute.
pub proof fn lemma_parse_full24(h: int, m: int)
    requires
        0 <= h <= 23,
        0 <= m <= 59,
    ensures
        spec_parse(fmt_hour24(h) + seq![':'] + fmt_minute(m)) == Some(h * 60 + m),
{
    let s = fmt_hour24(h) + seq![':'] + fmt_minute(m);
    lemma_char_of_digit(m / 10);
    lemma_char_of_digit(m % 10);
    if h <= 9 {
        lemma_char_of_digit(h);
        assert(s.len() == 4);
        assert(s[0] == char_of_digit(h));
        assert(s[1] == ':');
        assert(s[2] == char_of_digit(m / 10));
        assert(s[3] == char_of_digit(m % 10));
        assert(!is_full12(s));
        assert(is_full24(s));
        assert(full24_val(s) == h * 60 + m);
    } else {
        lemma_char_of_digit(h / 10);
        lemma_char_of_digit(h % 10);
        assert(s.len() == 5);
        assert(s[0] == char_of_digit(h / 10));
        assert(s[1] == char_of_digit(h % 10));
        assert(s[2] == ':');
        assert(s[3] == char_of_digit(m / 10));
        assert(s[4] == char_of_digit(m % 10));
        assert(!is_full12(s));
        assert(is_full24(s));
        assert(full24_val(s) == h * 60 + m);
    }
}

/// Every validly written `Hour12 Meridiem` string parses, to the converted
/// hour times sixty.
pub proof fn lemma_parse_short(h: int, meridiem: Meridiem)
    requires
        1 <= h <= 12,
    ensures
        spec_parse(fmt_hour12(h) + fmt_meridiem(meridiem)) == Some(
            spec_hour12_to_24(h, meridiem) * 60,
        ),
{
    let s = fmt_hour12(h) + fmt_meridiem(meridiem);
    if h <= 9 {
        lemma_char_of_digit(h);
        assert(s.len() == 3);
        assert(s[0] == char_of_digit(h));
        assert(s[1] == fmt_meridiem(meridiem)[0]);
        assert(s[2] == 'M');
        assert(!is_full12(s));
        assert(!is_full24(s));
        assert(is_short(s));
        assert(short_val(s) == spec_hour12_to_24(h, meridiem) * 60);
    } else {
        lemma_char_of_digit(h - 10);
        assert(s.len() == 4);
        assert(s[0] == '1');
        assert(s[1] == char_of_digit(h - 10));
        assert(s[2] == fmt_meridiem(meridiem)[0]);
        assert(s[3] == 'M');
        assert(!is_full12(s));
        assert(!is_full24(s));
        assert(is_short(s));
        assert(short_val(s) == spec_hour12_to_24(h, meridiem) * 60);
    }
}

/// The three productions are mutually exclusive: no input spells two of
/// them, so the fixed priority order never decides the outcome of a
/// successful parse.
pub proof fn lemma_productions_exclusive(s: Seq<char>)
    ensures
        !(is_full12(s) && is_full24(s)),
        !(is_full12(s) && is_short(s)),
        !(is_full24(s) && is_short(s)),
{
}

/// Every accepted input denotes a valid count of minutes in one day.
pub proof fn lemma_parse_in_range(s: Seq<char>)
    ensures
        spec_parse(s) is Some ==> 0 <= spec_parse(s)->Some_0 <= 1439,
{
}

} // verus!
