//! The time-string grammar, as specification functions over sequences of
//! characters.
//!
//! Three productions are recognised, tried in this priority order; each must
//! consume the whole input:
//!
//! 1. full 12-hour form: `Hour12 ":" Minute Meridiem` (e.g. `7:38PM`),
//! 2. full 24-hour form: `Hour24 ":" Minute` (e.g. `23:42`),
//! 3. short form: `Hour12 Meridiem` (e.g. `4PM`).
//!
//! `Hour12` is spelled `1`..`9`, `10`, `11` or `12` (no leading zero);
//! `Hour24` is a single digit `0`..`9` or two digits `10`..`23` (a two-digit
//! spelling may not start with `0`, so `0:00` parses but `00:00` does not);
//! `Minute` is exactly two digits `00`..`59`; `Meridiem` is the literal
//! `AM` or `PM`.

use vstd::prelude::*;

verus! {

/// The AM/PM marker of a 12-hour clock reading.
#[derive(Clone, Copy, Debug, PartialEq, Eq, Structural)]
pub enum Meridiem {
    Am,
    Pm,
}

/// `c` is a decimal digit `0`..`9`.
pub open spec fn is_digit(c: char) -> bool {
    '0' as u32 <= c as u32 <= '9' as u32
}

/// Numeric value of a decimal digit character.
pub open spec fn digit_val(c: char) -> int {
    c as u32 - '0' as u32
}

/// `c` spells a one-digit `Hour12` token: `1`..`9`.
pub open spec fn is_hour12_one(c: char) -> bool {
    '1' as u32 <= c as u32 <= '9' as u32
}

/// `c0 c1` spell a two-digit `Hour12` token: `10`, `11` or `12`.
pub open spec fn is_hour12_two(c0: char, c1: char) -> bool {
    c0 == '1' && '0' as u32 <= c1 as u32 <= '2' as u32
}

/// `c` spells a one-digit `Hour24` token: `0`..`9`.
pub open spec fn is_hour24_one(c: char) -> bool {
    is_digit(c)
}

/// `c0 c1` spell a two-digit `Hour24` token: `10`..`19` or `20`..`23`.
/// A two-digit token may not start with `0`.
pub open spec fn is_hour24_two(c0: char, c1: char) -> bool {
    ||| (c0 == '1' && is_digit(c1))
    ||| (c0 == '2' && '0' as u32 <= c1 as u32 <= '3' as u32)
}

/// `c0 c1` spell a `Minute` token: exactly two digits, `00`..`59`.
pub open spec fn is_minute_pair(c0: char, c1: char) -> bool {
    '0' as u32 <= c0 as u32 <= '5' as u32 && is_digit(c1)
}

/// Value of a two-digit minute token.
pub open spec fn minute_pair_val(c0: char, c1: char) -> int {
    10 * digit_val(c0) + digit_val(c1)
}

/// `c0 c1` spell a `Meridiem` token: the literal `AM` or `PM`.
pub open spec fn is_meridiem_pair(c0: char, c1: char) -> bool {
    (c0 == 'A' || c0 == 'P') && c1 == 'M'
}

/// The marker a meridiem token starting with `c0` denotes.
pub open spec fn meridiem_of(c0: char) -> Meridiem {
    if c0 == 'P' {
        Meridiem::Pm
    } else {
        Meridiem::Am
    }
}

/// Conversion of a 12-hour reading to a 24-hour one: `12AM` is hour 0,
/// `12PM` is hour 12, and every other PM hour gains 12.
pub open spec fn spec_hour12_to_24(hour: int, meridiem: Meridiem) -> int {
    if meridiem == Meridiem::Pm && hour != 12 {
        hour + 12
    } else if meridiem == Meridiem::Am && hour == 12 {
        0
    } else {
        hour
    }
}

/// The whole input spells the full 12-hour production
/// `Hour12 ":" Minute Meridiem` (6 characters with a one-digit hour,
/// 7 with a two-digit one).
pub open spec fn is_full12(s: Seq<char>) -> bool {
    ||| (s.len() == 6 && is_hour12_one(s[0]) && s[1] == ':' && is_minute_pair(s[2], s[3])
        && is_meridiem_pair(s[4], s[5]))
    ||| (s.len() == 7 && is_hour12_two(s[0], s[1]) && s[2] == ':' && is_minute_pair(s[3], s[4])
        && is_meridiem_pair(s[5], s[6]))
}

/// Minutes since midnight denoted by a full 12-hour input.
pub open spec fn full12_val(s: Seq<char>) -> int
    recommends
        is_full12(s),
{
    if s.len() == 6 {
        spec_hour12_to_24(digit_val(s[0]), meridiem_of(s[4])) * 60 + minute_pair_val(s[2], s[3])
    } else {
        spec_hour12_to_24(10 + digit_val(s[1]), meridiem_of(s[5])) * 60 + minute_pair_val(
            s[3],
            s[4],
        )
    }
}

/// The whole input spells the full 24-hour production `Hour24 ":" Minute`
/// (4 characters with a one-digit hour, 5 with a two-digit one).
pub open spec fn is_full24(s: Seq<char>) -> bool {
    ||| (s.len() == 4 && is_hour24_one(s[0]) && s[1] == ':' && is_minute_pair(s[2], s[3]))
    ||| (s.len() == 5 && is_hour24_two(s[0], s[1]) && s[2] == ':' && is_minute_pair(s[3], s[4]))
}

/// Minutes since midnight denoted by a full 24-hour input.
pub open spec fn full24_val(s: Seq<char>) -> int
    recommends
        is_full24(s),
{
    if s.len() == 4 {
        digit_val(s[0]) * 60 + minute_pair_val(s[2], s[3])
    } else {
        (10 * digit_val(s[0]) + digit_val(s[1])) * 60 + minute_pair_val(s[3], s[4])
    }
}

/// The whole input spells the short production `Hour12 Meridiem`
/// (3 characters with a one-digit hour, 4 with a two-digit one).
pub open spec fn is_short(s: Seq<char>) -> bool {
    ||| (s.len() == 3 && is_hour12_one(s[0]) && is_meridiem_pair(s[1], s[2]))
    ||| (s.len() == 4 && is_hour12_two(s[0], s[1]) && is_meridiem_pair(s[2], s[3]))
}

/// Minutes since midnight denoted by a short input: zero minutes past the
/// hour.
pub open spec fn short_val(s: Seq<char>) -> int
    recommends
        is_short(s),
{
    if s.len() == 3 {
        spec_hour12_to_24(digit_val(s[0]), meridiem_of(s[1])) * 60
    } else {
        spec_hour12_to_24(10 + digit_val(s[1]), meridiem_of(s[2])) * 60
    }
}

/// What parsing an input denotes: the productions are tried in the priority
/// order full 12-hour, full 24-hour, short; an input that spells none of
/// them in its entirety is rejected.
pub open spec fn spec_parse(s: Seq<char>) -> Option<int> {
    if is_full12(s) {
        Some(full12_val(s))
    } else if is_full24(s) {
        Some(full24_val(s))
    } else if is_short(s) {
        Some(short_val(s))
    } else {
        None
    }
}

} // verus!
