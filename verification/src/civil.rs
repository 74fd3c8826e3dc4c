//! Time of day as arithmetic on seconds, and its `HH:MM` text.

use vstd::prelude::*;
use crate::calendar::format_time_of_day;

verus! {

/// Seconds in one civil day.
pub const SECONDS_PER_DAY: i64 = 86_400;

/// Seconds in one hour.
pub const SECONDS_PER_HOUR: i64 = 3_600;

/// The second of the day, in `0..86_400`, that a wall-clock reading in seconds falls on.
pub open spec fn second_of_day(wall: int) -> int {
    wall % 86_400
}

/// The minute of the day, in `0..1_440`, that a wall-clock reading in seconds falls on.
pub open spec fn minute_of_day(wall: int) -> int {
    second_of_day(wall) / 60
}

/// The decimal digit character for `d` in `0..10`.
pub open spec fn digit(d: int) -> char {
    (48 + d) as char
}

/// The value of a decimal digit character.
pub open spec fn digit_value(c: char) -> int {
    c as int - 48
}

/// `n` in `0..100` written with exactly two decimal digits.
pub open spec fn two_digits(n: int) -> Seq<char> {
    seq![digit(n / 10), digit(n % 10)]
}

/// The zero-padded 24-hour text `HH:MM` of a minute of the day.
pub open spec fn clock_text(minute: int) -> Seq<char> {
    two_digits(minute / 60) + seq![':'] + two_digits(minute % 60)
}

/// Whether `text` is the `HH:MM` text of some minute of the day.
pub open spec fn is_clock_text(text: Seq<char>) -> bool {
    exists|minute: int| 0 <= minute < 1_440 && text == #[trigger] clock_text(minute)
}

/// The minute of the day that an `HH:MM` text names.
pub open spec fn text_minute(text: Seq<char>) -> int {
    (digit_value(text[0]) * 10 + digit_value(text[1])) * 60 + digit_value(text[3]) * 10
        + digit_value(text[4])
}

/// The text shown `hours` whole hours after the moment that shows `text`.
pub open spec fn shift_text(text: Seq<char>, hours: int) -> Seq<char> {
    clock_text((text_minute(text) + 60 * hours) % 1_440)
}

/// The text displayed for a wall-clock reading in seconds.
pub open spec fn display_of(wall: int) -> Seq<char> {
    clock_text(minute_of_day(wall))
}

/// Reduces a wall-clock reading to its second of the day.
pub fn wall_to_second_of_day(wall: i64) -> (second: u32)
    ensures
        second == second_of_day(wall as int),
        second < 86_400,
{
    let r: i64 = wall % SECONDS_PER_DAY;
    if r < 0 {
        (r + SECONDS_PER_DAY) as u32
    } else {
        r as u32
    }
}

/// The `HH:MM` text of a wall-clock reading in seconds.
pub fn display_text(wall: i64) -> (text: String)
    ensures
        text@ == display_of(wall as int),
        is_clock_text(text@),
{
    let second = wall_to_second_of_day(wall);
    assert(0 <= minute_of_day(wall as int) < 1_440);
    format_time_of_day(second)
}

/// An `HH:MM` text has five characters, a colon in the middle and decimal
/// digits around it, the hour below 24 and the minute below 60.
pub proof fn lemma_clock_text_shape(minute: int)
    requires
        0 <= minute < 1_440,
    ensures
        clock_text(minute).len() == 5,
        clock_text(minute)[0] == digit(minute / 600),
        clock_text(minute)[1] == digit((minute / 60) % 10),
        clock_text(minute)[2] == ':',
        clock_text(minute)[3] == digit((minute % 60) / 10),
        clock_text(minute)[4] == digit(minute % 10),
        0 <= minute / 600 <= 2,
        0 <= (minute % 60) / 10 <= 5,
{
}

/// Reading an `HH:MM` text gives back the minute it was written from.
pub proof fn lemma_text_minute_of_clock_text(minute: int)
    requires
        0 <= minute < 1_440,
    ensures
        text_minute(clock_text(minute)) == minute,
{
    lemma_clock_text_shape(minute);
}

/// Different minutes of the day have different texts.
pub proof fn lemma_clock_text_injective(a: int, b: int)
    requires
        0 <= a < 1_440,
        0 <= b < 1_440,
        clock_text(a) == clock_text(b),
    ensures
        a == b,
{
    lemma_text_minute_of_clock_text(a);
    lemma_text_minute_of_clock_text(b);
}

/// A reading `hours` whole hours later shows the text of the earlier reading
/// moved on by `hours`, modulo 24.
pub proof fn lemma_display_shifted(wall: int, hours: int)
    ensures
        display_of(wall + 3_600 * hours) == shift_text(display_of(wall), hours),
{
    let m = minute_of_day(wall);
    lemma_text_minute_of_clock_text(m);
    assert(minute_of_day(wall + 3_600 * hours) == (m + 60 * hours) % 1_440) by {
        let q = wall / 86_400;
        let s = wall % 86_400;
        assert(wall == 86_400 * q + s);
        let r = s % 60;
        assert(s == 60 * m + r);
        let k = (m + 60 * hours) / 1_440;
        let n = (m + 60 * hours) % 1_440;
        assert(m + 60 * hours == 1_440 * k + n);
        assert(wall + 3_600 * hours == (q + k) * 86_400 + (60 * n + r));
        assert(0 <= 60 * n + r < 86_400);
        vstd::arithmetic::div_mod::lemma_fundamental_div_mod_converse(
            wall + 3_600 * hours,
            86_400,
            q + k,
            60 * n + r,
        );
    }
}

} // verus!
