//! From a time component to one of the twelve positions of the dial.
//!
//! Positions run clockwise: index 0 is one o'clock, index 11 is twelve o'clock.

use vstd::prelude::*;

verus! {

/// Number of positions on the dial.
pub const POSITIONS: usize = 12;

/// Position of the hour hand. Both halves of the day share the dial, and the
/// offset of eleven puts twelve o'clock at index 11.
pub open spec fn hour_index(hour: int) -> int {
    (hour + 11) % 12
}

/// Position of the minute hand: one position for every five minutes, the
/// first five of the hour at index 11.
pub open spec fn minute_index(minute: int) -> int {
    (minute + 55) % 60 / 5
}

/// Position of the second hand: one position for every five seconds, the
/// first five of the minute at index 11.
pub open spec fn second_index(second: int) -> int {
    (second + 55) % 60 / 5
}

/// Maps an hour to its position on the dial.
pub fn hour_to_index(hour: u8) -> (index: usize)
    ensures
        index == hour_index(hour as int),
        index < POSITIONS,
{
    (hour as usize + 11) % 12
}

/// Maps a minute to its position on the dial.
pub fn minute_to_index(minute: u8) -> (index: usize)
    ensures
        index == minute_index(minute as int),
        index < POSITIONS,
{
    (minute as usize + 55) % 60 / 5
}

/// Maps a second to its position on the dial.
pub fn second_to_index(second: u8) -> (index: usize)
    ensures
        index == second_index(second as int),
        index < POSITIONS,
{
    (second as usize + 55) % 60 / 5
}

/// An hour and the hour twelve hours later point at the same position.
pub proof fn lemma_hour_index_half_day(hour: int)
    requires
        0 <= hour < 24,
    ensures
        hour_index(hour) == hour_index((hour + 12) % 24),
{
}

/// Read as on a dial: twelve (and zero) o'clock is index 11, every other hour
/// `h` of the twelve-hour dial is index `h - 1`.
pub proof fn lemma_hour_index_dial(hour: int)
    requires
        0 <= hour < 24,
    ensures
        hour % 12 == 0 ==> hour_index(hour) == 11,
        hour % 12 != 0 ==> hour_index(hour) == hour % 12 - 1,
        0 <= hour_index(hour) < 12,
{
}

/// The minute hand moves on every fifth minute: minutes 0 to 4 are index 11,
/// and every later minute `m` is index `m / 5 - 1`.
pub proof fn lemma_minute_index_bucket(minute: int)
    requires
        0 <= minute < 60,
    ensures
        minute < 5 ==> minute_index(minute) == 11,
        minute >= 5 ==> minute_index(minute) == minute / 5 - 1,
        0 <= minute_index(minute) < 12,
{
}

/// The second hand is placed exactly as the minute hand is.
pub proof fn lemma_second_index_is_minute_index(value: int)
    ensures
        second_index(value) == minute_index(value),
{
}

} // verus!
