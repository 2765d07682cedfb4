//! The state of the clock face: the colour stored for each of the twelve
//! positions, the base colour of each hand, and the brightness that a frame
//! is rendered with.

use vstd::prelude::*;

use crate::animation::{Frame, Hand};
use crate::color::{add_colors, blended, scale_color, scaled, Rgb, OFF};
use crate::pixel::{frame_channels, pixel_channels, to_pixel};
use crate::position::{
    hour_index, hour_to_index, minute_index, minute_to_index, second_index, second_to_index,
    POSITIONS,
};
use crate::time::{ConvertError, LocalTime};

verus! {

/// Base colour of the hour hand: blue.
pub const DEFAULT_HOUR_COLOR: Rgb = (0, 0, 1);

/// Base colour of the minute hand: green.
pub const DEFAULT_MINUTE_COLOR: Rgb = (0, 1, 0);

/// Base colour of the second hand: red.
pub const DEFAULT_SECOND_COLOR: Rgb = (1, 0, 0);

/// Brightness that stored colours are multiplied by when a frame is rendered.
pub const DEFAULT_BRIGHTNESS: u8 = 10;

/// The colour stored for each position.
pub type Slots = [Rgb; 12];

/// One frame, position by position, as the LED strip takes it.
pub type Pixels = [rgb::RGB<u8>; 12];

/// The clock as contracts see it.
pub struct ClockView {
    /// The colour stored for each position, before brightness is applied.
    pub slots: Seq<Rgb>,
    pub hour_color: Rgb,
    pub minute_color: Rgb,
    pub second_color: Rgb,
    pub brightness: u8,
}

/// What a hand of colour `color` that points at `index` adds to `slot`.
pub open spec fn hand_light(slot: int, index: int, color: Rgb) -> Rgb {
    if slot == index {
        color
    } else {
        OFF
    }
}

impl ClockView {
    /// A clock always has exactly twelve positions.
    pub open spec fn wf(self) -> bool {
        self.slots.len() == POSITIONS
    }

    /// A clock with the default colours and brightness and every position off.
    pub open spec fn initial() -> ClockView {
        ClockView {
            slots: Seq::new(POSITIONS as nat, |slot: int| OFF),
            hour_color: DEFAULT_HOUR_COLOR,
            minute_color: DEFAULT_MINUTE_COLOR,
            second_color: DEFAULT_SECOND_COLOR,
            brightness: DEFAULT_BRIGHTNESS,
        }
    }

    /// The same clock with other stored colours.
    pub open spec fn with_slots(self, slots: Seq<Rgb>) -> ClockView {
        ClockView { slots, ..self }
    }

    /// The same clock with every position off.
    pub open spec fn cleared(self) -> ClockView {
        self.with_slots(Seq::new(POSITIONS as nat, |slot: int| OFF))
    }

    /// The base colour of a hand.
    pub open spec fn color_of(self, hand: Hand) -> Rgb {
        match hand {
            Hand::Hour => self.hour_color,
            Hand::Minute => self.minute_color,
            Hand::Second => self.second_color,
        }
    }

    /// The clock showing a single hand: its position has the hand's base
    /// colour, every other position is off.
    pub open spec fn with_hand(self, hand: Hand, value: u8) -> ClockView {
        let index = match hand {
            Hand::Hour => hour_index(value as int),
            Hand::Minute => minute_index(value as int),
            Hand::Second => second_index(value as int),
        };
        self.with_slots(
            Seq::new(POSITIONS as nat, |slot: int| hand_light(slot, index, self.color_of(hand))),
        )
    }

    /// The clock showing a time: every position holds the saturating sum of
    /// the base colours of the hands that point at it, and is off where none
    /// does.
    pub open spec fn with_time(self, time: LocalTime) -> ClockView {
        self.with_slots(
            Seq::new(
                POSITIONS as nat,
                |slot: int|
                    blended(
                        blended(
                            hand_light(slot, hour_index(time.hour as int), self.hour_color),
                            hand_light(slot, minute_index(time.minute as int), self.minute_color),
                        ),
                        hand_light(slot, second_index(time.second as int), self.second_color),
                    ),
            ),
        )
    }

    /// The frame that the clock is shown as: every stored colour multiplied
    /// by the brightness, saturating.
    pub open spec fn rendered(self) -> Seq<Rgb> {
        Seq::new(POSITIONS as nat, |slot: int| scaled(self.slots[slot], self.brightness))
    }
}

/// A clock of twelve RGB lights in a circle, one for each hour of the dial.
/// The first light is at one o'clock.
#[derive(Clone, Copy, Debug)]
pub struct RGBClock {
    hours_base_color: Rgb,
    minutes_base_color: Rgb,
    seconds_base_color: Rgb,
    hue: u8,
    state: Slots,
}

impl View for RGBClock {
    type V = ClockView;

    closed spec fn view(&self) -> ClockView {
        ClockView {
            slots: self.state@,
            hour_color: self.hours_base_color,
            minute_color: self.minutes_base_color,
            second_color: self.seconds_base_color,
            brightness: self.hue,
        }
    }
}

impl RGBClock {
    /// A clock with the default colours (hours blue, minutes green, seconds
    /// red) and the default brightness, every position off.
    pub fn new() -> (clock: Self)
        ensures
            clock@ == ClockView::initial(),
    {
        let clock = RGBClock {
            hours_base_color: DEFAULT_HOUR_COLOR,
            minutes_base_color: DEFAULT_MINUTE_COLOR,
            seconds_base_color: DEFAULT_SECOND_COLOR,
            hue: DEFAULT_BRIGHTNESS,
            state: [OFF;12],
        };
        assert(clock@.slots =~= ClockView::initial().slots);
        clock
    }

    /// A clock with colours and a brightness of the caller's choice, every
    /// position off.
    pub fn with_palette(hours: Rgb, minutes: Rgb, seconds: Rgb, brightness: u8) -> (clock: Self)
        ensures
            clock@ == (ClockView {
                hour_color: hours,
                minute_color: minutes,
                second_color: seconds,
                brightness,
                ..ClockView::initial()
            }),
    {
        let clock = RGBClock {
            hours_base_color: hours,
            minutes_base_color: minutes,
            seconds_base_color: seconds,
            hue: brightness,
            state: [OFF;12],
        };
        assert(clock@.slots =~= ClockView::initial().slots);
        clock
    }

    /// Shows the hour hand alone and returns the frame to display.
    pub fn set_hour(&mut self, hour: u8) -> (pixels: Pixels)
        ensures
            final(self)@ == old(self)@.with_hand(Hand::Hour, hour),
            frame_channels(pixels@) == final(self)@.rendered(),
    {
        self.clear();
        self.state[hour_to_index(hour)] = self.hours_base_color;
        assert(self@.slots =~= old(self)@.with_hand(Hand::Hour, hour).slots);
        self.show()
    }

    /// Shows the minute hand alone and returns the frame to display.
    pub fn set_minute(&mut self, minute: u8) -> (pixels: Pixels)
        ensures
            final(self)@ == old(self)@.with_hand(Hand::Minute, minute),
            frame_channels(pixels@) == final(self)@.rendered(),
    {
        self.clear();
        self.state[minute_to_index(minute)] = self.minutes_base_color;
        assert(self@.slots =~= old(self)@.with_hand(Hand::Minute, minute).slots);
        self.show()
    }

    /// Shows the second hand alone and returns the frame to display.
    pub fn set_second(&mut self, second: u8) -> (pixels: Pixels)
        ensures
            final(self)@ == old(self)@.with_hand(Hand::Second, second),
            frame_channels(pixels@) == final(self)@.rendered(),
    {
        self.clear();
        self.state[second_to_index(second)] = self.seconds_base_color;
        assert(self@.slots =~= old(self)@.with_hand(Hand::Second, second).slots);
        self.show()
    }

    /// Shows a time and returns the frame to display. The hour hand is
    /// written into the cleared face first; the minute and second hands are
    /// then added to whatever their positions hold, so hands that share a
    /// position mix their colours.
    pub fn set_local_time(&mut self, time: LocalTime) -> (pixels: Pixels)
        ensures
            final(self)@ == old(self)@.with_time(time),
            frame_channels(pixels@) == final(self)@.rendered(),
    {
        self.clear();

        let hour_idx = hour_to_index(time.hour);
        let minute_idx = minute_to_index(time.minute);
        let second_idx = second_to_index(time.second);

        self.state[hour_idx] = self.hours_base_color;
        self.state[minute_idx] = add_colors(self.state[minute_idx], self.minutes_base_color);
        self.state[second_idx] = add_colors(self.state[second_idx], self.seconds_base_color);

        assert(self@.slots =~= old(self)@.with_time(time).slots);
        self.show()
    }

    /// Switches every position off. Colours and brightness stay.
    pub fn clear(&mut self)
        ensures
            final(self)@ == old(self)@.cleared(),
    {
        self.state = [OFF;12];
        assert(self@.slots =~= old(self)@.cleared().slots);
    }

    /// Renders the stored colours at the clock's brightness and returns the
    /// frame to display. The stored colours are left as they are.
    pub fn show(&self) -> (pixels: Pixels)
        ensures
            frame_channels(pixels@) == self@.rendered(),
    {
        let mut pixels: Pixels = [to_pixel(OFF);12];
        for slot in 0..12usize
            invariant
                forall|done: int|
                    0 <= done < slot ==> pixel_channels(pixels@[done]) == scaled(
                        self.state@[done],
                        self.hue,
                    ),
        {
            pixels[slot] = to_pixel(scale_color(self.state[slot], self.hue));
        }
        pixels
    }

    /// Shows one frame of the start-up sweep and returns the frame to display.
    pub fn show_frame(&mut self, frame: Frame) -> (pixels: Pixels)
        ensures
            final(self)@ == old(self)@.with_hand(frame.hand, frame.value),
            frame_channels(pixels@) == final(self)@.rendered(),
    {
        match frame.hand {
            Hand::Hour => self.set_hour(frame.value),
            Hand::Minute => self.set_minute(frame.value),
            Hand::Second => self.set_second(frame.value),
        }
    }

    /// Reads a message as a time and shows it. A message that cannot be
    /// read is reported and changes nothing: the clock keeps what it showed.
    pub fn update_from_message(&mut self, message: &[u8]) -> (shown: Result<Pixels, ConvertError>)
        ensures
            match LocalTime::decoded(message@) {
                Ok(time) => {
                    &&& final(self)@ == old(self)@.with_time(time)
                    &&& shown matches Ok(pixels) && frame_channels(pixels@) == final(self)@.rendered()
                },
                Err(error) => {
                    &&& final(self)@ == old(self)@
                    &&& shown == Err::<Pixels, ConvertError>(error)
                },
            },
    {
        match LocalTime::try_from(message) {
            Ok(time) => Ok(self.set_local_time(time)),
            Err(error) => Err(error),
        }
    }

    /// The colour stored for each position, before brightness is applied.
    pub fn state(&self) -> (slots: Slots)
        ensures
            slots@ == self@.slots,
    {
        self.state
    }

    /// Every clock has exactly twelve positions, whatever was done to it.
    pub proof fn lemma_twelve_positions(self)
        ensures
            self@.wf(),
    {
    }
}

/// Clearing twice is clearing once: a cleared clock is all off, and clearing
/// it again changes nothing.
pub proof fn lemma_clear_is_idempotent(clock: ClockView)
    ensures
        clock.cleared().cleared() == clock.cleared(),
        forall|slot: int| 0 <= slot < POSITIONS ==> clock.cleared().slots[slot] == OFF,
{
}

/// Showing a hand or a time starts from a cleared face: what was stored
/// before does not show through.
pub proof fn lemma_setting_forgets_the_past(clock: ClockView, hand: Hand, value: u8, time: LocalTime)
    ensures
        clock.with_hand(hand, value) == clock.cleared().with_hand(hand, value),
        clock.with_time(time) == clock.cleared().with_time(time),
{
}

/// Hands that share a position mix: where hour, minute and second all point
/// at one position, it holds the saturating sum of the three base colours,
/// and every other position is off.
pub proof fn lemma_hands_on_one_position(clock: ClockView, time: LocalTime, slot: int)
    requires
        0 <= slot < POSITIONS,
        hour_index(time.hour as int) == minute_index(time.minute as int),
        hour_index(time.hour as int) == second_index(time.second as int),
    ensures
        slot == hour_index(time.hour as int) ==> clock.with_time(time).slots[slot] == blended(
            blended(clock.hour_color, clock.minute_color),
            clock.second_color,
        ),
        slot != hour_index(time.hour as int) ==> clock.with_time(time).slots[slot] == OFF,
{
}

/// Hands that point at three different positions keep their own colours,
/// and every position that no hand points at is off.
pub proof fn lemma_hands_apart(clock: ClockView, time: LocalTime, slot: int)
    requires
        0 <= slot < POSITIONS,
        hour_index(time.hour as int) != minute_index(time.minute as int),
        hour_index(time.hour as int) != second_index(time.second as int),
        minute_index(time.minute as int) != second_index(time.second as int),
    ensures
        clock.with_time(time).slots[slot] == if slot == hour_index(time.hour as int) {
            clock.hour_color
        } else if slot == minute_index(time.minute as int) {
            clock.minute_color
        } else if slot == second_index(time.second as int) {
            clock.second_color
        } else {
            OFF
        },
{
}

/// A time is its three hands blended, position by position, and the order in
/// which the minute and second hands are added does not matter.
pub proof fn lemma_time_is_three_hands_blended(clock: ClockView, time: LocalTime, slot: int)
    requires
        0 <= slot < POSITIONS,
    ensures
        clock.with_time(time).slots[slot] == blended(
            blended(
                clock.with_hand(Hand::Hour, time.hour).slots[slot],
                clock.with_hand(Hand::Second, time.second).slots[slot],
            ),
            clock.with_hand(Hand::Minute, time.minute).slots[slot],
        ),
{
    let hour = clock.with_hand(Hand::Hour, time.hour).slots[slot];
    let minute = clock.with_hand(Hand::Minute, time.minute).slots[slot];
    let second = clock.with_hand(Hand::Second, time.second).slots[slot];
    crate::color::lemma_blended_is_associative(hour, minute, second);
    crate::color::lemma_blended_is_associative(hour, second, minute);
    crate::color::lemma_blended_is_commutative(minute, second);
}

} // verus!
