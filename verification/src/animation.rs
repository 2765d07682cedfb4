//! The start-up sweep: every hour position, then every minute, then every
//! second, one frame at a time, until the sweep ends or is cancelled.
//!
//! The sequencer decides; whoever drives it reads the cancellation flag
//! before each frame, hands the reading to [`Sequencer::step`], shows the
//! frame it gets and waits for the frame's delay.

use vstd::prelude::*;

verus! {

/// Frames of the hour phase.
pub const HOUR_FRAMES: u8 = 12;

/// Frames of the minute phase.
pub const MINUTE_FRAMES: u8 = 60;

/// Frames of the second phase.
pub const SECOND_FRAMES: u8 = 60;

/// Frames of a whole sweep.
pub const TOTAL_FRAMES: u8 = HOUR_FRAMES + MINUTE_FRAMES + SECOND_FRAMES;

/// Pause after a frame of the hour phase, in milliseconds.
pub const HOUR_DELAY_MS: u32 = 100;

/// Pause after a frame of the minute phase, in milliseconds.
pub const MINUTE_DELAY_MS: u32 = 20;

/// Pause after a frame of the second phase, in milliseconds.
pub const SECOND_DELAY_MS: u32 = 20;

/// One of the three hands of the clock.
#[derive(Clone, Copy, Debug, PartialEq, Eq, Structural)]
pub enum Hand {
    Hour,
    Minute,
    Second,
}

/// One frame of the sweep: a single hand at a single value, and the pause
/// that follows it.
#[derive(Clone, Copy, Debug, PartialEq, Eq, Structural)]
pub struct Frame {
    pub hand: Hand,
    pub value: u8,
    pub delay_ms: u32,
}

/// What the sequencer asks for at a frame boundary.
#[derive(Clone, Copy, Debug, PartialEq, Eq, Structural)]
pub enum Step {
    /// Show this frame, wait for its delay, then ask again.
    Show(Frame),
    /// The sweep was cancelled while this hand was being swept. Nothing is shown.
    Cancelled { during: Hand },
    /// The sweep ran to its end. Nothing is shown.
    Completed,
}

/// The sequencer as contracts see it.
pub struct SequencerView {
    /// Frames produced so far.
    pub position: nat,
    /// Whether a set cancellation flag has been observed.
    pub cancelled: bool,
}

impl SequencerView {
    /// The state before the first frame.
    pub open spec fn fresh() -> SequencerView {
        SequencerView { position: 0, cancelled: false }
    }

    /// No frame will ever come out of a halted sequencer.
    pub open spec fn halted(self) -> bool {
        self.cancelled || self.position >= TOTAL_FRAMES
    }
}

/// The hand swept at a position of the sweep.
pub open spec fn hand_at(position: nat) -> Hand {
    if position < HOUR_FRAMES {
        Hand::Hour
    } else if position < HOUR_FRAMES + MINUTE_FRAMES {
        Hand::Minute
    } else {
        Hand::Second
    }
}

/// The frame at a position of the sweep: hours 0 to 11, then minutes 0 to 59,
/// then seconds 0 to 59.
pub open spec fn frame_at(position: nat) -> Frame {
    if position < HOUR_FRAMES {
        Frame { hand: Hand::Hour, value: position as u8, delay_ms: HOUR_DELAY_MS }
    } else if position < HOUR_FRAMES + MINUTE_FRAMES {
        Frame {
            hand: Hand::Minute,
            value: (position - HOUR_FRAMES) as u8,
            delay_ms: MINUTE_DELAY_MS,
        }
    } else {
        Frame {
            hand: Hand::Second,
            value: (position - HOUR_FRAMES - MINUTE_FRAMES) as u8,
            delay_ms: SECOND_DELAY_MS,
        }
    }
}

/// One decision of the sequencer: the state it moves to and what it asks for,
/// given the state it is in and the reading of the cancellation flag.
pub open spec fn step_of(state: SequencerView, cancel_requested: bool) -> (SequencerView, Step) {
    if state.cancelled {
        (state, Step::Cancelled { during: hand_at(state.position) })
    } else if state.position >= TOTAL_FRAMES {
        (state, Step::Completed)
    } else if cancel_requested {
        (
            SequencerView { position: state.position, cancelled: true },
            Step::Cancelled { during: hand_at(state.position) },
        )
    } else {
        (
            SequencerView { position: state.position + 1, cancelled: false },
            Step::Show(frame_at(state.position)),
        )
    }
}

/// The state reached from `state` after one decision for each reading in
/// `readings`, in order.
pub open spec fn state_after(state: SequencerView, readings: Seq<bool>) -> SequencerView
    decreases readings.len(),
{
    if readings.len() == 0 {
        state
    } else {
        state_after(step_of(state, readings[0]).0, readings.drop_first())
    }
}

/// The frames shown from `state` over one decision for each reading in
/// `readings`, in order.
pub open spec fn frames_shown(state: SequencerView, readings: Seq<bool>) -> Seq<Frame>
    decreases readings.len(),
{
    if readings.len() == 0 {
        Seq::empty()
    } else {
        let (next, step) = step_of(state, readings[0]);
        let rest = frames_shown(next, readings.drop_first());
        match step {
            Step::Show(frame) => seq![frame] + rest,
            _ => rest,
        }
    }
}

/// The sequencer of the start-up sweep.
#[derive(Clone, Copy, Debug)]
pub struct Sequencer {
    position: u8,
    cancelled: bool,
}

impl View for Sequencer {
    type V = SequencerView;

    closed spec fn view(&self) -> SequencerView {
        SequencerView { position: self.position as nat, cancelled: self.cancelled }
    }
}

fn hand_for(position: u8) -> (hand: Hand)
    ensures
        hand == hand_at(position as nat),
{
    if position < HOUR_FRAMES {
        Hand::Hour
    } else if position < HOUR_FRAMES + MINUTE_FRAMES {
        Hand::Minute
    } else {
        Hand::Second
    }
}

fn frame_for(position: u8) -> (frame: Frame)
    ensures
        frame == frame_at(position as nat),
{
    if position < HOUR_FRAMES {
        Frame { hand: Hand::Hour, value: position, delay_ms: HOUR_DELAY_MS }
    } else if position < HOUR_FRAMES + MINUTE_FRAMES {
        Frame { hand: Hand::Minute, value: position - HOUR_FRAMES, delay_ms: MINUTE_DELAY_MS }
    } else {
        Frame {
            hand: Hand::Second,
            value: position - HOUR_FRAMES - MINUTE_FRAMES,
            delay_ms: SECOND_DELAY_MS,
        }
    }
}

impl Sequencer {
    /// A sequencer that has not produced a frame yet.
    pub fn new() -> (sequencer: Self)
        ensures
            sequencer@ == SequencerView::fresh(),
    {
        Sequencer { position: 0, cancelled: false }
    }

    /// Decides what happens at a frame boundary. `cancel_requested` is the
    /// reading of the cancellation flag taken at this boundary.
    ///
    /// A set flag halts the sequencer for good, and so does the end of the
    /// sweep; a halted sequencer never asks for a frame again.
    pub fn step(&mut self, cancel_requested: bool) -> (step: Step)
        ensures
            (final(self)@, step) == step_of(old(self)@, cancel_requested),
    {
        if self.cancelled {
            Step::Cancelled { during: hand_for(self.position) }
        } else if self.position >= TOTAL_FRAMES {
            Step::Completed
        } else if cancel_requested {
            self.cancelled = true;
            Step::Cancelled { during: hand_for(self.position) }
        } else {
            let frame = frame_for(self.position);
            self.position = self.position + 1;
            Step::Show(frame)
        }
    }

    /// Whether the sequencer has halted: cancelled, or at the end of the sweep.
    pub fn is_halted(&self) -> (halted: bool)
        ensures
            halted == self@.halted(),
    {
        self.cancelled || self.position >= TOTAL_FRAMES
    }
}

/// Every decision shows at most one frame, and a decision taken on a set
/// flag, or in a halted state, shows none and leaves the sequencer halted.
pub proof fn lemma_step_halts(state: SequencerView, cancel_requested: bool)
    ensures
        state.halted() || cancel_requested ==> {
            &&& !(step_of(state, cancel_requested).1 is Show)
            &&& step_of(state, cancel_requested).0.halted()
        },
        state.halted() ==> step_of(state, cancel_requested).0 == state,
{
}

/// The sequencer counts the frames it has shown, and never counts past the
/// end of the sweep.
pub proof fn lemma_position_counts_frames(state: SequencerView, readings: Seq<bool>)
    ensures
        state_after(state, readings).position == state.position + frames_shown(
            state,
            readings,
        ).len(),
        state.position <= TOTAL_FRAMES ==> state_after(state, readings).position <= TOTAL_FRAMES,
    decreases readings.len(),
{
    if readings.len() > 0 {
        lemma_position_counts_frames(step_of(state, readings[0]).0, readings.drop_first());
    }
}

/// Halting is final: whatever is read afterwards, a halted sequencer shows
/// nothing and stays as it is.
pub proof fn lemma_halted_is_final(state: SequencerView, readings: Seq<bool>)
    requires
        state.halted(),
    ensures
        frames_shown(state, readings) == Seq::<Frame>::empty(),
        state_after(state, readings) == state,
    decreases readings.len(),
{
    if readings.len() > 0 {
        lemma_halted_is_final(state, readings.drop_first());
    }
}

/// Once the flag reads as set at a frame boundary, that frame and all later
/// ones are not shown: the run shows what it had shown before that boundary.
pub proof fn lemma_no_frame_once_cancel_is_read(
    state: SequencerView,
    readings: Seq<bool>,
    boundary: int,
)
    requires
        0 <= boundary < readings.len(),
        readings[boundary],
    ensures
        frames_shown(state, readings) == frames_shown(state, readings.take(boundary)),
        state_after(state, readings).halted(),
    decreases boundary,
{
    let next = step_of(state, readings[0]).0;
    let rest = readings.drop_first();
    if boundary == 0 {
        lemma_halted_is_final(next, rest);
    } else {
        lemma_no_frame_once_cancel_is_read(next, rest, boundary - 1);
        assert(readings.take(boundary).drop_first() =~= rest.take(boundary - 1));
    }
}

/// Frames only add up: a longer run shows at least the frames of each of its
/// beginnings, and at most one more frame for each further decision.
pub proof fn lemma_frames_grow_by_decisions(state: SequencerView, readings: Seq<bool>, cut: int)
    requires
        0 <= cut <= readings.len(),
    ensures
        frames_shown(state, readings.take(cut)).len() <= frames_shown(state, readings).len(),
        frames_shown(state, readings).len() <= frames_shown(state, readings.take(cut)).len() + (
        readings.len() - cut),
    decreases readings.len(),
{
    if readings.len() > 0 {
        let next = step_of(state, readings[0]).0;
        let rest = readings.drop_first();
        if cut == 0 {
            lemma_frames_grow_by_decisions(next, rest, 0);
        } else {
            lemma_frames_grow_by_decisions(next, rest, cut - 1);
            assert(readings.take(cut).drop_first() =~= rest.take(cut - 1));
        }
    }
}

/// Cancellation takes effect within one frame. If the flag is set after the
/// reading at boundary `last_clear`, so that every later reading finds it set,
/// then the run shows at most one frame more than it had shown before that
/// boundary, and ends halted.
pub proof fn lemma_at_most_one_frame_after_cancel(
    state: SequencerView,
    readings: Seq<bool>,
    last_clear: int,
)
    requires
        0 <= last_clear < readings.len(),
        forall|i: int| last_clear < i < readings.len() ==> readings[i],
    ensures
        frames_shown(state, readings).len() <= frames_shown(
            state,
            readings.take(last_clear),
        ).len() + 1,
        last_clear + 1 < readings.len() ==> state_after(state, readings).halted(),
{
    if last_clear + 1 < readings.len() {
        lemma_no_frame_once_cancel_is_read(state, readings, last_clear + 1);
        let seen = readings.take(last_clear + 1);
        lemma_frames_grow_by_decisions(state, seen, last_clear);
        assert(seen.take(last_clear) =~= readings.take(last_clear));
    } else {
        lemma_frames_grow_by_decisions(state, readings, last_clear);
    }
}

/// An undisturbed sweep: while the flag reads as clear, a sequencer that was
/// not cancelled shows the frames of the sweep in order from where it stands,
/// one for each decision, and none beyond the end of the sweep.
pub proof fn lemma_sweep_in_order(state: SequencerView, readings: Seq<bool>)
    requires
        !state.cancelled,
        forall|i: int| 0 <= i < readings.len() ==> !readings[i],
    ensures
        frames_shown(state, readings).len() == if state.position + readings.len() <= TOTAL_FRAMES {
            readings.len()
        } else if state.position <= TOTAL_FRAMES {
            (TOTAL_FRAMES - state.position) as nat
        } else {
            0
        },
        forall|i: int|
            0 <= i < frames_shown(state, readings).len() ==> frames_shown(state, readings)[i]
                == frame_at((state.position + i) as nat),
    decreases readings.len(),
{
    if readings.len() > 0 {
        if state.position >= TOTAL_FRAMES {
            lemma_halted_is_final(state, readings);
        } else {
            lemma_sweep_in_order(step_of(state, readings[0]).0, readings.drop_first());
        }
    }
}

} // verus!
