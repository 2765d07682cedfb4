//! A twelve-position LED clock face: where each hand points, how the colours
//! of overlapping hands combine, and the frame that results.

pub mod animation;
pub mod clock;
pub mod color;
pub mod json;
pub mod pixel;
pub mod position;
pub mod time;
pub mod utf8;

pub use animation::{Frame, Hand, Sequencer, Step};
pub use clock::{Pixels, RGBClock, Slots};
pub use color::{add_colors, scale_color, Rgb};
pub use position::{hour_to_index, minute_to_index, second_to_index};
pub use time::{ConvertError, LocalTime};
