//! What this crate takes on trust of `rgb`: the pixel type that the LED
//! strip is fed with, and its constructor.

use vstd::prelude::*;

use crate::color::Rgb;

verus! {

/// `rgb::RGB`, a pixel of three channels. Its fields are not read here; what
/// they hold goes by the name [`pixel_channels`].
#[verifier::external_type_specification]
#[verifier::external_body]
#[verifier::reject_recursive_types(T)]
pub struct ExPixel<T>(rgb::RGB<T>);

/// The three public fields of an 8-bit `rgb::RGB` pixel: `r`, `g` and `b`,
/// in this order.
pub uninterp spec fn pixel_channels(pixel: rgb::RGB<u8>) -> (u8, u8, u8);

/// The channels of every pixel of a frame, position by position.
pub open spec fn frame_channels(pixels: Seq<rgb::RGB<u8>>) -> Seq<Rgb> {
    Seq::new(pixels.len(), |slot: int| pixel_channels(pixels[slot]))
}

/// Calls `rgb::RGB::new`, which stores its three arguments in the fields
/// `r`, `g` and `b` of the pixel it returns.
#[verifier::external_body]
pub(crate) fn to_pixel(color: Rgb) -> (pixel: rgb::RGB<u8>)
    ensures
        pixel_channels(pixel) == color,
{
    rgb::RGB::new(color.0, color.1, color.2)
}

} // verus!
