//! Colours and the two operations on them: scaling by a brightness factor
//! and blending by addition. Both saturate: a channel that would pass 255
//! stays at 255.

use vstd::prelude::*;

verus! {

/// A colour: its red, green and blue channels.
pub type Rgb = (u8, u8, u8);

/// The colour of a position that is switched off.
pub const OFF: Rgb = (0, 0, 0);

/// A channel value cut off at the largest value a channel can hold.
pub open spec fn saturate(value: int) -> int {
    if value <= u8::MAX {
        value
    } else {
        u8::MAX as int
    }
}

/// A colour with every channel multiplied by `factor`, each cut off at 255.
pub open spec fn scaled(color: Rgb, factor: u8) -> Rgb {
    (
        saturate(color.0 * factor) as u8,
        saturate(color.1 * factor) as u8,
        saturate(color.2 * factor) as u8,
    )
}

/// The channel-wise sum of two colours, each channel cut off at 255.
pub open spec fn blended(a: Rgb, b: Rgb) -> Rgb {
    (saturate(a.0 + b.0) as u8, saturate(a.1 + b.1) as u8, saturate(a.2 + b.2) as u8)
}

fn scale_channel(channel: u8, factor: u8) -> (scaled: u8)
    ensures
        scaled == saturate(channel * factor),
{
    match channel.checked_mul(factor) {
        Some(product) => product,
        None => u8::MAX,
    }
}

/// Multiplies a colour by a brightness factor. No channel exceeds 255:
/// each is the smaller of its product and 255.
pub fn scale_color(color: Rgb, factor: u8) -> (result: Rgb)
    ensures
        result == scaled(color, factor),
        result.0 == saturate(color.0 * factor),
        result.1 == saturate(color.1 * factor),
        result.2 == saturate(color.2 * factor),
{
    (
        scale_channel(color.0, factor),
        scale_channel(color.1, factor),
        scale_channel(color.2, factor),
    )
}

/// Adds two colours. No channel exceeds 255: each is the smaller of its sum
/// and 255.
pub fn add_colors(a: Rgb, b: Rgb) -> (result: Rgb)
    ensures
        result == blended(a, b),
        result.0 == saturate(a.0 + b.0),
        result.1 == saturate(a.1 + b.1),
        result.2 == saturate(a.2 + b.2),
{
    (a.0.saturating_add(b.0), a.1.saturating_add(b.1), a.2.saturating_add(b.2))
}

/// Scaling by zero switches a colour off, and scaling by one leaves it as it is.
pub proof fn lemma_scaled_by_zero_and_one(color: Rgb)
    ensures
        scaled(color, 0) == OFF,
        scaled(color, 1) == color,
{
}

/// Blending with a switched-off colour changes nothing.
pub proof fn lemma_blended_with_off(color: Rgb)
    ensures
        blended(color, OFF) == color,
        blended(OFF, color) == color,
{
}

/// Blending does not depend on the order of its two colours.
pub proof fn lemma_blended_is_commutative(a: Rgb, b: Rgb)
    ensures
        blended(a, b) == blended(b, a),
{
}

/// Blending three colours does not depend on which two are blended first.
pub proof fn lemma_blended_is_associative(a: Rgb, b: Rgb, c: Rgb)
    ensures
        blended(blended(a, b), c) == blended(a, blended(b, c)),
{
}

/// Three colours blended together: each channel is the smaller of the sum of
/// its three values and 255.
pub proof fn lemma_blended_three(a: Rgb, b: Rgb, c: Rgb)
    ensures
        blended(blended(a, b), c).0 == saturate(a.0 + b.0 + c.0),
        blended(blended(a, b), c).1 == saturate(a.1 + b.1 + c.1),
        blended(blended(a, b), c).2 == saturate(a.2 + b.2 + c.2),
{
}

} // verus!
