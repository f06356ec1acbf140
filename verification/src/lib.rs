//! Spatial audio building blocks: multi-channel frame buffers and the lazy
//! adapter that turns a per-sample stream into frames, hands each frame to a
//! frame processor, and streams the result out again sample by sample.

use vstd::prelude::*;

pub mod buffer;
pub mod context;
pub mod effect;
pub mod error;
pub mod fmod;
pub mod laws;
pub mod simulation;
pub mod stream;
pub mod transform;

verus! {

/// The channel count of an ambisonic sound field of the given order, as a
/// mathematical integer: the square of the order plus one.
pub open spec fn spec_ambisonics_channels(order: u8) -> int {
    (order + 1) * (order + 1)
}

/// Returns the number of channels of an ambisonic sound field of the given
/// order. The order must be below 255, so that the count fits the result.
pub fn ambisonics_channels(order: u8) -> (channels: u16)
    requires
        order < 255,
    ensures
        channels == spec_ambisonics_channels(order),
{
    let side: u16 = order as u16 + 1;
    assert(side * side <= 255 * 255) by (nonlinear_arith)
        requires
            1 <= side <= 255,
    ;
    side * side
}

} // verus!
