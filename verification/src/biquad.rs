//! Biquad filters, as the engine designs them.
use vstd::prelude::*;

verus! {

/// The coefficients of a biquad filter. The engine designs them and reads
/// them back; on this side they are carried, as the bits of doubles, and
/// never computed with.
#[derive(Copy, Clone, Debug, PartialEq, Eq, Structural)]
pub struct BiquadConfig {
    pub b0: u64,
    pub b1: u64,
    pub b2: u64,
    pub a1: u64,
    pub a2: u64,
    pub gain: u64,
    /// Whether the filter passes audio through unchanged.
    pub is_wire: bool,
}

} // verus!
