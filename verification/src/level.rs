//! Per-block loudness decisions.
//!
//! Once per device callback the capture thread reduces a block to a scalar
//! loudness value (the root mean square of its samples) and decides which
//! events to emit and what to forward.  Floating-point arithmetic cannot be
//! verified here, so the loudness value is handled as its IEEE 754 bit
//! pattern: for finite non-negative values — and a root mean square is never
//! negative — numeric order coincides with unsigned order on the bit
//! patterns, so the threshold comparison is exact.

use vstd::prelude::*;
use crate::codec::block_bytes;
use crate::codec::encode_block;

verus! {

/// Bit pattern of the ducking threshold: the IEEE 754 encoding of the value
/// one tenth, on the [-1, 1] normalized amplitude scale.
pub const DUCK_THRESHOLD_BITS: u32 = 0x3DCCCCCD;

/// What one captured block leads to: a "level" event on every block, a
/// "ducking" event only above the threshold, and the serialized samples
/// whenever a forwarding sink is configured.
pub struct BlockPlan {
    /// Value carried by the unconditional visualization event.
    pub level_bits: u32,
    /// Value carried by the ducking event, if the threshold was exceeded.
    pub duck_bits: Option<u32>,
    /// Little-endian bytes for the worker's input channel, if forwarding.
    pub forward_bytes: Option<Vec<u8>>,
}

/// Decide the outputs for one captured block.  `rms_bits` is the bit pattern
/// of the block's root mean square; `forward` says whether a forwarding sink
/// is configured for this session.
pub fn plan_block(samples: &Vec<u32>, rms_bits: u32, forward: bool) -> (r: BlockPlan)
    ensures
        r.level_bits == rms_bits,
        r.duck_bits == (if rms_bits > DUCK_THRESHOLD_BITS {
            Some(rms_bits)
        } else {
            None::<u32>
        }),
        forward ==> (r.forward_bytes matches Some(b) && b@ == block_bytes(samples@)),
        !forward ==> r.forward_bytes is None,
{
    BlockPlan {
        level_bits: rms_bits,
        duck_bits: if rms_bits > DUCK_THRESHOLD_BITS {
            Some(rms_bits)
        } else {
            None
        },
        forward_bytes: if forward {
            Some(encode_block(samples))
        } else {
            None
        },
    }
}

/// Name of the event emitted on every block for visualization.
pub fn level_event_name() -> (r: &'static str)
    ensures
        r@ == "audio-level"@,
{
    "audio-level"
}

/// Name of the event emitted only when the loudness exceeds the threshold,
/// asking downstream consumers to duck other audio.
pub fn duck_event_name() -> (r: &'static str)
    ensures
        r@ == "duck_system_audio"@,
{
    "duck_system_audio"
}

} // verus!
