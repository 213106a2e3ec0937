//! Plain types shared by the packet definitions

use vstd::prelude::*;

verus! {

/// Index of a vehicle in the per-vehicle arrays that many payloads carry.
pub type VehicleIndex = u8;

/// Raw little-endian bit pattern of a single-precision wire field.
///
/// Several fields of the wire format are transmitted as 32-bit floating-point
/// numbers. The decoder stores their bit patterns uninterpreted, exactly as
/// they appear on the wire; turning them into floating-point values is a
/// presentation concern that lives outside this crate.
pub type RawF32 = u32;

} // verus!
