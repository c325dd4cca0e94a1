//! Bounding IEEE-754 numbers held as their bit patterns.
//!
//! For a number that is not NaN and has no sign bit, the bit patterns order
//! as the numbers do; every number with the sign bit set is below `+0`
//! except `-0`, which equals it.

use vstd::prelude::*;

verus! {

/// The sign bit of a single-precision pattern.
pub const SIGN32: u32 = 0x8000_0000u32;
/// The pattern of single-precision `+inf`.
pub const INF32: u32 = 0x7f80_0000u32;
/// The sign bit of a double-precision pattern.
pub const SIGN64: u64 = 0x8000_0000_0000_0000u64;
/// The pattern of double-precision `+inf`.
pub const INF64: u64 = 0x7ff0_0000_0000_0000u64;

/// A single-precision NaN: all exponent bits set and a non-zero fraction.
pub open spec fn is_nan32(x: u32) -> bool {
    (if x >= SIGN32 { x - SIGN32 } else { x as int }) > INF32
}

/// A double-precision NaN.
pub open spec fn is_nan64(x: u64) -> bool {
    (if x >= SIGN64 { x - SIGN64 } else { x as int }) > INF64
}

/// `x` bounded to `[+0, hi]` as `clamp(0.0, hi)` bounds a single-precision
/// number: NaN stays NaN, `-0` stays `-0` (it is not below `+0`), any other
/// negative number becomes `+0`, a number above `hi` becomes `hi`.
pub open spec fn spec_clamp32(x: u32, hi: u32) -> u32 {
    if is_nan32(x) {
        x
    } else if x >= SIGN32 {
        if x == SIGN32 { x } else { 0 }
    } else if x > hi {
        hi
    } else {
        x
    }
}

/// [`spec_clamp32`] for double precision.
pub open spec fn spec_clamp64(x: u64, hi: u64) -> u64 {
    if is_nan64(x) {
        x
    } else if x >= SIGN64 {
        if x == SIGN64 { x } else { 0 }
    } else if x > hi {
        hi
    } else {
        x
    }
}

/// Bounds the single-precision number `x` to `[+0, hi]` (see [`spec_clamp32`]);
/// `hi` is a finite non-negative number.
pub fn clamp32(x: u32, hi: u32) -> (r: u32)
    requires
        hi < INF32,
    ensures
        r == spec_clamp32(x, hi),
{
    let magnitude = if x >= SIGN32 { x - SIGN32 } else { x };
    if magnitude > INF32 {
        x
    } else if x >= SIGN32 {
        if x == SIGN32 { x } else { 0 }
    } else if x > hi {
        hi
    } else {
        x
    }
}

/// Bounds the double-precision number `x` to `[+0, hi]` (see [`spec_clamp64`]);
/// `hi` is a finite non-negative number.
pub fn clamp64(x: u64, hi: u64) -> (r: u64)
    requires
        hi < INF64,
    ensures
        r == spec_clamp64(x, hi),
{
    let magnitude = if x >= SIGN64 { x - SIGN64 } else { x };
    if magnitude > INF64 {
        x
    } else if x >= SIGN64 {
        if x == SIGN64 { x } else { 0 }
    } else if x > hi {
        hi
    } else {
        x
    }
}

} // verus!
