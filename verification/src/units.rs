//! Units of measure, and sums that stop at the ends of their type.
use vstd::prelude::*;

verus! {

/// Lengths and coordinates count thousandths of a pixel.
pub const UNITS_PER_PIXEL: u32 = 1000;

/// Durations count microseconds.
pub const MICROS_PER_SECOND: u32 = 1_000_000;

/// A product of two bounded factors that are not negative is bounded by the
/// product of their bounds.
pub proof fn lemma_product_bounds(a: int, b: int, a_max: int, b_max: int)
    by (nonlinear_arith)
    requires
        0 <= a <= a_max,
        0 <= b <= b_max,
    ensures
        0 <= a * b <= a_max * b_max,
{
}

/// The coordinate nearest to `v`.
pub open spec fn saturated(v: int) -> i64 {
    if v < i64::MIN {
        i64::MIN
    } else if v > i64::MAX {
        i64::MAX
    } else {
        v as i64
    }
}

/// Brings a wide intermediate value back into the range of a coordinate.
pub fn saturate(v: i128) -> (r: i64)
    ensures
        r == saturated(v as int),
{
    if v < i64::MIN as i128 {
        i64::MIN
    } else if v > i64::MAX as i128 {
        i64::MAX
    } else {
        v as i64
    }
}

/// A length of whole pixels in units, stopping at the largest length.
pub open spec fn pixels(count: u32) -> u32 {
    if count as int * UNITS_PER_PIXEL as int > u32::MAX {
        u32::MAX
    } else {
        (count as int * UNITS_PER_PIXEL as int) as u32
    }
}

/// Computes [`pixels`].
pub fn from_pixels(count: u32) -> (units: u32)
    ensures
        units == pixels(count),
{
    proof {
        lemma_product_bounds(count as int, UNITS_PER_PIXEL as int, u32::MAX as int, 1000);
    }
    let wide: u64 = count as u64 * UNITS_PER_PIXEL as u64;
    if wide > u32::MAX as u64 {
        u32::MAX
    } else {
        wide as u32
    }
}

} // verus!
