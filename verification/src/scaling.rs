//! Range scaling shared by the actuators.
//!
//! A command is a step count in `0..=255`. It selects a point of a duty
//! cycle range `[low, high]` by floor division: step `s` selects
//! `low + s * (high - low) / 256`. The top of the range is therefore never
//! reached; step 255 stops short of it by the 256th part of the span,
//! rounded up.

use vstd::prelude::*;

verus! {

/// The duty cycle that `step` selects in the range from `low` to `high`.
pub open spec fn scaled(step: int, low: int, high: int) -> int {
    low + step * (high - low) / 256
}

/// The middle of the range from `low` to `high`, rounded down.
pub open spec fn mid(low: int, high: int) -> int {
    (low + high) / 2
}

/// A selected duty cycle never leaves the range it was selected from, and
/// stays below its top unless the range is a single point.
pub proof fn scaled_within_range(step: int, low: int, high: int)
    requires
        0 <= step < 256,
        low <= high,
    ensures
        low <= scaled(step, low, high) <= high,
        low < high ==> scaled(step, low, high) < high,
{
    let span = high - low;
    assert(0 <= step * span <= 255 * span) by (nonlinear_arith)
        requires
            0 <= step <= 255,
            0 <= span,
    ;
}

/// A larger step never selects a smaller duty cycle.
pub proof fn scaled_is_monotonic(a: int, b: int, low: int, high: int)
    requires
        a <= b,
        low <= high,
    ensures
        scaled(a, low, high) <= scaled(b, low, high),
{
    let span = high - low;
    assert(a * span <= b * span) by (nonlinear_arith)
        requires
            a <= b,
            0 <= span,
    ;
}

/// Step zero selects the bottom of the range.
pub proof fn scaled_at_zero(low: int, high: int)
    ensures
        scaled(0, low, high) == low,
{
    assert(0 * (high - low) == 0) by (nonlinear_arith);
}

/// The last step stops short of the top of the range by the 256th part of
/// the span, rounded up.
pub proof fn scaled_at_last_step(low: int, high: int)
    requires
        low <= high,
    ensures
        high - scaled(255, low, high) == (high - low + 255) / 256,
{
}

/// The midpoint lies within the range.
pub proof fn mid_within_range(low: int, high: int)
    requires
        low <= high,
    ensures
        low <= mid(low, high) <= high,
{
}

/// Selects the duty cycle for `step` in the range from `low` to `high`.
pub fn scale(step: u8, low: u16, high: u16) -> (duty: u16)
    requires
        low <= high,
    ensures
        duty == scaled(step as int, low as int, high as int),
{
    let span: u16 = high - low;
    proof {
        scaled_within_range(step as int, low as int, high as int);
        assert(0 <= step * span <= 255 * 65535) by (nonlinear_arith)
            requires
                0 <= step <= 255,
                0 <= span <= 65535,
        ;
    }
    let part: u32 = (step as u32) * (span as u32) / 256;
    (part + low as u32) as u16
}

/// Computes the middle of the range from `low` to `high`, rounded down.
///
/// The sum is formed in 32 bits, so every pair of bounds is accepted.
pub fn midpoint(low: u16, high: u16) -> (duty: u16)
    ensures
        duty == mid(low as int, high as int),
{
    ((low as u32 + high as u32) / 2) as u16
}

} // verus!
