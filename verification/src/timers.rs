//! Durations as the graphics library counts them: in whole milliseconds, in
//! 32 bits.
use vstd::prelude::*;

verus! {

/// The milliseconds of a tick or of a timer's period: the count wraps
/// round where it does not fit 32 bits.
pub fn millis_wrapped(millis: u128) -> (r: u32)
    ensures
        r == millis % 0x1_0000_0000,
{
    (millis % 0x1_0000_0000) as u32
}

/// The milliseconds of an animation's duration: a duration that does not
/// fit 32 bits counts as none.
pub fn millis_or_zero(millis: u128) -> (r: u32)
    ensures
        r == if millis <= u32::MAX {
            millis as int
        } else {
            0
        },
{
    if millis <= 0xffff_ffff {
        millis as u32
    } else {
        0
    }
}

} // verus!
