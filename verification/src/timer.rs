//! Countdown timers: plain numbers of seconds that run down to zero.

use crate::fixed::Fixed;
use vstd::prelude::*;

verus! {

/// A running timer loses `dt` and stops at zero; a stopped timer stays as it is.
pub open spec fn tick_down_spec(timer: Fixed, dt: Fixed) -> Fixed {
    if timer.raw > 0 {
        timer.sub_spec(dt).max_spec(Fixed::zero_spec())
    } else {
        timer
    }
}

/// Advances a countdown timer by one step of `dt` seconds.
pub fn tick_down(timer: Fixed, dt: Fixed) -> (r: Fixed)
    ensures
        r == tick_down_spec(timer, dt),
{
    if timer.raw > 0 {
        timer.saturating_sub(dt).max(Fixed::zero())
    } else {
        timer
    }
}

/// A step that is not negative takes exactly `dt` off a timer that has more
/// than `dt` left, and never makes a timer run longer.
pub proof fn lemma_tick_down_elapsed(timer: Fixed, dt: Fixed)
    requires
        dt.raw >= 0,
    ensures
        timer.raw > dt.raw ==> tick_down_spec(timer, dt).raw == timer.raw - dt.raw,
        tick_down_spec(timer, dt).raw <= timer.raw,
        tick_down_spec(timer, dt).raw >= timer.raw - dt.raw,
        timer.raw >= 0 ==> tick_down_spec(timer, dt).raw >= 0,
{
}

} // verus!
