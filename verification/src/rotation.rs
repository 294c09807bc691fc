//! The model's rotation: a function of elapsed time alone.
//!
//! Angles are whole nanodegrees and times whole nanoseconds, so forty-five
//! degrees a second is forty-five nanodegrees a nanosecond and nothing is
//! rounded.

use vstd::prelude::*;

verus! {

/// Degrees turned per second, which is nanodegrees turned per nanosecond.
pub const DEGREES_PER_SECOND: u64 = 45;

/// Time from `start` to `now`; a clock that ran backwards counts as none.
pub open spec fn elapsed_between(start: u64, now: u64) -> nat {
    if now >= start {
        (now - start) as nat
    } else {
        0
    }
}

/// The angle, in nanodegrees, after `elapsed` nanoseconds.
pub open spec fn rotation_after(elapsed: nat) -> nat {
    DEGREES_PER_SECOND as nat * elapsed
}

/// The angle, in nanodegrees, at time `now` of a rotation that began at
/// `start`, both in nanoseconds on one monotonic clock.
pub fn rotation_nanodegrees(start: u64, now: u64) -> (angle: u128)
    ensures
        angle == rotation_after(elapsed_between(start, now)),
        now <= start ==> angle == 0,
{
    let elapsed: u64 = if now >= start {
        now - start
    } else {
        0
    };
    45u128 * (elapsed as u128)
}

/// The angle never decreases as time passes.
pub proof fn lemma_rotation_monotonic(earlier: nat, later: nat)
    requires
        earlier <= later,
    ensures
        rotation_after(earlier) <= rotation_after(later),
        earlier < later ==> rotation_after(earlier) < rotation_after(later),
{
}

/// Over any interval the angle grows by forty-five nanodegrees for each
/// nanosecond, whatever happened in between.
pub proof fn lemma_rotation_rate(earlier: nat, later: nat)
    requires
        earlier <= later,
    ensures
        rotation_after(later) - rotation_after(earlier) == 45 * (later - earlier),
{
}

/// Two readings of one clock against one start differ by the rate times the
/// time between them.
pub proof fn lemma_rotation_between_readings(start: u64, first: u64, second: u64)
    requires
        start <= first <= second,
    ensures
        rotation_after(elapsed_between(start, second)) - rotation_after(
            elapsed_between(start, first),
        ) == 45 * (second - first),
{
}

} // verus!
