//! The dispatch loop's per-iteration wake-timeout rule.  Each iteration the
//! loop advances timers, lets the adapter render if dirty, and then blocks
//! in the reactor for at most the timeout computed here, recomputed every
//! iteration from live adapter state and never cached.

use vstd::prelude::*;

verus! {

/// The forced wake interval while animations run, approximating one frame
/// at sixty frames per second, in milliseconds.
pub const ANIMATION_FRAME_MS: u64 = 16;

/// What `compute_wait_timeout` returns: with active animations a fixed
/// short timeout, whatever the adapter's own timer deadline, so animation
/// keeps advancing smoothly; otherwise the adapter's time until its next
/// timer fires, where `None` means block until an event arrives.
pub open spec fn wait_timeout_spec(animations_active: bool, next_timer_ms: Option<u64>) -> Option<
    u64,
> {
    if animations_active {
        Some(ANIMATION_FRAME_MS)
    } else {
        next_timer_ms
    }
}

/// Computes the timeout for the reactor's blocking dispatch call from the
/// adapter's live state: whether animations are active, and how long until
/// its next timer fires, if any timer is pending.
pub fn compute_wait_timeout(animations_active: bool, next_timer_ms: Option<u64>) -> (r: Option<
    u64,
>)
    ensures
        r == wait_timeout_spec(animations_active, next_timer_ms),
{
    if animations_active {
        Some(ANIMATION_FRAME_MS)
    } else {
        next_timer_ms
    }
}

/// While the adapter reports active animations the computed wait timeout
/// is never more than sixteen milliseconds, whatever timer deadline the
/// adapter reports beside them.
pub proof fn lemma_animation_timeout_bounded(next_timer_ms: Option<u64>)
    ensures
        wait_timeout_spec(true, next_timer_ms) == Some(ANIMATION_FRAME_MS),
        wait_timeout_spec(true, next_timer_ms) matches Some(t) && t <= 16,
{
}

/// With no active animations and no pending timer the computed timeout is
/// absent: the loop blocks indefinitely, to be woken only by an event
/// source (a job, input, or the termination signal).
pub proof fn lemma_idle_wait_is_indefinite()
    ensures
        wait_timeout_spec(false, Option::<u64>::None) is None,
{
}

} // verus!
