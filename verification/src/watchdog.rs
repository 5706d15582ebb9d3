//! The idle watchdog's per-tick decision: disconnect the peripheral once it
//! has produced no activity for the idle threshold.

use vstd::prelude::*;

verus! {

/// Idle threshold: five minutes without activity.
pub const IDLE_THRESHOLD_SECS: u64 = 300;

/// The idle policy: disconnect when at least the threshold has elapsed
/// between the recorded activity and `now`. An activity clock still at `0`
/// reads as "idle since the epoch" and so exceeds the threshold at once; a
/// wall clock reading earlier than the recorded activity has not reached it.
pub open spec fn spec_should_disconnect(last_activity: u64, now: u64) -> bool {
    now - last_activity >= IDLE_THRESHOLD_SECS
}

/// A tick disconnects exactly when session access was available, the wall
/// clock could be read, and the idle threshold is reached.
pub open spec fn spec_tick_disconnects(lock_acquired: bool, now: Option<u64>, last_activity: u64) -> bool {
    &&& lock_acquired
    &&& now matches Some(t) && spec_should_disconnect(last_activity, t)
}

/// One watchdog tick: given whether exclusive session access was available,
/// the wall-clock reading (`None` when it failed), and the activity clock
/// value, decide whether to disconnect now. A busy session or a failed
/// clock reading skips the tick entirely — the tick never blocks or queues.
pub fn watchdog_tick(lock_acquired: bool, now: Option<u64>, last_activity: u64) -> (disconnect:
    bool)
    ensures
        disconnect == spec_tick_disconnects(lock_acquired, now, last_activity),
{
    if !lock_acquired {
        return false;
    }
    match now {
        None => false,
        Some(t) => t >= last_activity && t - last_activity >= IDLE_THRESHOLD_SECS,
    }
}

/// The idle boundary: one second short of the threshold does not disconnect;
/// exactly at the threshold, it does.
pub proof fn lemma_idle_threshold(t0: u64)
    requires
        t0 + IDLE_THRESHOLD_SECS <= u64::MAX,
    ensures
        !spec_should_disconnect(t0, (t0 + IDLE_THRESHOLD_SECS - 1) as u64),
        spec_should_disconnect(t0, (t0 + IDLE_THRESHOLD_SECS) as u64),
{
}

} // verus!
