//! The activity clock — the last time the managed peripheral was seen
//! producing input — and the rule deciding which input events count as its
//! activity.

use vstd::prelude::*;

verus! {

/// The clock value after observing activity at time `now`: a reading earlier
/// than the recorded one indicates a clock anomaly and is ignored, so the
/// clock never goes backwards.
pub open spec fn spec_record(last: u64, now: u64) -> u64 {
    if now >= last {
        now
    } else {
        last
    }
}

/// Seconds-since-epoch of the last observed matching input event, `0` while
/// none has been observed yet.
pub struct ActivityClock {
    pub last_activity_secs: u64,
}

impl ActivityClock {
    /// A clock that has seen no activity.
    pub fn new() -> (r: ActivityClock)
        ensures
            r.last_activity_secs == 0,
    {
        ActivityClock { last_activity_secs: 0 }
    }

    /// Records activity observed at `now` and reports whether the reading
    /// was stored. The clock is monotone: a reading that would move it
    /// backwards is skipped as a soft error.
    pub fn record(&mut self, now: u64) -> (updated: bool)
        ensures
            final(self).last_activity_secs == spec_record(old(self).last_activity_secs, now),
            updated == (now >= old(self).last_activity_secs),
            final(self).last_activity_secs >= old(self).last_activity_secs,
    {
        if now >= self.last_activity_secs {
            self.last_activity_secs = now;
            true
        } else {
            false
        }
    }
}

/// An event whose device path is `path` (`None` when the event's metadata
/// did not decode as text) counts as activity of the peripheral exactly when
/// the path equals the resolved device path — exact string equality,
/// case-sensitive, no normalization.
pub open spec fn matches_resolved(resolved: Seq<char>, path: Option<Seq<char>>) -> bool {
    path matches Some(p) && p == resolved
}

/// How many events of `paths`, in order, count as activity for `resolved`.
pub open spec fn count_updates(resolved: Seq<char>, paths: Seq<Option<Seq<char>>>) -> nat
    decreases paths.len(),
{
    if paths.len() == 0 {
        0
    } else {
        count_updates(resolved, paths.drop_last()) + if matches_resolved(resolved, paths.last()) {
            1nat
        } else {
            0nat
        }
    }
}

/// Device-path filtering: among events with paths `[p, q, p, r]`, where `q`
/// and `r` differ from the resolved path `p`, exactly the two `p` events
/// count as activity.
pub proof fn lemma_path_filtering(p: Seq<char>, q: Seq<char>, r: Seq<char>)
    requires
        q != p,
        r != p,
    ensures
        count_updates(p, seq![Some(p), Some(q), Some(p), Some(r)]) == 2,
{
    let s4 = seq![Some(p), Some(q), Some(p), Some(r)];
    let s3 = seq![Some(p), Some(q), Some(p)];
    let s2 = seq![Some(p), Some(q)];
    let s1 = seq![Some(p)];
    assert(s4.drop_last() =~= s3);
    assert(s3.drop_last() =~= s2);
    assert(s2.drop_last() =~= s1);
    assert(s1.drop_last() =~= Seq::<Option<Seq<char>>>::empty());
    assert(count_updates(p, Seq::<Option<Seq<char>>>::empty()) == 0);
    assert(s1.last() == Some(p) && matches_resolved(p, s1.last()));
    assert(s2.last() == Some(q) && !matches_resolved(p, s2.last()));
    assert(s3.last() == Some(p) && matches_resolved(p, s3.last()));
    assert(s4.last() == Some(r) && !matches_resolved(p, s4.last()));
    assert(count_updates(p, s1) == 1);
    assert(count_updates(p, s2) == 1);
    assert(count_updates(p, s3) == 2);
    assert(count_updates(p, s4) == 2);
}

} // verus!
