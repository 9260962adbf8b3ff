use vstd::prelude::*;
use std::collections::VecDeque;

verus! {

/// How far back, in nanoseconds, restarts count towards a burst (three seconds).
pub const RESTART_WINDOW_NANOS: u64 = 3_000_000_000;

/// How many restarts inside the window make the next one wait.
pub const RESTART_BURST: usize = 3;

/// What to do before the next connection attempt.
#[derive(Debug, Clone, Copy, PartialEq, Eq, Structural)]
pub enum RestartDelay {
    /// Connect again at once.
    Immediate,
    /// Wait one second before connecting again.
    PauseOneSecond,
}

/// A restart at `t` has left the window that ends at `now`: more than the window
/// has passed since it (a time after `now` counts as no time passed).
pub open spec fn stale(t: u64, now: u64) -> bool {
    (now as int) - (t as int) > RESTART_WINDOW_NANOS as int
}

/// The restarts with the stale ones at the front removed, up to the first that
/// still lies inside the window.
pub open spec fn drop_stale(s: Seq<u64>, now: u64) -> Seq<u64>
    decreases s.len(),
{
    if s.len() == 0 {
        s
    } else if stale(s[0], now) {
        drop_stale(s.drop_first(), now)
    } else {
        s
    }
}

/// How many of the restarts lie inside the window that ends at `now`.
pub open spec fn recent_count(s: Seq<u64>, now: u64) -> nat
    decreases s.len(),
{
    if s.len() == 0 {
        0
    } else {
        (if stale(s[0], now) { 0nat } else { 1nat }) + recent_count(s.drop_first(), now)
    }
}

/// Restart times in the order they happened, none after `now`.
pub open spec fn ordered_until(s: Seq<u64>, now: u64) -> bool {
    &&& forall|i: int, j: int| 0 <= i <= j < s.len() ==> s[i] <= s[j]
    &&& forall|i: int| 0 <= i < s.len() ==> s[i] <= now
}

/// The recent connection restarts, oldest first.
pub struct RestartWindow {
    stamps: VecDeque<u64>,
}

impl View for RestartWindow {
    type V = Seq<u64>;

    closed spec fn view(&self) -> Seq<u64> {
        self.stamps@
    }
}

proof fn lemma_drop_stale_suffix(s: Seq<u64>, now: u64)
    ensures
        drop_stale(s, now).len() <= s.len(),
        drop_stale(s, now) == s.subrange(s.len() - drop_stale(s, now).len(), s.len() as int),
        drop_stale(s, now).len() > 0 ==> !stale(drop_stale(s, now)[0], now),
    decreases s.len(),
{
    if s.len() > 0 && stale(s[0], now) {
        lemma_drop_stale_suffix(s.drop_first(), now);
        let d = drop_stale(s.drop_first(), now);
        assert(s.drop_first().subrange(s.len() - 1 - d.len(), s.len() - 1) =~= s.subrange(
            s.len() - d.len(),
            s.len() as int,
        ));
    } else {
        assert(s.subrange(0, s.len() as int) =~= s);
    }
}

/// In time order, once one restart lies inside the window, all later ones do too.
proof fn lemma_recent_all(s: Seq<u64>, now: u64)
    requires
        ordered_until(s, now),
        s.len() > 0 ==> !stale(s[0], now),
    ensures
        recent_count(s, now) == s.len(),
    decreases s.len(),
{
    if s.len() > 0 {
        let r = s.drop_first();
        assert(r.len() > 0 ==> s[0] <= r[0]);
        assert(ordered_until(r, now)) by {
            assert forall|i: int, j: int| 0 <= i <= j < r.len() implies r[i] <= r[j] by {
                assert(r[i] == s[i + 1] && r[j] == s[j + 1]);
            }
        }
        lemma_recent_all(r, now);
    }
}

/// Of restarts in time order, dropping the stale ones at the front leaves exactly
/// those inside the window.
pub proof fn lemma_drop_stale_counts_recent(s: Seq<u64>, now: u64)
    requires
        ordered_until(s, now),
    ensures
        drop_stale(s, now).len() == recent_count(s, now),
    decreases s.len(),
{
    if s.len() > 0 {
        if stale(s[0], now) {
            let r = s.drop_first();
            assert(ordered_until(r, now)) by {
                assert forall|i: int, j: int| 0 <= i <= j < r.len() implies r[i] <= r[j] by {
                    assert(r[i] == s[i + 1] && r[j] == s[j + 1]);
                }
            }
            lemma_drop_stale_counts_recent(r, now);
        } else {
            lemma_recent_all(s, now);
        }
    }
}

/// A restart is held back exactly when it makes the third (or later) one inside
/// the last three seconds, counting itself, provided the restarts are recorded in
/// the order they happen.
pub proof fn lemma_pause_iff_burst(old_stamps: Seq<u64>, now: u64)
    requires
        ordered_until(old_stamps, now),
    ensures
        (drop_stale(old_stamps.push(now), now).len() >= RESTART_BURST) <==> (recent_count(
            old_stamps.push(now),
            now,
        ) >= RESTART_BURST),
        ordered_until(drop_stale(old_stamps.push(now), now), now),
{
    let s = old_stamps.push(now);
    assert(ordered_until(s, now)) by {
        assert forall|i: int, j: int| 0 <= i <= j < s.len() implies s[i] <= s[j] by {
            if j < old_stamps.len() {
                assert(s[i] == old_stamps[i] && s[j] == old_stamps[j]);
            } else if i < old_stamps.len() {
                assert(s[i] == old_stamps[i]);
            }
        }
    }
    lemma_drop_stale_counts_recent(s, now);
    lemma_drop_stale_suffix(s, now);
    let d = drop_stale(s, now);
    assert forall|i: int, j: int| 0 <= i <= j < d.len() implies d[i] <= d[j] by {
        assert(d[i] == s[s.len() - d.len() + i]);
        assert(d[j] == s[s.len() - d.len() + j]);
    }
    assert forall|i: int| 0 <= i < d.len() implies d[i] <= now by {
        assert(d[i] == s[s.len() - d.len() + i]);
    }
}

impl RestartWindow {
    pub fn new() -> (res: RestartWindow)
        ensures
            res@ == Seq::<u64>::empty(),
    {
        RestartWindow { stamps: VecDeque::new() }
    }

    pub fn len(&self) -> (res: usize)
        ensures
            res == self@.len(),
    {
        self.stamps.len()
    }

    /// Records a restart at `now` (nanoseconds on a monotonic clock), forgets the
    /// restarts at the front that lie more than three seconds back, and says whether
    /// to wait a second before the next attempt: when three or more remain.
    pub fn record(&mut self, now: u64) -> (res: RestartDelay)
        ensures
            final(self)@ == drop_stale(old(self)@.push(now), now),
            res == (if final(self)@.len() >= RESTART_BURST {
                RestartDelay::PauseOneSecond
            } else {
                RestartDelay::Immediate
            }),
    {
        self.stamps.push_back(now);
        let ghost pushed = self.stamps@;
        loop
            invariant
                drop_stale(self.stamps@, now) == drop_stale(pushed, now),
            ensures
                self.stamps@ == drop_stale(pushed, now),
            decreases self.stamps@.len(),
        {
            if self.stamps.len() == 0 {
                break;
            }
            let t: u64 = self.stamps[0];
            if now > t && now - t > RESTART_WINDOW_NANOS {
                let ghost before = self.stamps@;
                self.stamps.pop_front();
                assert(self.stamps@ =~= before.drop_first());
            } else {
                break;
            }
        }
        if self.stamps.len() >= RESTART_BURST {
            RestartDelay::PauseOneSecond
        } else {
            RestartDelay::Immediate
        }
    }
}

} // verus!
