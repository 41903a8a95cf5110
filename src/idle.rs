//! The idle timer: at most one pending expiry, replaced on every reset.
//!
//! Each reset bumps a generation counter and arms a new deadline; a timer
//! task carries the generation it was started with, and its wake-up counts
//! only if no reset has happened since and the deadline has passed. Times
//! are milliseconds on a monotonic clock.
use vstd::prelude::*;

verus! {

/// The pending expiry, if any, and the generation of the latest reset.
#[derive(Debug, Clone, Copy, PartialEq, Eq, Structural)]
pub struct IdleTimer {
    pub generation: u64,
    pub deadline: Option<u64>,
}

/// `now + timeout`, or the largest time where that does not fit.
pub open spec fn deadline_at(now: u64, timeout: u64) -> u64 {
    if now as int + timeout as int > u64::MAX as int {
        u64::MAX
    } else {
        (now + timeout) as u64
    }
}

/// The generation after `g`.
pub open spec fn next_generation(g: u64) -> u64 {
    if g == u64::MAX {
        0
    } else {
        (g + 1) as u64
    }
}

/// The timer after a reset at `now`: a new generation and a new deadline.
pub open spec fn reset_spec(s: IdleTimer, now: u64, timeout: u64) -> IdleTimer {
    IdleTimer { generation: next_generation(s.generation), deadline: Some(deadline_at(now, timeout)) }
}

/// Whether a wake-up of the timer task of generation `token` at `now` emits
/// the idle presentation.
pub open spec fn wake_emits(s: IdleTimer, token: u64, now: u64) -> bool {
    &&& token == s.generation
    &&& s.deadline matches Some(d) && d <= now
}

/// The timer after such a wake-up: disarmed where it emitted.
pub open spec fn wake_spec(s: IdleTimer, token: u64, now: u64) -> IdleTimer {
    if wake_emits(s, token, now) {
        IdleTimer { generation: s.generation, deadline: None }
    } else {
        s
    }
}

impl IdleTimer {
    /// No timer pending.
    pub fn new() -> (r: IdleTimer)
        ensures
            r.generation == 0,
            r.deadline is None,
    {
        IdleTimer { generation: 0, deadline: None }
    }

    /// Replaces the pending expiry, if any, by one `timeout` after `now`, and
    /// returns the generation that the new timer task carries.
    pub fn reset(&mut self, now: u64, timeout: u64) -> (token: u64)
        ensures
            *final(self) == reset_spec(*old(self), now, timeout),
            token == final(self).generation,
    {
        self.generation = if self.generation == u64::MAX {
            0
        } else {
            self.generation + 1
        };
        let d = if now > u64::MAX - timeout {
            u64::MAX
        } else {
            now + timeout
        };
        self.deadline = Some(d);
        self.generation
    }

    /// A timer task of generation `token` woke at `now`: true where it is
    /// the latest one and its deadline has passed, which disarms the timer.
    pub fn on_wake(&mut self, token: u64, now: u64) -> (emit: bool)
        ensures
            emit == wake_emits(*old(self), token, now),
            *final(self) == wake_spec(*old(self), token, now),
    {
        let due = match self.deadline {
            Some(d) => d <= now,
            None => false,
        };
        if token == self.generation && due {
            self.deadline = None;
            true
        } else {
            false
        }
    }

    /// Disarms the timer.
    pub fn cancel(&mut self)
        ensures
            final(self).generation == old(self).generation,
            final(self).deadline is None,
    {
        self.deadline = None;
    }
}

/// What happens to the timer: a reset at a time, or a wake-up of the task
/// of a generation at a time.
#[derive(Debug, Clone, Copy, PartialEq, Eq, Structural)]
pub enum IdleEvent {
    Reset(u64),
    Wake(u64, u64),
}

/// When an event happens.
pub open spec fn event_time(e: IdleEvent) -> u64 {
    match e {
        IdleEvent::Reset(t) => t,
        IdleEvent::Wake(_, t) => t,
    }
}

/// The timer after `evs`, and how many idle presentations they emitted.
pub open spec fn run(s: IdleTimer, evs: Seq<IdleEvent>, timeout: u64) -> (IdleTimer, nat)
    decreases evs.len(),
{
    if evs.len() == 0 {
        (s, 0)
    } else {
        let (t, n) = run(s, evs.drop_last(), timeout);
        match evs.last() {
            IdleEvent::Reset(now) => (reset_spec(t, now, timeout), n),
            IdleEvent::Wake(token, now) => (
                wake_spec(t, token, now),
                if wake_emits(t, token, now) {
                    n + 1
                } else {
                    n
                },
            ),
        }
    }
}

/// The index of the first reset at or after `a`, or `evs.len()`.
pub open spec fn first_reset_from(evs: Seq<IdleEvent>, a: int) -> int
    decreases evs.len() - a,
{
    if a < 0 || a >= evs.len() {
        evs.len() as int
    } else if evs[a] is Reset {
        a
    } else {
        first_reset_from(evs, a + 1)
    }
}

/// The index of the last reset before `k`, or -1.
pub open spec fn last_reset_before(evs: Seq<IdleEvent>, k: int) -> int
    decreases k,
{
    if k <= 0 || k > evs.len() {
        -1
    } else if evs[k - 1] is Reset {
        k - 1
    } else {
        last_reset_before(evs, k - 1)
    }
}

proof fn lemma_first_reset_from(evs: Seq<IdleEvent>, a: int)
    requires
        0 <= a <= evs.len(),
    ensures
        a <= first_reset_from(evs, a) <= evs.len(),
        first_reset_from(evs, a) < evs.len() ==> evs[first_reset_from(evs, a)] is Reset,
        forall|m: int| a <= m < first_reset_from(evs, a) ==> !(#[trigger] evs[m] is Reset),
    decreases evs.len() - a,
{
    if a < evs.len() && !(evs[a] is Reset) {
        lemma_first_reset_from(evs, a + 1);
    }
}

proof fn lemma_last_reset_before(evs: Seq<IdleEvent>, k: int)
    requires
        0 <= k <= evs.len(),
    ensures
        -1 <= last_reset_before(evs, k) < k,
        last_reset_before(evs, k) >= 0 ==> evs[last_reset_before(evs, k)] is Reset,
        forall|m: int| last_reset_before(evs, k) < m < k ==> !(#[trigger] evs[m] is Reset),
    decreases k,
{
    if k > 0 && !(evs[k - 1] is Reset) {
        lemma_last_reset_before(evs, k - 1);
    }
}

/// Times never go back.
pub open spec fn ordered(evs: Seq<IdleEvent>) -> bool {
    forall|i: int, j: int|
        0 <= i < j < evs.len() ==> event_time(#[trigger] evs[i]) <= event_time(#[trigger] evs[j])
}

/// Each reset is followed by the next one, if any, less than `timeout`
/// later.
pub open spec fn resets_closer_than(evs: Seq<IdleEvent>, timeout: u64) -> bool {
    forall|i: int|
        0 <= i < evs.len() && #[trigger] evs[i] is Reset && first_reset_from(evs, i + 1)
            < evs.len() ==> event_time(evs[first_reset_from(evs, i + 1)]) < event_time(evs[i])
            + timeout
}

/// No deadline is cut short by the end of the clock.
pub open spec fn clock_fits(evs: Seq<IdleEvent>, timeout: u64) -> bool {
    forall|i: int| 0 <= i < evs.len() ==> event_time(#[trigger] evs[i]) + timeout <= u64::MAX
}

proof fn lemma_quiet_prefix(s: IdleTimer, evs: Seq<IdleEvent>, timeout: u64, k: int)
    requires
        1 <= k <= evs.len(),
        evs[0] is Reset,
        evs.last() is Reset,
        ordered(evs),
        resets_closer_than(evs, timeout),
        clock_fits(evs, timeout),
    ensures
        run(s, evs.take(k), timeout).1 == 0,
        last_reset_before(evs, k) >= 0,
        run(s, evs.take(k), timeout).0.deadline == Some(
            (event_time(evs[last_reset_before(evs, k)]) + timeout) as u64,
        ),
    decreases k,
{
    let pre = evs.take(k);
    assert(pre.drop_last() =~= evs.take(k - 1));
    assert(pre.last() == evs[k - 1]);
    if k == 1 {
        assert(evs.take(0) =~= Seq::<IdleEvent>::empty());
    } else {
        lemma_quiet_prefix(s, evs, timeout, k - 1);
        lemma_last_reset_before(evs, k);
        lemma_last_reset_before(evs, k - 1);
        match evs[k - 1] {
            IdleEvent::Reset(now) => {},
            IdleEvent::Wake(token, now) => {
                let r = last_reset_before(evs, k);
                assert(r == last_reset_before(evs, k - 1));
                lemma_first_reset_from(evs, r + 1);
                let j = first_reset_from(evs, r + 1);
                assert(evs[evs.len() - 1] is Reset);
                assert(j <= evs.len() - 1);
                if j <= k - 1 {
                    assert(evs[j] is Reset);
                    assert(false);
                }
                assert(event_time(evs[j]) < event_time(evs[r]) + timeout);
                assert(event_time(evs[k - 1]) <= event_time(evs[j]));
            },
        }
    }
}

/// While resets come closer together than the idle window, nothing idle is
/// emitted from the first reset to the last, whatever timer tasks wake in
/// between.
pub proof fn lemma_no_idle_while_active(s: IdleTimer, evs: Seq<IdleEvent>, timeout: u64)
    requires
        evs.len() >= 1,
        evs[0] is Reset,
        evs.last() is Reset,
        ordered(evs),
        resets_closer_than(evs, timeout),
        clock_fits(evs, timeout),
    ensures
        run(s, evs, timeout).1 == 0,
{
    lemma_quiet_prefix(s, evs, timeout, evs.len() as int);
    assert(evs.take(evs.len() as int) =~= evs);
}

proof fn lemma_after_emission(s: IdleTimer, evs: Seq<IdleEvent>, timeout: u64, k: int)
    requires
        2 <= k <= evs.len(),
        evs[0] is Reset,
        evs[1] == IdleEvent::Wake(
            next_generation(s.generation),
            event_time(evs[1]),
        ),
        event_time(evs[0]) + timeout <= event_time(evs[1]),
        forall|i: int| 1 <= i < evs.len() ==> #[trigger] evs[i] is Wake,
    ensures
        run(s, evs.take(k), timeout).1 == 1,
        run(s, evs.take(k), timeout).0.deadline is None,
    decreases k,
{
    let pre = evs.take(k);
    assert(pre.drop_last() =~= evs.take(k - 1));
    assert(pre.last() == evs[k - 1]);
    if k == 2 {
        let one = evs.take(1);
        assert(one.drop_last() =~= Seq::<IdleEvent>::empty());
        assert(one.last() == evs[0]);
        assert(run(s, one.drop_last(), timeout) == (s, 0nat));
        let t0 = event_time(evs[0]);
        assert(evs[0] == IdleEvent::Reset(t0));
        assert(run(s, one, timeout) == (reset_spec(s, t0, timeout), 0nat));
        assert(evs.take(2).drop_last() =~= one);
    } else {
        lemma_after_emission(s, evs, timeout, k - 1);
        assert(evs[k - 1] is Wake);
        let prev = run(s, evs.take(k - 1), timeout);
        assert(!wake_emits(prev.0, evs[k - 1]->Wake_0, evs[k - 1]->Wake_1));
    }
}

/// A reset followed only by wake-ups, the first of them the new timer task's
/// own at least one idle window later, emits exactly one idle presentation.
pub proof fn lemma_one_idle_after_silence(s: IdleTimer, evs: Seq<IdleEvent>, timeout: u64)
    requires
        evs.len() >= 2,
        evs[0] is Reset,
        evs[1] == IdleEvent::Wake(
            next_generation(s.generation),
            event_time(evs[1]),
        ),
        event_time(evs[0]) + timeout <= event_time(evs[1]),
        forall|i: int| 1 <= i < evs.len() ==> #[trigger] evs[i] is Wake,
    ensures
        run(s, evs, timeout).1 == 1,
{
    lemma_after_emission(s, evs, timeout, evs.len() as int);
    assert(evs.take(evs.len() as int) =~= evs);
}

} // verus!
