//! The rate window: a sliding-window admission controller that bounds how
//! many requests go out in any 60 seconds.
//!
//! The limiter never sleeps. It is told the time, decides how long the
//! caller has to wait, and records the admission in the same step, so that
//! two callers can never both be let past the capacity.

use crate::error::PodbeanError;
use std::collections::VecDeque;
use vstd::prelude::*;
use vstd::string::*;

verus! {

/// Length of the rolling window in milliseconds.
pub const WINDOW_MS: u64 = 60_000;

/// Whether an admission recorded at `stamp` lies more than a window before
/// `now`.
pub open spec fn outdated(stamp: u64, now: u64) -> bool {
    stamp + WINDOW_MS < now
}

/// The admissions that are still retained at `now`: `stamps`, oldest first,
/// without its outdated oldest entries.
pub open spec fn prune(stamps: Seq<u64>, now: u64) -> Seq<u64>
    decreases stamps.len(),
{
    if stamps.len() > 0 && outdated(stamps[0], now) {
        prune(stamps.drop_first(), now)
    } else {
        stamps
    }
}

/// Whether a request made at `now` finds the window full.
pub open spec fn window_full(stamps: Seq<u64>, capacity: nat, now: u64) -> bool {
    prune(stamps, now).len() >= capacity
}

/// The instant at which a request made at `now` may go out: `now` itself
/// while the window has room, else the instant at which the oldest retained
/// admission is a full window old. An instant past the end of the clock's
/// range is read as that end.
pub open spec fn admission_instant(stamps: Seq<u64>, capacity: nat, now: u64) -> u64
    recommends
        capacity >= 1,
{
    let free_at = prune(stamps, now)[0] + WINDOW_MS;
    if !window_full(stamps, capacity, now) || free_at <= now {
        now
    } else if free_at <= u64::MAX {
        free_at as u64
    } else {
        u64::MAX
    }
}

/// How long a request made at `now` has to wait: 60 seconds less the age of
/// the oldest retained admission, and nothing while the window has room.
pub open spec fn wait_for(stamps: Seq<u64>, capacity: nat, now: u64) -> u64
    recommends
        capacity >= 1,
{
    (admission_instant(stamps, capacity, now) - now) as u64
}

/// The retained admissions after a request made at `now`: the outdated ones
/// are gone, the oldest has made room if the window was full, and the new
/// admission is the latest.
pub open spec fn after_admission(stamps: Seq<u64>, capacity: nat, now: u64) -> Seq<u64>
    recommends
        capacity >= 1,
{
    let kept = prune(stamps, now);
    let room = if window_full(stamps, capacity, now) {
        kept.drop_first()
    } else {
        kept
    };
    room.push(admission_instant(stamps, capacity, now))
}

/// Sliding-window limiter on the rate of outgoing requests.
#[derive(Debug)]
pub struct RateLimiter {
    capacity: usize,
    stamps: VecDeque<u64>,
}

impl View for RateLimiter {
    type V = Seq<u64>;

    /// The retained admission instants, oldest first.
    closed spec fn view(&self) -> Seq<u64> {
        self.stamps@
    }
}

impl RateLimiter {
    /// The most requests that may go out in one window.
    pub closed spec fn limit(&self) -> nat {
        self.capacity as nat
    }

    /// A limiter admits at least one request per window and retains no more
    /// admissions than its capacity.
    #[verifier::type_invariant]
    spec fn well_formed(self) -> bool {
        &&& self.capacity >= 1
        &&& self.stamps@.len() <= self.capacity
    }

    /// Creates a limiter that admits `capacity` requests per 60 seconds. A
    /// capacity of 0 could never admit anything and is refused.
    pub fn new(capacity: usize) -> (made: Result<RateLimiter, PodbeanError>)
        ensures
            made is Err <==> capacity == 0,
            made matches Ok(limiter) ==> limiter.limit() == capacity && limiter@.len() == 0,
            made matches Err(e) ==> e matches PodbeanError::OtherError(detail) && detail@
                == "Rate limit must allow at least one request"@,
    {
        if capacity == 0 {
            return Err(
                PodbeanError::OtherError(
                    String::from_str("Rate limit must allow at least one request"),
                ),
            );
        }
        Ok(RateLimiter { capacity, stamps: VecDeque::new() })
    }

    /// The most requests that may go out in one window.
    pub fn capacity(&self) -> (capacity: usize)
        ensures
            capacity == self.limit(),
            capacity >= 1,
    {
        proof {
            use_type_invariant(&*self);
        }
        self.capacity
    }

    /// How many admissions are retained.
    pub fn retained(&self) -> (count: usize)
        ensures
            count == self@.len(),
            count <= self.limit(),
    {
        proof {
            use_type_invariant(&*self);
        }
        self.stamps.len()
    }

    /// Admits a request made at `now` and returns the milliseconds that the
    /// caller has to let pass before it sends.
    ///
    /// Admissions older than 60 seconds are dropped. If as many as the
    /// capacity are left, the wait is what the oldest of them lacks to be 60
    /// seconds old, and that one is dropped. The instant at which the wait
    /// is over is recorded as the new admission.
    pub fn acquire(&mut self, now: u64) -> (wait: u64)
        ensures
            final(self).limit() == old(self).limit(),
            wait == wait_for(old(self)@, old(self).limit(), now),
            final(self)@ == after_admission(old(self)@, old(self).limit(), now),
    {
        proof {
            use_type_invariant(&*self);
        }
        let capacity = self.capacity;
        let mut stamps = VecDeque::new();
        std::mem::swap(&mut stamps, &mut self.stamps);
        while stamps.len() > 0 && now > WINDOW_MS && stamps[0] < now - WINDOW_MS
            invariant
                stamps@.len() <= old(self).stamps@.len(),
                prune(stamps@, now) == prune(old(self).stamps@, now),
            decreases stamps@.len(),
        {
            let ghost before = stamps@;
            stamps.pop_front();
            assert(stamps@ =~= before.drop_first());
        }
        assert(prune(stamps@, now) == stamps@);
        let mut instant = now;
        if stamps.len() >= capacity {
            let oldest = stamps[0];
            if oldest > u64::MAX - WINDOW_MS {
                instant = u64::MAX;
            } else if oldest + WINDOW_MS > now {
                instant = oldest + WINDOW_MS;
            }
            let ghost before = stamps@;
            stamps.pop_front();
            assert(stamps@ =~= before.drop_first());
        }
        stamps.push_back(instant);
        self.stamps = stamps;
        instant - now
    }
}

/// The retained admissions after requests made at `clock[0]`, `clock[1]`,
/// and so on, to a limiter that starts with none.
pub open spec fn retained_after(capacity: nat, clock: Seq<u64>) -> Seq<u64>
    decreases clock.len(),
{
    if clock.len() == 0 {
        Seq::empty()
    } else {
        after_admission(retained_after(capacity, clock.drop_last()), capacity, clock.last())
    }
}

/// The instants at which those requests were admitted, one for each.
pub open spec fn admissions(capacity: nat, clock: Seq<u64>) -> Seq<u64>
    decreases clock.len(),
{
    if clock.len() == 0 {
        Seq::empty()
    } else {
        admissions(capacity, clock.drop_last()).push(
            admission_instant(
                retained_after(capacity, clock.drop_last()),
                capacity,
                clock.last(),
            ),
        )
    }
}

/// Whether the instants never go back.
pub open spec fn nondecreasing(instants: Seq<u64>) -> bool {
    forall|i: int, j: int| 0 <= i <= j < instants.len() ==> instants[i] <= instants[j]
}

/// Whether every instant lies before the end of the clock's range.
pub open spec fn within_clock(instants: Seq<u64>) -> bool {
    forall|i: int| 0 <= i < instants.len() ==> instants[i] < u64::MAX
}

proof fn lemma_prune(stamps: Seq<u64>, now: u64)
    ensures
        prune(stamps, now).len() <= stamps.len(),
        prune(stamps, now) =~= stamps.subrange(
            stamps.len() - prune(stamps, now).len(),
            stamps.len() as int,
        ),
        forall|i: int|
            0 <= i < stamps.len() - prune(stamps, now).len() ==> outdated(
                #[trigger] stamps[i],
                now,
            ),
        prune(stamps, now).len() > 0 ==> !outdated(prune(stamps, now)[0], now),
    decreases stamps.len(),
{
    if stamps.len() > 0 && outdated(stamps[0], now) {
        let rest = stamps.drop_first();
        lemma_prune(rest, now);
        let kept = prune(stamps, now);
        let k = stamps.len() - kept.len();
        assert forall|i: int| 0 <= i < k implies outdated(#[trigger] stamps[i], now) by {
            if i > 0 {
                assert(stamps[i] == rest[i - 1]);
            }
        }
    }
}

/// While the window has room a request does not wait: it is admitted at
/// once, behind the admissions that are not outdated.
pub proof fn lemma_room_does_not_wait(stamps: Seq<u64>, capacity: nat, now: u64)
    requires
        capacity >= 1,
        !window_full(stamps, capacity, now),
    ensures
        wait_for(stamps, capacity, now) == 0,
        after_admission(stamps, capacity, now) == prune(stamps, now).push(now),
{
}

/// A request that finds the window full waits for the oldest retained
/// admission to be a full window old: 60 seconds less the age of that
/// admission, and nothing if it is that old already. That admission
/// leaves the window, and the instant at which the wait is over enters it.
/// With a capacity of two, the third of three requests made within 60
/// seconds waits for 60 seconds less the time since the first.
pub proof fn lemma_full_window_waits(stamps: Seq<u64>, capacity: nat, now: u64)
    requires
        capacity >= 1,
        stamps.len() == capacity,
        !outdated(stamps[0], now),
        stamps[0] + WINDOW_MS <= u64::MAX,
    ensures
        stamps[0] <= now ==> wait_for(stamps, capacity, now) == WINDOW_MS - (now - stamps[0]),
        wait_for(stamps, capacity, now) == stamps[0] + WINDOW_MS - now,
        after_admission(stamps, capacity, now) == stamps.drop_first().push(
            (stamps[0] + WINDOW_MS) as u64,
        ),
        after_admission(stamps, capacity, now).len() == capacity,
{
    assert(prune(stamps, now) == stamps);
}

/// On admissions in the order of time, pruning drops every outdated one
/// and nothing else: what is kept is the part of `stamps` from its first
/// admission that is not outdated on, and none of it is outdated.
pub proof fn lemma_prune_keeps_the_window(stamps: Seq<u64>, now: u64)
    requires
        nondecreasing(stamps),
    ensures
        prune(stamps, now).len() <= stamps.len(),
        prune(stamps, now) =~= stamps.subrange(
            stamps.len() - prune(stamps, now).len(),
            stamps.len() as int,
        ),
        forall|i: int|
            0 <= i < stamps.len() - prune(stamps, now).len() ==> outdated(
                #[trigger] stamps[i],
                now,
            ),
        forall|i: int|
            0 <= i < prune(stamps, now).len() ==> !outdated(#[trigger] prune(stamps, now)[i], now),
{
    lemma_prune(stamps, now);
    let kept = prune(stamps, now);
    let k = stamps.len() - kept.len();
    assert forall|i: int| 0 <= i < kept.len() implies !outdated(#[trigger] kept[i], now) by {
        assert(kept[0] == stamps[k]);
        assert(kept[i] == stamps[k + i]);
    }
}

spec fn history_holds(capacity: nat, clock: Seq<u64>) -> bool {
    let adm = admissions(capacity, clock);
    let ret = retained_after(capacity, clock);
    let n = clock.len() as int;
    let m = ret.len() as int;
    &&& adm.len() == n
    &&& m <= capacity
    &&& m <= n
    &&& ret =~= adm.subrange(n - m, n)
    &&& nondecreasing(adm)
    &&& forall|i: int| 0 <= i < n - m ==> #[trigger] adm[i] + WINDOW_MS <= adm[n - 1]
    &&& forall|i: int, j: int|
        0 <= i && i + capacity <= j < n ==> #[trigger] adm[i] + WINDOW_MS <= #[trigger] adm[j]
    &&& n >= 1 ==> adm[n - 1] >= clock[n - 1]
    &&& n >= 1 ==> (adm[n - 1] == clock[n - 1] || (m == capacity && adm[n - 1] <= ret[0]
        + WINDOW_MS))
    &&& forall|i: int| 0 <= i < m ==> adm[n - 1] <= #[trigger] ret[i] + WINDOW_MS
}

proof fn lemma_history(capacity: nat, clock: Seq<u64>)
    requires
        capacity >= 1,
        nondecreasing(clock),
        within_clock(admissions(capacity, clock)),
    ensures
        history_holds(capacity, clock),
    decreases clock.len(),
{
    if clock.len() > 0 {
        let earlier = clock.drop_last();
        let now = clock.last();
        let adm0 = admissions(capacity, earlier);
        let ret0 = retained_after(capacity, earlier);
        let adm = admissions(capacity, clock);
        let ret = retained_after(capacity, clock);
        let at = admission_instant(ret0, capacity, now);
        assert(adm == adm0.push(at));
        assert(ret == after_admission(ret0, capacity, now));
        assert(nondecreasing(earlier)) by {
            assert forall|i: int, j: int| 0 <= i <= j < earlier.len() implies earlier[i]
                <= earlier[j] by {
                assert(earlier[i] == clock[i] && earlier[j] == clock[j]);
            }
        }
        assert(within_clock(adm0)) by {
            assert forall|i: int| 0 <= i < adm0.len() implies adm0[i] < u64::MAX by {
                assert(adm[i] == adm0[i]);
            }
        }
        lemma_history(capacity, earlier);
        let n0 = earlier.len() as int;
        let m0 = ret0.len() as int;
        let n = n0 + 1;
        assert(adm[n0] == at);
        assert(at < u64::MAX);
        lemma_prune(ret0, now);
        let kept = prune(ret0, now);
        let k = m0 - kept.len();
        // the latest admission so far does not lie after the new one
        if n0 >= 1 {
            assert(clock[n0 - 1] <= now) by {
                assert(earlier[n0 - 1] == clock[n0 - 1]);
            }
            if adm0[n0 - 1] != earlier[n0 - 1] {
                assert(m0 == capacity && adm0[n0 - 1] <= ret0[0] + WINDOW_MS);
                if kept.len() < capacity {
                    assert(outdated(ret0[0], now));
                } else {
                    assert(kept =~= ret0);
                }
            }
            assert(adm0[n0 - 1] <= at);
        }
        assert(nondecreasing(adm)) by {
            assert forall|i: int, j: int| 0 <= i <= j < adm.len() implies adm[i] <= adm[j] by {
                if j < n0 {
                    assert(adm[i] == adm0[i] && adm[j] == adm0[j]);
                } else if i < n0 {
                    assert(adm[i] == adm0[i]);
                    assert(adm0[i] <= adm0[n0 - 1]);
                }
            }
        }
        let room = if window_full(ret0, capacity, now) {
            kept.drop_first()
        } else {
            kept
        };
        let gone = m0 - room.len();
        assert(ret =~= room.push(at));
        assert(room =~= ret0.subrange(gone, m0));
        let m = ret.len() as int;
        assert(m == room.len() + 1);
        assert(m <= capacity);
        assert(ret =~= adm.subrange(n - m, n)) by {
            assert forall|i: int| 0 <= i < m implies ret[i] == adm.subrange(n - m, n)[i] by {
                if i < m - 1 {
                    assert(ret[i] == ret0[gone + i]);
                    assert(ret0[gone + i] == adm0.subrange(n0 - m0, n0)[gone + i]);
                }
            }
        }
        // whatever left the window lies a full window before the new admission
        assert forall|i: int| 0 <= i < gone implies #[trigger] ret0[i] + WINDOW_MS <= at by {
            if i < k {
                assert(outdated(ret0[i], now));
            } else {
                assert(window_full(ret0, capacity, now));
                assert(i == k);
                assert(ret0[i] == kept[0]);
            }
        }
        assert forall|i: int| 0 <= i < n - m implies #[trigger] adm[i] + WINDOW_MS <= adm[n
            - 1] by {
            assert(adm[i] == adm0[i]);
            if i < n0 - m0 {
                assert(adm0[i] + WINDOW_MS <= adm0[n0 - 1]);
            } else {
                assert(adm0[i] == adm0.subrange(n0 - m0, n0)[i - (n0 - m0)]);
                assert(adm0[i] == ret0[i - (n0 - m0)]);
            }
        }
        assert forall|i: int, j: int| 0 <= i && i + capacity <= j < n implies #[trigger] adm[i]
            + WINDOW_MS <= #[trigger] adm[j] by {
            if j < n0 {
                assert(adm[i] == adm0[i] && adm[j] == adm0[j]);
            } else {
                assert(i < n - m);
            }
        }
        assert forall|i: int| 0 <= i < m implies adm[n - 1] <= #[trigger] ret[i]
            + WINDOW_MS by {
            if i < m - 1 {
                assert(ret[i] == room[i]);
                assert(room[i] == ret0[gone + i]);
                assert(kept.len() > 0);
                assert(kept[0] == ret0[k]);
                assert(!outdated(kept[0], now));
                // retained admissions are in order, as the history is
                assert(ret0[k] == adm0.subrange(n0 - m0, n0)[k]);
                assert(ret0[gone + i] == adm0.subrange(n0 - m0, n0)[gone + i]);
                assert(adm0[n0 - m0 + k] <= adm0[n0 - m0 + gone + i]);
            }
        }
        if at != now {
            assert(window_full(ret0, capacity, now));
            assert(kept =~= ret0);
            assert(m == capacity);
            assert(at == ret0[0] + WINDOW_MS);
            if m >= 2 {
                assert(ret[0] == ret0[1]);
                assert(ret0[0] == adm0.subrange(n0 - m0, n0)[0]);
                assert(ret0[1] == adm0.subrange(n0 - m0, n0)[1]);
                assert(adm0[n0 - m0] <= adm0[n0 - m0 + 1]);
            } else {
                assert(ret[0] == at);
            }
        }
    }
}

/// No rolling window of 60 seconds ever holds more admissions than the
/// capacity.
///
/// Take any capacity of at least one and any requests made one after the
/// other to a limiter that starts empty, at readings of a clock that never
/// goes back and whose admissions stay within its range. Then the
/// admission instants never go back either, and any admission and the one
/// that comes `capacity` requests after it lie at least a full window
/// apart: admissions from one to another that lies less than 60 seconds
/// after it number at most `capacity`. What the limiter retains are the
/// latest admissions, at most `capacity` of them, each within a window of
/// the latest.
pub proof fn lemma_window_never_overfull(capacity: nat, clock: Seq<u64>)
    requires
        capacity >= 1,
        nondecreasing(clock),
        within_clock(admissions(capacity, clock)),
    ensures
        admissions(capacity, clock).len() == clock.len(),
        nondecreasing(admissions(capacity, clock)),
        forall|i: int, j: int|
            0 <= i && i + capacity <= j < clock.len() ==> #[trigger] admissions(
                capacity,
                clock,
            )[i] + WINDOW_MS <= #[trigger] admissions(capacity, clock)[j],
        forall|i: int, j: int|
            0 <= i <= j < clock.len() && #[trigger] admissions(capacity, clock)[j]
                < #[trigger] admissions(capacity, clock)[i] + WINDOW_MS ==> j - i + 1
                <= capacity,
        retained_after(capacity, clock).len() <= capacity,
        retained_after(capacity, clock) =~= admissions(capacity, clock).subrange(
            clock.len() - retained_after(capacity, clock).len(),
            clock.len() as int,
        ),
        forall|i: int|
            0 <= i < retained_after(capacity, clock).len() ==> admissions(
                capacity,
                clock,
            ).last() <= #[trigger] retained_after(capacity, clock)[i] + WINDOW_MS,
{
    lemma_history(capacity, clock);
}

} // verus!
