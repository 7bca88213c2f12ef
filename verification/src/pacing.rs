//! The fixed-deadline schedule of the audio worker threads.

use vstd::prelude::*;

verus! {

/// Length of a worker's period, in nanoseconds: one window of audio.
pub const PERIOD_NS: u64 = 10_000_000;

/// The deadline that follows `deadline`.
pub open spec fn next_deadline(deadline: int) -> int {
    deadline + PERIOD_NS
}

/// How long to sleep at `now` so as to wake at `deadline`; `None` once the deadline has passed.
pub open spec fn time_until(deadline: int, now: int) -> Option<int> {
    if now <= deadline {
        Some(deadline - now)
    } else {
        None
    }
}

/// `sleep` is the time at `now` until `deadline`, or `None` once that has passed.
pub open spec fn is_time_until(sleep: Option<u64>, deadline: int, now: int) -> bool {
    match sleep {
        Some(ns) => time_until(deadline, now) == Some(ns as int),
        None => time_until(deadline, now) == None::<int>,
    }
}

/// When a worker whose work was over at `now` goes on, given its `deadline`.
pub open spec fn resumes_at(deadline: int, now: int) -> int {
    match time_until(deadline, now) {
        Some(sleep) => now + sleep,
        None => now,
    }
}

/// A worker's deadline and the time at which it goes on, for a schedule started at `start`,
/// after periods whose work took as long as `work` lists.
pub open spec fn paced(start: int, work: Seq<nat>) -> (int, int)
    decreases work.len(),
{
    if work.len() == 0 {
        (start, start)
    } else {
        let (deadline, resumed) = paced(start, work.drop_last());
        let next = next_deadline(deadline);
        (next, resumes_at(next, resumed + work.last()))
    }
}

/// How far behind the grid of periods that began at `start` the worker goes on.
pub open spec fn lateness(start: int, work: Seq<nat>) -> int {
    paced(start, work).1 - (start + work.len() * PERIOD_NS)
}

/// A self-correcting schedule: every deadline lies one period after the one before it, however
/// long the work of a period took. Times are nanoseconds on a monotonic clock.
#[derive(Debug)]
pub struct Pacer {
    next_deadline_ns: u64,
}

impl View for Pacer {
    type V = int;

    closed spec fn view(&self) -> int {
        self.next_deadline_ns as int
    }
}

impl Pacer {
    /// A schedule that starts now.
    pub fn new(now_ns: u64) -> (pacer: Self)
        ensures
            pacer@ == now_ns,
    {
        Pacer { next_deadline_ns: now_ns }
    }

    /// Whether the clock has room for another deadline.
    pub fn can_advance(&self) -> (room: bool)
        ensures
            room == (next_deadline(self@) <= u64::MAX),
    {
        self.next_deadline_ns <= u64::MAX - PERIOD_NS
    }

    /// Ends a period at `now_ns`: moves on to the next deadline and tells how long to sleep
    /// until then, or `None` if it has already passed.
    pub fn advance(&mut self, now_ns: u64) -> (sleep: Option<u64>)
        requires
            next_deadline(old(self)@) <= u64::MAX,
        ensures
            final(self)@ == next_deadline(old(self)@),
            is_time_until(sleep, final(self)@, now_ns as int),
    {
        self.next_deadline_ns = self.next_deadline_ns + PERIOD_NS;
        if now_ns <= self.next_deadline_ns {
            Some(self.next_deadline_ns - now_ns)
        } else {
            None
        }
    }
}

/// The schedule does not drift: however long the work of each period took, the deadline is the
/// start plus one period for each.
pub proof fn law_no_drift(start: int, work: Seq<nat>)
    ensures
        paced(start, work).0 == start + work.len() * PERIOD_NS,
    decreases work.len(),
{
    if work.len() > 0 {
        law_no_drift(start, work.drop_last());
        assert(work.len() * PERIOD_NS == (work.len() - 1) * PERIOD_NS + PERIOD_NS)
            by (nonlinear_arith);
    }
}

/// Lateness corrects itself: a worker never runs ahead of the grid, and what it is behind grows
/// or shrinks in each period by what the work exceeds or undercuts the period, down to nothing.
pub proof fn law_lateness_is_made_up(start: int, work: Seq<nat>)
    ensures
        lateness(start, work) >= 0,
        work.len() > 0 ==> {
            let behind = lateness(start, work.drop_last()) + work.last() - PERIOD_NS;
            lateness(start, work) == if behind > 0 {
                behind
            } else {
                0
            }
        },
{
    law_no_drift(start, work);
    if work.len() > 0 {
        law_no_drift(start, work.drop_last());
    }
}

/// A worker whose work always fits its period goes on exactly at each place of the grid.
pub proof fn law_on_time(start: int, work: Seq<nat>)
    requires
        forall|i: int| 0 <= i < work.len() ==> #[trigger] work[i] <= PERIOD_NS,
    ensures
        paced(start, work).1 == start + work.len() * PERIOD_NS,
    decreases work.len(),
{
    if work.len() > 0 {
        law_on_time(start, work.drop_last());
        law_lateness_is_made_up(start, work);
        assert(work.last() <= PERIOD_NS);
    }
}

/// A schedule started at `start` wakes its worker on the grid of tens of milliseconds from there:
/// after the period `k`, which ended at `nows[k]`, the worker sleeps just until the point `k + 1`
/// of the grid, or not at all if that has passed, however long any period took. After all of them
/// there is room for one point more just where the clock reaches it.
pub proof fn law_workers_wake_on_the_grid(
    start: u64,
    started: Pacer,
    periods: Seq<&mut Pacer>,
    nows: Seq<u64>,
    sleeps: Seq<Option<u64>>,
    last: &Pacer,
    room: bool,
)
    requires
        call_ensures(Pacer::new, (start,), started),
        periods.len() > 0 ==> *periods[0] == started,
        forall|k: int| 0 < k < periods.len() ==> *(#[trigger] periods[k]) == *final(periods[k - 1]),
        forall|k: int|
            0 <= k < periods.len() ==> call_ensures(
                Pacer::advance,
                (periods[k], nows[k]),
                #[trigger] sleeps[k],
            ),
        *last == if periods.len() == 0 {
            started
        } else {
            *final(periods[periods.len() - 1])
        },
        call_ensures(Pacer::can_advance, (last,), room),
    ensures
        forall|k: int|
            0 <= k < periods.len() ==> match #[trigger] sleeps[k] {
                Some(sleep) => nows[k] + sleep == start + (k + 1) * 10_000_000,
                None => nows[k] > start + (k + 1) * 10_000_000,
            },
        room <==> start + (periods.len() + 1) * 10_000_000 <= u64::MAX,
{
    assert forall|k: int| 0 <= k < periods.len() implies match #[trigger] sleeps[k] {
        Some(sleep) => nows[k] + sleep == start + (k + 1) * 10_000_000,
        None => nows[k] > start + (k + 1) * 10_000_000,
    } by {
        lemma_deadlines_lie_on_the_grid(start, periods, nows, sleeps, k);
    }
    if periods.len() > 0 {
        lemma_deadlines_lie_on_the_grid(start, periods, nows, sleeps, periods.len() - 1);
    }
}

proof fn lemma_deadlines_lie_on_the_grid(
    start: u64,
    periods: Seq<&mut Pacer>,
    nows: Seq<u64>,
    sleeps: Seq<Option<u64>>,
    n: int,
)
    requires
        0 <= n < periods.len(),
        (*periods[0])@ == start,
        forall|k: int| 0 < k < periods.len() ==> *(#[trigger] periods[k]) == *final(periods[k - 1]),
        forall|k: int|
            0 <= k < periods.len() ==> call_ensures(
                Pacer::advance,
                (periods[k], nows[k]),
                #[trigger] sleeps[k],
            ),
    ensures
        (*periods[n])@ == start + n * 10_000_000,
        final(periods[n])@ == start + (n + 1) * 10_000_000,
    decreases n,
{
    if n > 0 {
        lemma_deadlines_lie_on_the_grid(start, periods, nows, sleeps, n - 1);
        assert(*periods[n] == *final(periods[n - 1]));
    }
    assert(is_time_until(sleeps[n], final(periods[n])@, nows[n] as int));
}

} // verus!
