//! The bounded wait for the pool: each poll of a waiter against the
//! readiness record decides whether to hand out the pool, fail, or keep
//! waiting, and for how long.

use vstd::prelude::*;
use crate::readiness::{Readiness, ReadinessCell, Transition, apply, run, lemma_single_transition};

verus! {

/// Why a caller did not get the pool.
#[derive(Clone, Debug, PartialEq, Eq)]
pub enum WaitError {
    /// Background initialization failed, with its message.
    InitializationFailed(String),
    /// The caller's bounded wait elapsed before initialization finished.
    Timeout,
    /// The pool was asked for, but no initialization was ever started.
    NotConfigured,
}

/// The HTTP status with which every wait error is reported: service unavailable.
pub const SERVICE_UNAVAILABLE: u16 = 503;

pub open spec fn wait_error_message(e: WaitError) -> Seq<char> {
    match e {
        WaitError::InitializationFailed(m) => "database initialization failed: "@ + m@,
        WaitError::Timeout => "timed out waiting for the database"@,
        WaitError::NotConfigured => "database initialization was never started"@,
    }
}

impl WaitError {
    /// The HTTP status for this error.
    pub fn status_code(&self) -> (r: u16)
        ensures
            r == SERVICE_UNAVAILABLE,
    {
        SERVICE_UNAVAILABLE
    }

    /// A human-readable description.
    pub fn message(&self) -> (r: String)
        ensures
            r@ == wait_error_message(*self),
    {
        match self {
            WaitError::InitializationFailed(m) => {
                let mut s = String::from_str("database initialization failed: ");
                proof {
                    reveal_strlit("database initialization failed: ");
                }
                s.append(m.as_str());
                s
            },
            WaitError::Timeout => {
                proof {
                    reveal_strlit("timed out waiting for the database");
                }
                String::from_str("timed out waiting for the database")
            },
            WaitError::NotConfigured => {
                proof {
                    reveal_strlit("database initialization was never started");
                }
                String::from_str("database initialization was never started")
            },
        }
    }
}

/// What one poll of a waiter decides.
#[derive(Debug, PartialEq, Eq)]
pub enum WaitPoll<'a, P> {
    /// Hand out the pool.
    Ready(&'a P),
    /// Return this error to the caller.
    Failed(WaitError),
    /// Suspend until notified, or for at most this many milliseconds.
    Pending(u64),
}

/// The deadline of a wait that starts at `now` and may last `timeout`
/// milliseconds; a deadline past the clock's range is the clock's end.
pub open spec fn deadline_after(now: u64, timeout: u64) -> u64 {
    if now + timeout <= u64::MAX {
        (now + timeout) as u64
    } else {
        u64::MAX
    }
}

/// The decision of a poll at time `now`, for a waiter whose deadline is
/// `deadline`, on a record in state `s`: a ready pool or a failure is
/// returned at once, whatever the time; otherwise the waiter times out at
/// its deadline and not before.
pub open spec fn poll_outcome<'a, P>(deadline: u64, started: bool, s: Readiness<P>, now: u64) -> WaitPoll<'a, P> {
    match s {
        Readiness::Ready(p) => WaitPoll::Ready(&p),
        Readiness::Failed(m) => WaitPoll::Failed(WaitError::InitializationFailed(m)),
        Readiness::Initializing => if !started {
            WaitPoll::Failed(WaitError::NotConfigured)
        } else if now >= deadline {
            WaitPoll::Failed(WaitError::Timeout)
        } else {
            WaitPoll::Pending((deadline - now) as u64)
        },
    }
}

/// One caller's bounded wait for the pool, on a millisecond clock.
#[derive(Clone, Copy, Debug, PartialEq, Eq, Structural)]
pub struct Waiter {
    pub deadline_ms: u64,
}

impl Waiter {
    /// A wait that starts at `now_ms` and lasts at most `timeout_ms`.
    pub fn start(now_ms: u64, timeout_ms: u64) -> (w: Waiter)
        ensures
            w.deadline_ms == deadline_after(now_ms, timeout_ms),
    {
        if timeout_ms <= u64::MAX - now_ms {
            Waiter { deadline_ms: now_ms + timeout_ms }
        } else {
            Waiter { deadline_ms: u64::MAX }
        }
    }

    /// Decides, at time `now_ms`, what this waiter does next.
    pub fn poll<'a, P>(&self, cell: &'a ReadinessCell<P>, now_ms: u64) -> (r: WaitPoll<'a, P>)
        requires
            cell.wf(),
        ensures
            r == poll_outcome::<P>(self.deadline_ms, cell.started(), cell.state(), now_ms),
    {
        match cell.peek() {
            Some(p) => WaitPoll::Ready(p),
            None => match cell.get_error() {
                Some(m) => WaitPoll::Failed(WaitError::InitializationFailed(m)),
                None => if !cell.is_started() {
                    WaitPoll::Failed(WaitError::NotConfigured)
                } else if now_ms >= self.deadline_ms {
                    WaitPoll::Failed(WaitError::Timeout)
                } else {
                    WaitPoll::Pending(self.deadline_ms - now_ms)
                },
            },
        }
    }
}

/// No lost wakeup: once initialization has made its transition, every
/// waiter, whenever it arrived and whatever its deadline, observes the same
/// terminal outcome, and none is left waiting. A waiter that polled before the
/// transition and polls again after it sees what a waiter arriving later sees.
pub proof fn lemma_no_lost_wakeup<P>(
    ts: Seq<Transition<P>>,
    i: int,
    j: int,
    deadline1: u64,
    deadline2: u64,
    now1: u64,
    now2: u64,
)
    requires
        1 <= i <= ts.len(),
        1 <= j <= ts.len(),
    ensures
        poll_outcome::<P>(deadline1, true, run(Readiness::Initializing, ts.take(i)), now1)
            == poll_outcome::<P>(deadline2, true, run(Readiness::Initializing, ts.take(j)), now2),
        !(poll_outcome::<P>(deadline1, true, run(Readiness::Initializing, ts.take(i)), now1) is Pending),
{
    lemma_single_transition(ts);
    assert(run(Readiness::Initializing, ts.take(i)) == apply(Readiness::Initializing, ts[0]));
    assert(run(Readiness::Initializing, ts.take(j)) == apply(Readiness::Initializing, ts[0]));
}

/// Fast path: once the pool is ready, every poll hands it out at once,
/// whatever the waiter's deadline and the time.
pub proof fn lemma_ready_fast_path<P>(pool: P, deadline: u64, started: bool, now: u64)
    ensures
        poll_outcome::<P>(deadline, started, Readiness::Ready(pool), now) == WaitPoll::Ready(&pool),
{
}

/// The timeout fires on time: while initialization is still running, a wait
/// of `timeout` milliseconds that started at `start` keeps waiting, exactly
/// until its deadline, at every earlier time, and fails with `Timeout` at the
/// deadline and after it.
pub proof fn lemma_timeout_fires<P>(start: u64, timeout: u64, now: u64)
    requires
        start + timeout <= u64::MAX,
        start <= now,
    ensures
        now < start + timeout ==> poll_outcome::<P>(deadline_after(start, timeout), true, Readiness::Initializing, now)
            == WaitPoll::<P>::Pending((start + timeout - now) as u64),
        now >= start + timeout ==> poll_outcome::<P>(deadline_after(start, timeout), true, Readiness::Initializing, now)
            == WaitPoll::<P>::Failed(WaitError::Timeout),
{
}

} // verus!
