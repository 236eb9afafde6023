use vstd::prelude::*;

verus! {

/// The deadline that means "until woken".
pub const SLEEP_FOREVER: i64 = i64::MAX;

/// How the host thread is to sleep when asked to sleep until a deadline.
#[derive(Clone, Copy, Debug, PartialEq, Eq, Structural)]
pub enum SleepDecision {
    /// Do not block: a wake is pending, the deadline has passed, or the thread is finishing.
    ReturnNow,
    /// Block until the next wake.
    UntilWoken,
    /// Block for at most this many nanoseconds, or until the next wake.
    For { nanos: u64 },
}

/// The wake and shutdown bookkeeping of the one timer thread that delay-sensitive stages
/// share. A wake is remembered until the next sleep consumes it, so a wake issued before
/// the thread starts to sleep is never lost.
pub struct TimerThread {
    wake_pending: bool,
    finished: bool,
}

pub open spec fn sleep_decision(wake_pending: bool, finished: bool, deadline_ns: i64, now_ns: i64) -> SleepDecision {
    if finished || wake_pending {
        SleepDecision::ReturnNow
    } else if deadline_ns == SLEEP_FOREVER {
        SleepDecision::UntilWoken
    } else if deadline_ns <= now_ns {
        SleepDecision::ReturnNow
    } else {
        SleepDecision::For { nanos: (deadline_ns - now_ns) as u64 }
    }
}

impl TimerThread {
    pub closed spec fn wake_pending(&self) -> bool {
        self.wake_pending
    }

    pub closed spec fn finished(&self) -> bool {
        self.finished
    }

    pub fn new() -> (r: TimerThread)
        ensures
            !r.wake_pending(),
            !r.finished(),
    {
        TimerThread { wake_pending: false, finished: false }
    }

    /// Makes the thread re-evaluate at once: the current sleep, or else the next one, returns.
    pub fn wake(&mut self)
        ensures
            final(self).wake_pending(),
            final(self).finished() == old(self).finished(),
    {
        self.wake_pending = true;
    }

    /// Asks for an orderly shutdown: the thread is never asked to sleep again.
    pub fn finish(&mut self)
        ensures
            final(self).finished(),
            final(self).wake_pending() == old(self).wake_pending(),
    {
        self.finished = true;
    }

    /// Whether the host thread is to go on running its step.
    pub fn is_running(&self) -> (r: bool)
        ensures
            r == !self.finished(),
    {
        !self.finished
    }

    /// Decides how to sleep until `deadline_ns` (an absolute time; `SLEEP_FOREVER` for no
    /// deadline) when the time is `now_ns`, and consumes the pending wake.
    pub fn sleep_until(&mut self, deadline_ns: i64, now_ns: i64) -> (r: SleepDecision)
        ensures
            r == sleep_decision(old(self).wake_pending(), old(self).finished(), deadline_ns, now_ns),
            !final(self).wake_pending(),
            final(self).finished() == old(self).finished(),
    {
        let pending = self.wake_pending;
        self.wake_pending = false;
        if self.finished || pending {
            SleepDecision::ReturnNow
        } else if deadline_ns == SLEEP_FOREVER {
            SleepDecision::UntilWoken
        } else if deadline_ns <= now_ns {
            SleepDecision::ReturnNow
        } else {
            let nanos = (deadline_ns as i128 - now_ns as i128) as u64;
            SleepDecision::For { nanos }
        }
    }
}

/// A wake is never lost: once `wake` has been called, the next sleep returns at once,
/// whatever its deadline, also when the thread had not started to sleep yet.
pub proof fn lemma_wake_before_sleep_not_lost(before: TimerThread, after: TimerThread, deadline_ns: i64, now_ns: i64)
    requires
        after.wake_pending(),
        after.finished() == before.finished(),
    ensures
        sleep_decision(after.wake_pending(), after.finished(), deadline_ns, now_ns)
            == SleepDecision::ReturnNow,
{
}

/// A sleep never outlasts its deadline: where it blocks for a time, that time ends exactly
/// at the deadline, and it blocks without bound only on `SLEEP_FOREVER`.
pub proof fn lemma_sleep_bounded_by_deadline(wake_pending: bool, finished: bool, deadline_ns: i64, now_ns: i64)
    ensures
        sleep_decision(wake_pending, finished, deadline_ns, now_ns) is UntilWoken ==> deadline_ns
            == SLEEP_FOREVER,
        sleep_decision(wake_pending, finished, deadline_ns, now_ns) matches SleepDecision::For {
            nanos,
        } ==> now_ns + nanos == deadline_ns,
{
}

} // verus!
