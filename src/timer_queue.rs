use vstd::prelude::*;

use crate::timer::SLEEP_FOREVER;

verus! {

/// A timer armed by a stage: the stage's token and the absolute time it is due at.
#[derive(Clone, Copy, Debug, PartialEq, Eq, Structural)]
pub struct PendingTimer {
    pub owner: u64,
    pub deadline_ns: i64,
}

/// `timers` without those of `owner`, in their order.
pub open spec fn without_owner(timers: Seq<PendingTimer>, owner: u64) -> Seq<PendingTimer>
    decreases timers.len(),
{
    if timers.len() == 0 {
        Seq::empty()
    } else {
        let rest = without_owner(timers.drop_last(), owner);
        if timers.last().owner != owner {
            rest.push(timers.last())
        } else {
            rest
        }
    }
}

/// The timers of `timers` due at `now_ns` (`due` true) or not yet due (`due` false), in their order.
pub open spec fn split_due(timers: Seq<PendingTimer>, now_ns: i64, due: bool) -> Seq<PendingTimer>
    decreases timers.len(),
{
    if timers.len() == 0 {
        Seq::empty()
    } else {
        let rest = split_due(timers.drop_last(), now_ns, due);
        if (timers.last().deadline_ns <= now_ns) == due {
            rest.push(timers.last())
        } else {
            rest
        }
    }
}

/// The earliest deadline among `timers`, `SLEEP_FOREVER` where there is none.
pub open spec fn earliest_deadline(timers: Seq<PendingTimer>) -> i64
    decreases timers.len(),
{
    if timers.len() == 0 {
        SLEEP_FOREVER
    } else {
        let rest = earliest_deadline(timers.drop_last());
        if timers.last().deadline_ns < rest {
            timers.last().deadline_ns
        } else {
            rest
        }
    }
}

/// The timers that the stages sharing the timer thread have armed and that have not fired.
pub struct TimerQueue {
    timers: Vec<PendingTimer>,
}

impl TimerQueue {
    /// The armed timers, in the order they were armed.
    pub closed spec fn timers(&self) -> Seq<PendingTimer> {
        self.timers@
    }

    pub fn new() -> (r: TimerQueue)
        ensures
            r.timers() == Seq::<PendingTimer>::empty(),
    {
        TimerQueue { timers: Vec::new() }
    }

    /// Arms a timer for `owner`, due at `deadline_ns`.
    pub fn arm(&mut self, owner: u64, deadline_ns: i64)
        ensures
            final(self).timers() == old(self).timers().push(PendingTimer { owner, deadline_ns }),
    {
        self.timers.push(PendingTimer { owner, deadline_ns });
    }

    /// Cancels every timer of `owner`, as a stage does when it is destroyed: none of them
    /// fires afterwards.
    pub fn cancel(&mut self, owner: u64)
        ensures
            final(self).timers() == without_owner(old(self).timers(), owner),
    {
        let mut kept: Vec<PendingTimer> = Vec::new();
        let mut i: usize = 0;
        while i < self.timers.len()
            invariant
                i <= self.timers@.len(),
                kept@ == without_owner(self.timers@.subrange(0, i as int), owner),
            decreases self.timers@.len() - i,
        {
            let t = self.timers[i];
            proof {
                assert(self.timers@.subrange(0, i + 1).drop_last() =~= self.timers@.subrange(0, i as int));
            }
            if t.owner != owner {
                kept.push(t);
            }
            i = i + 1;
        }
        proof {
            assert(self.timers@.subrange(0, i as int) =~= self.timers@);
        }
        self.timers = kept;
    }

    /// Takes out the timers due at `now_ns` and returns their owners, in the order armed;
    /// the others stay armed, in their order.
    pub fn fire_due(&mut self, now_ns: i64) -> (r: Vec<u64>)
        ensures
            r@ == split_due(old(self).timers(), now_ns, true).map_values(|t: PendingTimer| t.owner),
            final(self).timers() == split_due(old(self).timers(), now_ns, false),
    {
        let mut fired: Vec<u64> = Vec::new();
        let mut kept: Vec<PendingTimer> = Vec::new();
        let ghost fired_timers: Seq<PendingTimer> = Seq::empty();
        let mut i: usize = 0;
        while i < self.timers.len()
            invariant
                i <= self.timers@.len(),
                fired_timers == split_due(self.timers@.subrange(0, i as int), now_ns, true),
                fired@ == fired_timers.map_values(|t: PendingTimer| t.owner),
                kept@ == split_due(self.timers@.subrange(0, i as int), now_ns, false),
            decreases self.timers@.len() - i,
        {
            let t = self.timers[i];
            proof {
                assert(self.timers@.subrange(0, i + 1).drop_last() =~= self.timers@.subrange(0, i as int));
            }
            if t.deadline_ns <= now_ns {
                fired.push(t.owner);
                proof {
                    fired_timers = fired_timers.push(t);
                    assert(fired@ =~= fired_timers.map_values(|t: PendingTimer| t.owner));
                }
            } else {
                kept.push(t);
            }
            i = i + 1;
        }
        proof {
            assert(self.timers@.subrange(0, i as int) =~= self.timers@);
        }
        self.timers = kept;
        fired
    }

    /// The time the timer thread is to sleep until: the earliest deadline armed, or
    /// `SLEEP_FOREVER` where none is.
    pub fn next_deadline(&self) -> (r: i64)
        ensures
            r == earliest_deadline(self.timers()),
    {
        let mut earliest: i64 = SLEEP_FOREVER;
        let mut i: usize = 0;
        while i < self.timers.len()
            invariant
                i <= self.timers@.len(),
                earliest == earliest_deadline(self.timers@.subrange(0, i as int)),
            decreases self.timers@.len() - i,
        {
            proof {
                assert(self.timers@.subrange(0, i + 1).drop_last() =~= self.timers@.subrange(0, i as int));
            }
            if self.timers[i].deadline_ns < earliest {
                earliest = self.timers[i].deadline_ns;
            }
            i = i + 1;
        }
        proof {
            assert(self.timers@.subrange(0, i as int) =~= self.timers@);
        }
        earliest
    }
}

/// `without_owner` holds no timer of `owner`, and keeps every other one.
pub proof fn lemma_without_owner(timers: Seq<PendingTimer>, owner: u64)
    ensures
        forall|i: int|
            0 <= i < without_owner(timers, owner).len() ==> (#[trigger] without_owner(
                timers,
                owner,
            )[i]).owner != owner && timers.contains(without_owner(timers, owner)[i]),
        forall|t: PendingTimer| timers.contains(t) && t.owner != owner ==> #[trigger] without_owner(
            timers,
            owner,
        ).contains(t),
    decreases timers.len(),
{
    if timers.len() > 0 {
        let init = timers.drop_last();
        lemma_without_owner(init, owner);
        let rest = without_owner(init, owner);
        assert forall|i: int| 0 <= i < without_owner(timers, owner).len() implies (
        #[trigger] without_owner(timers, owner)[i]).owner != owner && timers.contains(
            without_owner(timers, owner)[i],
        ) by {
            if i < rest.len() {
                let k = choose|k: int| 0 <= k < init.len() && init[k] == rest[i];
                assert(timers[k] == rest[i]);
            } else {
                assert(timers[timers.len() - 1] == timers.last());
            }
        }
        assert forall|t: PendingTimer| timers.contains(t) && t.owner != owner implies
        #[trigger] without_owner(timers, owner).contains(t) by {
            let k = choose|k: int| 0 <= k < timers.len() && timers[k] == t;
            if k < timers.len() - 1 {
                assert(init[k] == t);
                assert(init.contains(t));
                assert(rest.contains(t));
                let j = choose|j: int| 0 <= j < rest.len() && rest[j] == t;
                if timers.last().owner != owner {
                    assert(rest.push(timers.last())[j] == t);
                } else {
                    assert(without_owner(timers, owner) == rest);
                }
            } else {
                assert(rest.push(timers.last())[rest.len() as int] == t);
            }
        }
    }
}

/// The due timers are taken from the armed ones.
pub proof fn lemma_split_due_from(timers: Seq<PendingTimer>, now_ns: i64)
    ensures
        forall|i: int|
            0 <= i < split_due(timers, now_ns, true).len() ==> timers.contains(
                #[trigger] split_due(timers, now_ns, true)[i],
            ),
    decreases timers.len(),
{
    if timers.len() > 0 {
        let init = timers.drop_last();
        lemma_split_due_from(init, now_ns);
        let rest = split_due(init, now_ns, true);
        assert forall|i: int| 0 <= i < split_due(timers, now_ns, true).len() implies timers.contains(
            #[trigger] split_due(timers, now_ns, true)[i],
        ) by {
            if i < rest.len() {
                let k = choose|k: int| 0 <= k < init.len() && init[k] == rest[i];
                assert(timers[k] == rest[i]);
            } else {
                assert(timers[timers.len() - 1] == timers.last());
            }
        }
    }
}

/// Once a stage's timers are cancelled, a later firing never calls back into it,
/// and every timer of another stage stays armed.
pub proof fn lemma_cancelled_never_fires(timers: Seq<PendingTimer>, owner: u64, now_ns: i64)
    ensures
        forall|i: int|
            0 <= i < split_due(without_owner(timers, owner), now_ns, true).len() ==> (
            #[trigger] split_due(without_owner(timers, owner), now_ns, true)[i]).owner != owner,
        forall|t: PendingTimer| timers.contains(t) && t.owner != owner ==> #[trigger] without_owner(
            timers,
            owner,
        ).contains(t),
{
    lemma_without_owner(timers, owner);
    let kept = without_owner(timers, owner);
    lemma_split_due_from(kept, now_ns);
    assert forall|i: int| 0 <= i < split_due(kept, now_ns, true).len() implies (
    #[trigger] split_due(kept, now_ns, true)[i]).owner != owner by {
        let k = choose|k: int| 0 <= k < kept.len() && kept[k] == split_due(kept, now_ns, true)[i];
        assert(kept[k].owner != owner);
    }
}

/// The timer thread never sleeps past an armed deadline: the next deadline is at or
/// before every armed one, and is one of them where any is armed.
pub proof fn lemma_next_deadline_earliest(timers: Seq<PendingTimer>)
    ensures
        forall|i: int|
            0 <= i < timers.len() ==> earliest_deadline(timers) <= (#[trigger] timers[i]).deadline_ns,
        timers.len() > 0 ==> exists|i: int|
            0 <= i < timers.len() && (#[trigger] timers[i]).deadline_ns == earliest_deadline(timers),
    decreases timers.len(),
{
    if timers.len() > 0 {
        let init = timers.drop_last();
        lemma_next_deadline_earliest(init);
        assert forall|i: int| 0 <= i < timers.len() implies earliest_deadline(timers) <= (
        #[trigger] timers[i]).deadline_ns by {
            if i < timers.len() - 1 {
                assert(init[i] == timers[i]);
            }
        }
        if timers.last().deadline_ns < earliest_deadline(init) {
            assert(timers[timers.len() - 1].deadline_ns == earliest_deadline(timers));
        } else if init.len() == 0 {
            assert(timers[0].deadline_ns == earliest_deadline(timers));
        } else {
            let k = choose|k: int| 0 <= k < init.len() && (#[trigger] init[k]).deadline_ns
                == earliest_deadline(init);
            assert(timers[k] == init[k]);
        }
    }
}

} // verus!
