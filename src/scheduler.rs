use vstd::prelude::*;

use crate::effects::EffectQueue;
use crate::patch::{PatchBatch, PatchOp};

verus! {

/// Calls made in the wrong tick state.
#[derive(Debug, Clone, Copy, PartialEq, Eq, Structural)]
pub enum SchedulerError {
    TickAlreadyStarted,
    TickNotStarted,
}

#[derive(Debug, Clone, Copy, PartialEq, Eq, Structural)]
enum TickState {
    Idle,
    Active,
}

/// The state after `begin_tick` from `s` (whether a tick is open, and the queued operations),
/// with the call's result.
pub open spec fn begin_step(s: (bool, Seq<PatchOp>)) -> ((bool, Seq<PatchOp>), Result<(), SchedulerError>) {
    if s.0 {
        (s, Err(SchedulerError::TickAlreadyStarted))
    } else {
        ((true, s.1), Ok(()))
    }
}

/// The state after `enqueue_op(op)` from `s`, with the call's result.
pub open spec fn enqueue_step(s: (bool, Seq<PatchOp>), op: PatchOp) -> (
    (bool, Seq<PatchOp>),
    Result<(), SchedulerError>,
) {
    if !s.0 {
        (s, Err(SchedulerError::TickNotStarted))
    } else {
        ((true, s.1.push(op)), Ok(()))
    }
}

/// The state after `commit_tick` from `s`, with the operations it hands out or its error.
pub open spec fn commit_step(s: (bool, Seq<PatchOp>)) -> (
    (bool, Seq<PatchOp>),
    Result<Seq<PatchOp>, SchedulerError>,
) {
    if !s.0 {
        (s, Err(SchedulerError::TickNotStarted))
    } else {
        ((false, Seq::empty()), Ok(s.1))
    }
}

/// Committing before any tick fails with `TickNotStarted`; a second `begin_tick` without a
/// commit in between fails with `TickAlreadyStarted`; after a commit the scheduler is idle and
/// empty again, so the next begin/enqueue/commit cycle succeeds and hands out what it enqueued.
pub proof fn lemma_tick_cycle(first: Seq<PatchOp>, op: PatchOp)
    ensures
        commit_step((false, Seq::empty())).1 == Err::<Seq<PatchOp>, SchedulerError>(
            SchedulerError::TickNotStarted,
        ),
        begin_step(begin_step((false, first)).0).1 == Err::<(), SchedulerError>(
            SchedulerError::TickAlreadyStarted,
        ),
        commit_step((true, first)).0 == (false, Seq::<PatchOp>::empty()),
        ({
            let idle = commit_step((true, first)).0;
            let open = begin_step(idle);
            let filled = enqueue_step(open.0, op);
            let done = commit_step(filled.0);
            &&& open.1 is Ok
            &&& filled.1 is Ok
            &&& done.1 == Ok::<Seq<PatchOp>, SchedulerError>(seq![op])
            &&& done.0 == (false, Seq::<PatchOp>::empty())
        }),
{
    assert(Seq::<PatchOp>::empty().push(op) =~= seq![op]);
}

/// Two-state tick machine that gates enqueueing and committing operations.
#[derive(Debug, Clone)]
pub struct Scheduler {
    state: TickState,
    queue: EffectQueue,
}

impl View for Scheduler {
    type V = (bool, Seq<PatchOp>);

    /// Whether a tick is open, and the operations queued in it.
    closed spec fn view(&self) -> (bool, Seq<PatchOp>) {
        (self.state == TickState::Active, self.queue@)
    }
}

impl Scheduler {
    /// Whether a tick is open.
    pub closed spec fn is_active(&self) -> bool {
        self.state == TickState::Active
    }

    /// The operations enqueued in the open tick.
    pub closed spec fn queued(&self) -> Seq<PatchOp> {
        self.queue@
    }

    pub fn new() -> (r: Scheduler)
        ensures
            !r.is_active(),
            r.queued() == Seq::<PatchOp>::empty(),
    {
        Scheduler { state: TickState::Idle, queue: EffectQueue::new() }
    }

    /// Opens a tick; fails when one is already open, leaving the state as it was.
    pub fn begin_tick(&mut self) -> (r: Result<(), SchedulerError>)
        ensures
            old(self).is_active() ==> r == Err::<(), SchedulerError>(SchedulerError::TickAlreadyStarted)
                && *final(self) == *old(self),
            !old(self).is_active() ==> r is Ok && final(self).is_active()
                && final(self).queued() == old(self).queued(),
            (final(self)@, r) == begin_step(old(self)@),
    {
        if self.state == TickState::Active {
            return Err(SchedulerError::TickAlreadyStarted);
        }
        self.state = TickState::Active;
        Ok(())
    }

    /// Appends `op` to the open tick; fails when no tick is open, leaving the state as it was.
    pub fn enqueue_op(&mut self, op: PatchOp) -> (r: Result<(), SchedulerError>)
        ensures
            !old(self).is_active() ==> r == Err::<(), SchedulerError>(SchedulerError::TickNotStarted)
                && *final(self) == *old(self),
            old(self).is_active() ==> r is Ok && final(self).is_active()
                && final(self).queued() == old(self).queued().push(op),
            (final(self)@, r) == enqueue_step(old(self)@, op),
    {
        if self.state != TickState::Active {
            return Err(SchedulerError::TickNotStarted);
        }
        self.queue.push(op);
        Ok(())
    }

    /// Closes the open tick and returns its operations in order; fails when no tick is open.
    pub fn commit_tick(&mut self) -> (r: Result<PatchBatch, SchedulerError>)
        ensures
            !old(self).is_active() ==> r == Err::<PatchBatch, SchedulerError>(SchedulerError::TickNotStarted)
                && *final(self) == *old(self),
            old(self).is_active() ==> r is Ok && r.unwrap()@ == old(self).queued()
                && !final(self).is_active() && final(self).queued() == Seq::<PatchOp>::empty(),
            final(self)@ == commit_step(old(self)@).0,
            commit_step(old(self)@).1 == (match r {
                Ok(b) => Ok::<Seq<PatchOp>, SchedulerError>(b@),
                Err(e) => Err::<Seq<PatchOp>, SchedulerError>(e),
            }),
    {
        if self.state != TickState::Active {
            return Err(SchedulerError::TickNotStarted);
        }
        self.state = TickState::Idle;
        Ok(self.queue.commit())
    }
}

impl Default for Scheduler {
    fn default() -> (r: Scheduler)
        ensures
            !r.is_active(),
            r.queued() == Seq::<PatchOp>::empty(),
    {
        Scheduler::new()
    }
}

} // verus!
