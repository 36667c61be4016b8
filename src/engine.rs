use vstd::prelude::*;

use crate::patch::{PatchBatch, PatchOp};
use crate::scheduler::{Scheduler, SchedulerError};
use crate::store::Store;
use crate::telemetry::{patch_recorded, tick_begun, tick_finalized, TelemetryRecorder, TickResult};
use crate::types::NodeId;

verus! {

/// Tick lifecycle over a store, a scheduler and a telemetry recorder.
#[derive(Debug)]
pub struct Engine {
    store: Store,
    scheduler: Scheduler,
    telemetry: TelemetryRecorder,
}

impl Engine {
    pub closed spec fn store_spec(&self) -> Store {
        self.store
    }

    pub closed spec fn scheduler_spec(&self) -> Scheduler {
        self.scheduler
    }

    pub closed spec fn telemetry_spec(&self) -> TelemetryRecorder {
        self.telemetry
    }

    /// An idle engine with an empty store and a recording telemetry log.
    pub fn new() -> (r: Engine)
        ensures
            r.store_spec()@ == Map::<u64, Seq<char>>::empty(),
            !r.scheduler_spec().is_active(),
            r.scheduler_spec().queued() == Seq::<PatchOp>::empty(),
            r.telemetry_spec().is_enabled(),
            r.telemetry_spec().log() == Seq::<crate::telemetry::TickTelemetry>::empty(),
            r.telemetry_spec().in_flight() is None,
            r.telemetry_spec().next_id() == 1,
    {
        Engine { store: Store::new(), scheduler: Scheduler::new(), telemetry: TelemetryRecorder::new() }
    }

    /// Opens a tick in the scheduler and in telemetry; fails, changing nothing, when one is open.
    pub fn begin_tick(&mut self) -> (r: Result<(), SchedulerError>)
        ensures
            old(self).scheduler_spec().is_active() ==> r == Err::<(), SchedulerError>(
                SchedulerError::TickAlreadyStarted,
            ) && *final(self) == *old(self),
            !old(self).scheduler_spec().is_active() ==> {
                &&& r is Ok
                &&& final(self).scheduler_spec().is_active()
                &&& final(self).scheduler_spec().queued() == old(self).scheduler_spec().queued()
                &&& final(self).store_spec() == old(self).store_spec()
                &&& tick_begun(old(self).telemetry_spec(), final(self).telemetry_spec())
            },
    {
        match self.scheduler.begin_tick() {
            Ok(()) => {},
            Err(e) => {
                return Err(e);
            },
        }
        self.telemetry.begin_tick();
        Ok(())
    }

    /// Writes `value` to the store, then enqueues `SetText` for it, even when the text is unchanged.
    /// The store is written whether or not a tick is open.
    pub fn set_value(&mut self, node: NodeId, value: &str) -> (r: Result<(), SchedulerError>)
        ensures
            final(self).store_spec()@ == old(self).store_spec()@.insert(node@, value@),
            final(self).telemetry_spec() == old(self).telemetry_spec(),
            !old(self).scheduler_spec().is_active() ==> r == Err::<(), SchedulerError>(
                SchedulerError::TickNotStarted,
            ) && final(self).scheduler_spec() == old(self).scheduler_spec(),
            old(self).scheduler_spec().is_active() ==> {
                &&& r is Ok
                &&& final(self).scheduler_spec().is_active()
                &&& final(self).scheduler_spec().queued().len() == old(self).scheduler_spec().queued().len() + 1
                &&& final(self).scheduler_spec().queued().drop_last() == old(self).scheduler_spec().queued()
                &&& (final(self).scheduler_spec().queued().last() matches PatchOp::SetText { node: n, text: t }
                    && n == node && t@ == value@)
            },
    {
        self.store.set_value(node, value);
        let op = PatchOp::SetText { node, text: value.to_string() };
        self.scheduler.enqueue_op(op)
    }

    /// Closes the open tick: records its batch in telemetry, finalizes the tick as a commit and
    /// returns the batch; fails, changing nothing, when no tick is open.
    pub fn commit(&mut self) -> (r: Result<PatchBatch, SchedulerError>)
        ensures
            !old(self).scheduler_spec().is_active() ==> r == Err::<PatchBatch, SchedulerError>(
                SchedulerError::TickNotStarted,
            ) && *final(self) == *old(self),
            old(self).scheduler_spec().is_active() ==> {
                &&& r is Ok
                &&& r.unwrap()@ == old(self).scheduler_spec().queued()
                &&& !final(self).scheduler_spec().is_active()
                &&& final(self).scheduler_spec().queued() == Seq::<PatchOp>::empty()
                &&& final(self).store_spec() == old(self).store_spec()
                &&& exists|mid: TelemetryRecorder|
                    patch_recorded(old(self).telemetry_spec(), mid, r.unwrap()@)
                    && #[trigger] tick_finalized(mid, final(self).telemetry_spec(), TickResult::Commit)
            },
    {
        let batch = match self.scheduler.commit_tick() {
            Ok(b) => b,
            Err(e) => {
                return Err(e);
            },
        };
        let ghost before = self.telemetry;
        self.telemetry.record_patch(&batch);
        let ghost mid = self.telemetry;
        self.telemetry.finalize_tick(TickResult::Commit);
        assert(patch_recorded(before, mid, batch@));
        assert(tick_finalized(mid, self.telemetry_spec(), TickResult::Commit));
        Ok(batch)
    }

    /// The telemetry recorder, for reading.
    pub fn telemetry(&self) -> (r: &TelemetryRecorder)
        ensures
            *r == self.telemetry_spec(),
    {
        &self.telemetry
    }

    /// The telemetry recorder, for a host that reports phases measured elsewhere.
    pub fn telemetry_mut(&mut self) -> (r: &mut TelemetryRecorder)
        ensures
            *r == old(self).telemetry_spec(),
            final(self).telemetry_spec() == *final(r),
            final(self).store_spec() == old(self).store_spec(),
            final(self).scheduler_spec() == old(self).scheduler_spec(),
    {
        &mut self.telemetry
    }

    /// The store, for reading.
    pub fn store(&self) -> (r: &Store)
        ensures
            *r == self.store_spec(),
    {
        &self.store
    }
}

impl Default for Engine {
    fn default() -> (r: Engine)
        ensures
            r.store_spec()@ == Map::<u64, Seq<char>>::empty(),
            !r.scheduler_spec().is_active(),
            r.scheduler_spec().queued() == Seq::<PatchOp>::empty(),
            r.telemetry_spec().is_enabled(),
            r.telemetry_spec().log() == Seq::<crate::telemetry::TickTelemetry>::empty(),
            r.telemetry_spec().in_flight() is None,
            r.telemetry_spec().next_id() == 1,
    {
        Engine { store: Store::new(), scheduler: Scheduler::new(), telemetry: TelemetryRecorder::new() }
    }
}

} // verus!
