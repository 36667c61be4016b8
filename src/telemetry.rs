use std::hash::{Hash, Hasher};
use std::time::Instant;
use vstd::prelude::*;
use vstd::string::StrSliceExecFns;

use crate::patch::{PatchBatch, PatchOp};

verus! {

/// How a tick ended.
#[derive(Debug, Clone, Copy, PartialEq, Eq, Structural)]
pub enum TickResult {
    Commit,
    Rollback,
    Fallback,
}

impl Default for TickResult {
    fn default() -> (r: TickResult)
        ensures
            r == TickResult::Commit,
    {
        TickResult::Commit
    }
}

/// Time spent in each phase of a tick, in nanoseconds.
#[derive(Debug, Clone, Copy, PartialEq, Eq, Structural)]
pub struct PhaseDurations {
    pub script_ns: u64,
    pub style_ns: u64,
    pub layout_ns: u64,
    pub render_ns: u64,
    pub total_ns: u64,
}

impl Default for PhaseDurations {
    fn default() -> (r: PhaseDurations)
        ensures
            r == (PhaseDurations { script_ns: 0, style_ns: 0, layout_ns: 0, render_ns: 0, total_ns: 0 }),
    {
        PhaseDurations { script_ns: 0, style_ns: 0, layout_ns: 0, render_ns: 0, total_ns: 0 }
    }
}

/// Counters that describe the amount of work a tick emitted.
#[derive(Debug, Clone, Copy, PartialEq, Eq, Structural)]
pub struct WorkBreakdown {
    pub dom_mutations: usize,
    pub nodes_touched: usize,
    pub selectors_evaluated: usize,
    pub elements_invalidated: usize,
    pub patch_bytes: usize,
}

impl WorkBreakdown {
    /// All counters at zero.
    pub open spec fn zero() -> WorkBreakdown {
        WorkBreakdown {
            dom_mutations: 0,
            nodes_touched: 0,
            selectors_evaluated: 0,
            elements_invalidated: 0,
            patch_bytes: 0,
        }
    }
}

impl Default for WorkBreakdown {
    fn default() -> (r: WorkBreakdown)
        ensures
            r == WorkBreakdown::zero(),
    {
        WorkBreakdown {
            dom_mutations: 0,
            nodes_touched: 0,
            selectors_evaluated: 0,
            elements_invalidated: 0,
            patch_bytes: 0,
        }
    }
}

/// A deviation from a normal commit, with its reason and the phase it happened in.
#[derive(Debug, Clone)]
pub struct GuardrailEvent {
    pub kind: TickResult,
    pub reason: String,
    pub phase: Option<String>,
}

impl GuardrailEvent {
    pub fn new(reason: &str, phase: Option<String>, kind: TickResult) -> (r: GuardrailEvent)
        ensures
            r.kind == kind,
            r.reason@ == reason@,
            r.phase == phase,
    {
        GuardrailEvent { kind, reason: reason.to_string(), phase }
    }

    /// A copy equal to `self`.
    fn duplicate(&self) -> (r: GuardrailEvent)
        ensures
            r == *self,
    {
        let phase = match &self.phase {
            Some(p) => Some(p.clone()),
            None => None,
        };
        GuardrailEvent { kind: self.kind, reason: self.reason.clone(), phase }
    }
}

/// The finalized record of one tick.
#[derive(Debug, Clone)]
pub struct TickTelemetry {
    pub tick_id: u64,
    pub result: TickResult,
    pub durations: PhaseDurations,
    pub work: WorkBreakdown,
    pub fingerprint: Option<u64>,
    pub guardrail: Option<GuardrailEvent>,
}

impl TickTelemetry {
    /// A copy equal to `self`.
    fn duplicate(&self) -> (r: TickTelemetry)
        ensures
            r == *self,
    {
        let guardrail = match &self.guardrail {
            Some(g) => Some(g.duplicate()),
            None => None,
        };
        TickTelemetry {
            tick_id: self.tick_id,
            result: self.result,
            durations: self.durations,
            work: self.work,
            fingerprint: self.fingerprint,
            guardrail,
        }
    }
}

/// The accumulator of the tick in flight.
#[derive(Debug)]
pub struct ActiveTick {
    pub tick_id: u64,
    pub start: Instant,
    pub durations: PhaseDurations,
    pub work: WorkBreakdown,
    pub fingerprint: Option<u64>,
    pub guardrail: Option<GuardrailEvent>,
}

#[verifier::external_type_specification]
#[verifier::external_body]
pub struct ExInstant(Instant);

/// Relies on std::time::Instant::now: a reading of the monotonic clock.
#[verifier::external_body]
pub(crate) fn clock_now() -> Instant {
    Instant::now()
}

/// Relies on std::time::Instant::elapsed, read out with Duration::as_nanos: the nanoseconds since
/// `start`, whatever the clock says; nothing is promised of the value.
#[verifier::external_body]
pub(crate) fn nanos_since(start: &Instant) -> u128 {
    start.elapsed().as_nanos()
}

/// What std's `DefaultHasher::new()` yields after hashing the batch `ops`.
pub uninterp spec fn batch_fingerprint(ops: Seq<PatchOp>) -> u64;

/// Relies on std's `DefaultHasher` (fixed keys when made by `new`) and the derived `Hash` of
/// `PatchOp`: the result depends on the operations and their order alone.
#[verifier::external_body]
fn fingerprint_from_batch(batch: &[PatchOp]) -> (r: u64)
    ensures
        r == batch_fingerprint(batch@),
{
    let mut hasher = std::collections::hash_map::DefaultHasher::new();
    batch.hash(&mut hasher);
    hasher.finish()
}

/// Fixed cost of one identity field in the payload estimate.
pub const NODE_ID_BYTES: usize = 8;

/// Estimated payload of one operation: each identity costs a fixed unit, each text its length.
pub open spec fn op_bytes(op: PatchOp) -> nat {
    match op {
        PatchOp::SetText { node: _, text } => NODE_ID_BYTES as nat + text@.len(),
        PatchOp::SetAttr { node: _, name, value } => 2 * NODE_ID_BYTES as nat + name@.len() + value@.len(),
        PatchOp::Insert { parent: _, child: _ } => 2 * NODE_ID_BYTES as nat,
        PatchOp::Remove { node: _ } => NODE_ID_BYTES as nat,
    }
}

/// Estimated payload of a batch: the sum over its operations.
pub open spec fn batch_bytes(ops: Seq<PatchOp>) -> nat
    decreases ops.len(),
{
    if ops.len() == 0 {
        0
    } else {
        batch_bytes(ops.drop_last()) + op_bytes(ops.last())
    }
}

/// `n`, or `usize::MAX` when `n` does not fit.
pub open spec fn saturate_usize(n: nat) -> usize {
    if n <= usize::MAX {
        n as usize
    } else {
        usize::MAX
    }
}

/// `n`, or `u64::MAX` when `n` does not fit.
pub open spec fn saturate_u64(n: int) -> u64 {
    if n <= u64::MAX {
        n as u64
    } else {
        u64::MAX
    }
}

/// The wall time not covered by the measured phases, or zero when they cover all of it.
pub open spec fn residual_ns(total: u64, style: u64, layout: u64, render: u64) -> u64 {
    let measured = style + layout + render;
    if total >= measured {
        (total - measured) as u64
    } else {
        0
    }
}

/// Estimated payload size of `batch`, saturating at `usize::MAX`.
pub fn estimate_patch_bytes(batch: &[PatchOp]) -> (r: usize)
    ensures
        r == saturate_usize(batch_bytes(batch@)),
{
    let mut total: usize = 0;
    let mut i: usize = 0;
    while i < batch.len()
        invariant
            0 <= i <= batch@.len(),
            total == saturate_usize(batch_bytes(batch@.subrange(0, i as int))),
        decreases batch@.len() - i,
    {
        let op = &batch[i];
        let cost: usize = match op {
            PatchOp::SetText { node: _, text } => NODE_ID_BYTES.saturating_add(text.as_str().unicode_len()),
            PatchOp::SetAttr { node: _, name, value } => {
                (NODE_ID_BYTES * 2).saturating_add(name.as_str().unicode_len()).saturating_add(
                    value.as_str().unicode_len(),
                )
            },
            PatchOp::Insert { parent: _, child: _ } => NODE_ID_BYTES * 2,
            PatchOp::Remove { node: _ } => NODE_ID_BYTES,
        };
        assert(cost == saturate_usize(op_bytes(*op)));
        proof {
            let s = batch@.subrange(0, i + 1);
            assert(s.drop_last() =~= batch@.subrange(0, i as int));
            assert(s.last() == *op);
        }
        total = total.saturating_add(cost);
        i = i + 1;
    }
    assert(batch@.subrange(0, batch@.len() as int) =~= batch@);
    total
}

/// The record that finalizing the tick `a` with `result` after `total` nanoseconds produces.
pub open spec fn finalized(a: ActiveTick, result: TickResult, total: u64) -> TickTelemetry {
    TickTelemetry {
        tick_id: a.tick_id,
        result,
        durations: PhaseDurations {
            script_ns: residual_ns(total, a.durations.style_ns, a.durations.layout_ns, a.durations.render_ns),
            style_ns: a.durations.style_ns,
            layout_ns: a.durations.layout_ns,
            render_ns: a.durations.render_ns,
            total_ns: total,
        },
        work: a.work,
        fingerprint: a.fingerprint,
        guardrail: a.guardrail,
    }
}

/// Whether `after` is `before` with only the accumulator of the tick in flight replaced by `a`.
pub open spec fn only_in_flight_changed(before: TelemetryRecorder, after: TelemetryRecorder, a: ActiveTick) -> bool {
    &&& after.is_enabled() == before.is_enabled()
    &&& after.log() == before.log()
    &&& after.next_id() == before.next_id()
    &&& after.in_flight() == Some(a)
}

/// Whether `after` is `before` after `begin_tick`: a disabled recorder stays as it is; an enabled one
/// gets a zeroed accumulator under the next id.
pub open spec fn tick_begun(before: TelemetryRecorder, after: TelemetryRecorder) -> bool {
    &&& !before.is_enabled() ==> after == before
    &&& before.is_enabled() ==> {
        &&& after.is_enabled()
        &&& after.log() == before.log()
        &&& after.next_id() == saturate_u64(before.next_id() + 1)
        &&& after.in_flight() matches Some(a) && a.tick_id == before.next_id()
            && a.durations == PhaseDurations {
            script_ns: 0,
            style_ns: 0,
            layout_ns: 0,
            render_ns: 0,
            total_ns: 0,
        } && a.work == WorkBreakdown::zero() && a.fingerprint is None && a.guardrail is None
    }
}

/// Whether `after` is `before` after `record_patch` of the operations `ops`.
pub open spec fn patch_recorded(before: TelemetryRecorder, after: TelemetryRecorder, ops: Seq<PatchOp>) -> bool {
    &&& before.in_flight() is None ==> after == before
    &&& before.in_flight() matches Some(a) ==> only_in_flight_changed(before, after, ActiveTick {
        work: WorkBreakdown {
            dom_mutations: ops.len() as usize,
            patch_bytes: saturate_usize(batch_bytes(ops)),
            ..a.work
        },
        fingerprint: Some(batch_fingerprint(ops)),
        ..a
    })
}

/// Whether `after` is `before` after the tick in flight was finalized with `result` at some wall time.
pub open spec fn tick_finalized(before: TelemetryRecorder, after: TelemetryRecorder, result: TickResult) -> bool {
    &&& before.in_flight() is None ==> after == before
    &&& before.in_flight() matches Some(a) ==> {
        &&& after.is_enabled() == before.is_enabled()
        &&& after.next_id() == before.next_id()
        &&& after.in_flight() is None
        &&& exists|total_ns: u64| after.log() == before.log().push(#[trigger] finalized(a, result, total_ns))
    }
}

/// Whether `after` is `before` after `record_selector_evaluation(ns, elements)`.
pub open spec fn selector_evaluation_recorded(
    before: TelemetryRecorder,
    after: TelemetryRecorder,
    ns: u64,
    elements: usize,
) -> bool {
    &&& before.in_flight() is None ==> after == before
    &&& before.in_flight() matches Some(a) ==> only_in_flight_changed(before, after, ActiveTick {
        durations: PhaseDurations { style_ns: saturate_u64(a.durations.style_ns + ns), ..a.durations },
        work: WorkBreakdown {
            selectors_evaluated: saturate_usize((a.work.selectors_evaluated + 1) as nat),
            elements_invalidated: saturate_usize((a.work.elements_invalidated + elements) as nat),
            nodes_touched: saturate_usize((a.work.nodes_touched + elements) as nat),
            ..a.work
        },
        ..a
    })
}

/// Two selector evaluations of `elements` nodes each, recorded in a tick whose counters start
/// at zero, finalize into a record with two evaluations and twice `elements` invalidated and
/// touched nodes; the tick begun next starts from zero counters again.
pub proof fn lemma_selector_evaluations_add_up(
    r0: TelemetryRecorder,
    r1: TelemetryRecorder,
    r2: TelemetryRecorder,
    r3: TelemetryRecorder,
    r4: TelemetryRecorder,
    first_ns: u64,
    second_ns: u64,
    elements: usize,
    result: TickResult,
)
    requires
        r0.in_flight() matches Some(a) && a.work == WorkBreakdown::zero(),
        2 * elements <= usize::MAX,
        selector_evaluation_recorded(r0, r1, first_ns, elements),
        selector_evaluation_recorded(r1, r2, second_ns, elements),
        tick_finalized(r2, r3, result),
        r3.is_enabled(),
        tick_begun(r3, r4),
    ensures
        r3.log().len() == r0.log().len() + 1,
        r3.log().last().work.selectors_evaluated == 2,
        r3.log().last().work.elements_invalidated == 2 * elements,
        r3.log().last().work.nodes_touched == 2 * elements,
        r4.in_flight() matches Some(b) && b.work == WorkBreakdown::zero(),
{
    let a2 = r2.in_flight().unwrap();
    let total_ns = choose|total_ns: u64| r3.log() == r2.log().push(#[trigger] finalized(a2, result, total_ns));
    assert(r3.log().last() == finalized(a2, result, total_ns));
}

/// Recording the same operations in the same order gives the same fingerprint.
pub proof fn lemma_fingerprint_deterministic(
    r0: TelemetryRecorder,
    r1: TelemetryRecorder,
    q0: TelemetryRecorder,
    q1: TelemetryRecorder,
    ops: Seq<PatchOp>,
    same_ops: Seq<PatchOp>,
)
    requires
        ops == same_ops,
        r0.in_flight() is Some,
        q0.in_flight() is Some,
        patch_recorded(r0, r1, ops),
        patch_recorded(q0, q1, same_ops),
    ensures
        r1.in_flight().unwrap().fingerprint == q1.in_flight().unwrap().fingerprint,
        r1.in_flight().unwrap().fingerprint is Some,
{
}

/// Log of finalized per-tick records with one tick in flight at most.
///
/// A recorder made by `disabled` keeps nothing: every method is inert.
#[derive(Debug)]
pub struct TelemetryRecorder {
    enabled: bool,
    ticks: Vec<TickTelemetry>,
    current: Option<ActiveTick>,
    next_tick_id: u64,
}

impl TelemetryRecorder {
    pub closed spec fn is_enabled(&self) -> bool {
        self.enabled
    }

    /// The finalized records, oldest first.
    pub closed spec fn log(&self) -> Seq<TickTelemetry> {
        self.ticks@
    }

    /// The accumulator of the tick in flight, if any.
    pub closed spec fn in_flight(&self) -> Option<ActiveTick> {
        self.current
    }

    /// The id the next tick will get.
    pub closed spec fn next_id(&self) -> u64 {
        self.next_tick_id
    }

    /// A recording telemetry log: empty, nothing in flight, the first tick gets id 1.
    pub fn new() -> (r: TelemetryRecorder)
        ensures
            r.is_enabled(),
            r.log() == Seq::<TickTelemetry>::empty(),
            r.in_flight() is None,
            r.next_id() == 1,
    {
        TelemetryRecorder { enabled: true, ticks: Vec::new(), current: None, next_tick_id: 1 }
    }

    /// A recorder that records nothing.
    pub fn disabled() -> (r: TelemetryRecorder)
        ensures
            !r.is_enabled(),
            r.log() == Seq::<TickTelemetry>::empty(),
            r.in_flight() is None,
            r.next_id() == 1,
    {
        TelemetryRecorder { enabled: false, ticks: Vec::new(), current: None, next_tick_id: 1 }
    }

    /// Starts a tick with the next id and a zeroed accumulator, dropping any tick in flight.
    pub fn begin_tick(&mut self)
        ensures
            tick_begun(*old(self), *final(self)),
    {
        if !self.enabled {
            return;
        }
        let tick_id = self.next_tick_id;
        self.next_tick_id = self.next_tick_id.saturating_add(1);
        self.current = Some(
            ActiveTick {
                tick_id,
                start: clock_now(),
                durations: PhaseDurations::default(),
                work: WorkBreakdown::default(),
                fingerprint: None,
                guardrail: None,
            },
        );
    }

    /// Adds `ns` to the style time of the tick in flight; inert when none is.
    pub fn record_style_duration(&mut self, ns: u64)
        ensures
            old(self).in_flight() is None ==> *final(self) == *old(self),
            old(self).in_flight() matches Some(a) ==> only_in_flight_changed(*old(self), *final(self), ActiveTick {
                durations: PhaseDurations { style_ns: saturate_u64(a.durations.style_ns + ns), ..a.durations },
                ..a
            }),
    {
        if let Some(current) = &mut self.current {
            current.durations.style_ns = current.durations.style_ns.saturating_add(ns);
        }
    }

    /// Adds `ns` to the layout time of the tick in flight; inert when none is.
    pub fn record_layout_duration(&mut self, ns: u64)
        ensures
            old(self).in_flight() is None ==> *final(self) == *old(self),
            old(self).in_flight() matches Some(a) ==> only_in_flight_changed(*old(self), *final(self), ActiveTick {
                durations: PhaseDurations { layout_ns: saturate_u64(a.durations.layout_ns + ns), ..a.durations },
                ..a
            }),
    {
        if let Some(current) = &mut self.current {
            current.durations.layout_ns = current.durations.layout_ns.saturating_add(ns);
        }
    }

    /// Adds `ns` to the render time of the tick in flight; inert when none is.
    pub fn record_render_duration(&mut self, ns: u64)
        ensures
            old(self).in_flight() is None ==> *final(self) == *old(self),
            old(self).in_flight() matches Some(a) ==> only_in_flight_changed(*old(self), *final(self), ActiveTick {
                durations: PhaseDurations { render_ns: saturate_u64(a.durations.render_ns + ns), ..a.durations },
                ..a
            }),
    {
        if let Some(current) = &mut self.current {
            current.durations.render_ns = current.durations.render_ns.saturating_add(ns);
        }
    }

    /// Counts one selector evaluation that took `ns` (style time) and invalidated `elements` nodes.
    pub fn record_selector_evaluation(&mut self, ns: u64, elements: usize)
        ensures
            selector_evaluation_recorded(*old(self), *final(self), ns, elements),
    {
        if let Some(current) = &mut self.current {
            current.durations.style_ns = current.durations.style_ns.saturating_add(ns);
            current.work.selectors_evaluated = current.work.selectors_evaluated.saturating_add(1);
            current.work.elements_invalidated = current.work.elements_invalidated.saturating_add(elements);
            current.work.nodes_touched = current.work.nodes_touched.saturating_add(elements);
        }
    }

    /// Adds `count` to the nodes touched by the tick in flight.
    pub fn record_node_touches(&mut self, count: usize)
        ensures
            old(self).in_flight() is None ==> *final(self) == *old(self),
            old(self).in_flight() matches Some(a) ==> only_in_flight_changed(*old(self), *final(self), ActiveTick {
                work: WorkBreakdown {
                    nodes_touched: saturate_usize((a.work.nodes_touched + count) as nat),
                    ..a.work
                },
                ..a
            }),
    {
        if let Some(current) = &mut self.current {
            current.work.nodes_touched = current.work.nodes_touched.saturating_add(count);
        }
    }

    /// Records the size estimate and the fingerprint of the batch the tick in flight emitted.
    pub fn record_patch(&mut self, batch: &PatchBatch)
        ensures
            patch_recorded(*old(self), *final(self), batch@),
    {
        if let Some(current) = &mut self.current {
            let bytes = estimate_patch_bytes(batch.as_slice());
            current.work.dom_mutations = batch.len();
            current.work.patch_bytes = bytes;
            current.fingerprint = Some(fingerprint_from_batch(batch.as_slice()));
        }
    }

    /// Stores `event` on the tick in flight, replacing an earlier one.
    pub fn record_guardrail(&mut self, event: GuardrailEvent)
        ensures
            old(self).in_flight() is None ==> *final(self) == *old(self),
            old(self).in_flight() matches Some(a) ==> only_in_flight_changed(*old(self), *final(self), ActiveTick {
                guardrail: Some(event),
                ..a
            }),
    {
        if let Some(current) = &mut self.current {
            current.guardrail = Some(event);
        }
    }

    /// Ends the tick in flight as if `total_ns` nanoseconds of wall time had passed since it began,
    /// and appends its record to the log; inert when no tick is in flight.
    pub fn finalize_tick_at(&mut self, result: TickResult, total_ns: u64)
        ensures
            old(self).in_flight() is None ==> *final(self) == *old(self),
            old(self).in_flight() matches Some(a) ==> {
                &&& final(self).is_enabled() == old(self).is_enabled()
                &&& final(self).next_id() == old(self).next_id()
                &&& final(self).in_flight() is None
                &&& final(self).log() == old(self).log().push(finalized(a, result, total_ns))
            },
    {
        let mut taken: Option<ActiveTick> = None;
        std::mem::swap(&mut taken, &mut self.current);
        match taken {
            Some(active) => {
                let style_ns = active.durations.style_ns;
                let layout_ns = active.durations.layout_ns;
                let render_ns = active.durations.render_ns;
                let measured = style_ns.saturating_add(layout_ns).saturating_add(render_ns);
                let script_ns = total_ns.saturating_sub(measured);
                let durations = PhaseDurations { script_ns, style_ns, layout_ns, render_ns, total_ns };
                let record = TickTelemetry {
                    tick_id: active.tick_id,
                    result,
                    durations,
                    work: active.work,
                    fingerprint: active.fingerprint,
                    guardrail: active.guardrail,
                };
                self.ticks.push(record);
            },
            None => {},
        }
    }

    /// Ends the tick in flight, measuring its wall time, and appends its record to the log.
    pub fn finalize_tick(&mut self, result: TickResult)
        ensures
            tick_finalized(*old(self), *final(self), result),
    {
        let mut total_ns: u64 = 0;
        if let Some(active) = &self.current {
            let elapsed = nanos_since(&active.start);
            total_ns = if elapsed > u64::MAX as u128 { u64::MAX } else { elapsed as u64 };
        }
        self.finalize_tick_at(result, total_ns);
    }

    /// A copy of every finalized record, oldest first; empty for a disabled recorder.
    pub fn snapshot(&self) -> (r: Vec<TickTelemetry>)
        ensures
            r@ == (if self.is_enabled() { self.log() } else { Seq::<TickTelemetry>::empty() }),
    {
        let mut r: Vec<TickTelemetry> = Vec::new();
        if !self.enabled {
            return r;
        }
        let mut i: usize = 0;
        while i < self.ticks.len()
            invariant
                0 <= i <= self.ticks@.len(),
                r@ == self.ticks@.subrange(0, i as int),
            decreases self.ticks@.len() - i,
        {
            r.push(self.ticks[i].duplicate());
            assert(r@ =~= self.ticks@.subrange(0, i + 1));
            i = i + 1;
        }
        assert(self.ticks@.subrange(0, self.ticks@.len() as int) =~= self.ticks@);
        r
    }

    /// The most recent finalized record, if any.
    pub fn last_tick(&self) -> (r: Option<&TickTelemetry>)
        ensures
            r.is_some() == (self.is_enabled() && self.log().len() > 0),
            r.is_some() ==> *r.unwrap() == self.log().last(),
    {
        let n = self.ticks.len();
        if !self.enabled || n == 0 {
            None
        } else {
            Some(&self.ticks[n - 1])
        }
    }

    /// The id of the tick in flight, if any.
    pub fn current_tick_id(&self) -> (r: Option<u64>)
        ensures
            r == (match self.in_flight() {
                Some(a) => Some(a.tick_id),
                None => None,
            }),
    {
        match &self.current {
            Some(active) => Some(active.tick_id),
            None => None,
        }
    }
}

} // verus!
