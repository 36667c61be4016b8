use vstd::prelude::*;

use crate::graph::{with_edges_to, DependencyGraph};
use crate::store::Store;
use crate::telemetry::{clock_now, nanos_since, selector_evaluation_recorded, TelemetryRecorder};
use crate::types::NodeId;

verus! {

/// Read-tracking view of the store for one evaluation of a selector.
///
/// Every read is remembered; `register_reads`, and `Selector::evaluate` once the computation
/// has returned, turn the remembered reads into dependency edges.
pub struct SelectorContext<'a> {
    store: &'a Store,
    selector_id: NodeId,
    read_nodes: Vec<u64>,
    read_count: usize,
}

impl<'a> SelectorContext<'a> {
    /// The nodes read so far, in order, repeats included.
    pub closed spec fn read_log(&self) -> Seq<u64> {
        self.read_nodes@
    }

    pub closed spec fn reads_spec(&self) -> nat {
        self.read_count as nat
    }

    pub closed spec fn store_view(&self) -> Map<u64, Seq<char>> {
        self.store@
    }

    pub closed spec fn selector(&self) -> NodeId {
        self.selector_id
    }

    pub fn new(store: &'a Store, selector_id: NodeId) -> (r: SelectorContext<'a>)
        ensures
            r.reads_spec() == 0,
            r.read_log() == Seq::<u64>::empty(),
            r.store_view() == store@,
            r.selector() == selector_id,
    {
        SelectorContext { store, selector_id, read_nodes: Vec::new(), read_count: 0 }
    }

    /// Reads `node` from the store and records `node` as a source of this selector.
    pub fn read(&mut self, node: NodeId) -> (r: Option<String>)
        ensures
            final(self).read_log() == old(self).read_log().push(node@),
            final(self).reads_spec() == if old(self).reads_spec() < usize::MAX {
                old(self).reads_spec() + 1
            } else {
                old(self).reads_spec()
            },
            final(self).store_view() == old(self).store_view(),
            final(self).selector() == old(self).selector(),
            r.is_some() == old(self).store_view().contains_key(node@),
            r.is_some() ==> r.unwrap()@ == old(self).store_view()[node@],
    {
        self.read_nodes.push(node.raw());
        self.read_count = self.read_count.saturating_add(1);
        match self.store.get_value(node) {
            Some(v) => Some(v.clone()),
            None => None,
        }
    }

    /// Adds the edge `n -> selector` to `graph` for every node `n` read so far.
    pub fn register_reads(&self, graph: &mut DependencyGraph)
        requires
            old(graph).wf(),
        ensures
            final(graph).wf(),
            final(graph)@ == with_edges_to(old(graph)@, self.read_log(), self.selector()@),
    {
        add_edges_to(graph, &self.read_nodes, self.selector_id);
    }

    /// How many reads this context has served.
    pub fn reads(&self) -> (r: usize)
        ensures
            r == self.reads_spec(),
    {
        self.read_count
    }
}

/// Adds the edge `s -> dependent` to `graph` for each `s` of `sources`, in order.
fn add_edges_to(graph: &mut DependencyGraph, sources: &Vec<u64>, dependent: NodeId)
    requires
        old(graph).wf(),
    ensures
        final(graph).wf(),
        final(graph)@ == with_edges_to(old(graph)@, sources@, dependent@),
{
    let mut i: usize = 0;
    while i < sources.len()
        invariant
            0 <= i <= sources@.len(),
            graph.wf(),
            graph@ == with_edges_to(old(graph)@, sources@.subrange(0, i as int), dependent@),
        decreases sources@.len() - i,
    {
        graph.add_edge(NodeId::new(sources[i]), dependent);
        proof {
            let s = sources@.subrange(0, i + 1);
            assert(s.drop_last() =~= sources@.subrange(0, i as int));
        }
        i = i + 1;
    }
    assert(sources@.subrange(0, sources@.len() as int) =~= sources@);
}

/// A computed value: an identity and a computation over a read-tracking context.
pub struct Selector<F> where F: Fn(&mut SelectorContext<'_>) -> String {
    id: NodeId,
    compute: F,
}

impl<F> Selector<F> where F: Fn(&mut SelectorContext<'_>) -> String {
    pub closed spec fn id_spec(&self) -> NodeId {
        self.id
    }

    pub closed spec fn computation(&self) -> F {
        self.compute
    }

    pub fn new(id: NodeId, compute: F) -> (r: Selector<F>)
        ensures
            r.id_spec() == id,
            r.computation() == compute,
    {
        Selector { id, compute }
    }

    pub fn id(&self) -> (r: NodeId)
        ensures
            r == self.id_spec(),
    {
        self.id
    }

    /// Runs the computation once and records every node it read as a source of this selector.
    ///
    /// The graph gains exactly the edges `n -> id` for the nodes `n` that were read;
    /// nothing is written back to the store.
    pub fn evaluate(&self, store: &Store, graph: &mut DependencyGraph) -> (r: String)
        requires
            old(graph).wf(),
            forall|c: &mut SelectorContext| #[trigger] self.computation().requires((c,)),
        ensures
            final(graph).wf(),
            exists|c: &mut SelectorContext|
                (*c).store_view() == store@ && (*c).selector() == self.id_spec()
                && (*c).read_log() == Seq::<u64>::empty() && (*c).reads_spec() == 0
                && #[trigger] self.computation().ensures((c,), r)
                && final(graph)@ == with_edges_to(old(graph)@, final(c).read_log(), self.id_spec()@),
    {
        self.evaluate_with_recorder(store, graph, None)
    }

    /// `evaluate`, and when a recorder is given, reports to it the wall time of the computation
    /// (as style time) and the number of reads it made.
    pub fn evaluate_with_recorder(
        &self,
        store: &Store,
        graph: &mut DependencyGraph,
        recorder: Option<&mut TelemetryRecorder>,
    ) -> (r: String)
        requires
            old(graph).wf(),
            forall|c: &mut SelectorContext| #[trigger] self.computation().requires((c,)),
        ensures
            final(graph).wf(),
            exists|c: &mut SelectorContext|
                (*c).store_view() == store@ && (*c).selector() == self.id_spec()
                && (*c).read_log() == Seq::<u64>::empty() && (*c).reads_spec() == 0
                && #[trigger] self.computation().ensures((c,), r)
                && final(graph)@ == with_edges_to(old(graph)@, final(c).read_log(), self.id_spec()@)
                && (recorder matches Some(rec) ==> exists|ns: u64|
                    #[trigger] selector_evaluation_recorded(*rec, *final(rec), ns, final(c).reads_spec() as usize)),
    {
        let mut ctx = SelectorContext::new(store, self.id);
        let start = clock_now();
        assert(self.computation() == self.compute);
        let out = (self.compute)(&mut ctx);
        let elapsed = nanos_since(&start);
        let ns: u64 = if elapsed > u64::MAX as u128 { u64::MAX } else { elapsed as u64 };
        add_edges_to(graph, &ctx.read_nodes, self.id);
        assert(graph@ == with_edges_to(old(graph)@, ctx.read_nodes@, self.id_spec()@));
        let reads = ctx.reads();
        match recorder {
            Some(rec) => {
                let ghost before = *rec;
                rec.record_selector_evaluation(ns, reads);
                assert(selector_evaluation_recorded(before, *rec, ns, ctx.reads_spec() as usize));
                assert(exists|k: u64| #[trigger] selector_evaluation_recorded(before, *rec, k, ctx.reads_spec() as usize));
            },
            None => {},
        }
        out
    }
}

} // verus!
