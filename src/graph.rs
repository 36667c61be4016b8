use std::collections::{BTreeMap, BTreeSet};
use vstd::prelude::*;
use vstd::std_specs::cmp::OrdSpec;
use vstd::std_specs::iter::IteratorSpec;

use crate::types::NodeId;

verus! {

broadcast use {vstd::std_specs::btree::group_btree_axioms, vstd::laws_cmp::group_laws_cmp};

/// Each element is smaller than the next, so no value occurs twice.
pub open spec fn strictly_increasing(s: Seq<u64>) -> bool {
    forall|i: int, j: int| 0 <= i < j < s.len() ==> s[i] < s[j]
}

/// The ascending, duplicate-free listing of a set of identities.
pub open spec fn ordered_listing(s: Set<u64>) -> Seq<u64> {
    choose|q: Seq<u64>| strictly_increasing(q) && q.to_set() == s
}

/// The graph `m` with `n` present (its dependents kept when it already was).
pub open spec fn with_node(m: Map<u64, Set<u64>>, n: u64) -> Map<u64, Set<u64>> {
    if m.contains_key(n) {
        m
    } else {
        m.insert(n, Set::empty())
    }
}

/// The graph `m` with both endpoints present and `dependent` among the dependents of `source`.
pub open spec fn with_edge(m: Map<u64, Set<u64>>, source: u64, dependent: u64) -> Map<u64, Set<u64>> {
    let m1 = with_node(with_node(m, source), dependent);
    m1.insert(source, m1[source].insert(dependent))
}

/// What `dependents_of(n)` lists for the graph `m`.
pub open spec fn dependents_spec(m: Map<u64, Set<u64>>, n: u64) -> Seq<u64> {
    if m.contains_key(n) {
        ordered_listing(m[n])
    } else {
        Seq::empty()
    }
}

/// The graph `m` after `add_edge(sources[i], dependent)` for each `i` in order.
pub open spec fn with_edges_to(m: Map<u64, Set<u64>>, sources: Seq<u64>, dependent: u64) -> Map<u64, Set<u64>>
    decreases sources.len(),
{
    if sources.len() == 0 {
        m
    } else {
        with_edge(with_edges_to(m, sources.drop_last(), dependent), sources.last(), dependent)
    }
}

/// Two strictly increasing sequences with the same elements are the same sequence.
pub proof fn lemma_increasing_unique(a: Seq<u64>, b: Seq<u64>)
    requires
        strictly_increasing(a),
        strictly_increasing(b),
        a.to_set() == b.to_set(),
    ensures
        a == b,
    decreases a.len(),
{
    if a.len() == 0 {
        if b.len() > 0 {
            assert(b.to_set().contains(b[0]));
        }
    } else if b.len() == 0 {
        assert(a.to_set().contains(a[0]));
    } else {
        assert(a.to_set().contains(b[0]));
        assert(b.to_set().contains(a[0]));
        let i = choose|i: int| 0 <= i < a.len() && a[i] == b[0];
        let j = choose|j: int| 0 <= j < b.len() && b[j] == a[0];
        assert(a[0] <= a[i]);
        assert(b[0] <= b[j]);
        assert(a[0] == b[0]);
        let a1 = a.drop_first();
        let b1 = b.drop_first();
        assert(a1.to_set() =~= b1.to_set()) by {
            assert forall|x: u64| a1.to_set().contains(x) implies b1.to_set().contains(x) by {
                let k = choose|k: int| 0 <= k < a1.len() && a1[k] == x;
                assert(a.to_set().contains(x));
                assert(a[k + 1] > a[0]);
                assert(b.to_set().contains(x));
                let l = choose|l: int| 0 <= l < b.len() && b[l] == x;
                assert(l != 0);
                assert(b1[l - 1] == x);
            }
            assert forall|x: u64| b1.to_set().contains(x) implies a1.to_set().contains(x) by {
                let k = choose|k: int| 0 <= k < b1.len() && b1[k] == x;
                assert(b.to_set().contains(x));
                assert(b[k + 1] > b[0]);
                assert(a.to_set().contains(x));
                let l = choose|l: int| 0 <= l < a.len() && a[l] == x;
                assert(l != 0);
                assert(a1[l - 1] == x);
            }
        }
        lemma_increasing_unique(a1, b1);
        assert(a =~= seq![a[0]].add(a1));
        assert(b =~= seq![b[0]].add(b1));
    }
}

/// A strictly increasing sequence is the ordered listing of its elements.
pub proof fn lemma_listing_of_increasing(q: Seq<u64>)
    requires
        strictly_increasing(q),
    ensures
        ordered_listing(q.to_set()) == q,
{
    let p = ordered_listing(q.to_set());
    assert(strictly_increasing(p) && p.to_set() == q.to_set());
    lemma_increasing_unique(p, q);
}

/// The graph built from an empty one by `add_edge(p.0, p.1)` for each pair `p` of `pairs` in order.
pub open spec fn graph_from_edges(pairs: Seq<(u64, u64)>) -> Map<u64, Set<u64>>
    decreases pairs.len(),
{
    if pairs.len() == 0 {
        Map::empty()
    } else {
        with_edge(graph_from_edges(pairs.drop_last()), pairs.last().0, pairs.last().1)
    }
}

/// The graph whose nodes are the endpoints of the pairs in `edges` and whose dependents are
/// given by those pairs.
pub open spec fn edge_map(edges: Set<(u64, u64)>) -> Map<u64, Set<u64>> {
    Map::new(
        |k: u64| exists|d: u64| edges.contains((k, d)) || edges.contains((d, k)),
        |k: u64| Set::new(|d: u64| edges.contains((k, d))),
    )
}

/// Whether `m` holds both endpoints and lists `dependent` among the dependents of `source`.
pub open spec fn has_edge(m: Map<u64, Set<u64>>, source: u64, dependent: u64) -> bool {
    &&& m.contains_key(source)
    &&& m.contains_key(dependent)
    &&& m[source].contains(dependent)
}

proof fn lemma_with_edge_of_edge_map(edges: Set<(u64, u64)>, a: u64, b: u64)
    ensures
        with_edge(edge_map(edges), a, b) == edge_map(edges.insert((a, b))),
{
    let lhs = with_edge(edge_map(edges), a, b);
    let rhs = edge_map(edges.insert((a, b)));
    assert forall|k: u64| lhs.contains_key(k) <==> rhs.contains_key(k) by {
        if k == a {
            assert(edges.insert((a, b)).contains((a, b)));
        }
        if k == b {
            assert(edges.insert((a, b)).contains((a, b)));
        }
        if edge_map(edges).contains_key(k) {
            let d = choose|d: u64| edges.contains((k, d)) || edges.contains((d, k));
            assert(edges.insert((a, b)).contains((k, d)) || edges.insert((a, b)).contains((d, k)));
        }
    }
    assert(lhs.dom() =~= rhs.dom());
    assert forall|k: u64| lhs.contains_key(k) implies lhs[k] == rhs[k] by {
        assert(lhs[k] =~= rhs[k]);
    }
    assert(lhs =~= rhs);
}

proof fn lemma_graph_from_edges_closed_form(pairs: Seq<(u64, u64)>)
    ensures
        graph_from_edges(pairs) == edge_map(pairs.to_set()),
    decreases pairs.len(),
{
    if pairs.len() == 0 {
        assert(pairs.to_set() =~= Set::<(u64, u64)>::empty());
        assert(edge_map(pairs.to_set()) =~= Map::<u64, Set<u64>>::empty());
    } else {
        let q = pairs.drop_last();
        let x = pairs.last();
        lemma_graph_from_edges_closed_form(q);
        assert(pairs.to_set() =~= q.to_set().insert(x)) by {
            assert(pairs =~= q.push(x));
            assert forall|y: (u64, u64)| pairs.to_set().contains(y) implies q.to_set().insert(x).contains(y) by {
                let i = choose|i: int| 0 <= i < pairs.len() && pairs[i] == y;
                if i < q.len() {
                    assert(q[i] == y);
                }
            }
            assert forall|y: (u64, u64)| q.to_set().insert(x).contains(y) implies pairs.to_set().contains(y) by {
                if y != x {
                    let i = choose|i: int| 0 <= i < q.len() && q[i] == y;
                    assert(pairs[i] == y);
                } else {
                    assert(pairs[pairs.len() - 1] == y);
                }
            }
        }
        lemma_with_edge_of_edge_map(q.to_set(), x.0, x.1);
    }
}

/// Adding the same pairs in any order, each pair any number of times, leaves every node with
/// the same ascending, duplicate-free list of dependents.
pub proof fn lemma_dependents_independent_of_insertion_order(
    first: Seq<(u64, u64)>,
    second: Seq<(u64, u64)>,
    node: u64,
)
    requires
        first.to_multiset() == second.to_multiset(),
    ensures
        graph_from_edges(first) == graph_from_edges(second),
        dependents_spec(graph_from_edges(first), node) == dependents_spec(graph_from_edges(second), node),
{
    broadcast use vstd::seq_lib::to_multiset_contains;
    lemma_graph_from_edges_closed_form(first);
    lemma_graph_from_edges_closed_form(second);
    assert forall|y: (u64, u64)| first.to_set().contains(y) <==> second.to_set().contains(y) by {
        assert(first.contains(y) <==> first.to_multiset().count(y) > 0);
        assert(second.contains(y) <==> second.to_multiset().count(y) > 0);
    }
    assert(first.to_set() =~= second.to_set());
}

proof fn lemma_with_edge_keeps_edges(m: Map<u64, Set<u64>>, source: u64, dependent: u64, a: u64, b: u64)
    requires
        has_edge(m, a, b),
    ensures
        has_edge(with_edge(m, source, dependent), a, b),
{
}

proof fn lemma_with_edges_to_has_reads(m: Map<u64, Set<u64>>, reads: Seq<u64>, selector: u64, i: int)
    requires
        0 <= i < reads.len(),
    ensures
        has_edge(with_edges_to(m, reads, selector), reads[i], selector),
    decreases reads.len(),
{
    let q = reads.drop_last();
    if i < reads.len() - 1 {
        lemma_with_edges_to_has_reads(m, q, selector, i);
        lemma_with_edge_keeps_edges(with_edges_to(m, q, selector), reads.last(), selector, reads[i], selector);
    }
}

proof fn lemma_with_edges_to_absorbed(m: Map<u64, Set<u64>>, reads: Seq<u64>, selector: u64)
    requires
        forall|i: int| 0 <= i < reads.len() ==> has_edge(m, #[trigger] reads[i], selector),
    ensures
        with_edges_to(m, reads, selector) == m,
    decreases reads.len(),
{
    if reads.len() > 0 {
        let q = reads.drop_last();
        assert forall|i: int| 0 <= i < q.len() implies has_edge(m, #[trigger] q[i], selector) by {
            assert(q[i] == reads[i]);
        }
        lemma_with_edges_to_absorbed(m, q, selector);
        let x = reads.last();
        assert(has_edge(m, reads[reads.len() - 1], selector));
        assert(m[x].insert(selector) =~= m[x]);
        assert(with_edge(m, x, selector) =~= m);
    }
}

/// Evaluating a selector again with the same reads leaves the graph as the first evaluation
/// left it: each source lists the selector once however often it was read.
pub proof fn lemma_reevaluation_adds_no_edges(m: Map<u64, Set<u64>>, reads: Seq<u64>, selector: u64)
    ensures
        with_edges_to(with_edges_to(m, reads, selector), reads, selector) == with_edges_to(m, reads, selector),
{
    let once = with_edges_to(m, reads, selector);
    assert forall|i: int| 0 <= i < reads.len() implies has_edge(once, #[trigger] reads[i], selector) by {
        lemma_with_edges_to_has_reads(m, reads, selector, i);
    }
    lemma_with_edges_to_absorbed(once, reads, selector);
}

/// Maps each source identity to the set of identities that depend on it.
#[derive(Debug, Clone)]
pub struct DependencyGraph {
    adjacency: BTreeMap<u64, BTreeSet<u64>>,
}

impl View for DependencyGraph {
    type V = Map<u64, Set<u64>>;

    closed spec fn view(&self) -> Map<u64, Set<u64>> {
        Map::new(|k: u64| self.adjacency@.contains_key(k), |k: u64| self.adjacency@[k]@)
    }
}

impl DependencyGraph {
    /// Every dependent set is finite.
    pub closed spec fn wf(&self) -> bool {
        forall|k: u64| #[trigger] self.adjacency@.contains_key(k) ==> self.adjacency@[k]@.finite()
    }

    pub fn new() -> (r: DependencyGraph)
        ensures
            r.wf(),
            r@ == Map::<u64, Set<u64>>::empty(),
    {
        let r = DependencyGraph { adjacency: BTreeMap::new() };
        assert(r@ =~= Map::<u64, Set<u64>>::empty());
        r
    }

    /// Ensures `node` is present; its dependents are kept when it already was.
    pub fn add_node(&mut self, node: NodeId)
        requires
            old(self).wf(),
        ensures
            final(self).wf(),
            final(self)@ == with_node(old(self)@, node@),
    {
        let k = node.raw();
        assert(vstd::laws_cmp::obeys_cmp::<u64>());
        if !self.adjacency.contains_key(&k) {
            self.adjacency.insert(k, BTreeSet::new());
        }
        assert(self@ =~= with_node(old(self)@, node@));
    }

    /// Records that `dependent` depends on `source`; adding a pair twice keeps one entry.
    pub fn add_edge(&mut self, source: NodeId, dependent: NodeId)
        requires
            old(self).wf(),
        ensures
            final(self).wf(),
            final(self)@ == with_edge(old(self)@, source@, dependent@),
    {
        self.add_node(source);
        self.add_node(dependent);
        let ghost mid = self@;
        assert(vstd::laws_cmp::obeys_cmp::<u64>());
        let k = source.raw();
        let ghost adj0 = self.adjacency@;
        assert(mid.contains_key(k));
        assert(adj0.contains_key(k));
        let mut set = match self.adjacency.remove(&k) {
            Some(s) => s,
            None => BTreeSet::new(),
        };
        assert(set@ == mid[k]);
        set.insert(dependent.raw());
        self.adjacency.insert(k, set);
        assert(self@ =~= with_edge(old(self)@, source@, dependent@));
    }

    /// The dependents of `node` in ascending order of identity; empty when `node` is absent.
    pub fn dependents_of(&self, node: NodeId) -> (r: Vec<NodeId>)
        requires
            self.wf(),
        ensures
            r@.map_values(|n: NodeId| n@) == dependents_spec(self@, node@),
            strictly_increasing(dependents_spec(self@, node@)),
            self@.contains_key(node@) ==> r@.map_values(|n: NodeId| n@).to_set() == self@[node@],
    {
        let mut r: Vec<NodeId> = Vec::new();
        assert(vstd::laws_cmp::obeys_cmp::<u64>());
        match self.adjacency.get(&node.raw()) {
            Some(set) => {
                for x in it: set.iter()
                    invariant
                        r@.len() == it.index(),
                        forall|j: int| 0 <= j < r@.len() ==> (#[trigger] r@[j])@ == *it.seq()[j],
                {
                    r.push(NodeId::new(*x));
                }
                proof {
                    let q = r@.map_values(|n: NodeId| n@);
                    let keys = vstd::std_specs::btree::spec_btree_keys_iter(set).remaining();
                    vstd::std_specs::btree::axiom_spec_btree_keys_iter(set);
                    assert(vstd::laws_cmp::obeys_cmp::<&u64>());
                    assert(vstd::std_specs::btree::increasing_seq(keys));
                    assert(q =~= keys.unref());
                    assert(strictly_increasing(q)) by {
                        assert forall|i: int, j: int| 0 <= i < j < q.len() implies q[i] < q[j] by {
                            assert(<&u64 as OrdSpec>::cmp_spec(&keys[i], &keys[j]) is Less);
                        }
                    }
                    lemma_listing_of_increasing(q);
                }
            },
            None => {
                assert(r@.map_values(|n: NodeId| n@) =~= Seq::<u64>::empty());
            },
        }
        r
    }
}

} // verus!
