use crust_core::{DependencyGraph, NodeId, Selector, SelectorContext, Store, TelemetryRecorder};

#[test]
fn selector_reads_register_dependencies() {
    let mut store = Store::new();
    let mut graph = DependencyGraph::new();

    let value_node = NodeId::new(1);
    let selector_node = NodeId::new(2);
    store.set_value(value_node, "alpha");

    let selector = Selector::new(selector_node, |ctx| {
        ctx.read(value_node).unwrap_or_default()
    });

    let output = selector.evaluate(&store, &mut graph);
    assert_eq!(output, "alpha");
    assert_eq!(graph.dependents_of(value_node), vec![selector_node]);
}

#[test]
fn selector_reads_do_not_duplicate_edges() {
    let mut store = Store::new();
    let mut graph = DependencyGraph::new();

    let value_node = NodeId::new(1);
    let selector_node = NodeId::new(2);
    store.set_value(value_node, "alpha");

    let selector = Selector::new(selector_node, |ctx| {
        let _ = ctx.read(value_node);
        ctx.read(value_node).unwrap_or_default()
    });

    selector.evaluate(&store, &mut graph);
    selector.evaluate(&store, &mut graph);

    assert_eq!(graph.dependents_of(value_node), vec![selector_node]);
}

#[test]
fn selector_recompute_keeps_dependency_order() {
    let mut store = Store::new();
    let mut graph = DependencyGraph::new();

    let value_node = NodeId::new(1);
    store.set_value(value_node, "alpha");

    let selector_a = Selector::new(NodeId::new(3), |ctx| {
        ctx.read(value_node).unwrap_or_default()
    });
    let selector_b = Selector::new(NodeId::new(2), |ctx| {
        ctx.read(value_node).unwrap_or_default()
    });

    selector_a.evaluate(&store, &mut graph);
    selector_b.evaluate(&store, &mut graph);

    let first = graph.dependents_of(value_node);
    assert_eq!(first, vec![NodeId::new(2), NodeId::new(3)]);

    store.set_value(value_node, "beta");
    selector_b.evaluate(&store, &mut graph);
    selector_a.evaluate(&store, &mut graph);

    let second = graph.dependents_of(value_node);
    assert_eq!(second, first);
}

#[test]
fn store_overwrites_and_reports_absent() {
    let mut store = Store::new();
    assert_eq!(store.get_value(NodeId::new(5)), None);
    store.set_value(NodeId::new(5), "one");
    store.set_value(NodeId::new(5), "two");
    assert_eq!(store.get_value(NodeId::new(5)).map(|s| s.as_str()), Some("two"));
    assert_eq!(store.get_value(NodeId::new(6)), None);
}

#[test]
fn context_counts_every_read() {
    let mut store = Store::new();
    store.set_value(NodeId::new(1), "a");
    let mut ctx = SelectorContext::new(&store, NodeId::new(9));
    assert_eq!(ctx.reads(), 0);
    assert_eq!(ctx.read(NodeId::new(1)), Some("a".to_string()));
    assert_eq!(ctx.read(NodeId::new(1)), Some("a".to_string()));
    assert_eq!(ctx.read(NodeId::new(2)), None);
    assert_eq!(ctx.reads(), 3);
}

#[test]
fn selector_output_is_not_written_back() {
    let mut store = Store::new();
    let mut graph = DependencyGraph::new();
    store.set_value(NodeId::new(1), "x");
    store.set_value(NodeId::new(2), "y");
    let selector = Selector::new(NodeId::new(10), |ctx| {
        let a = ctx.read(NodeId::new(2)).unwrap_or_default();
        let b = ctx.read(NodeId::new(1)).unwrap_or_default();
        let c = ctx.read(NodeId::new(3)).unwrap_or_default();
        format!("{a}{b}{c}")
    });
    assert_eq!(selector.id(), NodeId::new(10));
    assert_eq!(selector.evaluate(&store, &mut graph), "yx");
    assert_eq!(store.get_value(NodeId::new(10)), None);
    assert_eq!(graph.dependents_of(NodeId::new(1)), vec![NodeId::new(10)]);
    assert_eq!(graph.dependents_of(NodeId::new(2)), vec![NodeId::new(10)]);
    assert_eq!(graph.dependents_of(NodeId::new(3)), vec![NodeId::new(10)]);
    assert!(graph.dependents_of(NodeId::new(10)).is_empty());
}

#[test]
fn context_reads_become_edges() {
    let mut store = Store::new();
    store.set_value(NodeId::new(4), "v");
    let mut graph = DependencyGraph::new();
    let mut ctx = SelectorContext::new(&store, NodeId::new(7));
    ctx.read(NodeId::new(4));
    ctx.read(NodeId::new(4));
    ctx.read(NodeId::new(5));
    ctx.register_reads(&mut graph);
    assert_eq!(ctx.reads(), 3);
    assert_eq!(graph.dependents_of(NodeId::new(4)), vec![NodeId::new(7)]);
    assert_eq!(graph.dependents_of(NodeId::new(5)), vec![NodeId::new(7)]);
}

#[test]
fn evaluation_reports_reads_to_recorder() {
    let mut store = Store::new();
    store.set_value(NodeId::new(1), "a");
    let mut graph = DependencyGraph::new();
    let mut recorder = TelemetryRecorder::new();
    recorder.begin_tick();
    let selector = Selector::new(NodeId::new(2), |ctx| {
        let _ = ctx.read(NodeId::new(1));
        ctx.read(NodeId::new(1)).unwrap_or_default()
    });
    let out = selector.evaluate_with_recorder(&store, &mut graph, Some(&mut recorder));
    assert_eq!(out, "a");
    let out_again = selector.evaluate_with_recorder(&store, &mut graph, None);
    assert_eq!(out_again, "a");
    recorder.finalize_tick_at(crust_core::TickResult::Commit, u64::MAX);
    let tick = recorder.last_tick().unwrap();
    assert_eq!(tick.work.selectors_evaluated, 1);
    assert_eq!(tick.work.elements_invalidated, 2);
    assert_eq!(tick.work.nodes_touched, 2);
    assert_eq!(graph.dependents_of(NodeId::new(1)), vec![NodeId::new(2)]);
}
