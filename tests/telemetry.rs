use std::time::Duration;

use crust_core::telemetry::estimate_patch_bytes;
use crust_core::{
    Engine, GuardrailEvent, NodeId, PatchOp, TelemetryRecorder, TickResult, WorkBreakdown,
};

fn sample_batch() -> Vec<PatchOp> {
    vec![
        PatchOp::SetText {
            node: NodeId::new(1),
            text: "hello".to_string(),
        },
        PatchOp::SetAttr {
            node: NodeId::new(1),
            name: "id".to_string(),
            value: "x".to_string(),
        },
        PatchOp::Insert {
            parent: NodeId::new(1),
            child: NodeId::new(2),
        },
        PatchOp::Remove {
            node: NodeId::new(2),
        },
    ]
}

#[test]
fn telemetry_records_selector_metrics() {
    let mut engine = Engine::new();
    engine.begin_tick().unwrap();

    engine
        .telemetry_mut()
        .record_selector_evaluation(Duration::from_millis(2).as_nanos() as u64, 3);
    engine.set_value(NodeId::new(1), "telemetry").unwrap();

    let batch = engine.commit().unwrap();
    assert_eq!(batch.len(), 1);

    let ticks = engine.telemetry().snapshot();
    assert_eq!(ticks.len(), 1);

    let tick = &ticks[0];
    assert_eq!(tick.result, TickResult::Commit);
    assert_eq!(tick.work.selectors_evaluated, 1);
    assert_eq!(tick.work.elements_invalidated, 3);
    assert_eq!(tick.work.dom_mutations, 1);
}

#[test]
fn selector_evaluations_accumulate_then_reset() {
    let mut recorder = TelemetryRecorder::new();
    recorder.begin_tick();
    recorder.record_selector_evaluation(1_000, 3);
    recorder.record_selector_evaluation(1_000, 3);
    recorder.finalize_tick_at(TickResult::Commit, 5_000);

    let tick = recorder.last_tick().unwrap();
    assert_eq!(tick.work.selectors_evaluated, 2);
    assert_eq!(tick.work.elements_invalidated, 6);
    assert_eq!(tick.work.nodes_touched, 6);
    assert_eq!(tick.durations.style_ns, 2_000);

    recorder.begin_tick();
    recorder.finalize_tick_at(TickResult::Commit, 10);
    let next = recorder.last_tick().unwrap();
    assert_eq!(next.work, WorkBreakdown::default());
    assert_eq!(next.durations.style_ns, 0);
    assert_eq!(next.tick_id, 2);
}

#[test]
fn fingerprint_depends_on_order() {
    let forward = sample_batch();
    let mut reversed = sample_batch();
    reversed.reverse();

    let mut recorder = TelemetryRecorder::new();
    for batch in [&forward, &reversed, &forward] {
        recorder.begin_tick();
        recorder.record_patch(batch);
        recorder.finalize_tick(TickResult::Commit);
    }
    let ticks = recorder.snapshot();
    assert_eq!(ticks.len(), 3);
    assert_ne!(ticks[0].fingerprint, ticks[1].fingerprint);
    assert_eq!(ticks[0].fingerprint, ticks[2].fingerprint);
    assert!(ticks[0].fingerprint.is_some());
}

#[test]
fn patch_bytes_estimate_per_field() {
    assert_eq!(estimate_patch_bytes(&sample_batch()), 13 + 19 + 16 + 8);
    assert_eq!(estimate_patch_bytes(&[]), 0);
    let unicode = vec![PatchOp::SetText {
        node: NodeId::new(3),
        text: "héllo".to_string(),
    }];
    assert_eq!(estimate_patch_bytes(&unicode), 13);

    let mut recorder = TelemetryRecorder::new();
    recorder.begin_tick();
    recorder.record_patch(&sample_batch());
    recorder.finalize_tick(TickResult::Commit);
    let tick = recorder.last_tick().unwrap();
    assert_eq!(tick.work.patch_bytes, 56);
    assert_eq!(tick.work.dom_mutations, 4);
}

#[test]
fn script_time_is_the_clamped_residual() {
    let mut recorder = TelemetryRecorder::new();
    recorder.begin_tick();
    recorder.record_style_duration(100);
    recorder.record_layout_duration(50);
    recorder.record_render_duration(25);
    recorder.record_render_duration(25);
    recorder.finalize_tick_at(TickResult::Commit, 1_000);
    let tick = recorder.last_tick().unwrap().clone();
    assert_eq!(tick.durations.script_ns, 800);
    assert_eq!(tick.durations.render_ns, 50);
    assert_eq!(tick.durations.total_ns, 1_000);

    recorder.begin_tick();
    recorder.record_layout_duration(500);
    recorder.finalize_tick_at(TickResult::Commit, 100);
    let tick = recorder.last_tick().unwrap();
    assert_eq!(tick.durations.script_ns, 0);
    assert_eq!(tick.durations.layout_ns, 500);
}

#[test]
fn guardrail_latest_wins_and_ids_increase() {
    let mut recorder = TelemetryRecorder::new();
    assert_eq!(recorder.current_tick_id(), None);
    recorder.begin_tick();
    assert_eq!(recorder.current_tick_id(), Some(1));
    recorder.record_node_touches(4);
    recorder.record_guardrail(GuardrailEvent::new("first", None, TickResult::Rollback));
    recorder.record_guardrail(GuardrailEvent::new(
        "second",
        Some("script".to_string()),
        TickResult::Fallback,
    ));
    recorder.finalize_tick(TickResult::Fallback);
    assert_eq!(recorder.current_tick_id(), None);

    let tick = recorder.last_tick().unwrap();
    assert_eq!(tick.tick_id, 1);
    assert_eq!(tick.result, TickResult::Fallback);
    assert_eq!(tick.work.nodes_touched, 4);
    let event = tick.guardrail.as_ref().unwrap();
    assert_eq!(event.reason, "second");
    assert_eq!(event.phase.as_deref(), Some("script"));
    assert_eq!(event.kind, TickResult::Fallback);
    assert_eq!(tick.fingerprint, None);

    recorder.begin_tick();
    recorder.finalize_tick(TickResult::Rollback);
    let ticks = recorder.snapshot();
    assert_eq!(ticks.len(), 2);
    assert_eq!(ticks[1].tick_id, 2);
    assert!(ticks[1].guardrail.is_none());
}

#[test]
fn recording_without_tick_is_inert() {
    let mut recorder = TelemetryRecorder::new();
    recorder.record_style_duration(5);
    recorder.record_node_touches(5);
    recorder.record_patch(&sample_batch());
    recorder.finalize_tick(TickResult::Commit);
    assert!(recorder.snapshot().is_empty());
    assert!(recorder.last_tick().is_none());
    assert_eq!(TickResult::default(), TickResult::Commit);
}

#[test]
fn disabled_recorder_keeps_nothing() {
    let mut recorder = TelemetryRecorder::disabled();
    recorder.begin_tick();
    recorder.record_selector_evaluation(10, 2);
    recorder.finalize_tick(TickResult::Commit);
    assert!(recorder.snapshot().is_empty());
    assert!(recorder.last_tick().is_none());
    assert_eq!(recorder.current_tick_id(), None);
}
