use crust_core::{Engine, NodeId, PatchOp, SchedulerError, TickResult};

#[test]
fn engine_emits_patch_batch_per_tick() {
    let mut engine = Engine::new();

    engine.begin_tick().unwrap();
    engine.set_value(NodeId::new(1), "hello").unwrap();
    engine.set_value(NodeId::new(2), "world").unwrap();

    let batch = engine.commit().unwrap();

    assert_eq!(
        batch,
        vec![
            PatchOp::SetText {
                node: NodeId::new(1),
                text: "hello".to_string(),
            },
            PatchOp::SetText {
                node: NodeId::new(2),
                text: "world".to_string(),
            },
        ]
    );
}

#[test]
fn engine_rejects_commit_without_tick() {
    let mut engine = Engine::new();

    let result = engine.commit();

    assert!(matches!(result, Err(SchedulerError::TickNotStarted)));
}

#[test]
fn engine_store_holds_written_values() {
    let mut engine = Engine::new();
    engine.begin_tick().unwrap();
    engine.set_value(NodeId::new(1), "hello").unwrap();
    engine.set_value(NodeId::new(2), "world").unwrap();
    engine.commit().unwrap();
    assert_eq!(engine.store().get_value(NodeId::new(1)).map(|s| s.as_str()), Some("hello"));
    assert_eq!(engine.store().get_value(NodeId::new(2)).map(|s| s.as_str()), Some("world"));
}

#[test]
fn engine_emits_unchanged_writes_and_rejects_double_begin() {
    let mut engine = Engine::new();
    assert_eq!(engine.set_value(NodeId::new(1), "a"), Err(SchedulerError::TickNotStarted));
    engine.begin_tick().unwrap();
    assert_eq!(engine.begin_tick(), Err(SchedulerError::TickAlreadyStarted));
    engine.set_value(NodeId::new(1), "a").unwrap();
    engine.set_value(NodeId::new(1), "a").unwrap();
    let batch = engine.commit().unwrap();
    assert_eq!(batch.len(), 2);
    assert_eq!(batch[0], batch[1]);

    let ticks = engine.telemetry().snapshot();
    assert_eq!(ticks.len(), 1);
    assert_eq!(ticks[0].tick_id, 1);
    assert_eq!(ticks[0].result, TickResult::Commit);
    assert_eq!(ticks[0].work.dom_mutations, 2);
    assert_eq!(ticks[0].work.patch_bytes, 18);
    assert!(ticks[0].fingerprint.is_some());

    engine.begin_tick().unwrap();
    assert_eq!(engine.telemetry().current_tick_id(), Some(2));
    assert!(engine.commit().unwrap().is_empty());
    assert_eq!(engine.telemetry().last_tick().map(|t| t.tick_id), Some(2));
}
