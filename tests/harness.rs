use crust_core::{
    CommitOutcome, EffectLog, EffectRecord, FakeDom, RunnerState, Transaction, TransactionError,
};

fn effect(op: &str, arg: &str) -> EffectRecord {
    EffectRecord {
        op: op.to_string(),
        args: vec![arg.to_string()],
    }
}

#[test]
fn effect_log_commits_in_order() {
    let mut log = EffectLog::new();
    log.record(effect("append", "a"));
    log.record(effect("append", "b"));
    assert_eq!(log.commit(), 2);
    log.record(effect("remove", "c"));
    log.rollback();
    assert!(log.pending().is_empty());
    assert_eq!(log.committed(), &[effect("append", "a"), effect("append", "b")][..]);
    assert_eq!(log.commit(), 0);
}

#[test]
fn fake_dom_forwards_to_log() {
    let mut dom = FakeDom::new();
    dom.record_effect(effect("append", "x"));
    assert_eq!(dom.pending_effects().len(), 1);
    assert_eq!(dom.commit(), 1);
    dom.record_effect(effect("append", "y"));
    dom.rollback();
    assert_eq!(dom.committed_effects(), &[effect("append", "x")][..]);
}

#[test]
fn forbidden_op_rolls_back_transaction() {
    let mut tx = Transaction::new(vec!["navigate".to_string()]);
    tx.begin().unwrap();
    tx.record_effect(effect("append", "ok")).unwrap();
    assert_eq!(tx.commit(), Ok(CommitOutcome::Committed(1)));

    tx.begin().unwrap();
    tx.record_effect(effect("append", "later")).unwrap();
    tx.record_effect(effect("navigate", "away")).unwrap();
    assert_eq!(tx.pending_effects().len(), 2);
    assert_eq!(tx.commit(), Ok(CommitOutcome::RolledBack));
    assert!(tx.pending_effects().is_empty());
    assert_eq!(tx.committed_effects(), &[effect("append", "ok")][..]);

    tx.begin().unwrap();
    tx.record_effect(effect("append", "again")).unwrap();
    assert_eq!(tx.commit(), Ok(CommitOutcome::Committed(1)));
}

#[test]
fn transaction_state_errors() {
    let mut tx = Transaction::new(Vec::new());
    assert_eq!(
        tx.record_effect(effect("append", "a")),
        Err(TransactionError::EffectOutsideTransaction)
    );
    assert_eq!(tx.commit(), Err(TransactionError::CommitWithoutBegin));
    assert_eq!(tx.rollback(), Err(TransactionError::RollbackWithoutBegin));
    tx.begin().unwrap();
    assert_eq!(tx.begin(), Err(TransactionError::BeginWhileActive));
    tx.record_effect(effect("append", "a")).unwrap();
    assert_eq!(tx.rollback(), Ok(()));
    assert!(tx.committed_effects().is_empty());
    assert_eq!(TransactionError::CommitWithoutBegin.message(), "commit without begin");
    assert_eq!(TransactionError::BeginWhileActive.message(), "begin called while in transaction");
    assert_eq!(TransactionError::EffectOutsideTransaction.message(), "effect outside transaction");
    assert_eq!(TransactionError::RollbackWithoutBegin.message(), "rollback without begin");
}

#[test]
fn runner_state_follows_host_calls() {
    let mut state = RunnerState::new();
    assert_eq!(
        state.effect("append".to_string(), vec!["x".to_string()]),
        Err(TransactionError::EffectOutsideTransaction)
    );
    assert_eq!(state.commit(), Err(TransactionError::CommitWithoutBegin));
    assert_eq!(state.rollback(), Err(TransactionError::RollbackWithoutBegin));

    state.begin();
    state.effect("append".to_string(), vec!["ok".to_string()]).unwrap();
    state.commit().unwrap();
    let result = state.result();
    assert_eq!(result.effects, vec![effect("append", "ok")]);
    assert!(!result.began);
    assert!(result.committed);
    assert!(!result.rolled_back);

    state.begin();
    state.effect("remove".to_string(), vec!["a".to_string(), "b".to_string()]).unwrap();
    assert_eq!(state.result().effects.len(), 2);
    assert!(state.result().began);
    state.rollback().unwrap();
    let result = state.result();
    assert!(result.effects.is_empty());
    assert!(result.rolled_back);
    assert!(!result.committed);
}
