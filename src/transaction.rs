use vstd::prelude::*;

use crate::effect_log::{EffectRecord, FakeDom};

verus! {

/// How a transaction ended on commit.
#[derive(Debug, Clone, Copy, PartialEq, Eq, Structural)]
pub enum CommitOutcome {
    /// The pending effects were kept; this many of them.
    Committed(usize),
    /// A forbidden operation was seen, so the pending effects were dropped.
    RolledBack,
}

/// Transaction calls made in the wrong state.
#[derive(Debug, Clone, Copy, PartialEq, Eq, Structural)]
pub enum TransactionError {
    BeginWhileActive,
    EffectOutsideTransaction,
    CommitWithoutBegin,
    RollbackWithoutBegin,
}

impl TransactionError {
    /// The host message for this error.
    pub fn message(&self) -> (r: &'static str)
        ensures
            r@ == (match *self {
                TransactionError::BeginWhileActive => "begin called while in transaction"@,
                TransactionError::EffectOutsideTransaction => "effect outside transaction"@,
                TransactionError::CommitWithoutBegin => "commit without begin"@,
                TransactionError::RollbackWithoutBegin => "rollback without begin"@,
            }),
    {
        match self {
            TransactionError::BeginWhileActive => "begin called while in transaction",
            TransactionError::EffectOutsideTransaction => "effect outside transaction",
            TransactionError::CommitWithoutBegin => "commit without begin",
            TransactionError::RollbackWithoutBegin => "rollback without begin",
        }
    }
}

/// Whether `name` is one of `names`.
pub open spec fn listed(names: Seq<String>, name: Seq<char>) -> bool {
    exists|i: int| 0 <= i < names.len() && (#[trigger] names[i])@ == name
}

/// Host transaction over a fake document that rolls back, on commit, any transaction that
/// performed a forbidden operation.
#[derive(Debug, Clone)]
pub struct Transaction {
    dom: FakeDom,
    forbidden_ops: Vec<String>,
    in_transaction: bool,
    forbidden_hit: bool,
}

impl Transaction {
    pub closed spec fn dom_spec(&self) -> FakeDom {
        self.dom
    }

    pub closed spec fn forbidden(&self) -> Seq<String> {
        self.forbidden_ops@
    }

    pub closed spec fn is_open(&self) -> bool {
        self.in_transaction
    }

    /// Whether the open transaction performed a forbidden operation.
    pub closed spec fn hit_forbidden(&self) -> bool {
        self.forbidden_hit
    }

    /// A closed transaction over an empty document that forbids the operations named in `forbidden_ops`.
    pub fn new(forbidden_ops: Vec<String>) -> (r: Transaction)
        ensures
            r.forbidden() == forbidden_ops@,
            !r.is_open(),
            !r.hit_forbidden(),
            r.dom_spec().pending_spec() == Seq::<EffectRecord>::empty(),
            r.dom_spec().committed_spec() == Seq::<EffectRecord>::empty(),
    {
        Transaction { dom: FakeDom::new(), forbidden_ops, in_transaction: false, forbidden_hit: false }
    }

    /// Opens a transaction; fails, changing nothing, when one is open.
    pub fn begin(&mut self) -> (r: Result<(), TransactionError>)
        ensures
            old(self).is_open() ==> r == Err::<(), TransactionError>(TransactionError::BeginWhileActive)
                && *final(self) == *old(self),
            !old(self).is_open() ==> r is Ok && final(self).is_open() && !final(self).hit_forbidden()
                && final(self).dom_spec() == old(self).dom_spec()
                && final(self).forbidden() == old(self).forbidden(),
    {
        if self.in_transaction {
            return Err(TransactionError::BeginWhileActive);
        }
        self.in_transaction = true;
        self.forbidden_hit = false;
        Ok(())
    }

    /// Records `effect` in the open transaction, noting whether its operation is forbidden;
    /// fails, changing nothing, when no transaction is open.
    pub fn record_effect(&mut self, effect: EffectRecord) -> (r: Result<(), TransactionError>)
        ensures
            !old(self).is_open() ==> r == Err::<(), TransactionError>(TransactionError::EffectOutsideTransaction)
                && *final(self) == *old(self),
            old(self).is_open() ==> {
                &&& r is Ok
                &&& final(self).is_open()
                &&& final(self).forbidden() == old(self).forbidden()
                &&& final(self).hit_forbidden() == (old(self).hit_forbidden() || listed(
                    old(self).forbidden(),
                    effect.op@,
                ))
                &&& final(self).dom_spec().pending_spec() == old(self).dom_spec().pending_spec().push(effect)
                &&& final(self).dom_spec().committed_spec() == old(self).dom_spec().committed_spec()
            },
    {
        if !self.in_transaction {
            return Err(TransactionError::EffectOutsideTransaction);
        }
        let mut i: usize = 0;
        let mut found = false;
        while i < self.forbidden_ops.len()
            invariant
                0 <= i <= self.forbidden_ops@.len(),
                found == exists|j: int| 0 <= j < i && (#[trigger] self.forbidden_ops@[j])@ == effect.op@,
            decreases self.forbidden_ops@.len() - i,
        {
            if self.forbidden_ops[i] == effect.op {
                found = true;
            }
            i = i + 1;
        }
        if found {
            self.forbidden_hit = true;
        }
        self.dom.record_effect(effect);
        Ok(())
    }

    /// Closes the open transaction: keeps its effects, or drops them when it performed a
    /// forbidden operation; fails, changing nothing, when no transaction is open.
    pub fn commit(&mut self) -> (r: Result<CommitOutcome, TransactionError>)
        ensures
            !old(self).is_open() ==> r == Err::<CommitOutcome, TransactionError>(
                TransactionError::CommitWithoutBegin,
            ) && *final(self) == *old(self),
            old(self).is_open() ==> {
                &&& !final(self).is_open()
                &&& !final(self).hit_forbidden()
                &&& final(self).forbidden() == old(self).forbidden()
                &&& final(self).dom_spec().pending_spec() == Seq::<EffectRecord>::empty()
                &&& old(self).hit_forbidden() ==> r == Ok::<CommitOutcome, TransactionError>(
                    CommitOutcome::RolledBack,
                ) && final(self).dom_spec().committed_spec() == old(self).dom_spec().committed_spec()
                &&& !old(self).hit_forbidden() ==> r == Ok::<CommitOutcome, TransactionError>(
                    CommitOutcome::Committed(old(self).dom_spec().pending_spec().len() as usize),
                ) && final(self).dom_spec().committed_spec() == old(self).dom_spec().committed_spec()
                    + old(self).dom_spec().pending_spec()
            },
    {
        if !self.in_transaction {
            return Err(TransactionError::CommitWithoutBegin);
        }
        self.in_transaction = false;
        if self.forbidden_hit {
            self.dom.rollback();
            self.forbidden_hit = false;
            return Ok(CommitOutcome::RolledBack);
        }
        let count = self.dom.commit();
        Ok(CommitOutcome::Committed(count))
    }

    /// Drops the effects of the open transaction and closes it; fails, changing nothing, when
    /// no transaction is open.
    pub fn rollback(&mut self) -> (r: Result<(), TransactionError>)
        ensures
            !old(self).is_open() ==> r == Err::<(), TransactionError>(TransactionError::RollbackWithoutBegin)
                && *final(self) == *old(self),
            old(self).is_open() ==> {
                &&& r is Ok
                &&& !final(self).is_open()
                &&& !final(self).hit_forbidden()
                &&& final(self).forbidden() == old(self).forbidden()
                &&& final(self).dom_spec().pending_spec() == Seq::<EffectRecord>::empty()
                &&& final(self).dom_spec().committed_spec() == old(self).dom_spec().committed_spec()
            },
    {
        if !self.in_transaction {
            return Err(TransactionError::RollbackWithoutBegin);
        }
        self.dom.rollback();
        self.in_transaction = false;
        self.forbidden_hit = false;
        Ok(())
    }

    pub fn committed_effects(&self) -> (r: &[EffectRecord])
        ensures
            r@ == self.dom_spec().committed_spec(),
    {
        self.dom.committed_effects()
    }

    pub fn pending_effects(&self) -> (r: &[EffectRecord])
        ensures
            r@ == self.dom_spec().pending_spec(),
    {
        self.dom.pending_effects()
    }
}

/// What one run of a host script left behind.
#[derive(Debug, Clone, PartialEq, Eq)]
pub struct ExecutionResult {
    pub effects: Vec<EffectRecord>,
    pub began: bool,
    pub committed: bool,
    pub rolled_back: bool,
}

} // verus!
