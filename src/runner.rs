use vstd::prelude::*;

use crate::effect_log::EffectRecord;
use crate::transaction::{ExecutionResult, TransactionError};

verus! {

/// What a script host has seen: the effects of the current run and how its transaction went.
#[derive(Debug, Clone, Default)]
pub struct RunnerState {
    effects: Vec<EffectRecord>,
    in_transaction: bool,
    committed: bool,
    rolled_back: bool,
}

impl RunnerState {
    pub closed spec fn effects_spec(&self) -> Seq<EffectRecord> {
        self.effects@
    }

    pub closed spec fn is_open(&self) -> bool {
        self.in_transaction
    }

    pub closed spec fn was_committed(&self) -> bool {
        self.committed
    }

    pub closed spec fn was_rolled_back(&self) -> bool {
        self.rolled_back
    }

    pub fn new() -> (r: RunnerState)
        ensures
            r.effects_spec() == Seq::<EffectRecord>::empty(),
            !r.is_open(),
            !r.was_committed(),
            !r.was_rolled_back(),
    {
        RunnerState { effects: Vec::new(), in_transaction: false, committed: false, rolled_back: false }
    }

    /// Host `begin`: opens the transaction and clears both outcome flags; the effects stay.
    pub fn begin(&mut self)
        ensures
            final(self).effects_spec() == old(self).effects_spec(),
            final(self).is_open(),
            !final(self).was_committed(),
            !final(self).was_rolled_back(),
    {
        self.in_transaction = true;
        self.committed = false;
        self.rolled_back = false;
    }

    /// Host `commit`: closes the open transaction as committed; fails, changing nothing, when
    /// none is open.
    pub fn commit(&mut self) -> (r: Result<(), TransactionError>)
        ensures
            !old(self).is_open() ==> r == Err::<(), TransactionError>(TransactionError::CommitWithoutBegin)
                && *final(self) == *old(self),
            old(self).is_open() ==> r is Ok && !final(self).is_open() && final(self).was_committed()
                && final(self).was_rolled_back() == old(self).was_rolled_back()
                && final(self).effects_spec() == old(self).effects_spec(),
    {
        if !self.in_transaction {
            return Err(TransactionError::CommitWithoutBegin);
        }
        self.in_transaction = false;
        self.committed = true;
        Ok(())
    }

    /// Host `rollback`: drops every effect and closes the open transaction as rolled back;
    /// fails, changing nothing, when none is open.
    pub fn rollback(&mut self) -> (r: Result<(), TransactionError>)
        ensures
            !old(self).is_open() ==> r == Err::<(), TransactionError>(TransactionError::RollbackWithoutBegin)
                && *final(self) == *old(self),
            old(self).is_open() ==> r is Ok && !final(self).is_open() && final(self).was_rolled_back()
                && final(self).was_committed() == old(self).was_committed()
                && final(self).effects_spec() == Seq::<EffectRecord>::empty(),
    {
        if !self.in_transaction {
            return Err(TransactionError::RollbackWithoutBegin);
        }
        self.effects.clear();
        self.in_transaction = false;
        self.rolled_back = true;
        Ok(())
    }

    /// Host `effect`: records the effect `op(args)` in the open transaction; fails, changing
    /// nothing, when none is open.
    pub fn effect(&mut self, op: String, args: Vec<String>) -> (r: Result<(), TransactionError>)
        ensures
            !old(self).is_open() ==> r == Err::<(), TransactionError>(
                TransactionError::EffectOutsideTransaction,
            ) && *final(self) == *old(self),
            old(self).is_open() ==> r is Ok && final(self).effects_spec() == old(self).effects_spec().push(
                EffectRecord { op, args },
            ) && final(self).is_open() && final(self).was_committed() == old(self).was_committed()
                && final(self).was_rolled_back() == old(self).was_rolled_back(),
    {
        if !self.in_transaction {
            return Err(TransactionError::EffectOutsideTransaction);
        }
        self.effects.push(EffectRecord { op, args });
        Ok(())
    }

    /// The outcome of the run so far.
    pub fn result(&self) -> (r: ExecutionResult)
        ensures
            r.effects@.len() == self.effects_spec().len(),
            forall|i: int|
                0 <= i < r.effects@.len() ==> (#[trigger] r.effects@[i]).op == self.effects_spec()[i].op
                    && r.effects@[i].args@ == self.effects_spec()[i].args@,
            r.began == self.is_open(),
            r.committed == self.was_committed(),
            r.rolled_back == self.was_rolled_back(),
    {
        let mut effects: Vec<EffectRecord> = Vec::new();
        let mut i: usize = 0;
        while i < self.effects.len()
            invariant
                0 <= i <= self.effects@.len(),
                effects@.len() == i,
                forall|j: int|
                    0 <= j < i ==> (#[trigger] effects@[j]).op == self.effects@[j].op
                        && effects@[j].args@ == self.effects@[j].args@,
            decreases self.effects@.len() - i,
        {
            effects.push(self.effects[i].duplicate());
            i = i + 1;
        }
        ExecutionResult {
            effects,
            began: self.in_transaction,
            committed: self.committed,
            rolled_back: self.rolled_back,
        }
    }
}

} // verus!
