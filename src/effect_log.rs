use vstd::prelude::*;

verus! {

/// One host effect: an operation name and its arguments.
#[derive(Debug, Clone, PartialEq, Eq)]
pub struct EffectRecord {
    pub op: String,
    pub args: Vec<String>,
}

impl EffectRecord {
    /// A copy equal to `self`.
    pub fn duplicate(&self) -> (r: EffectRecord)
        ensures
            r.op == self.op,
            r.args@ == self.args@,
    {
        let mut args: Vec<String> = Vec::new();
        let mut i: usize = 0;
        while i < self.args.len()
            invariant
                0 <= i <= self.args@.len(),
                args@ == self.args@.subrange(0, i as int),
            decreases self.args@.len() - i,
        {
            args.push(self.args[i].clone());
            assert(args@ =~= self.args@.subrange(0, i + 1));
            i = i + 1;
        }
        assert(self.args@.subrange(0, self.args@.len() as int) =~= self.args@);
        EffectRecord { op: self.op.clone(), args }
    }
}

/// Effects recorded in the open transaction, and those already committed.
#[derive(Debug, Clone)]
pub struct EffectLog {
    pending: Vec<EffectRecord>,
    committed: Vec<EffectRecord>,
}

impl EffectLog {
    /// The effects of the open transaction, in order.
    pub closed spec fn pending_spec(&self) -> Seq<EffectRecord> {
        self.pending@
    }

    /// Every committed effect, in order.
    pub closed spec fn committed_spec(&self) -> Seq<EffectRecord> {
        self.committed@
    }

    pub fn new() -> (r: EffectLog)
        ensures
            r.pending_spec() == Seq::<EffectRecord>::empty(),
            r.committed_spec() == Seq::<EffectRecord>::empty(),
    {
        EffectLog { pending: Vec::new(), committed: Vec::new() }
    }

    /// Appends `effect` to the pending effects.
    pub fn record(&mut self, effect: EffectRecord)
        ensures
            final(self).pending_spec() == old(self).pending_spec().push(effect),
            final(self).committed_spec() == old(self).committed_spec(),
    {
        self.pending.push(effect);
    }

    /// Moves the pending effects, in order, behind the committed ones; returns how many moved.
    pub fn commit(&mut self) -> (r: usize)
        ensures
            r == old(self).pending_spec().len(),
            final(self).pending_spec() == Seq::<EffectRecord>::empty(),
            final(self).committed_spec() == old(self).committed_spec() + old(self).pending_spec(),
    {
        let count = self.pending.len();
        self.committed.append(&mut self.pending);
        count
    }

    /// Drops the pending effects.
    pub fn rollback(&mut self)
        ensures
            final(self).pending_spec() == Seq::<EffectRecord>::empty(),
            final(self).committed_spec() == old(self).committed_spec(),
    {
        self.pending.clear();
    }

    pub fn committed(&self) -> (r: &[EffectRecord])
        ensures
            r@ == self.committed_spec(),
    {
        self.committed.as_slice()
    }

    pub fn pending(&self) -> (r: &[EffectRecord])
        ensures
            r@ == self.pending_spec(),
    {
        self.pending.as_slice()
    }
}

/// Stand-in for a document: it only keeps the effects applied to it.
#[derive(Debug, Clone)]
pub struct FakeDom {
    log: EffectLog,
}

impl FakeDom {
    pub closed spec fn pending_spec(&self) -> Seq<EffectRecord> {
        self.log.pending_spec()
    }

    pub closed spec fn committed_spec(&self) -> Seq<EffectRecord> {
        self.log.committed_spec()
    }

    pub fn new() -> (r: FakeDom)
        ensures
            r.pending_spec() == Seq::<EffectRecord>::empty(),
            r.committed_spec() == Seq::<EffectRecord>::empty(),
    {
        FakeDom { log: EffectLog::new() }
    }

    pub fn record_effect(&mut self, effect: EffectRecord)
        ensures
            final(self).pending_spec() == old(self).pending_spec().push(effect),
            final(self).committed_spec() == old(self).committed_spec(),
    {
        self.log.record(effect);
    }

    pub fn commit(&mut self) -> (r: usize)
        ensures
            r == old(self).pending_spec().len(),
            final(self).pending_spec() == Seq::<EffectRecord>::empty(),
            final(self).committed_spec() == old(self).committed_spec() + old(self).pending_spec(),
    {
        self.log.commit()
    }

    pub fn rollback(&mut self)
        ensures
            final(self).pending_spec() == Seq::<EffectRecord>::empty(),
            final(self).committed_spec() == old(self).committed_spec(),
    {
        self.log.rollback();
    }

    pub fn committed_effects(&self) -> (r: &[EffectRecord])
        ensures
            r@ == self.committed_spec(),
    {
        self.log.committed()
    }

    pub fn pending_effects(&self) -> (r: &[EffectRecord])
        ensures
            r@ == self.pending_spec(),
    {
        self.log.pending()
    }
}

} // verus!
