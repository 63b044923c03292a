use vstd::prelude::*;

verus! {

/// One use of the constrained-addition primitive: both operands together with
/// the sum that was bound into the constraint system.
#[derive(Clone, Copy, Debug, PartialEq, Eq, Structural)]
pub struct AddOp {
    pub a: u64,
    pub b: u64,
    pub sum: u64,
}

/// The proof context a query is built against. It records every constant
/// loaded into the circuit and every constrained addition performed, so a
/// caller can see that no field value entering a subquery record was computed
/// outside the constraint system.
pub struct Context {
    pub constants: Vec<u64>,
    pub add_ops: Vec<AddOp>,
}

impl Context {
    /// Every recorded addition binds a true sum: the constraint system only
    /// ever relates `sum` to `a + b`.
    pub open spec fn wf(self) -> bool {
        forall|i: int|
            0 <= i < self.add_ops@.len() ==> (#[trigger] self.add_ops@[i]).sum
                == self.add_ops@[i].a + self.add_ops@[i].b
    }

    /// A fresh context: nothing loaded, nothing constrained.
    pub fn new() -> (r: Context)
        ensures
            r.constants@ == Seq::<u64>::empty(),
            r.add_ops@ == Seq::<AddOp>::empty(),
            r.wf(),
    {
        Context { constants: Vec::new(), add_ops: Vec::new() }
    }

    /// Loads a constant into the circuit and returns the constrained value.
    pub fn load_constant(&mut self, c: u64) -> (r: u64)
        ensures
            r == c,
            final(self).constants@ == old(self).constants@.push(c),
            final(self).add_ops@ == old(self).add_ops@,
            old(self).wf() ==> final(self).wf(),
    {
        self.constants.push(c);
        c
    }

    /// Adds two constrained values through the constraint system, recording
    /// the addition so the result stays provable.
    pub fn constrained_add(&mut self, a: u64, b: u64) -> (r: u64)
        requires
            a + b <= u64::MAX,
        ensures
            r == a + b,
            final(self).constants@ == old(self).constants@,
            final(self).add_ops@ == old(self).add_ops@.push(AddOp { a, b, sum: (a + b) as u64 }),
            old(self).wf() ==> final(self).wf(),
    {
        let sum = a + b;
        self.add_ops.push(AddOp { a, b, sum });
        sum
    }
}

} // verus!
