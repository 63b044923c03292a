use vstd::prelude::*;
use crate::hilo::HiLo;
use crate::subquery::Subquery;

verus! {

/// The collaborator every builder hands its finished record to. It keeps the
/// submitted subqueries in order and answers each submission with the next of
/// its prepared responses (the constrained lookup results), falling back to
/// the zero pair once those run out.
///
/// A submission needs exclusive access for its duration; the mutable borrow
/// taken by [`SubqueryCaller::call`] expresses that exclusivity.
pub struct SubqueryCaller {
    pub subqueries: Vec<Subquery>,
    pub responses: Vec<HiLo>,
}

impl SubqueryCaller {
    /// The response the next submission will receive.
    pub open spec fn next_response(self) -> HiLo {
        if self.subqueries@.len() < self.responses@.len() {
            self.responses@[self.subqueries@.len() as int]
        } else {
            HiLo::zero()
        }
    }

    /// A caller with no submissions and no prepared responses: every
    /// submission is answered with the zero pair.
    pub fn new() -> (r: SubqueryCaller)
        ensures
            r.subqueries@ == Seq::<Subquery>::empty(),
            r.responses@ == Seq::<HiLo>::empty(),
    {
        SubqueryCaller { subqueries: Vec::new(), responses: Vec::new() }
    }

    /// A caller that will answer its first submissions with the given
    /// responses, in order.
    pub fn with_responses(responses: Vec<HiLo>) -> (r: SubqueryCaller)
        ensures
            r.subqueries@ == Seq::<Subquery>::empty(),
            r.responses@ == responses@,
    {
        SubqueryCaller { subqueries: Vec::new(), responses }
    }

    /// Accepts one subquery record and returns its lookup result.
    pub fn call(&mut self, subquery: Subquery) -> (r: HiLo)
        ensures
            final(self).subqueries@ == old(self).subqueries@.push(subquery),
            final(self).responses@ == old(self).responses@,
            r == old(self).next_response(),
    {
        let n = self.subqueries.len();
        self.subqueries.push(subquery);
        if n < self.responses.len() {
            self.responses[n]
        } else {
            HiLo::from_hi_lo(0, 0)
        }
    }
}

} // verus!
