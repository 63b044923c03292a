use vstd::prelude::*;

verus! {

/// A wide value split into two field-sized limbs, the form in which looked-up
/// values travel through the constraint system.
///
/// The all-zero pair doubles as a sentinel: an event-schema slot holding
/// [`HiLo::zero`] means "no schema filter", never a real schema hash.
#[derive(Clone, Copy, Debug, PartialEq, Eq, Structural)]
pub struct HiLo {
    pub hi: u64,
    pub lo: u64,
}

impl HiLo {
    /// The zero pair, the sentinel meaning "no value supplied".
    pub open spec fn zero() -> HiLo {
        HiLo { hi: 0, lo: 0 }
    }

    /// Assembles a pair from its high and low limbs.
    pub fn from_hi_lo(hi: u64, lo: u64) -> (r: HiLo)
        ensures
            r == (HiLo { hi, lo }),
    {
        HiLo { hi, lo }
    }
}

} // verus!
