use vstd::prelude::*;

verus! {

/// `a * b`, clamped at `u64::MAX`.
pub open spec fn saturating_product(a: u64, b: u64) -> u64 {
    if a * b > u64::MAX {
        u64::MAX
    } else {
        (a * b) as u64
    }
}

/// A two-dimensional weight: execution time and proof size, as in `sp_weights`.
#[derive(Clone, Copy, Debug, PartialEq, Eq, Structural)]
pub struct Weight {
    pub ref_time: u64,
    pub proof_size: u64,
}

/// `sp_weights::Weight::saturating_mul`: each component multiplied by
/// `scalar`, each saturating at `u64::MAX` on its own.
#[verifier::external_body]
fn sp_weight_saturating_mul(weight: Weight, scalar: u64) -> (r: Weight)
    ensures
        r.ref_time == saturating_product(weight.ref_time, scalar),
        r.proof_size == saturating_product(weight.proof_size, scalar),
{
    let r = sp_weights::Weight::from_parts(weight.ref_time, weight.proof_size).saturating_mul(scalar);
    Weight { ref_time: r.ref_time(), proof_size: r.proof_size() }
}

impl Weight {
    /// A weight with the given execution time and proof size.
    pub fn from_parts(ref_time: u64, proof_size: u64) -> (r: Weight)
        ensures
            r.ref_time == ref_time,
            r.proof_size == proof_size,
    {
        Weight { ref_time, proof_size }
    }

    /// A weight of the given execution time and no proof size.
    pub fn from_ref_time(ref_time: u64) -> (r: Weight)
        ensures
            r.ref_time == ref_time,
            r.proof_size == 0,
    {
        Weight { ref_time, proof_size: 0 }
    }

    /// The largest weight: both components at `u64::MAX`.
    pub fn max_weight() -> (r: Weight)
        ensures
            r.ref_time == u64::MAX,
            r.proof_size == u64::MAX,
    {
        Weight { ref_time: u64::MAX, proof_size: u64::MAX }
    }

    /// The execution-time component.
    pub fn ref_time(&self) -> (r: u64)
        ensures
            r == self.ref_time,
    {
        self.ref_time
    }

    /// The proof-size component.
    pub fn proof_size(&self) -> (r: u64)
        ensures
            r == self.proof_size,
    {
        self.proof_size
    }

    /// Both components multiplied by `scalar`, each saturating at `u64::MAX`.
    pub fn saturating_mul(self, scalar: u64) -> (r: Weight)
        ensures
            r.ref_time == saturating_product(self.ref_time, scalar),
            r.proof_size == saturating_product(self.proof_size, scalar),
    {
        sp_weight_saturating_mul(self, scalar)
    }
}

} // verus!
