//! Execution cost of the counter calls, in two dimensions (computation time
//! and proof size), with every sum and product saturating at `u64::MAX`.
use vstd::prelude::*;

verus! {

/// `x` clamped to the range of `u64`.
pub open spec fn saturate(x: int) -> u64 {
    if x > u64::MAX {
        u64::MAX
    } else {
        x as u64
    }
}

/// `a * b`, or `u64::MAX` where the product does not fit.
pub fn saturating_mul(a: u64, b: u64) -> (r: u64)
    ensures
        r == saturate(a * b),
{
    match a.checked_mul(b) {
        Some(v) => v,
        None => u64::MAX,
    }
}

/// A two-dimensional cost.
#[derive(Clone, Copy, Debug, PartialEq, Eq, Structural)]
pub struct Weight {
    pub ref_time: u64,
    pub proof_size: u64,
}

impl Weight {
    pub fn from_parts(ref_time: u64, proof_size: u64) -> (r: Weight)
        ensures
            r == (Weight { ref_time, proof_size }),
    {
        Weight { ref_time, proof_size }
    }

    /// Component-wise sum, saturating at `u64::MAX`.
    pub fn saturating_add(self, other: Weight) -> (r: Weight)
        ensures
            r.ref_time == saturate(self.ref_time + other.ref_time),
            r.proof_size == saturate(self.proof_size + other.proof_size),
    {
        Weight {
            ref_time: self.ref_time.saturating_add(other.ref_time),
            proof_size: self.proof_size.saturating_add(other.proof_size),
        }
    }
}

/// The cost of one storage read and of one storage write.
#[derive(Clone, Copy, Debug, PartialEq, Eq, Structural)]
pub struct RuntimeDbWeight {
    pub read: u64,
    pub write: u64,
}

impl RuntimeDbWeight {
    /// The cost of `r` reads.
    pub fn reads(&self, r: u64) -> (w: Weight)
        ensures
            w == (Weight { ref_time: saturate(self.read * r), proof_size: 0 }),
    {
        Weight::from_parts(saturating_mul(self.read, r), 0)
    }

    /// The cost of `n` writes.
    pub fn writes(&self, n: u64) -> (w: Weight)
        ensures
            w == (Weight { ref_time: saturate(self.write * n), proof_size: 0 }),
    {
        Weight::from_parts(saturating_mul(self.write, n), 0)
    }
}

/// Base computation time of `increment`, before storage access.
pub const INCREMENT_BASE: u64 = 6_000_000;

/// Base computation time of `reset`, before storage access.
pub const RESET_BASE: u64 = 5_000_000;

/// The cost of `increment` under the storage costs `db`: one read, one write.
pub open spec fn increment_weight(db: RuntimeDbWeight) -> Weight {
    Weight {
        ref_time: saturate(saturate(INCREMENT_BASE + saturate(db.read * 1)) + saturate(db.write * 1)),
        proof_size: 0,
    }
}

/// The cost of `reset` under the storage costs `db`: one write.
pub open spec fn reset_weight(db: RuntimeDbWeight) -> Weight {
    Weight { ref_time: saturate(RESET_BASE + saturate(db.write * 1)), proof_size: 0 }
}

/// Costs of the counter calls.
pub trait WeightInfo {
    fn increment(&self) -> Weight;

    fn reset(&self) -> Weight;
}

/// Call costs derived from the storage costs of the host.
#[derive(Clone, Copy, Debug, PartialEq, Eq, Structural)]
pub struct SubstrateWeight {
    pub db: RuntimeDbWeight,
}

impl WeightInfo for SubstrateWeight {
    fn increment(&self) -> (w: Weight)
        ensures
            w == increment_weight(self.db),
    {
        Weight::from_parts(INCREMENT_BASE, 0).saturating_add(self.db.reads(1)).saturating_add(
            self.db.writes(1),
        )
    }

    fn reset(&self) -> (w: Weight)
        ensures
            w == reset_weight(self.db),
    {
        Weight::from_parts(RESET_BASE, 0).saturating_add(self.db.writes(1))
    }
}

} // verus!
