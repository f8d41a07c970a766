//! The two-dimensional weight unit and saturating arithmetic on it.

use vstd::prelude::*;

verus! {

/// Saturating addition on `u64`: the mathematical sum, clamped to `u64::MAX`.
pub open spec fn sat_add64(a: u64, b: u64) -> u64 {
    if a + b > u64::MAX {
        u64::MAX
    } else {
        (a + b) as u64
    }
}

/// Saturating multiplication on `u64`: the mathematical product, clamped to
/// `u64::MAX`.
pub open spec fn sat_mul64(a: u64, b: u64) -> u64 {
    if a * b > u64::MAX {
        u64::MAX
    } else {
        (a * b) as u64
    }
}

/// A resource cost: execution time in picoseconds and the estimated size in
/// bytes of the storage proof the operation contributes.
#[derive(Clone, Copy, Debug, PartialEq, Eq, Structural)]
pub struct Weight {
    pub time: u64,
    pub proof_size: u64,
}

/// Component-wise saturating sum of two weights.
pub open spec fn sat_sum(a: Weight, b: Weight) -> Weight {
    Weight { time: sat_add64(a.time, b.time), proof_size: sat_add64(a.proof_size, b.proof_size) }
}

/// Both components of `w` scaled by `n`, saturating.
pub open spec fn sat_scale(w: Weight, n: u64) -> Weight {
    Weight { time: sat_mul64(w.time, n), proof_size: sat_mul64(w.proof_size, n) }
}

/// `a + b` on `u64`, clamping to `u64::MAX` instead of wrapping.
pub fn saturating_add64(a: u64, b: u64) -> (r: u64)
    ensures
        r == sat_add64(a, b),
{
    match a.checked_add(b) {
        Some(v) => v,
        None => u64::MAX,
    }
}

/// `a * b` on `u64`, clamping to `u64::MAX` instead of wrapping.
pub fn saturating_mul64(a: u64, b: u64) -> (r: u64)
    ensures
        r == sat_mul64(a, b),
{
    match a.checked_mul(b) {
        Some(v) => v,
        None => u64::MAX,
    }
}

impl Weight {
    /// A weight from its two components.
    pub fn from_parts(time: u64, proof_size: u64) -> (r: Weight)
        ensures
            r.time == time,
            r.proof_size == proof_size,
    {
        Weight { time, proof_size }
    }

    /// The weight whose both components are zero.
    pub fn zero() -> (r: Weight)
        ensures
            r.time == 0,
            r.proof_size == 0,
    {
        Weight { time: 0, proof_size: 0 }
    }

    /// Component-wise saturating addition.
    pub fn saturating_add(self, other: Weight) -> (r: Weight)
        ensures
            r == sat_sum(self, other),
    {
        Weight {
            time: saturating_add64(self.time, other.time),
            proof_size: saturating_add64(self.proof_size, other.proof_size),
        }
    }

    /// Both components scaled by `n`, saturating.
    pub fn saturating_scale(self, n: u64) -> (r: Weight)
        ensures
            r == sat_scale(self, n),
    {
        Weight {
            time: saturating_mul64(self.time, n),
            proof_size: saturating_mul64(self.proof_size, n),
        }
    }
}

/// The per-read and per-write cost of database access under the current
/// runtime configuration. Injected at call time so that one instruction
/// table serves deployments with different storage-cost models.
#[derive(Clone, Copy, Debug, PartialEq, Eq, Structural)]
pub struct DbWeight {
    pub read: Weight,
    pub write: Weight,
}

impl DbWeight {
    /// The cost of `n` database reads.
    pub fn reads(&self, n: u64) -> (r: Weight)
        ensures
            r == sat_scale(self.read, n),
    {
        self.read.saturating_scale(n)
    }

    /// The cost of `n` database writes.
    pub fn writes(&self, n: u64) -> (r: Weight)
        ensures
            r == sat_scale(self.write, n),
    {
        self.write.saturating_scale(n)
    }
}

} // verus!
