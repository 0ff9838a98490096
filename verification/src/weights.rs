//! Execution weights and the database cost model used by the runtime hooks.

use vstd::prelude::*;

verus! {

/// `x + y`, clamped to `u64::MAX`.
pub open spec fn sat_add(x: u64, y: u64) -> u64 {
    if x + y > u64::MAX { u64::MAX } else { (x + y) as u64 }
}

/// `x * y`, clamped to `u64::MAX`.
pub open spec fn sat_mul(x: u64, y: u64) -> u64 {
    if x * y > u64::MAX { u64::MAX } else { (x * y) as u64 }
}

/// Saturating multiplication of two `u64`.
pub fn saturating_mul_u64(x: u64, y: u64) -> (r: u64)
    ensures
        r == sat_mul(x, y),
{
    match x.checked_mul(y) {
        Some(v) => v,
        None => u64::MAX,
    }
}

/// Weight of a computation: reference time and proof size.
#[derive(Clone, Copy, Debug, PartialEq, Eq, Structural)]
pub struct Weight {
    pub ref_time: u64,
    pub proof_size: u64,
}

impl Weight {
    /// A weight made of the two given components.
    pub fn from_parts(ref_time: u64, proof_size: u64) -> (w: Weight)
        ensures
            w.ref_time == ref_time,
            w.proof_size == proof_size,
    {
        Weight { ref_time, proof_size }
    }

    /// The weight that costs nothing.
    pub fn zero() -> (w: Weight)
        ensures
            w.ref_time == 0,
            w.proof_size == 0,
    {
        Weight { ref_time: 0, proof_size: 0 }
    }

    /// Component-wise saturating sum.
    pub open spec fn spec_saturating_add(self, other: Weight) -> Weight {
        Weight {
            ref_time: sat_add(self.ref_time, other.ref_time),
            proof_size: sat_add(self.proof_size, other.proof_size),
        }
    }

    /// Component-wise saturating sum.
    pub fn saturating_add(self, other: Weight) -> (w: Weight)
        ensures
            w == self.spec_saturating_add(other),
    {
        Weight {
            ref_time: self.ref_time.saturating_add(other.ref_time),
            proof_size: self.proof_size.saturating_add(other.proof_size),
        }
    }

    /// Whether the plain component-wise sum fits in `u64`.
    pub open spec fn can_add(self, other: Weight) -> bool {
        &&& self.ref_time + other.ref_time <= u64::MAX
        &&& self.proof_size + other.proof_size <= u64::MAX
    }

    /// Component-wise sum; the components must not overflow.
    pub fn add(self, other: Weight) -> (w: Weight)
        requires
            self.can_add(other),
        ensures
            w.ref_time == self.ref_time + other.ref_time,
            w.proof_size == self.proof_size + other.proof_size,
    {
        Weight {
            ref_time: self.ref_time + other.ref_time,
            proof_size: self.proof_size + other.proof_size,
        }
    }
}

/// Cost of one database read and of one database write.
#[derive(Clone, Copy, Debug, PartialEq, Eq, Structural)]
pub struct RuntimeDbWeight {
    pub read: u64,
    pub write: u64,
}

/// Reference time of a RocksDB read, in picoseconds.
pub const ROCKS_DB_READ: u64 = 25_000_000;

/// Reference time of a RocksDB write, in picoseconds.
pub const ROCKS_DB_WRITE: u64 = 100_000_000;

impl RuntimeDbWeight {
    /// The cost model of the RocksDB backend.
    pub fn rocks_db() -> (db: RuntimeDbWeight)
        ensures
            db.read == ROCKS_DB_READ,
            db.write == ROCKS_DB_WRITE,
    {
        RuntimeDbWeight { read: ROCKS_DB_READ, write: ROCKS_DB_WRITE }
    }

    /// Weight of `r` reads.
    pub open spec fn spec_reads(self, r: u64) -> Weight {
        Weight { ref_time: sat_mul(self.read, r), proof_size: 0 }
    }

    /// Weight of `w` writes.
    pub open spec fn spec_writes(self, w: u64) -> Weight {
        Weight { ref_time: sat_mul(self.write, w), proof_size: 0 }
    }

    /// Weight of `r` reads and `w` writes.
    pub open spec fn spec_reads_writes(self, r: u64, w: u64) -> Weight {
        Weight { ref_time: sat_add(sat_mul(self.read, r), sat_mul(self.write, w)), proof_size: 0 }
    }

    /// Weight of `r` reads.
    pub fn reads(&self, r: u64) -> (weight: Weight)
        ensures
            weight == self.spec_reads(r),
    {
        Weight { ref_time: saturating_mul_u64(self.read, r), proof_size: 0 }
    }

    /// Weight of `w` writes.
    pub fn writes(&self, w: u64) -> (weight: Weight)
        ensures
            weight == self.spec_writes(w),
    {
        Weight { ref_time: saturating_mul_u64(self.write, w), proof_size: 0 }
    }

    /// Weight of `r` reads and `w` writes.
    pub fn reads_writes(&self, r: u64, w: u64) -> (weight: Weight)
        ensures
            weight == self.spec_reads_writes(r, w),
    {
        let read_weight = saturating_mul_u64(self.read, r);
        let write_weight = saturating_mul_u64(self.write, w);
        Weight { ref_time: read_weight.saturating_add(write_weight), proof_size: 0 }
    }
}

} // verus!
