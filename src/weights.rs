//! Cost of each operation, for the host's resource metering.
use vstd::prelude::*;

verus! {

/// A cost in computation time and in proof size.
#[derive(Clone, Copy, Debug, PartialEq, Eq, Structural)]
pub struct Weight {
    pub ref_time: u64,
    pub proof_size: u64,
}

/// The product of two counts, saturating at the largest `u64`.
pub open spec fn saturating_mul_spec(a: u64, b: u64) -> u64 {
    if a * b > u64::MAX {
        u64::MAX
    } else {
        (a * b) as u64
    }
}

fn saturating_mul(a: u64, b: u64) -> (r: u64)
    ensures
        r == saturating_mul_spec(a, b),
{
    match a.checked_mul(b) {
        Some(p) => p,
        None => u64::MAX,
    }
}

impl Weight {
    pub fn from_parts(ref_time: u64, proof_size: u64) -> (w: Weight)
        ensures
            w == (Weight { ref_time, proof_size }),
    {
        Weight { ref_time, proof_size }
    }

    /// Component-wise sum, saturating.
    pub fn saturating_add(self, other: Weight) -> (w: Weight)
        ensures
            w.ref_time == self.ref_time.saturating_add(other.ref_time),
            w.proof_size == self.proof_size.saturating_add(other.proof_size),
    {
        Weight {
            ref_time: self.ref_time.saturating_add(other.ref_time),
            proof_size: self.proof_size.saturating_add(other.proof_size),
        }
    }
}

/// Time cost of one storage read and of one storage write.
#[derive(Clone, Copy, Debug, PartialEq, Eq, Structural)]
pub struct RuntimeDbWeight {
    pub read: u64,
    pub write: u64,
}

impl RuntimeDbWeight {
    /// Cost of `r` reads.
    pub fn reads(self, r: u64) -> (w: Weight)
        ensures
            w == (Weight { ref_time: saturating_mul_spec(self.read, r), proof_size: 0 }),
    {
        Weight { ref_time: saturating_mul(self.read, r), proof_size: 0 }
    }

    /// Cost of `n` writes.
    pub fn writes(self, n: u64) -> (w: Weight)
        ensures
            w == (Weight { ref_time: saturating_mul_spec(self.write, n), proof_size: 0 }),
    {
        Weight { ref_time: saturating_mul(self.write, n), proof_size: 0 }
    }
}

/// Cost of each ledger operation: a base computation time plus the storage
/// reads and writes the operation makes, priced by `cost_of`.
pub trait WeightInfo {
    /// Cost of a base time plus `reads` reads and `writes` writes.
    spec fn cost_of(&self, base: u64, reads: u64, writes: u64) -> Weight;

    fn deposit_for_payee(&self) -> (w: Weight)
        ensures
            w == self.cost_of(30_000_000, 2, 2),
    ;

    fn request_settlement(&self) -> (w: Weight)
        ensures
            w == self.cost_of(35_000_000, 4, 2),
    ;

    fn execute_settlement(&self) -> (w: Weight)
        ensures
            w == self.cost_of(25_000_000, 1, 1),
    ;

    fn withdraw_platform_fee(&self) -> (w: Weight)
        ensures
            w == self.cost_of(20_000_000, 1, 1),
    ;

    fn set_payee_config(&self) -> (w: Weight)
        ensures
            w == self.cost_of(25_000_000, 0, 1),
    ;

    fn pause(&self) -> (w: Weight)
        ensures
            w == self.cost_of(10_000_000, 0, 1),
    ;

    fn unpause(&self) -> (w: Weight)
        ensures
            w == self.cost_of(10_000_000, 0, 1),
    ;

    fn emergency_withdraw(&self) -> (w: Weight)
        ensures
            w == self.cost_of(15_000_000, 0, 0),
    ;
}

/// Costs as a fixed computation time plus the storage accesses each
/// operation makes, priced by the host's storage weights.
#[derive(Clone, Copy, Debug, PartialEq, Eq, Structural)]
pub struct SubstrateWeight {
    pub db: RuntimeDbWeight,
}

impl SubstrateWeight {
    /// A base time plus `reads` reads and `writes` writes, saturating.
    pub open spec fn cost_spec(self, base: u64, reads: u64, writes: u64) -> Weight {
        Weight {
            ref_time: base.saturating_add(saturating_mul_spec(self.db.read, reads)).saturating_add(
                saturating_mul_spec(self.db.write, writes),
            ),
            proof_size: 0,
        }
    }

    /// A base time plus `reads` reads and `writes` writes, saturating.
    pub fn cost(&self, base: u64, reads: u64, writes: u64) -> (w: Weight)
        ensures
            w == self.cost_spec(base, reads, writes),
    {
        Weight::from_parts(base, 0).saturating_add(self.db.reads(reads)).saturating_add(
            self.db.writes(writes),
        )
    }
}

impl WeightInfo for SubstrateWeight {
    open spec fn cost_of(&self, base: u64, reads: u64, writes: u64) -> Weight {
        self.cost_spec(base, reads, writes)
    }

    fn deposit_for_payee(&self) -> Weight {
        self.cost(30_000_000, 2, 2)
    }

    fn request_settlement(&self) -> Weight {
        self.cost(35_000_000, 4, 2)
    }

    fn execute_settlement(&self) -> Weight {
        self.cost(25_000_000, 1, 1)
    }

    fn withdraw_platform_fee(&self) -> Weight {
        self.cost(20_000_000, 1, 1)
    }

    fn set_payee_config(&self) -> Weight {
        self.cost(25_000_000, 0, 1)
    }

    fn pause(&self) -> Weight {
        self.cost(10_000_000, 0, 1)
    }

    fn unpause(&self) -> Weight {
        self.cost(10_000_000, 0, 1)
    }

    fn emergency_withdraw(&self) -> Weight {
        self.cost(15_000_000, 0, 0)
    }
}

/// Base times alone, with storage accesses free.
impl WeightInfo for () {
    open spec fn cost_of(&self, base: u64, reads: u64, writes: u64) -> Weight {
        Weight { ref_time: base, proof_size: 0 }
    }

    fn deposit_for_payee(&self) -> Weight {
        Weight::from_parts(30_000_000, 0)
    }

    fn request_settlement(&self) -> Weight {
        Weight::from_parts(35_000_000, 0)
    }

    fn execute_settlement(&self) -> Weight {
        Weight::from_parts(25_000_000, 0)
    }

    fn withdraw_platform_fee(&self) -> Weight {
        Weight::from_parts(20_000_000, 0)
    }

    fn set_payee_config(&self) -> Weight {
        Weight::from_parts(25_000_000, 0)
    }

    fn pause(&self) -> Weight {
        Weight::from_parts(10_000_000, 0)
    }

    fn unpause(&self) -> Weight {
        Weight::from_parts(10_000_000, 0)
    }

    fn emergency_withdraw(&self) -> Weight {
        Weight::from_parts(15_000_000, 0)
    }
}

} // verus!
