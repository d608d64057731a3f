//! The eight-dimension metering model.
//!
//! Every Poly app meters the same dimensions (E/H/B/S/O/P/C/M). This module
//! holds the value types, accumulation, and the per-tier limit check.

use vstd::prelude::*;
use crate::error::MeteringDimension;

verus! {

/// A metering record for a single operation.
#[derive(Debug, Clone)]
pub struct MeteringRecord {
    /// User identity (16-byte truncated hash of the SPARK public key).
    pub user_id: [u8; 16],
    /// Operation name (for example "upload" or "send_message").
    pub operation: String,
    /// Dimension values consumed by this operation.
    pub dimensions: DimensionValues,
    /// Unix timestamp (milliseconds).
    pub timestamp_ms: u64,
}

/// Values for each metering dimension; only non-zero dimensions need setting.
#[derive(Debug, Clone, Copy, PartialEq, Eq, Structural)]
pub struct DimensionValues {
    /// E — Circuit executions.
    pub executions: u64,
    /// H — Hash operations.
    pub hashes: u64,
    /// B — Bandwidth (bytes over the wire protocol).
    pub bandwidth: u64,
    /// S — Storage (bytes persisted).
    pub storage: u64,
    /// O — Observable events emitted.
    pub observables: u64,
    /// P — Proofs generated.
    pub proofs: u64,
    /// C — Circuit invocations.
    pub circuits: u64,
    /// M — MPC sessions initiated.
    pub mpc_sessions: u64,
}

impl DimensionValues {
    /// The value this set records for one dimension.
    pub open spec fn spec_get(self, dim: MeteringDimension) -> u64 {
        match dim {
            MeteringDimension::Executions => self.executions,
            MeteringDimension::Hashes => self.hashes,
            MeteringDimension::Bandwidth => self.bandwidth,
            MeteringDimension::Storage => self.storage,
            MeteringDimension::Observables => self.observables,
            MeteringDimension::Proofs => self.proofs,
            MeteringDimension::Circuits => self.circuits,
            MeteringDimension::MpcSessions => self.mpc_sessions,
        }
    }

    /// Add another set of dimension values onto this one, dimension by
    /// dimension; every sum must fit the counter.
    pub fn accumulate(&mut self, other: &DimensionValues)
        requires
            forall|d: MeteringDimension|
                old(self).spec_get(d) + other.spec_get(d) <= u64::MAX,
        ensures
            forall|d: MeteringDimension| #[trigger]
                final(self).spec_get(d) == old(self).spec_get(d) + other.spec_get(d),
    {
        proof {
            assert(old(self).spec_get(MeteringDimension::Executions) + other.spec_get(
                MeteringDimension::Executions,
            ) <= u64::MAX);
            assert(old(self).spec_get(MeteringDimension::Hashes) + other.spec_get(
                MeteringDimension::Hashes,
            ) <= u64::MAX);
            assert(old(self).spec_get(MeteringDimension::Bandwidth) + other.spec_get(
                MeteringDimension::Bandwidth,
            ) <= u64::MAX);
            assert(old(self).spec_get(MeteringDimension::Storage) + other.spec_get(
                MeteringDimension::Storage,
            ) <= u64::MAX);
            assert(old(self).spec_get(MeteringDimension::Observables) + other.spec_get(
                MeteringDimension::Observables,
            ) <= u64::MAX);
            assert(old(self).spec_get(MeteringDimension::Proofs) + other.spec_get(
                MeteringDimension::Proofs,
            ) <= u64::MAX);
            assert(old(self).spec_get(MeteringDimension::Circuits) + other.spec_get(
                MeteringDimension::Circuits,
            ) <= u64::MAX);
            assert(old(self).spec_get(MeteringDimension::MpcSessions) + other.spec_get(
                MeteringDimension::MpcSessions,
            ) <= u64::MAX);
        }
        self.executions = self.executions + other.executions;
        self.hashes = self.hashes + other.hashes;
        self.bandwidth = self.bandwidth + other.bandwidth;
        self.storage = self.storage + other.storage;
        self.observables = self.observables + other.observables;
        self.proofs = self.proofs + other.proofs;
        self.circuits = self.circuits + other.circuits;
        self.mpc_sessions = self.mpc_sessions + other.mpc_sessions;
    }

    /// Read one dimension's value.
    pub fn get(&self, dim: MeteringDimension) -> (r: u64)
        ensures
            r == self.spec_get(dim),
    {
        match dim {
            MeteringDimension::Executions => self.executions,
            MeteringDimension::Hashes => self.hashes,
            MeteringDimension::Bandwidth => self.bandwidth,
            MeteringDimension::Storage => self.storage,
            MeteringDimension::Observables => self.observables,
            MeteringDimension::Proofs => self.proofs,
            MeteringDimension::Circuits => self.circuits,
            MeteringDimension::MpcSessions => self.mpc_sessions,
        }
    }

    /// Overwrite one dimension's value, leaving the others alone.
    pub fn set(&mut self, dim: MeteringDimension, value: u64)
        ensures
            final(self).spec_get(dim) == value,
            forall|d: MeteringDimension|
                d != dim ==> #[trigger] final(self).spec_get(d) == old(self).spec_get(d),
    {
        match dim {
            MeteringDimension::Executions => self.executions = value,
            MeteringDimension::Hashes => self.hashes = value,
            MeteringDimension::Bandwidth => self.bandwidth = value,
            MeteringDimension::Storage => self.storage = value,
            MeteringDimension::Observables => self.observables = value,
            MeteringDimension::Proofs => self.proofs = value,
            MeteringDimension::Circuits => self.circuits = value,
            MeteringDimension::MpcSessions => self.mpc_sessions = value,
        }
    }
}

impl Default for DimensionValues {
    /// All dimensions zero.
    fn default() -> (r: Self)
        ensures
            forall|d: MeteringDimension| #[trigger] r.spec_get(d) == 0,
    {
        DimensionValues {
            executions: 0,
            hashes: 0,
            bandwidth: 0,
            storage: 0,
            observables: 0,
            proofs: 0,
            circuits: 0,
            mpc_sessions: 0,
        }
    }
}

/// Per-tier metering limits; a limit of zero means the dimension is
/// unlimited.
#[derive(Debug, Clone)]
pub struct TierLimits {
    pub tier_name: String,
    pub limits: DimensionValues,
}

/// The dimension at one position of the canonical E/H/B/S/O/P/C/M order.
pub open spec fn dimension_of(i: int) -> MeteringDimension {
    if i == 0 {
        MeteringDimension::Executions
    } else if i == 1 {
        MeteringDimension::Hashes
    } else if i == 2 {
        MeteringDimension::Bandwidth
    } else if i == 3 {
        MeteringDimension::Storage
    } else if i == 4 {
        MeteringDimension::Observables
    } else if i == 5 {
        MeteringDimension::Proofs
    } else if i == 6 {
        MeteringDimension::Circuits
    } else {
        MeteringDimension::MpcSessions
    }
}

/// All eight dimensions in their canonical order.
pub open spec fn all_dimensions() -> Seq<MeteringDimension> {
    Seq::new(8, |i: int| dimension_of(i))
}

/// Usage exceeds a positive limit on this dimension.
pub open spec fn exceeds(current: DimensionValues, limits: DimensionValues,
    d: MeteringDimension) -> bool {
    limits.spec_get(d) > 0 && current.spec_get(d) > limits.spec_get(d)
}

/// The dimensions of `dims`, in order, on which usage exceeds the limits.
pub open spec fn spec_violations(
    current: DimensionValues,
    limits: DimensionValues,
    dims: Seq<MeteringDimension>,
) -> Seq<MeteringDimension>
    decreases dims.len(),
{
    if dims.len() == 0 {
        Seq::empty()
    } else {
        let rest = spec_violations(current, limits, dims.skip(1));
        if exceeds(current, limits, dims[0]) {
            seq![dims[0]] + rest
        } else {
            rest
        }
    }
}

/// Check current usage against tier limits and return every dimension whose
/// positive limit is exceeded, in canonical order.
#[verifier::loop_isolation(false)]
pub fn check_limits(current: &DimensionValues, limits: &TierLimits) -> (r: Vec<
    MeteringDimension,
>)
    ensures
        r@ == spec_violations(*current, limits.limits, all_dimensions()),
{
    let mut violations: Vec<MeteringDimension> = Vec::new();
    let mut i: usize = 0;
    proof {
        assert(all_dimensions().skip(0) =~= all_dimensions());
    }
    while i < 8
        invariant
            i <= 8,
            spec_violations(*current, limits.limits, all_dimensions()) == violations@
                + spec_violations(*current, limits.limits, all_dimensions().skip(i as int)),
        decreases 8 - i,
    {
        let d = dimension_at(i);
        let limit = limits.limits.get(d);
        let ghost dims_i = all_dimensions().skip(i as int);
        proof {
            assert(dims_i[0] == d);
            assert(dims_i.skip(1) =~= all_dimensions().skip(i as int + 1));
        }
        let ghost gathered = violations@;
        if limit > 0 && current.get(d) > limit {
            violations.push(d);
            proof {
                let rest = spec_violations(
                    *current,
                    limits.limits,
                    all_dimensions().skip(i as int + 1),
                );
                assert(gathered + (seq![d] + rest) =~= violations@ + rest);
            }
        }
        i += 1;
    }
    proof {
        assert(all_dimensions().skip(8) =~= Seq::<MeteringDimension>::empty());
        assert(violations@ + Seq::<MeteringDimension>::empty() =~= violations@);
    }
    violations
}

/// The dimension at one position of the canonical order.
fn dimension_at(i: usize) -> (d: MeteringDimension)
    requires
        i < 8,
    ensures
        d == dimension_of(i as int),
{
    if i == 0 {
        MeteringDimension::Executions
    } else if i == 1 {
        MeteringDimension::Hashes
    } else if i == 2 {
        MeteringDimension::Bandwidth
    } else if i == 3 {
        MeteringDimension::Storage
    } else if i == 4 {
        MeteringDimension::Observables
    } else if i == 5 {
        MeteringDimension::Proofs
    } else if i == 6 {
        MeteringDimension::Circuits
    } else {
        MeteringDimension::MpcSessions
    }
}

} // verus!
