//! Shared error and metering-dimension types.

use vstd::prelude::*;

verus! {

/// Errors surfaced by the PolyKit services.
#[derive(Debug, Clone, PartialEq, Eq)]
pub enum PolykitError {
    /// SPARK identity derivation failed.
    IdentityDerivation(String),
    /// Cryptographic operation failed.
    Crypto(String),
    /// Metering limit exceeded.
    MeteringLimit { dimension: MeteringDimension, current: u64, limit: u64 },
    /// Classification policy violation.
    ClassificationViolation(String),
    /// Wire protocol error.
    Wire(String),
    /// Embedded-store error.
    Storage(String),
    /// Sanitization pipeline error.
    Sanitization(String),
    /// Role-based authorization denied.
    Unauthorized { required_role: String, actual_roles: Vec<String> },
}

/// The eight metering dimensions every Poly app shares.
#[derive(Debug, Clone, Copy, PartialEq, Eq, Hash, Structural)]
pub enum MeteringDimension {
    /// E — Executions.
    Executions,
    /// H — Hash operations.
    Hashes,
    /// B — Bandwidth (bytes).
    Bandwidth,
    /// S — Storage (bytes).
    Storage,
    /// O — Observable events.
    Observables,
    /// P — Proofs generated.
    Proofs,
    /// C — Circuit invocations.
    Circuits,
    /// M — MPC sessions.
    MpcSessions,
}

} // verus!
