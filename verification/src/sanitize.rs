//! Three-stage compliance sanitization pipeline.
//!
//! Stage 1 detects sensitive data (SSNs, card numbers, email addresses) in
//! a JSON-shaped value; stage 2 replaces the detected values with safe
//! placeholders; stage 3 produces an audit entry per stage and detection.
//! Sensitive data never leaves the core unredacted.

use vstd::prelude::*;
use crate::json::JsonValue;

pub mod audit;
pub mod detect;
pub mod transform;

verus! {

/// Detected sensitive data.
#[derive(Debug, Clone)]
pub struct Detection {
    pub field_path: String,
    pub data_type: DataType,
    pub regulation: Vec<Regulation>,
    /// Detection confidence in percent.
    pub confidence: u64,
}

/// Sensitive data types.
#[derive(Debug, Clone, PartialEq, Eq)]
pub enum DataType {
    Ssn,
    CreditCard,
    PersonalName,
    Email,
    PhoneNumber,
    DateOfBirth,
    Address,
    MedicalRecord,
    FinancialAccount,
    BiometricData,
    Custom(String),
}

/// Applicable regulations.
#[derive(Debug, Clone, Copy, PartialEq, Eq, Structural)]
pub enum Regulation {
    Hipaa,
    PciDss,
    Gdpr,
    Soc2,
    Ccpa,
}

/// Sanitized output together with its audit trail.
#[derive(Debug, Clone)]
pub struct SanitizationResult {
    /// Safe to display and to cross the host boundary.
    pub sanitized_data: JsonValue,
    /// One entry per pipeline stage and detection.
    pub audit_entries: Vec<AuditEntry>,
}

/// One audit trail entry.
#[derive(Debug, Clone)]
pub struct AuditEntry {
    pub timestamp_ms: u64,
    pub stage: Stage,
    pub field_path: String,
    pub original_type: String,
    pub placeholder: String,
    pub regulations: Vec<String>,
    pub witness_hash: String,
}

/// The pipeline stage an audit entry records.
#[derive(Debug, Clone, Copy, PartialEq, Eq, Structural)]
pub enum Stage {
    PiiDetect,
    ValueTransform,
    AuditRecord,
}

/// The mathematical shape of a [`Detection`].
#[verifier::ext_equal]
pub struct DetectionView {
    pub field_path: Seq<char>,
    pub data_type: DataType,
    pub regulation: Seq<Regulation>,
    pub confidence: u64,
}

/// The shape of one detection.
pub open spec fn det_view(d: Detection) -> DetectionView {
    DetectionView {
        field_path: d.field_path@,
        data_type: d.data_type,
        regulation: d.regulation@,
        confidence: d.confidence,
    }
}

/// The shapes of a detection list, in order.
pub open spec fn det_views(s: Seq<Detection>) -> Seq<DetectionView> {
    Seq::new(s.len(), |i: int| det_view(s[i]))
}

/// The mathematical shape of an [`AuditEntry`].
#[verifier::ext_equal]
pub struct AuditView {
    pub timestamp_ms: u64,
    pub stage: Stage,
    pub field_path: Seq<char>,
    pub original_type: Seq<char>,
    pub placeholder: Seq<char>,
    pub regulations: Seq<Seq<char>>,
    pub witness_hash: Seq<char>,
}

/// The shape of one audit entry.
pub open spec fn audit_view(e: AuditEntry) -> AuditView {
    AuditView {
        timestamp_ms: e.timestamp_ms,
        stage: e.stage,
        field_path: e.field_path@,
        original_type: e.original_type@,
        placeholder: e.placeholder@,
        regulations: Seq::new(e.regulations@.len(), |i: int| e.regulations@[i]@),
        witness_hash: e.witness_hash@,
    }
}

/// The shapes of an audit entry list, in order.
pub open spec fn audit_views(s: Seq<AuditEntry>) -> Seq<AuditView> {
    Seq::new(s.len(), |i: int| audit_view(s[i]))
}

/// Run the full three-stage sanitization pipeline on input data.
pub fn sanitize(input: &JsonValue) -> (r: SanitizationResult)
    ensures
        ({
            let dets = detect::spec_scan(input@, Seq::<char>::empty());
            &&& r.sanitized_data@ == transform::spec_redact(input@, dets, 0)
            &&& audit_views(r.audit_entries@) == audit::spec_record(dets, 0, 0)
        }),
{
    let detections = detect::scan(input);
    let sanitized = transform::redact(input, detections.as_slice());
    let audit_entries = audit::record(detections.as_slice());
    SanitizationResult { sanitized_data: sanitized, audit_entries }
}

} // verus!
