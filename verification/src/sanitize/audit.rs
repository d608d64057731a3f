//! Stage 3: witnessed audit records.
//!
//! For every detection the pipeline records three audit entries — what was
//! detected, what it was replaced with, and the record itself. In
//! production each entry is witnessed by the host's hash chain and
//! signature; within this core the witness hash comes from the placeholder
//! digest, so it is the hex rendering of zeroed bytes.

use vstd::prelude::*;
use vstd::slice::slice_subrange;
use vstd::string::StringExecFns;
use crate::crypto::zero_bytes;
use crate::encoding::{hex_encode, hex_of, u64_to_dec};
use crate::sanitize::{
    audit_view, audit_views, det_views, AuditEntry, AuditView, DataType, Detection,
    DetectionView, Regulation, Stage,
};

verus! {

/// The canonical name of a regulation.
pub open spec fn reg_name(r: Regulation) -> Seq<char> {
    match r {
        Regulation::Hipaa => "Hipaa"@,
        Regulation::PciDss => "PciDss"@,
        Regulation::Gdpr => "Gdpr"@,
        Regulation::Soc2 => "Soc2"@,
        Regulation::Ccpa => "Ccpa"@,
    }
}

/// The names of a regulation list, in order.
pub open spec fn reg_names(rs: Seq<Regulation>) -> Seq<Seq<char>> {
    Seq::new(rs.len(), |i: int| reg_name(rs[i]))
}

/// The label of a data type, as the audit trail records it.
pub open spec fn data_type_label(dt: DataType) -> Seq<char> {
    match dt {
        DataType::Ssn => "Ssn"@,
        DataType::CreditCard => "CreditCard"@,
        DataType::PersonalName => "PersonalName"@,
        DataType::Email => "Email"@,
        DataType::PhoneNumber => "PhoneNumber"@,
        DataType::DateOfBirth => "DateOfBirth"@,
        DataType::Address => "Address"@,
        DataType::MedicalRecord => "MedicalRecord"@,
        DataType::FinancialAccount => "FinancialAccount"@,
        DataType::BiometricData => "BiometricData"@,
        DataType::Custom(name) => "Custom(\""@ + name@ + "\")"@,
    }
}

/// The masked preview a data type is shown as in the transform entry.
pub open spec fn mask_view(dt: DataType) -> Seq<char> {
    match dt {
        DataType::Ssn => "***-**-XXXX"@,
        DataType::CreditCard => "****-****-****-XXXX"@,
        DataType::Email => "u***@***.***"@,
        _ => "[REDACTED]"@,
    }
}

/// A zeroed byte sequence.
pub open spec fn zeros(n: nat) -> Seq<u8> {
    Seq::new(n, |i: int| 0u8)
}

/// The witness hash every entry carries: the hex rendering of the first
/// six bytes of the placeholder digest, which is zeroed in this core.
pub open spec fn witness_view() -> Seq<char> {
    hex_of(zeros(6))
}

/// The audit-reference placeholder: the witness hash's leading four hex
/// digits — the rendering of its first two bytes — in a reference frame.
pub open spec fn audit_ref_view() -> Seq<char> {
    "[AUDIT_REF:0x"@ + hex_of(zeros(2)) + "]"@
}

/// The audit trail of a detection list from position `i` on: for each
/// detection a detect entry, a transform entry and a record entry.
pub open spec fn spec_record(dets: Seq<DetectionView>, ts: u64, i: int) -> Seq<AuditView>
    decreases dets.len() - i,
{
    if i < 0 || i >= dets.len() {
        Seq::empty()
    } else {
        let d = dets[i];
        seq![
            AuditView {
                timestamp_ms: ts,
                stage: Stage::PiiDetect,
                field_path: d.field_path,
                original_type: data_type_label(d.data_type),
                placeholder: Seq::empty(),
                regulations: reg_names(d.regulation),
                witness_hash: witness_view(),
            },
            AuditView {
                timestamp_ms: ts,
                stage: Stage::ValueTransform,
                field_path: d.field_path,
                original_type: data_type_label(d.data_type),
                placeholder: mask_view(d.data_type),
                regulations: reg_names(d.regulation),
                witness_hash: witness_view(),
            },
            AuditView {
                timestamp_ms: ts,
                stage: Stage::AuditRecord,
                field_path: d.field_path,
                original_type: data_type_label(d.data_type),
                placeholder: audit_ref_view(),
                regulations: reg_names(d.regulation),
                witness_hash: witness_view(),
            },
        ] + spec_record(dets, ts, i + 1)
    }
}

/// The current time. In production a host import supplies it; within this
/// core it is the epoch.
fn current_timestamp_ms() -> (r: u64)
    ensures
        r == 0,
{
    0
}

/// Digest placeholder for the host's witnessing hash: zeroed bytes.
fn simple_hash(data: &[u8]) -> (r: [u8; 32])
    ensures
        zero_bytes(r@),
        r@.len() == 32,
{
    let _ = data;
    [0; 32]
}

/// The canonical name of a regulation.
fn reg_name_str(r: &Regulation) -> (s: &'static str)
    ensures
        s@ == reg_name(*r),
{
    match r {
        Regulation::Hipaa => "Hipaa",
        Regulation::PciDss => "PciDss",
        Regulation::Gdpr => "Gdpr",
        Regulation::Soc2 => "Soc2",
        Regulation::Ccpa => "Ccpa",
    }
}

/// The names of a regulation list, in order.
#[verifier::loop_isolation(false)]
fn reg_strings(rs: &[Regulation]) -> (r: Vec<String>)
    ensures
        r@.len() == rs@.len(),
        forall|i: int| 0 <= i < rs@.len() ==> r@[i]@ == reg_names(rs@)[i],
{
    let n = rs.len();
    let mut out: Vec<String> = Vec::new();
    let mut i: usize = 0;
    while i < n
        invariant
            i <= n,
            out@.len() == i,
            forall|a: int| 0 <= a < i ==> out@[a]@ == reg_name(rs@[a]),
        decreases n - i,
    {
        out.push(reg_name_str(&rs[i]).to_owned());
        i += 1;
    }
    out
}

/// The label of a data type.
fn data_type_label_str(dt: &DataType) -> (r: String)
    ensures
        r@ == data_type_label(*dt),
{
    match dt {
        DataType::Ssn => "Ssn".to_owned(),
        DataType::CreditCard => "CreditCard".to_owned(),
        DataType::PersonalName => "PersonalName".to_owned(),
        DataType::Email => "Email".to_owned(),
        DataType::PhoneNumber => "PhoneNumber".to_owned(),
        DataType::DateOfBirth => "DateOfBirth".to_owned(),
        DataType::Address => "Address".to_owned(),
        DataType::MedicalRecord => "MedicalRecord".to_owned(),
        DataType::FinancialAccount => "FinancialAccount".to_owned(),
        DataType::BiometricData => "BiometricData".to_owned(),
        DataType::Custom(name) => {
            let mut out = "Custom(\"".to_owned();
            out.append(name.as_str());
            out.append("\")");
            out
        },
    }
}

/// The masked preview of a data type.
fn placeholder_for_type(dt: &DataType) -> (r: String)
    ensures
        r@ == mask_view(*dt),
{
    match dt {
        DataType::Ssn => "***-**-XXXX".to_owned(),
        DataType::CreditCard => "****-****-****-XXXX".to_owned(),
        DataType::Email => "u***@***.***".to_owned(),
        _ => "[REDACTED]".to_owned(),
    }
}

/// The witness hash of one detection: the digest of the path, type label
/// and timestamp, rendered as hex of its first six bytes.
fn compute_witness_hash(detection: &Detection, timestamp: u64) -> (r: String)
    ensures
        r@ == witness_view(),
{
    let mut input = detection.field_path.clone();
    input.append("::");
    let label = data_type_label_str(&detection.data_type);
    input.append(label.as_str());
    input.append("::");
    let ts = u64_to_dec(timestamp);
    input.append(ts.as_str());
    let digest = simple_hash(input.as_str().as_bytes());
    let head = slice_subrange(digest.as_slice(), 0, 6);
    proof {
        assert(head@ =~= zeros(6));
    }
    hex_encode(head)
}

/// Create the audit trail entries for a detection list.
#[verifier::loop_isolation(false)]
pub fn record(detections: &[Detection]) -> (r: Vec<AuditEntry>)
    ensures
        audit_views(r@) == spec_record(det_views(detections@), 0, 0),
{
    let ghost dviews = det_views(detections@);
    let timestamp = current_timestamp_ms();
    let mut entries: Vec<AuditEntry> = Vec::new();
    let n = detections.len();
    let mut i: usize = 0;
    while i < n
        invariant
            i <= n,
            n == dviews.len(),
            timestamp == 0,
            audit_views(entries@) + spec_record(dviews, 0, i as int) =~= spec_record(
                dviews,
                0,
                0,
            ),
        decreases n - i,
    {
        let detection = &detections[i];
        let witness_hash = compute_witness_hash(detection, timestamp);
        let ghost before = entries@;
        // Stage 1 entry: what was detected.
        entries.push(
            AuditEntry {
                timestamp_ms: timestamp,
                stage: Stage::PiiDetect,
                field_path: detection.field_path.clone(),
                original_type: data_type_label_str(&detection.data_type),
                placeholder: String::new(),
                regulations: reg_strings(detection.regulation.as_slice()),
                witness_hash: witness_hash.clone(),
            },
        );
        // Stage 2 entry: what it was replaced with.
        entries.push(
            AuditEntry {
                timestamp_ms: timestamp,
                stage: Stage::ValueTransform,
                field_path: detection.field_path.clone(),
                original_type: data_type_label_str(&detection.data_type),
                placeholder: placeholder_for_type(&detection.data_type),
                regulations: reg_strings(detection.regulation.as_slice()),
                witness_hash: witness_hash.clone(),
            },
        );
        // Stage 3 entry: the record itself, referencing the witness.
        let mut audit_ref = "[AUDIT_REF:0x".to_owned();
        let digest = simple_hash(witness_hash.as_str().as_bytes());
        let head = slice_subrange(digest.as_slice(), 0, 2);
        proof {
            assert(head@ =~= zeros(2));
        }
        audit_ref.append(hex_encode(head).as_str());
        audit_ref.append("]");
        entries.push(
            AuditEntry {
                timestamp_ms: timestamp,
                stage: Stage::AuditRecord,
                field_path: detection.field_path.clone(),
                original_type: data_type_label_str(&detection.data_type),
                placeholder: audit_ref,
                regulations: reg_strings(detection.regulation.as_slice()),
                witness_hash,
            },
        );
        proof {
            assert(audit_views(entries@) =~= audit_views(before) + seq![
                audit_view(entries@[before.len() as int]),
                audit_view(entries@[before.len() as int + 1]),
                audit_view(entries@[before.len() as int + 2]),
            ]);
            assert(audit_view(entries@[before.len() as int]) =~~= spec_record(
                dviews,
                0,
                i as int,
            )[0]);
            assert(audit_view(entries@[before.len() as int + 1]) =~~= spec_record(
                dviews,
                0,
                i as int,
            )[1]);
            assert(audit_view(entries@[before.len() as int + 2]) =~~= spec_record(
                dviews,
                0,
                i as int,
            )[2]);
            assert(audit_views(entries@) + spec_record(dviews, 0, i as int + 1) =~= audit_views(
                before,
            ) + spec_record(dviews, 0, i as int));
        }
        i += 1;
    }
    proof {
        assert(spec_record(dviews, 0, n as int) =~= Seq::<AuditView>::empty());
        assert(audit_views(entries@) + Seq::<AuditView>::empty() =~= audit_views(entries@));
    }
    entries
}

} // verus!
