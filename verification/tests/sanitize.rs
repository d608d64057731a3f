use polykit::json::JsonValue;
use polykit::sanitize::detect::scan;
use polykit::sanitize::{sanitize, DataType, Regulation, Stage};

fn obj(entries: Vec<(&str, JsonValue)>) -> JsonValue {
    JsonValue::Object(entries.into_iter().map(|(k, v)| (k.to_string(), v)).collect())
}

fn str_val(s: &str) -> JsonValue {
    JsonValue::Str(s.to_string())
}

#[test]
fn scan_finds_an_ssn() {
    let input = obj(vec![("ssn", str_val("123-45-6789"))]);
    let detections = scan(&input);
    assert_eq!(detections.len(), 1);
    assert_eq!(detections[0].field_path, "ssn");
    assert_eq!(detections[0].data_type, DataType::Ssn);
    assert_eq!(detections[0].regulation, vec![Regulation::Hipaa, Regulation::Gdpr]);
    assert_eq!(detections[0].confidence, 95);
}

#[test]
fn scan_finds_a_card_number_by_luhn() {
    let input = obj(vec![("card", str_val("4111 1111 1111 1111"))]);
    let detections = scan(&input);
    assert_eq!(detections.len(), 1);
    assert_eq!(detections[0].data_type, DataType::CreditCard);
    assert_eq!(detections[0].confidence, 98);

    // Same digits failing the checksum are not reported.
    let bad = obj(vec![("card", str_val("4111 1111 1111 1112"))]);
    assert!(scan(&bad).is_empty());
}

#[test]
fn scan_finds_an_email_with_its_nested_path() {
    let input = obj(vec![("user", obj(vec![("contact", str_val("user@example.com"))]))]);
    let detections = scan(&input);
    assert_eq!(detections.len(), 1);
    assert_eq!(detections[0].field_path, "user.contact");
    assert_eq!(detections[0].data_type, DataType::Email);
    assert_eq!(detections[0].regulation, vec![Regulation::Gdpr]);
}

#[test]
fn scan_walks_arrays_with_indexed_paths() {
    let input = obj(vec![(
        "people",
        JsonValue::Array(vec![str_val("ok"), str_val("111-22-3333")]),
    )]);
    let detections = scan(&input);
    assert_eq!(detections.len(), 1);
    assert_eq!(detections[0].field_path, "people[1]");
}

#[test]
fn scan_ignores_harmless_values() {
    let input = obj(vec![
        ("name", str_val("hello")),
        ("n", JsonValue::Int(12345)),
        ("b", JsonValue::Bool(true)),
        ("short", str_val("a@b")),
    ]);
    assert!(scan(&input).is_empty());
}

#[test]
fn sanitize_redacts_in_place() {
    let input = obj(vec![
        ("ssn", str_val("123-45-6789")),
        ("note", str_val("fine")),
    ]);
    let result = sanitize(&input);
    assert_eq!(
        result.sanitized_data,
        obj(vec![("ssn", str_val("[PII_SSN]")), ("note", str_val("fine"))])
    );
}

#[test]
fn sanitize_redacts_nested_fields() {
    let input = obj(vec![("user", obj(vec![("mail", str_val("a@b.com1"))]))]);
    let result = sanitize(&input);
    assert_eq!(
        result.sanitized_data,
        obj(vec![("user", obj(vec![("mail", str_val("[PII_EMAIL]"))]))])
    );
}

#[test]
fn audit_trail_has_three_entries_per_detection() {
    let input = obj(vec![("ssn", str_val("123-45-6789"))]);
    let result = sanitize(&input);
    assert_eq!(result.audit_entries.len(), 3);
    let detect = &result.audit_entries[0];
    assert_eq!(detect.stage, Stage::PiiDetect);
    assert_eq!(detect.field_path, "ssn");
    assert_eq!(detect.original_type, "Ssn");
    assert_eq!(detect.placeholder, "");
    assert_eq!(detect.regulations, vec!["Hipaa".to_string(), "Gdpr".to_string()]);
    assert_eq!(detect.witness_hash, "000000000000");
    assert_eq!(detect.timestamp_ms, 0);

    let transform = &result.audit_entries[1];
    assert_eq!(transform.stage, Stage::ValueTransform);
    assert_eq!(transform.placeholder, "***-**-XXXX");

    let record = &result.audit_entries[2];
    assert_eq!(record.stage, Stage::AuditRecord);
    assert_eq!(record.placeholder, "[AUDIT_REF:0x0000]");
}

#[test]
fn clean_input_passes_through_with_no_audit() {
    let input = obj(vec![("greeting", str_val("hi"))]);
    let result = sanitize(&input);
    assert_eq!(result.sanitized_data, input);
    assert!(result.audit_entries.is_empty());
}

#[test]
fn custom_data_types_get_uppercased_placeholders() {
    let detection = polykit::sanitize::Detection {
        field_path: "badge".to_string(),
        data_type: DataType::Custom("employee_id".to_string()),
        regulation: vec![Regulation::Soc2],
        confidence: 80,
    };
    let input = obj(vec![("badge", str_val("E-1234"))]);
    let redacted = polykit::sanitize::transform::redact(&input, &[detection]);
    assert_eq!(redacted, obj(vec![("badge", str_val("[PII_EMPLOYEE_ID]"))]));
}

#[test]
fn set_at_path_descends_nested_objects() {
    let mut v = obj(vec![("a", obj(vec![("b", str_val("secret"))]))]);
    polykit::sanitize::transform::set_at_path(&mut v, "a.b", str_val("clean"));
    assert_eq!(v, obj(vec![("a", obj(vec![("b", str_val("clean"))]))]));

    // A path whose middle step is missing changes nothing.
    let mut w = obj(vec![("a", obj(vec![("b", str_val("x"))]))]);
    polykit::sanitize::transform::set_at_path(&mut w, "missing.b", str_val("y"));
    assert_eq!(w, obj(vec![("a", obj(vec![("b", str_val("x"))]))]));
}

#[test]
fn redacting_an_array_detection_adds_an_indexed_key() {
    // Paths into arrays are not dot-separated, so the redaction lands as a
    // fresh top-level binding named after the indexed path, and the array
    // element itself stays put.
    let input = obj(vec![(
        "people",
        JsonValue::Array(vec![str_val("111-22-3333")]),
    )]);
    let result = sanitize(&input);
    assert_eq!(
        result.sanitized_data,
        obj(vec![
            ("people", JsonValue::Array(vec![str_val("111-22-3333")])),
            ("people[0]", str_val("[PII_SSN]")),
        ])
    );
}
