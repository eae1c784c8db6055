use pm2_alerter::payload::{
    extract_embedded_object, parse_obj, payload_from_fields, ProcessFields, ID_KEY, NAME_KEY,
    OBJECT_DELIMITER, OBJECT_OPEN, PROCESS_KEY,
};

#[test]
fn payload_constants_have_their_texts() {
    assert_eq!(OBJECT_DELIMITER, ":{");
    assert_eq!(OBJECT_OPEN, "{");
    assert_eq!(PROCESS_KEY, "process");
    assert_eq!(ID_KEY, "pm_id");
    assert_eq!(NAME_KEY, "name");
}

#[test]
fn extract_embedded_object_restores_the_opening_brace() {
    let record = "s:process:event:{\"event\":\"online\"}";
    assert_eq!(extract_embedded_object(record), Some("{\"event\":\"online\"}".to_string()));
}

#[test]
fn extract_embedded_object_cuts_at_the_first_delimiter() {
    assert_eq!(extract_embedded_object("a:{b:{c"), Some("{b:{c".to_string()));
}

#[test]
fn extract_embedded_object_fails_without_a_delimiter() {
    assert_eq!(extract_embedded_object("s:process:event \"event\":\"online\""), None);
    assert_eq!(extract_embedded_object(""), None);
    assert_eq!(extract_embedded_object(":"), None);
    assert_eq!(extract_embedded_object("{:"), None);
}

#[test]
fn extract_embedded_object_at_the_end_of_the_text() {
    assert_eq!(extract_embedded_object("abc:{"), Some("{".to_string()));
}

#[test]
fn extract_embedded_object_counts_characters_not_bytes() {
    assert_eq!(
        extract_embedded_object("\u{2603}\u{1F600}:{\"n\":\"\u{e9}\"}"),
        Some("{\"n\":\"\u{e9}\"}".to_string())
    );
}

#[test]
fn parse_obj_reads_identifier_and_name() {
    let fields = parse_obj("{\"process\":{\"pm_id\":42,\"name\":\"api\"}}").unwrap();
    assert_eq!(fields.pm_id, Some(42));
    assert_eq!(fields.name, Some("api".to_string()));
}

#[test]
fn parse_obj_reads_a_negative_identifier() {
    let fields = parse_obj("{\"process\":{\"pm_id\":-1,\"name\":\"api\"}}").unwrap();
    assert_eq!(fields.pm_id, Some(-1));
}

#[test]
fn parse_obj_reports_missing_members_as_absent() {
    let fields = parse_obj("{\"process\":{\"name\":\"api\"}}").unwrap();
    assert_eq!(fields.pm_id, None);
    assert_eq!(fields.name, Some("api".to_string()));
    let fields = parse_obj("{\"process\":{\"pm_id\":3}}").unwrap();
    assert_eq!(fields.pm_id, Some(3));
    assert_eq!(fields.name, None);
    let fields = parse_obj("{\"event\":\"online\"}").unwrap();
    assert_eq!(fields.pm_id, None);
    assert_eq!(fields.name, None);
}

#[test]
fn parse_obj_reports_members_of_another_type_as_absent() {
    let fields = parse_obj("{\"process\":{\"pm_id\":\"42\",\"name\":7}}").unwrap();
    assert_eq!(fields.pm_id, None);
    assert_eq!(fields.name, None);
    let fields = parse_obj("{\"process\":{\"pm_id\":4.5,\"name\":null}}").unwrap();
    assert_eq!(fields.pm_id, None);
    assert_eq!(fields.name, None);
    let fields = parse_obj("{\"process\":{\"pm_id\":9223372036854775808,\"name\":\"x\"}}").unwrap();
    assert_eq!(fields.pm_id, None);
}

#[test]
fn parse_obj_accepts_json_that_is_no_object() {
    let fields = parse_obj("[1,2,3]").unwrap();
    assert_eq!(fields.pm_id, None);
    assert_eq!(fields.name, None);
}

#[test]
fn parse_obj_fails_on_malformed_json() {
    let error = parse_obj("{\"process\":{\"pm_id\":42").unwrap_err();
    assert!(!error.message.is_empty());
    assert!(parse_obj("").is_err());
    assert!(parse_obj("{\"a\":1}\0").is_err());
    assert!(parse_obj("{\"a\":1} trailing").is_err());
}

#[test]
fn payload_from_fields_needs_both_members() {
    let both = ProcessFields { pm_id: Some(42), name: Some("api".to_string()) };
    let payload = payload_from_fields(both).unwrap();
    assert_eq!(payload.pm_id, 42);
    assert_eq!(payload.name, "api");
    assert!(payload_from_fields(ProcessFields { pm_id: None, name: Some("api".to_string()) })
        .is_none());
    assert!(payload_from_fields(ProcessFields { pm_id: Some(42), name: None }).is_none());
    assert!(payload_from_fields(ProcessFields { pm_id: None, name: None }).is_none());
}

#[test]
fn reconstructed_object_parses_back_to_the_same_values() {
    let pm_id: i64 = 42;
    let name = "api";
    let rest = format!("\"event\":\"online\",\"process\":{{\"pm_id\":{},\"name\":\"{}\"}}}}", pm_id, name);
    let record = format!("s:process:event{}{}", OBJECT_DELIMITER, rest);
    let json = extract_embedded_object(&record).unwrap();
    assert_eq!(json, format!("{{{}", rest));
    let payload = payload_from_fields(parse_obj(&json).unwrap()).unwrap();
    assert_eq!(payload.pm_id, pm_id);
    assert_eq!(payload.name, name);
}

#[test]
fn reconstructed_object_round_trips_escaped_names_and_extreme_identifiers() {
    let rest = "\"process\":{\"name\":\"a \\\"b\\\" \\u00e9\",\"pm_id\":-9223372036854775808}}";
    let record = format!("prefix{}{}", OBJECT_DELIMITER, rest);
    let json = extract_embedded_object(&record).unwrap();
    let payload = payload_from_fields(parse_obj(&json).unwrap()).unwrap();
    assert_eq!(payload.pm_id, i64::MIN);
    assert_eq!(payload.name, "a \"b\" \u{e9}");
}
