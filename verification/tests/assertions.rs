use winctl_mcp::checks::{
    assertion_from_failures, assertion_poll_step, assertion_response, clipboard_expected_summary,
    needs_element_pattern_state, text_matched_fields, window_text_matches, ElementExpectations,
    fragments_text, read_text_fragments, TextElement, bounds_within_tolerance, clipboard_failures, compile_optional_regex,
    contains_ci, expanded_state, redact_pattern_state, rgb_within_tolerance, role_matches, text_candidate_matches,
    toggle_checked, window_count_failures, AssertionAttempt, AssertionExpect, PatternFacts, PollStep, UiRect,
    element_assertion_mode, text_assertion_given, ElementRequestError, element_expected_summary, failure_response,
    element_attempt_extras, ToolFailure,
};
use winctl_mcp::crash::{crash_report_has_recent_entries, crash_report_provider_diagnostics, crash_report_summary};
use winctl_mcp::file_checks::{
    file_attempt_failures, file_expected_summary, file_needs_bytes, hex_string, sha256_hex, AssertFileRequest,
    FileObservation,
};
use winctl_mcp::json::{JsonNumber, JsonValue};
use winctl_mcp::pattern::CompiledRegex;
use winctl_mcp::requests::AssertClipboardRequest;
use winctl_mcp::registry_checks::{
    registry_attempt_failures, registry_data_kind, registry_expected_summary, registry_value_match,
    registry_value_summary, RegistryValue,
};

fn to_json(v: &serde_json::Value) -> JsonValue {
    match v {
        serde_json::Value::Null => JsonValue::Null,
        serde_json::Value::Bool(b) => JsonValue::Bool(*b),
        serde_json::Value::Number(n) => {
            if let Some(u) = n.as_u64() {
                JsonValue::Number(JsonNumber::PosInt(u))
            } else if let Some(i) = n.as_i64() {
                JsonValue::Number(JsonNumber::NegInt(i))
            } else {
                JsonValue::Number(JsonNumber::Float(n.as_f64().unwrap().to_bits()))
            }
        }
        serde_json::Value::String(s) => JsonValue::String(s.clone()),
        serde_json::Value::Array(items) => JsonValue::Array(items.iter().map(to_json).collect()),
        serde_json::Value::Object(map) => {
            JsonValue::Object(map.iter().map(|(k, v)| (k.clone(), to_json(v))).collect())
        }
    }
}

fn from_json(v: &JsonValue) -> serde_json::Value {
    match v {
        JsonValue::Null => serde_json::Value::Null,
        JsonValue::Bool(b) => serde_json::Value::Bool(*b),
        JsonValue::Number(JsonNumber::PosInt(u)) => serde_json::Value::from(*u),
        JsonValue::Number(JsonNumber::NegInt(i)) => serde_json::Value::from(*i),
        JsonValue::Number(JsonNumber::Float(bits)) => serde_json::Value::from(f64::from_bits(*bits)),
        JsonValue::String(s) => serde_json::Value::String(s.clone()),
        JsonValue::Array(items) => serde_json::Value::Array(items.iter().map(from_json).collect()),
        JsonValue::Object(entries) => {
            let mut map = serde_json::Map::new();
            for (k, v) in entries {
                map.insert(k.clone(), from_json(v));
            }
            serde_json::Value::Object(map)
        }
    }
}

fn j(text: &str) -> JsonValue {
    to_json(&serde_json::from_str::<serde_json::Value>(text).unwrap())
}

fn json_has_string(value: &serde_json::Value, needle: &str) -> bool {
    match value {
        serde_json::Value::String(s) => s == needle,
        serde_json::Value::Array(items) => items.iter().any(|item| json_has_string(item, needle)),
        serde_json::Value::Object(map) => map.values().any(|item| json_has_string(item, needle)),
        _ => false,
    }
}

fn pattern_json(state: &PatternFacts) -> serde_json::Value {
    let mut map = serde_json::Map::new();
    map.insert("value".into(), state.value.clone().map(serde_json::Value::String).unwrap_or_default());
    map.insert("value_readonly".into(), state.value_readonly.map(serde_json::Value::Bool).unwrap_or_default());
    serde_json::Value::Object(map)
}

#[test]
fn redacts_uia_pattern_values() {
    let state = PatternFacts {
        toggle_state: None,
        selected: None,
        expand_collapse_state: None,
        value: Some("typed-secret".into()),
        value_readonly: Some(false),
    };

    let redacted = redact_pattern_state(state);
    let json = pattern_json(&redacted);

    assert!(!json_has_string(&json, "typed-secret"));
    assert!(json_has_string(&json, "<redacted>"));
}

#[test]
fn redaction_keeps_missing_values_missing() {
    let state = PatternFacts {
        toggle_state: Some("on".into()),
        selected: Some(true),
        expand_collapse_state: None,
        value: None,
        value_readonly: None,
    };
    let redacted = redact_pattern_state(state.clone());
    assert_eq!(redacted, state);
}

#[test]
fn registry_summary_redacts_value_data() {
    let value = RegistryValue {
        name: "Password".into(),
        kind: "string".into(),
        raw_type: 1,
        data: JsonValue::String("registry-secret".into()),
        warnings: Vec::new(),
    };

    let summary = from_json(&registry_value_summary(Some(&value), true));

    assert!(!json_has_string(&summary, "registry-secret"));
    assert_eq!(summary["kind"], "string");
    assert_eq!(summary["value_match"], true);
    assert_eq!(summary["value_kind"], "string");
}

#[test]
fn registry_missing_value_summary_and_failures() {
    let summary = from_json(&registry_value_summary(None, false));
    assert_eq!(summary["exists"], false);
    assert_eq!(summary["value_present"], false);
    let failures = registry_attempt_failures(false, None, None, None);
    assert_eq!(failures, vec!["expected registry value present, but it could not be read"]);
    assert!(registry_attempt_failures(true, None, None, None).is_empty());
}

#[test]
fn registry_failures_compare_data_and_kind() {
    let value = RegistryValue {
        name: "Count".into(),
        kind: "dword".into(),
        raw_type: 4,
        data: j(r#"{"a": [1, 2.5, -0.0], "b": null}"#),
        warnings: vec!["note".into()],
    };
    let same = j(r#"{"a": [1, 2.5, 0.0], "b": null}"#);
    let different = j(r#"{"a": [1, 2.5], "b": null}"#);
    assert!(registry_value_match(Some(&same), Some(&value)));
    assert!(!registry_value_match(Some(&different), Some(&value)));
    assert!(!registry_value_match(Some(&same), None));
    assert!(registry_value_match(None, None));
    assert!(registry_attempt_failures(false, Some(&value), Some(&same), Some("DWORD")).is_empty());
    let failures = registry_attempt_failures(true, Some(&value), Some(&different), Some("string"));
    assert_eq!(
        failures,
        vec![
            "expected registry value absent, but it exists",
            "registry value data did not equal expected JSON",
            "registry kind was \"dword\"",
        ]
    );
    assert_eq!(registry_data_kind(&value.data), "object");
    let summary = from_json(&registry_value_summary(Some(&value), false));
    assert_eq!(summary["warnings"][0], "note");
    assert_eq!(summary["raw_type"], 4);
}

#[test]
fn registry_expected_summary_redacts_value() {
    let hive = JsonValue::String("HKCU".into());
    let summary = from_json(&registry_expected_summary(false, &hive, "Software\\App", Some("Password"), true, None));
    assert_eq!(summary["expect"], "present");
    assert_eq!(summary["value"], "<redacted>");
    assert_eq!(summary["kind"], serde_json::Value::Null);
    assert_eq!(summary["hive"], "HKCU");
}

#[test]
fn file_expected_redacts_content_predicates() {
    let expected = from_json(&file_expected_summary(&AssertFileRequest {
        path: "/tmp/example.txt".into(),
        expect: Some(AssertionExpect::Present),
        content: Some("file-secret".into()),
        content_contains: Some("token".into()),
        content_regex: Some("secret-[0-9]+".into()),
        sha256: Some("abc".into()),
        ..Default::default()
    }));

    assert!(!json_has_string(&expected, "file-secret"));
    assert!(!json_has_string(&expected, "token"));
    assert!(!json_has_string(&expected, "secret-[0-9]+"));
    assert_eq!(expected["content"], "<redacted>");
    assert_eq!(expected["content_contains"], "<redacted>");
    assert_eq!(expected["content_regex"], "<redacted>");
}

#[test]
fn file_failures_cover_presence_size_and_content() {
    let request = AssertFileRequest {
        path: "/tmp/example.txt".into(),
        content: Some("hello".into()),
        content_contains: Some("world".into()),
        size_bytes: Some(3),
        min_size_bytes: Some(10),
        max_size_bytes: Some(2),
        ..Default::default()
    };
    assert!(file_needs_bytes(&request));
    let observation = FileObservation {
        exists: true,
        size: Some(Ok(5)),
        bytes: Some(Ok(b"hello".to_vec())),
    };
    let failures = file_attempt_failures(&request, &observation, None);
    assert_eq!(
        failures,
        vec![
            "size_bytes was 5, expected 3",
            "size_bytes 5 was less than 10",
            "size_bytes 5 was greater than 2",
            "file content did not contain expected text",
        ]
    );

    let missing = FileObservation { exists: false, size: None, bytes: None };
    let failures = file_attempt_failures(&AssertFileRequest::default(), &missing, None);
    assert_eq!(failures, vec!["expected file present, but it does not exist"]);
    let absent = AssertFileRequest { expect: Some(AssertionExpect::Absent), ..Default::default() };
    assert!(file_attempt_failures(&absent, &missing, None).is_empty());
    assert!(!file_needs_bytes(&absent));
}

#[test]
fn file_failures_report_unreadable_metadata_and_bytes() {
    let request = AssertFileRequest { content_regex: Some("x".into()), ..Default::default() };
    let regex = CompiledRegex::compile("x").unwrap();
    let observation = FileObservation {
        exists: true,
        size: Some(Err("denied".into())),
        bytes: Some(Err("denied".into())),
    };
    let failures = file_attempt_failures(&request, &observation, Some(&regex));
    assert_eq!(
        failures,
        vec!["file metadata unavailable", "file bytes unavailable", "file content did not match regex"]
    );
}

#[test]
fn file_digest_is_compared_ignoring_case() {
    let digest = sha256_hex(b"abc");
    assert_eq!(digest, "ba7816bf8f01cfea414140de5dae2223b00361a396177a9cb410ff61f20015ad");
    let request = AssertFileRequest {
        sha256: Some("BA7816BF8F01CFEA414140DE5DAE2223B00361A396177A9CB410FF61F20015AD".into()),
        ..Default::default()
    };
    let observation = FileObservation { exists: true, size: Some(Ok(3)), bytes: Some(Ok(b"abc".to_vec())) };
    assert!(file_attempt_failures(&request, &observation, None).is_empty());
    let other = FileObservation { exists: true, size: Some(Ok(3)), bytes: Some(Ok(b"abd".to_vec())) };
    assert_eq!(file_attempt_failures(&request, &other, None), vec!["file sha256 did not match"]);
    assert_eq!(hex_string(&[0x00, 0x0f, 0xa0, 0xff]), "000fa0ff");
}

#[test]
fn run_assertion_supports_negation_and_polling() {
    let mut attempts = 0u64;
    let mut elapsed_ms = 0u64;
    let response = loop {
        attempts += 1;
        let raw_passed = attempts < 2;
        match assertion_poll_step(true, raw_passed, elapsed_ms, Some(200), Some(10)) {
            PollStep::Finish { passed } => {
                let attempt = AssertionAttempt {
                    passed,
                    expected: j("{}"),
                    actual: j(&format!("{{\"attempt\": {attempts}}}")),
                    predicate: "test".into(),
                    target: j(r#"{"kind": "unit"}"#),
                    diagnostics: Vec::new(),
                    extra: Vec::new(),
                };
                break from_json(&assertion_response(attempt, true, attempts, elapsed_ms));
            }
            PollStep::Wait { ms } => {
                assert_eq!(ms, 10);
                elapsed_ms += ms;
            }
        }
    };

    assert_eq!(response["ok"], true);
    assert_eq!(response["passed"], true);
    assert_eq!(response["negated"], true);
    assert_eq!(response["diagnostics"][0]["kind"], "polling");
    assert_eq!(attempts, 2);
}

#[test]
fn failed_assertion_reports_error_after_timeout() {
    assert_eq!(assertion_poll_step(false, false, 0, None, None), PollStep::Finish { passed: false });
    assert_eq!(assertion_poll_step(false, false, 5, Some(10), Some(1)), PollStep::Wait { ms: 10 });
    assert_eq!(assertion_poll_step(false, false, 5, Some(10), None), PollStep::Wait { ms: 100 });
    let attempt = AssertionAttempt {
        passed: false,
        expected: JsonValue::Null,
        actual: JsonValue::Null,
        predicate: "file".into(),
        target: JsonValue::Null,
        diagnostics: Vec::new(),
        extra: vec![("failures".into(), j(r#"["missing"]"#))],
    };
    let response = from_json(&assertion_response(attempt, false, 1, 3));
    assert_eq!(response["ok"], false);
    assert_eq!(response["error"]["code"], "assertion_failed");
    assert_eq!(response["failures"][0], "missing");
    assert_eq!(response["diagnostics"], serde_json::Value::Array(vec![]));
}

#[test]
fn text_candidate_requires_all_supplied_predicates() {
    let regex = CompiledRegex::compile("Order #[0-9]+").unwrap();

    assert!(text_candidate_matches("Order #42 ready", Some("order"), Some(&regex)));
    assert!(!text_candidate_matches("Invoice #42 ready", Some("order"), Some(&regex)));
    assert!(!text_candidate_matches("Order number forty two", Some("order"), Some(&regex)));
}

#[test]
fn invalid_assertion_regex_is_reported() {
    let error = match compile_optional_regex(Some("(")) {
        Err(error) => from_json(&error),
        Ok(_) => panic!("expected an invalid regex"),
    };
    assert_eq!(error["ok"], false);
    assert_eq!(error["error"]["code"], "invalid_assertion_regex");
    assert!(error["error"]["message"].as_str().unwrap().starts_with("invalid regex \"(\": "));
    assert!(matches!(compile_optional_regex(None), Ok(None)));
}

#[test]
fn crash_report_provider_diagnostics_fail_closed_when_unavailable() {
    let report = j(r#"{
        "ok": true,
        "event_log": {"provider_enabled": false, "entries": [], "error": {"code": "unsupported_platform"}},
        "wer": {"provider_enabled": true, "dump_paths": []}
    }"#);

    let diagnostics: Vec<serde_json::Value> =
        crash_report_provider_diagnostics(&report).iter().map(from_json).collect();
    let summary = from_json(&crash_report_summary(&report, Some(123)));

    assert_eq!(diagnostics.len(), 1);
    assert_eq!(diagnostics[0]["provider"], "event_log");
    assert_eq!(summary["event_log"]["provider_enabled"], false);
    assert_eq!(summary["wer"]["dump_count"], 0);
}

#[test]
fn crash_report_without_ok_reports_every_provider() {
    let report = j(r#"{"event_log": {"entries": [{"system": {"time_created": "1970-01-01T00:00:01Z"}}]}}"#);
    let diagnostics: Vec<serde_json::Value> =
        crash_report_provider_diagnostics(&report).iter().map(from_json).collect();
    assert_eq!(diagnostics.len(), 3);
    assert_eq!(diagnostics[0]["kind"], "provider_error");
    assert_eq!(diagnostics[2]["provider"], "wer");
    assert_eq!(diagnostics[2]["provider_enabled"], serde_json::Value::Null);
    // The one event was created at 1000 ms.
    assert!(crash_report_has_recent_entries(&report, Some(1000)));
    assert!(!crash_report_has_recent_entries(&report, Some(1001)));
    assert!(crash_report_has_recent_entries(&report, None));
    let summary = from_json(&crash_report_summary(&report, Some(5000)));
    assert_eq!(summary["ok"], false);
    assert_eq!(summary["event_log"]["entry_count"], 1);
    assert_eq!(summary["has_recent_entries"], false);
    let with_dump = j(r#"{"wer": {"dump_paths": ["C:/dump.dmp"]}}"#);
    assert!(crash_report_has_recent_entries(&with_dump, Some(u64::MAX)));
}

#[test]
fn element_predicates() {
    assert!(role_matches(Some("BUTTON"), "button"));
    assert!(!role_matches(None, "button"));
    assert!(contains_ci(Some("Hello World"), "WORLD"));
    assert_eq!(toggle_checked(Some("on")), Some(true));
    assert_eq!(toggle_checked(Some("indeterminate")), None);
    assert_eq!(expanded_state(Some("partially_expanded")), Some(true));
    assert_eq!(expanded_state(Some("collapsed")), Some(false));
    assert!(rgb_within_tolerance([10, 20, 30], [12, 18, 30], 2));
    assert!(!rgb_within_tolerance([10, 20, 30], [13, 20, 30], 2));
    let expected = UiRect { x: 10, y: 10, width: 100, height: 50 };
    assert!(bounds_within_tolerance(Some(UiRect { x: 12, y: 9, width: 100, height: 51 }), expected, 2));
    assert!(!bounds_within_tolerance(None, expected, 2));
    assert!(!bounds_within_tolerance(Some(UiRect { x: 13, y: 10, width: 100, height: 50 }), expected, -5));
}

#[test]
fn window_count_and_clipboard_failures() {
    assert_eq!(window_count_failures(2, Some(1), None, None, false), vec!["count 2 did not equal 1"]);
    assert!(window_count_failures(2, None, Some(1), Some(3), false).is_empty());
    assert_eq!(
        clipboard_failures("abc", Some("abd"), Some("z")),
        vec!["clipboard text did not equal expected text", "clipboard text did not contain requested text"]
    );
    assert!(clipboard_failures("abc", Some("abc"), Some("b")).is_empty());
}

#[test]
fn attempts_pass_exactly_without_failures() {
    let failed = assertion_from_failures(
        vec!["a".into(), "b".into()],
        "unit",
        JsonValue::Null,
        JsonValue::Null,
        JsonValue::Null,
        Vec::new(),
    );
    assert!(!failed.passed);
    let response = from_json(&assertion_response(failed, false, 1, 0));
    assert_eq!(
        response["failures"],
        serde_json::Value::Array(vec![serde_json::Value::from("a"), serde_json::Value::from("b")])
    );
    let passed = assertion_from_failures(Vec::new(), "unit", JsonValue::Null, JsonValue::Null, JsonValue::Null, Vec::new());
    assert!(passed.passed);
}

#[test]
fn pattern_state_is_read_only_when_checked() {
    let none = ElementExpectations::default();
    assert!(!needs_element_pattern_state(&none, false));
    assert!(needs_element_pattern_state(&none, true));
    let value = ElementExpectations { value_contains: Some("x".into()), ..Default::default() };
    assert!(needs_element_pattern_state(&value, false));
}

#[test]
fn clipboard_expectations_are_redacted() {
    let summary = from_json(&clipboard_expected_summary(&AssertClipboardRequest {
        expected: Some("secret text".into()),
        contains: None,
        max_chars: Some(10),
    }));
    assert!(!json_has_string(&summary, "secret text"));
    assert_eq!(summary["expected"], "<redacted>");
    assert_eq!(summary["contains"], serde_json::Value::Null);
    assert_eq!(summary["max_chars"], 10);
}

#[test]
fn text_visibility_sources() {
    let regex = CompiledRegex::compile("^Save").unwrap();
    assert_eq!(
        text_matched_fields(Some("Save file"), Some("saveButton"), None, Some("save"), None),
        vec!["name", "automation_id"]
    );
    assert_eq!(
        text_matched_fields(Some("Save file"), Some("saveButton"), Some("Button"), Some("save"), Some(&regex)),
        vec!["name"]
    );
    assert_eq!(
        window_text_matches(false, "Save changes", "SaveDialog", Some("SAVE"), None),
        vec!["window_title", "window_class"]
    );
    assert!(window_text_matches(true, "Save changes", "SaveDialog", Some("SAVE"), None).is_empty());
}

#[test]
fn read_text_collects_non_blank_fields() {
    let elements = vec![
        TextElement {
            element_ref: "e1".into(),
            name: Some("Save".into()),
            automation_id: Some("  ".into()),
            class_name: Some("Button".into()),
        },
        TextElement { element_ref: "e2".into(), name: None, automation_id: Some("status".into()), class_name: None },
    ];
    let fragments = read_text_fragments(&elements);
    let sources: Vec<(&str, &str, &str)> = fragments
        .iter()
        .map(|f| (f.source.as_str(), f.text.as_str(), f.element_ref.as_str()))
        .collect();
    assert_eq!(sources, vec![("name", "Save", "e1"), ("class_name", "Button", "e1"), ("automation_id", "status", "e2")]);
    assert_eq!(fragments_text(&fragments), "Save\nButton\nstatus");
    assert_eq!(fragments_text(&Vec::new()), "");
}

#[test]
fn element_requests_are_checked_before_evaluation() {
    // Pattern predicates with a count are refused unless the element is expected absent.
    assert_eq!(
        element_assertion_mode(true, false, true, true, false),
        Err(ElementRequestError::PatternStateNeedsSingleElement)
    );
    assert_eq!(element_assertion_mode(true, true, true, true, false), Ok(false));
    assert_eq!(element_assertion_mode(true, false, false, false, true), Ok(true));
    assert_eq!(element_assertion_mode(false, false, true, false, false), Err(ElementRequestError::SelectorRequired));
    assert_eq!(
        ElementRequestError::SelectorRequired.code_and_message(),
        ("uia_selector_required", "element_ref or selector is required")
    );
    assert_eq!(
        ElementRequestError::PatternStateNeedsSingleElement.code_and_message().0,
        "uia_pattern_assertion_requires_single_element"
    );
}

#[test]
fn text_assertion_needs_text_or_regex() {
    let refused = text_assertion_given(false, false).unwrap_err();
    assert_eq!(refused, ToolFailure { code: "text_assertion_required", message: "text or text_regex is required" });
    let answer = from_json(&failure_response(&refused, None));
    assert_eq!(answer["ok"], false);
    assert_eq!(answer["error"]["code"], "text_assertion_required");
    assert_eq!(answer["error"]["message"], "text or text_regex is required");
    assert_eq!(answer["path"], serde_json::Value::Null);
    assert_eq!(text_assertion_given(true, false), Ok(()));
    assert_eq!(text_assertion_given(false, true), Ok(()));
}

#[test]
fn element_expectations_are_reported_with_values_redacted() {
    let e = ElementExpectations {
        name: Some("Save".into()),
        value: Some("hunter2".into()),
        control_type_id: Some(-3),
        bounds: Some(UiRect { x: 1, y: -2, width: 30, height: 40 }),
        count: Some(0),
        ..Default::default()
    };
    let summary = from_json(&element_expected_summary(&e, true, Some("^Sa"), true));
    assert!(!json_has_string(&summary, "hunter2"));
    assert_eq!(summary["expect"], "absent");
    assert_eq!(summary["exists"], false);
    assert_eq!(summary["name"], "Save");
    assert_eq!(summary["name_regex"], "^Sa");
    assert_eq!(summary["value"], "<redacted>");
    assert_eq!(summary["value_regex"], "<redacted>");
    assert_eq!(summary["value_contains"], serde_json::Value::Null);
    assert_eq!(summary["control_type_id"], -3);
    assert_eq!(summary["bounds"]["y"], -2);
    assert_eq!(summary["count"], 0);
    let present = from_json(&element_expected_summary(&ElementExpectations::default(), false, None, false));
    assert_eq!(present["expect"], "present");
    assert_eq!(present["exists"], true);
}

#[test]
fn failure_answer_carries_its_path() {
    let f = ToolFailure { code: "image_open_failed", message: "cannot open" };
    let answer = from_json(&failure_response(&f, Some("C:/a.png")));
    assert_eq!(answer["path"], "C:/a.png");
    assert_eq!(answer["error"]["code"], "image_open_failed");
}

#[test]
fn element_attempt_gets_its_extra_details() {
    let attempt = assertion_from_failures(
        vec!["expected present, found no matches".to_string()],
        "all",
        JsonValue::Null,
        JsonValue::Null,
        JsonValue::Null,
        Vec::new(),
    );
    let extended = element_attempt_extras(attempt, 0, j("[]"), j(r#"{"elements": 3}"#));
    let keys: Vec<&str> = extended.extra.iter().map(|(k, _)| k.as_str()).collect();
    assert_eq!(keys, vec!["failures", "match_count", "matches", "snapshot_summary"]);
    assert_eq!(from_json(&extended.extra[1].1), 0);
    assert!(!extended.passed);
    let again = extended.with_extra("match_count", JsonValue::Number(JsonNumber::PosInt(2)));
    assert_eq!(again.extra.len(), 4);
    assert_eq!(from_json(&again.extra[1].1), 2);
    let diagnosed = again.with_diagnostics(vec![j(r#"{"kind": "provider_unavailable"}"#)]);
    assert_eq!(diagnosed.diagnostics.len(), 1);
}
