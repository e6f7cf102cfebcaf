use winctl_mcp::json::{JsonNumber, JsonValue};
use winctl_mcp::observability::{
    call_tool_error_code, call_tool_result_ok, is_sensitive_key, safe_summary, truncate_summary_string, unix_ms_from_elapsed,
    RequestRecord, ServerObservabilityState, MAX_SUMMARY_STRING_LEN, REQUEST_HISTORY_LIMIT,
};

fn to_json(v: &serde_json::Value) -> JsonValue {
    match v {
        serde_json::Value::Null => JsonValue::Null,
        serde_json::Value::Bool(b) => JsonValue::Bool(*b),
        serde_json::Value::Number(n) => {
            if let Some(u) = n.as_u64() {
                JsonValue::Number(JsonNumber::PosInt(u))
            } else if let Some(i) = n.as_i64() {
                JsonValue::Number(JsonNumber::NegInt(i))
            } else {
                JsonValue::Number(JsonNumber::Float(n.as_f64().unwrap().to_bits()))
            }
        }
        serde_json::Value::String(s) => JsonValue::String(s.clone()),
        serde_json::Value::Array(items) => JsonValue::Array(items.iter().map(to_json).collect()),
        serde_json::Value::Object(map) => {
            JsonValue::Object(map.iter().map(|(k, v)| (k.clone(), to_json(v))).collect())
        }
    }
}

fn from_json(v: &JsonValue) -> serde_json::Value {
    match v {
        JsonValue::Null => serde_json::Value::Null,
        JsonValue::Bool(b) => serde_json::Value::Bool(*b),
        JsonValue::Number(JsonNumber::PosInt(u)) => serde_json::Value::from(*u),
        JsonValue::Number(JsonNumber::NegInt(i)) => serde_json::Value::from(*i),
        JsonValue::Number(JsonNumber::Float(bits)) => serde_json::Value::from(f64::from_bits(*bits)),
        JsonValue::String(s) => serde_json::Value::String(s.clone()),
        JsonValue::Array(items) => serde_json::Value::Array(items.iter().map(from_json).collect()),
        JsonValue::Object(entries) => {
            let mut map = serde_json::Map::new();
            for (k, v) in entries {
                map.insert(k.clone(), from_json(v));
            }
            serde_json::Value::Object(map)
        }
    }
}

fn j(text: &str) -> JsonValue {
    to_json(&serde_json::from_str::<serde_json::Value>(text).unwrap())
}

#[test]
fn redactor_omits_sensitive_fields_for_representative_tools() {
    let cases = [
        (
            "input.type_text",
            j(r#"{"bound_id": "hwnd:0x0000000000000001", "text": "super secret typed text", "x": 10, "y": 20}"#),
            j(r#"{"ok": true, "typed": 24, "value": "leaked"}"#),
        ),
        (
            "macro.type_secret",
            j(r#"{"bound_id": "hwnd:0x0000000000000001", "secret_ref": "login-password", "value": "plaintext"}"#),
            j(r#"{"ok": false, "error": {"code": "missing_secret", "message": "secret_ref login-password"}}"#),
        ),
        (
            "clipboard.write",
            j(r#"{"text": "clipboard contents", "value": "also sensitive"}"#),
            j(r#"{"ok": true, "clipboard": "clipboard contents"}"#),
        ),
        (
            "memory.remember",
            j(r#"{"kind": "procedure", "text": "memory text", "tags": ["login"]}"#),
            j(r#"{"ok": true, "id": "mem-1", "text": "memory text"}"#),
        ),
    ];

    for (tool, args, result) in cases {
        let summary = safe_summary(tool, &args, Some(&result));
        let rendered = serde_json::to_string(&from_json(&summary)).unwrap();
        assert!(!rendered.contains("super secret typed text"));
        assert!(!rendered.contains("login-password"));
        assert!(!rendered.contains("clipboard contents"));
        assert!(!rendered.contains("memory text"));
        assert!(!rendered.contains("secret_ref"));
        assert!(!rendered.contains("\"text\""));
        assert!(!rendered.contains("\"value\""));
    }
}

#[test]
fn request_history_evicts_oldest_entries() {
    let mut state = ServerObservabilityState::default();
    let connection_id = state.register_connection("http", 1_000);
    let args = j("{}");
    let result = j(r#"{"ok": true}"#);
    for index in 0..(REQUEST_HISTORY_LIMIT + 5) {
        state.record_request(
            RequestRecord {
                connection_id: &connection_id,
                tool_name: "server.ping",
                started_at_unix_ms: index as u64,
                duration_ms: 1,
                ok: true,
                error_code: None,
                args: &args,
                result: Some(&result),
            },
            1_000,
        );
    }
    let snapshot = state.snapshot(1_000);
    assert_eq!(snapshot.recent_requests.len(), REQUEST_HISTORY_LIMIT);
    assert_eq!(snapshot.recent_requests[0].started_at_unix_ms, 5);
    assert_eq!(snapshot.connected_clients[0].request_count, (REQUEST_HISTORY_LIMIT + 5) as u64);
}

#[test]
fn client_registry_updates_initialize_metadata_and_last_tool() {
    let mut state = ServerObservabilityState::default();
    let connection_id = state.register_connection("stdio", 10);
    state.set_client_info(&connection_id, "codex", "1.2.3", 20);
    let args = j("{}");
    let result = j(r#"{"ok": true, "windows": [1, 2, 3]}"#);
    state.record_request(
        RequestRecord {
            connection_id: &connection_id,
            tool_name: "windows.list",
            started_at_unix_ms: 42,
            duration_ms: 7,
            ok: true,
            error_code: None,
            args: &args,
            result: Some(&result),
        },
        49,
    );

    let snapshot = state.snapshot(50);
    let client = &snapshot.connected_clients[0];
    assert_eq!(client.connection_id, "stdio");
    assert_eq!(client.name.as_deref(), Some("codex"));
    assert_eq!(client.version.as_deref(), Some("1.2.3"));
    assert_eq!(client.request_count, 1);
    assert_eq!(client.last_tool.as_deref(), Some("windows.list"));
    let summary = from_json(&snapshot.recent_requests[0].summary);
    assert_eq!(summary["result"]["windows_count"], 3);
}

#[test]
fn call_tool_result_helpers_read_structured_ok_and_error_code() {
    let content = j(r#"{"ok": false, "error": {"code": "control_consent_required"}}"#);
    // A structured tool result is not flagged as an error.
    assert!(!call_tool_result_ok(Some(&content), Some(false)));
    assert_eq!(call_tool_error_code(Some(&content)).as_deref(), Some("control_consent_required"));
}

#[test]
fn tool_result_without_ok_follows_error_flag() {
    let content = j(r#"{"value": 1}"#);
    assert!(call_tool_result_ok(Some(&content), None));
    assert!(!call_tool_result_ok(Some(&content), Some(true)));
    assert!(!call_tool_result_ok(None, Some(true)));
    assert_eq!(call_tool_error_code(Some(&content)), None);
}

#[test]
fn http_connections_are_numbered_and_stale_clients_dropped() {
    let mut state = ServerObservabilityState::new();
    let first = state.register_connection("http", 0);
    let second = state.register_connection("http", 1_000_000);
    assert_eq!(first, "http-1");
    assert_eq!(second, "http-2");
    // The first client was silent for more than fifteen minutes.
    let snapshot = state.snapshot(1_000_000);
    assert_eq!(snapshot.connected_clients.len(), 1);
    assert_eq!(snapshot.connected_clients[0].connection_id, "http-2");
    state.deregister_connection("http-2");
    assert!(state.snapshot(1_000_000).connected_clients.is_empty());
}

#[test]
fn long_strings_are_truncated_in_summaries() {
    let long: String = std::iter::repeat('a').take(MAX_SUMMARY_STRING_LEN + 10).collect();
    let truncated = truncate_summary_string(&long);
    assert_eq!(truncated.chars().count(), MAX_SUMMARY_STRING_LEN + 2);
    assert!(truncated.ends_with("..."));
    assert_eq!(truncate_summary_string("short"), "short");
    assert!(is_sensitive_key("secret"));
    assert!(is_sensitive_key("stdout"));
    assert!(!is_sensitive_key("bound_id"));
}

#[test]
fn clock_reading_maps_to_unix_milliseconds() {
    assert_eq!(unix_ms_from_elapsed(Some(1_700_000_000_123)), 1_700_000_000_123);
    assert_eq!(unix_ms_from_elapsed(None), 0);
    assert_eq!(unix_ms_from_elapsed(Some((1u128 << 64) + 5)), 5);
    assert_eq!(unix_ms_from_elapsed(Some(u64::MAX as u128)), u64::MAX);
}
