use winctl_mcp::desktop::{
    browser_assert_failures, browser_kind_name, classify_dialog, delay_duration_ms, dialog_attempt_failures,
    dialog_for_invoke, dialog_matches, dialog_scan_limits, first_foreground, is_button_element, is_dialog_like,
    is_uac_prompt, monitor_for_point, navigation_matched, navigation_poll_interval_ms, navigation_step,
    navigation_timeout_ms, no_dialog_attempt_failures, pointer_preflight_rejects, resolve_button_target,
    resolve_dialog_window, select_listed_dialogs, BrowserKind, ButtonCandidate, ButtonLookup, ButtonTargetError,
    DialogExpectations, DialogWindow, DialogWindowError, MonitorArea, NavigationStep,
};
use winctl_mcp::diagnostics::{
    bounded_utf8, build_program_check, build_run_outcome, build_tool_allowed, report_file_name, build_tool_basename, html_escape, html_report, junit_report, lines_of,
    parse_build_diagnostics, report_extension, report_format, xml_escape, ReportFormat, MAX_CAPTURED_OUTPUT,
};
use winctl_mcp::json::{JsonNumber, JsonValue};
use winctl_mcp::pattern::CompiledRegex;
use winctl_mcp::requests::DialogListRequest;

fn to_json(v: &serde_json::Value) -> JsonValue {
    match v {
        serde_json::Value::Null => JsonValue::Null,
        serde_json::Value::Bool(b) => JsonValue::Bool(*b),
        serde_json::Value::Number(n) => {
            if let Some(u) = n.as_u64() {
                JsonValue::Number(JsonNumber::PosInt(u))
            } else if let Some(i) = n.as_i64() {
                JsonValue::Number(JsonNumber::NegInt(i))
            } else {
                JsonValue::Number(JsonNumber::Float(n.as_f64().unwrap().to_bits()))
            }
        }
        serde_json::Value::String(s) => JsonValue::String(s.clone()),
        serde_json::Value::Array(items) => JsonValue::Array(items.iter().map(to_json).collect()),
        serde_json::Value::Object(map) => {
            JsonValue::Object(map.iter().map(|(k, v)| (k.clone(), to_json(v))).collect())
        }
    }
}

fn from_json(v: &JsonValue) -> serde_json::Value {
    match v {
        JsonValue::Null => serde_json::Value::Null,
        JsonValue::Bool(b) => serde_json::Value::Bool(*b),
        JsonValue::Number(JsonNumber::PosInt(u)) => serde_json::Value::from(*u),
        JsonValue::Number(JsonNumber::NegInt(i)) => serde_json::Value::from(*i),
        JsonValue::Number(JsonNumber::Float(bits)) => serde_json::Value::from(f64::from_bits(*bits)),
        JsonValue::String(s) => serde_json::Value::String(s.clone()),
        JsonValue::Array(items) => serde_json::Value::Array(items.iter().map(from_json).collect()),
        JsonValue::Object(entries) => {
            let mut map = serde_json::Map::new();
            for (k, v) in entries {
                map.insert(k.clone(), from_json(v));
            }
            serde_json::Value::Object(map)
        }
    }
}

fn j(text: &str) -> JsonValue {
    to_json(&serde_json::from_str::<serde_json::Value>(text).unwrap())
}

fn window(hwnd: &str, pid: u32, title: &str, class_name: &str, process: Option<&str>, foreground: bool) -> DialogWindow {
    DialogWindow {
        hwnd_hex: hwnd.into(),
        pid,
        title: title.into(),
        class_name: class_name.into(),
        process_name: process.map(|p| p.to_string()),
        foreground,
    }
}

#[test]
fn dialogs_are_classified() {
    let uac = window("0x1", 1, "User Account Control", "Credential Dialog", Some("Consent.EXE"), true);
    let save = window("0x2", 2, "Save As", "#32770", Some("notepad.exe"), true);
    let native = window("0x3", 3, "Confirm", "#32770", None, false);
    let plain = window("0x4", 4, "Editor", "Notepad", None, true);
    let background = window("0x5", 5, "Editor", "Notepad", None, false);
    assert!(is_uac_prompt(&uac) && is_dialog_like(&uac));
    assert_eq!(classify_dialog(&uac), "uac_prompt");
    assert_eq!(classify_dialog(&save), "file_dialog");
    assert_eq!(classify_dialog(&native), "native_dialog");
    assert_eq!(classify_dialog(&plain), "foreground_window");
    assert_eq!(classify_dialog(&background), "dialog");
    assert!(!is_dialog_like(&plain));
}

#[test]
fn dialog_list_selects_foreground_and_background_dialogs() {
    let windows = vec![
        window("0x1", 1, "Editor", "Notepad", None, true),
        window("0x2", 2, "Confirm", "#32770", None, false),
        window("0x3", 3, "Other", "Notepad", None, false),
    ];
    let request = |a: bool, b: bool| DialogListRequest {
        max_depth: None,
        max_elements: None,
        include_non_foreground: a,
        include_non_dialog_foreground: b,
    };
    assert!(select_listed_dialogs(&windows, &request(false, false)).is_empty());
    assert_eq!(select_listed_dialogs(&windows, &request(true, false)), vec![1]);
    assert_eq!(select_listed_dialogs(&windows, &request(true, true)), vec![0, 1]);
    assert_eq!(first_foreground(&windows), Some(0));
    assert_eq!(dialog_scan_limits(None, Some(5)), (8, 5));
}

#[test]
fn invoke_button_resolves_only_the_foreground_dialog() {
    let windows = vec![
        window("0xAB", 7, "Confirm", "#32770", None, false),
        window("0xab", 8, "Confirm", "#32770", None, true),
        window("0xcd", 8, "Editor", "Notepad", None, true),
        window("0xef", 9, "UAC", "Credential Dialog", Some("consent.exe"), true),
    ];
    assert_eq!(resolve_dialog_window(&windows, "0xAB", 8, false), Ok(1));
    assert_eq!(resolve_dialog_window(&windows, "0xab", 7, false), Err(DialogWindowError::NotForeground(0)));
    assert_eq!(resolve_dialog_window(&windows, "0xcd", 8, false), Err(DialogWindowError::NotDialog(2)));
    assert_eq!(resolve_dialog_window(&windows, "0xcd", 8, true), Ok(2));
    assert_eq!(resolve_dialog_window(&windows, "0x99", 8, true), Err(DialogWindowError::NotFound));
    assert_eq!(dialog_for_invoke(&windows, "0xEF", 9, false), Err(DialogWindowError::UacPrompt(3)));
    assert_eq!(DialogWindowError::UacPrompt(3).code(), "uac_prompt_not_automatable");
    assert_eq!(DialogWindowError::NotFound.code(), "dialog_not_found");
}

#[test]
fn button_targets_must_be_single_visible_buttons() {
    let button = ButtonCandidate { role: Some("Button".into()), offscreen: Some(false) };
    let split = ButtonCandidate { role: Some("SplitButton".into()), offscreen: Some(true) };
    let edit = ButtonCandidate { role: Some("Edit".into()), offscreen: None };
    assert_eq!(resolve_button_target(ButtonLookup::Reference(Some(button.clone())), false), Ok(button.clone()));
    assert_eq!(
        resolve_button_target(ButtonLookup::Reference(None), false),
        Err(ButtonTargetError::ReferenceNotFound)
    );
    assert_eq!(resolve_button_target(ButtonLookup::Selector(vec![]), false), Err(ButtonTargetError::NoSelectorMatch));
    assert_eq!(
        resolve_button_target(ButtonLookup::Selector(vec![button.clone(), edit.clone()]), false),
        Err(ButtonTargetError::Ambiguous(2))
    );
    assert_eq!(resolve_button_target(ButtonLookup::Selector(vec![edit]), false), Err(ButtonTargetError::NotButton));
    assert_eq!(resolve_button_target(ButtonLookup::Selector(vec![split.clone()]), false), Err(ButtonTargetError::Offscreen));
    assert_eq!(resolve_button_target(ButtonLookup::Selector(vec![split.clone()]), true), Ok(split));
    assert_eq!(resolve_button_target(ButtonLookup::Missing, true), Err(ButtonTargetError::SelectorRequired));
    assert_eq!(ButtonTargetError::Ambiguous(2).code(), "dialog_button_ambiguous");
    assert!(is_button_element(Some("Button")));
    assert!(!is_button_element(Some("button")));
    assert!(!is_button_element(None));
}

#[test]
fn dialog_assertions_match_and_count() {
    let dialog = j(r#"{"window": {"title": "Save changes?"}, "buttons": [{"name": "Save"}, {"name": "Don't Save"}]}"#);
    let text = serde_json::to_string(&from_json(&dialog)).unwrap();
    let regex = CompiledRegex::compile("^Save").unwrap();
    let expectations = DialogExpectations {
        title: None,
        title_contains: Some("CHANGES".into()),
        title_regex: Some("^Save".into()),
        text_contains: None,
        button_names: vec!["save".into(), "don't save".into()],
    };
    assert!(dialog_matches(&dialog, &text, &expectations, Some(&regex)));
    let missing_button = DialogExpectations { button_names: vec!["Cancel".into()], ..expectations.clone() };
    assert!(!dialog_matches(&dialog, &text, &missing_button, Some(&regex)));
    let exact = DialogExpectations { title: Some("Save changes".into()), ..Default::default() };
    assert!(!dialog_matches(&dialog, &text, &exact, None));
    assert!(dialog_matches(&j("{}"), "{}", &DialogExpectations::default(), None));
    assert_eq!(no_dialog_attempt_failures(true, 2), vec![
        "secure desktop appears active; UAC prompts cannot be automated",
        "found 2 dialog(s)",
    ]);
    assert!(no_dialog_attempt_failures(false, 0).is_empty());
    assert_eq!(dialog_attempt_failures(true, 3), vec!["expected absent, found 3 matching dialog(s)"]);
    assert_eq!(dialog_attempt_failures(false, 0), vec!["expected matching dialog, found none"]);
}

#[test]
fn browser_navigation_and_assertions() {
    assert!(navigation_matched("Inbox - Mail", Some("INBOX"), Some("loading")));
    assert!(!navigation_matched("Loading - Mail", Some("mail"), Some("LOADING")));
    assert!(navigation_matched("anything", None, None));
    assert_eq!(navigation_timeout_ms(None), 10_000);
    assert_eq!(navigation_poll_interval_ms(None), 100);
    assert_eq!(navigation_poll_interval_ms(Some(5)), 25);
    assert_eq!(navigation_step(true, 99_999, 1), NavigationStep::Matched);
    assert_eq!(navigation_step(false, 10_000, 10_000), NavigationStep::TimedOut);
    assert_eq!(navigation_step(false, 9_999, 10_000), NavigationStep::Wait);
    assert_eq!(
        browser_assert_failures(Some(BrowserKind::Edge), BrowserKind::Chrome, "Docs", "Chrome_WidgetWin_1", Some("mail"), Some("widget")),
        vec!["expected browser Edge, got Chrome", "title did not contain mail"]
    );
    assert!(browser_assert_failures(Some(BrowserKind::Chrome), BrowserKind::Chrome, "Docs", "x", None, None).is_empty());
    assert_eq!(browser_kind_name(BrowserKind::Firefox), "firefox");
}

#[test]
fn pointer_and_delay_decisions() {
    let monitors = vec![
        MonitorArea { x: 0, y: 0, width: 1920, height: 1080 },
        MonitorArea { x: 1920, y: 0, width: 1280, height: 1024 },
    ];
    assert_eq!(monitor_for_point(&monitors, 1919, 500), Some(0));
    assert_eq!(monitor_for_point(&monitors, 1920, 500), Some(1));
    assert_eq!(monitor_for_point(&monitors, 1920, 1024), None);
    assert_eq!(monitor_for_point(&monitors, -1, 0), None);
    assert!(pointer_preflight_rejects(None, false));
    assert!(!pointer_preflight_rejects(Some(false), false));
    assert!(!pointer_preflight_rejects(None, true));
    assert_eq!(delay_duration_ms(250), 250);
    assert_eq!(delay_duration_ms(120_000), 60_000);
}

#[test]
fn build_tools_are_allowlisted_by_base_name() {
    assert!(build_tool_allowed("CARGO"));
    assert!(build_tool_allowed("ctest"));
    assert!(!build_tool_allowed("powershell"));
    assert_eq!(build_tool_basename("/usr/bin/cargo"), "cargo");
    assert_eq!(build_tool_basename("dotnet.exe"), "dotnet");
}

#[test]
fn build_tool_base_name_of_a_full_path() {
    assert_eq!(build_tool_basename("C:/Tools/cargo.exe"), "cargo");
    let upper = build_tool_basename("C:/Tools/CARGO.EXE");
    assert_eq!(upper, "CARGO");
    assert!(build_tool_allowed(&upper));
    assert!(!build_tool_allowed(&build_tool_basename("C:/Windows/powershell.exe")));
    assert_eq!(build_tool_basename("tools/archive.tar.gz"), "archive.tar");
    assert_eq!(build_tool_basename("home/.bashrc"), ".bashrc");
    assert_eq!(build_tool_basename("bin/..cmake"), ".");
}

#[test]
fn captured_output_is_bounded() {
    let small = bounded_utf8(b"ok\xff".to_vec());
    assert_eq!(small.bytes, 3);
    assert!(!small.truncated);
    assert_eq!(small.text, "ok\u{fffd}");
    let big = bounded_utf8(vec![b'a'; MAX_CAPTURED_OUTPUT + 7]);
    assert!(big.truncated);
    assert_eq!(big.bytes, MAX_CAPTURED_OUTPUT + 7);
    assert_eq!(big.text.len(), MAX_CAPTURED_OUTPUT);
}

#[test]
fn build_output_is_scanned_for_errors_and_warnings() {
    assert_eq!(lines_of("a\r\nb\n\nc\n"), vec!["a", "b", "", "c"]);
    let diagnostics = from_json(&parse_build_diagnostics(
        "Compiling\nwarning: unused\nERROR: boom\n",
        "error[E0425]: missing\n",
    ));
    let errors = diagnostics["errors"].as_array().unwrap();
    let warnings = diagnostics["warnings"].as_array().unwrap();
    assert_eq!(errors.len(), 2);
    assert_eq!(errors[0]["stream"], "stdout");
    assert_eq!(errors[0]["line"], 3);
    assert_eq!(errors[1]["stream"], "stderr");
    assert_eq!(errors[1]["text"], "error[E0425]: missing");
    assert_eq!(warnings.len(), 1);
    assert_eq!(warnings[0]["line"], 2);
}

#[test]
fn reports_are_rendered_and_escaped() {
    assert_eq!(html_escape("<a href=\"x\">&'</a>"), "&lt;a href=&quot;x&quot;&gt;&amp;'&lt;/a&gt;");
    assert_eq!(xml_escape("'"), "&apos;");
    let passed = junit_report("run-1", &j(r#"{"status": "Succeeded"}"#));
    assert!(passed.contains("failures=\"0\""));
    assert!(!passed.contains("<failure"));
    let failed = junit_report("run-2", &j(r#"{"status": "failed"}"#));
    assert!(failed.contains("failures=\"1\""));
    assert!(failed.contains("<failure message=\"run status failed\"/>"));
    assert!(junit_report("run-3", &j("{}")).contains("run status unknown"));
    let html = html_report("run-1", "{\"a\": \"<b>\"}");
    assert!(html.contains("<title>winctl report run-1</title>"));
    assert!(html.contains("{&quot;a&quot;: &quot;&lt;b&gt;&quot;}"));
    assert_eq!(report_format(None), Some(ReportFormat::Json));
    assert_eq!(report_format(Some("XML")), Some(ReportFormat::Junit));
    assert_eq!(report_format(Some("pdf")), None);
    assert_eq!(report_extension(ReportFormat::Junit), "xml");
}

#[test]
fn build_runs_fail_on_timeout_and_reports_are_named() {
    assert_eq!(build_run_outcome(true, 10, None), (true, false));
    assert_eq!(build_run_outcome(true, 10, Some(5)), (false, true));
    assert_eq!(build_run_outcome(true, 5, Some(5)), (true, false));
    assert_eq!(build_run_outcome(false, 1, Some(5)), (false, false));
    assert_eq!(report_file_name("run-7", ReportFormat::Junit), "run-7-report.xml");
    assert_eq!(report_file_name("run-7", ReportFormat::Json), "run-7-report.json");
}

#[test]
fn build_run_refuses_programs_outside_the_allowlist() {
    let refused = build_program_check("powershell.exe").unwrap_err();
    assert_eq!(refused.code, "build_tool_not_allowlisted");
    assert_eq!(
        refused.message,
        "build.run only supports direct allowlisted build tools: cargo, dotnet, msbuild, cmake, ctest"
    );
    assert_eq!(build_program_check("C:/Tools/CARGO.EXE"), Ok("CARGO".to_string()));
    assert_eq!(build_program_check("ctest"), Ok("ctest".to_string()));
}
