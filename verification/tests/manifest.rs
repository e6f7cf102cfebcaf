use winctl_mcp::json::{JsonNumber, JsonValue};
use winctl_mcp::manifest::{
    dry_run_plan, validate_manifest, AppIdentity, ArtifactPolicy, BindingStrategy, CoordinateFallbackMetadata,
    CoordinateSpace, MacroManifest, MacroSection, MacroStep, MacroTarget, Rect, ReplayMetadata, Size, StepAudit,
    ToolCall, UiElementTarget, MACRO_MANIFEST_VERSION, MacroValidationSeverity,
};

fn to_json(v: &serde_json::Value) -> JsonValue {
    match v {
        serde_json::Value::Null => JsonValue::Null,
        serde_json::Value::Bool(b) => JsonValue::Bool(*b),
        serde_json::Value::Number(n) => {
            if let Some(u) = n.as_u64() {
                JsonValue::Number(JsonNumber::PosInt(u))
            } else if let Some(i) = n.as_i64() {
                JsonValue::Number(JsonNumber::NegInt(i))
            } else {
                JsonValue::Number(JsonNumber::Float(n.as_f64().unwrap().to_bits()))
            }
        }
        serde_json::Value::String(s) => JsonValue::String(s.clone()),
        serde_json::Value::Array(items) => JsonValue::Array(items.iter().map(to_json).collect()),
        serde_json::Value::Object(map) => {
            JsonValue::Object(map.iter().map(|(k, v)| (k.clone(), to_json(v))).collect())
        }
    }
}

fn j(text: &str) -> JsonValue {
    to_json(&serde_json::from_str::<serde_json::Value>(text).unwrap())
}

fn step(id: &str, tool: &str, args: &str, target: Option<MacroTarget>, timeout_ms: Option<u64>) -> MacroStep {
    MacroStep {
        id: id.into(),
        tool: tool.into(),
        args: j(args),
        target,
        timeout_ms,
        required: true,
        continue_on_failure: false,
        coordinate_fallback: None,
        audit: StepAudit::empty(),
    }
}

fn ui_target(name: &str, role: &str) -> MacroTarget {
    MacroTarget::UiElement(UiElementTarget {
        element_ref: None,
        name: Some(name.into()),
        role: Some(role.into()),
        control_type: None,
        automation_id: None,
        class_name: None,
        hierarchy_path: None,
        visible_text: Some(name.into()),
        required: true,
    })
}

fn betty_manifest() -> MacroManifest {
    let mut click = step(
        "click-settings",
        "input.click",
        r#"{"bound_id": "${bound_id}", "x": 0.5, "y": 0.5, "coordinate_space": "normalized_window"}"#,
        Some(ui_target("Settings", "Button")),
        None,
    );
    click.coordinate_fallback = Some(CoordinateFallbackMetadata {
        monitor_id: Some("primary".into()),
        virtual_desktop_x: 100,
        virtual_desktop_y: 120,
        window_rect: Rect { x: 80, y: 80, width: 1200, height: 800 },
        client_rect: None,
        dpi: Some(96),
        scale_factor_bits: Some(1.0f64.to_bits()),
        screenshot_size: Some(Size { width: 1200, height: 800 }),
        original_resolved_target: j(r#"{"name": "Settings"}"#),
        preflight_validation: j(r#"{"ok": true}"#),
    });
    let mut replay = ReplayMetadata::empty();
    replay.created_at = Some("2026-05-29T00:00:00Z".into());
    MacroManifest {
        version: MACRO_MANIFEST_VERSION.into(),
        kind: "test_procedure".into(),
        title: "Smoke test Betty standalone settings panel".into(),
        description: "Launch Betty standalone, open settings, and assert that the settings UI appears.".into(),
        tags: vec!["betty".into(), "standalone".into(), "settings".into()],
        app_identity: Some(AppIdentity {
            executable_name: Some("Betty.exe".into()),
            executable_path: None,
            product_name: Some("Betty".into()),
            required: true,
            extra: JsonValue::Null,
        }),
        launch: Some(ToolCall {
            tool: "process.launch".into(),
            args: j(r#"{"exe": "C:\\Betty\\Betty.exe", "wait_for_window": true}"#),
        }),
        bind: Some(BindingStrategy {
            strategy: "launched_process_main_window".into(),
            required_executable: Some("Betty.exe".into()),
            expected_identity_json: None,
            allow_child_process_windows: false,
        }),
        preconditions: vec![step(
            "main-window-visible",
            "windows.wait_for_window",
            r#"{"launch_id": "${launch_id}", "timeout_ms": 10000}"#,
            Some(MacroTarget::LaunchedProcessWindow {
                launch_id: Some("${launch_id}".into()),
                pid: None,
                hwnd: None,
            }),
            Some(10_000),
        )],
        steps: vec![
            step(
                "capture-before-settings",
                "capture.screenshot_window",
                r#"{"bound_id": "${bound_id}"}"#,
                Some(MacroTarget::BoundWindow { bound_id: Some("${bound_id}".into()) }),
                None,
            ),
            click,
        ],
        waits: vec![step(
            "settings-image-change",
            "capture.wait_for_window_image_change",
            r#"{"bound_id": "${bound_id}", "timeout_ms": 5000}"#,
            Some(MacroTarget::BoundWindow { bound_id: Some("${bound_id}".into()) }),
            Some(5_000),
        )],
        assertions: vec![step(
            "assert-settings-panel",
            "macro.assert_uia_element",
            r#"{"name": "Settings", "role": "Pane", "timeout_ms": 5000}"#,
            Some(ui_target("Settings", "Pane")),
            Some(5_000),
        )],
        cleanup: vec![],
        artifacts: ArtifactPolicy::default(),
        replay,
    }
}

#[test]
fn validator_accepts_semantic_betty_manifest() {
    let manifest = betty_manifest();
    let report = validate_manifest(&manifest);
    assert!(report.valid, "expected valid manifest, got issues: {:?}", report.issues);
}

#[test]
fn validator_rejects_unknown_tool_and_coordinate_without_metadata() {
    let mut manifest = betty_manifest();
    manifest.steps.push(step(
        "bad-coordinate",
        "input.click",
        r#"{"bound_id": "${bound_id}", "x": 4, "y": 9}"#,
        Some(MacroTarget::Coordinates { x: 4, y: 9, coordinate_space: CoordinateSpace::VirtualDesktop }),
        None,
    ));
    manifest.steps.push(MacroStep {
        id: "unknown".into(),
        tool: "browser.click_by_title".into(),
        args: JsonValue::Null,
        target: None,
        timeout_ms: None,
        required: true,
        continue_on_failure: false,
        coordinate_fallback: None,
        audit: StepAudit::empty(),
    });

    let report = validate_manifest(&manifest);
    assert!(!report.valid);
    assert!(report.issues.iter().any(|issue| issue.code == "unknown_tool"));
    assert!(report.issues.iter().any(|issue| issue.code == "coordinate_fallback_metadata_required"));
}

#[test]
fn dry_run_marks_mutating_and_artifact_steps() {
    let manifest = betty_manifest();
    let plan = dry_run_plan(&manifest).unwrap();
    let click = plan.steps.iter().find(|step| step.id == "click-settings").unwrap();
    assert!(click.mutates_ui);
    assert_eq!(click.target_strategy, "uia_element");

    let capture = plan.steps.iter().find(|step| step.id == "capture-before-settings").unwrap();
    assert!(capture.produces_artifact);
}

#[test]
fn dry_run_refuses_invalid_manifest_with_its_issues() {
    let mut manifest = betty_manifest();
    manifest.version = "winctl.macro.v0".into();
    let report = dry_run_plan(&manifest).unwrap_err();
    assert!(!report.valid);
    assert!(report.issues.iter().any(|issue| issue.code == "unsupported_version"));
}

#[test]
fn dry_run_lists_sections_in_manifest_order() {
    let plan = dry_run_plan(&betty_manifest()).unwrap();
    let sections: Vec<MacroSection> = plan.steps.iter().map(|step| step.section).collect();
    let ids: Vec<&str> = plan.steps.iter().map(|step| step.id.as_str()).collect();
    assert_eq!(plan.title, "Smoke test Betty standalone settings panel");
    assert_eq!(plan.manifest_version, MACRO_MANIFEST_VERSION);
    assert!(ids.contains(&"main-window-visible"));
    let precondition = sections.iter().position(|s| *s == MacroSection::Precondition).unwrap();
    let main_step = sections.iter().position(|s| *s == MacroSection::Step).unwrap();
    let wait = sections.iter().position(|s| *s == MacroSection::Wait).unwrap();
    let assertion = sections.iter().position(|s| *s == MacroSection::Assertion).unwrap();
    assert!(precondition < main_step && main_step < wait && wait < assertion);
}

#[test]
fn blank_description_only_warns() {
    let mut manifest = betty_manifest();
    manifest.description = "   ".into();
    let report = validate_manifest(&manifest);
    assert!(report.valid);
    let warnings: Vec<_> =
        report.issues.iter().filter(|i| i.severity == MacroValidationSeverity::Warning).collect();
    assert_eq!(warnings.len(), 1);
    assert_eq!(warnings[0].code, "missing_description");
    assert_eq!(warnings[0].path, "/description");
}

#[test]
fn launch_and_bind_alone_are_no_steps() {
    let mut manifest = betty_manifest();
    manifest.preconditions.clear();
    manifest.steps.clear();
    manifest.waits.clear();
    manifest.assertions.clear();
    let report = validate_manifest(&manifest);
    assert!(!report.valid);
    assert!(report.issues.iter().any(|i| i.code == "missing_steps" && i.path == "/steps"));
}

#[test]
fn bound_window_step_needs_identity_and_binding() {
    let mut manifest = betty_manifest();
    manifest.bind = None;
    let report = validate_manifest(&manifest);
    assert!(!report.valid);
    assert!(report.issues.iter().any(|i| i.code == "target_identity_required" && i.path == "/steps/0"));
    assert!(!validate_manifest(&betty_manifest()).issues.iter().any(|i| i.code == "target_identity_required"));
}

#[test]
fn valid_plan_has_a_step_per_call() {
    let manifest = betty_manifest();
    let plan = dry_run_plan(&manifest).unwrap();
    // Launch, bind, one precondition, two steps, one wait, one assertion.
    assert_eq!(plan.steps.len(), 7);
    assert_eq!(plan.steps[0].id, "launch");
    assert_eq!(plan.steps[1].id, "bind");
    assert_eq!(plan.steps[2].id, "main-window-visible");
}
