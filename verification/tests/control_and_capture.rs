use winctl_mcp::capture::{
    check_video_stop, choose_video_target, next_recording_number, recording_file_stem, recording_id,
    video_settings, VideoStopError, VideoTargetChoice, VideoTargetError,
    capture_helper_timeout_error, decode_capture_helper_output, sanitize_path_component,
    screenshot_display_file_name, screenshot_window_file_name, CaptureError, CaptureErrorCode,
    CaptureHelperProcessOutput, CaptureHelperResponse, compare_pixels, DimensionsDiffer, image_source, ocr_region,
    start_recording_number, ImageSource, OcrRegionError, baseline_verdict, mapped_image_rect, scoped_image_region,
};
use winctl_mcp::control::{
    control_target_text, ControlConsentError, ControlRejectionCode, ControlRuntimeState, ControlStatus, MAX_EVENTS,
};
use winctl_mcp::json::{JsonNumber, JsonValue};
use winctl_mcp::requests::{ControlArmRequest, ControlConsentRequest, ControlRevokeRequest, VideoStartRequest};

fn to_json(v: &serde_json::Value) -> JsonValue {
    match v {
        serde_json::Value::Null => JsonValue::Null,
        serde_json::Value::Bool(b) => JsonValue::Bool(*b),
        serde_json::Value::Number(n) => {
            if let Some(u) = n.as_u64() {
                JsonValue::Number(JsonNumber::PosInt(u))
            } else if let Some(i) = n.as_i64() {
                JsonValue::Number(JsonNumber::NegInt(i))
            } else {
                JsonValue::Number(JsonNumber::Float(n.as_f64().unwrap().to_bits()))
            }
        }
        serde_json::Value::String(s) => JsonValue::String(s.clone()),
        serde_json::Value::Array(items) => JsonValue::Array(items.iter().map(to_json).collect()),
        serde_json::Value::Object(map) => {
            JsonValue::Object(map.iter().map(|(k, v)| (k.clone(), to_json(v))).collect())
        }
    }
}

fn from_json(v: &JsonValue) -> serde_json::Value {
    match v {
        JsonValue::Null => serde_json::Value::Null,
        JsonValue::Bool(b) => serde_json::Value::Bool(*b),
        JsonValue::Number(JsonNumber::PosInt(u)) => serde_json::Value::from(*u),
        JsonValue::Number(JsonNumber::NegInt(i)) => serde_json::Value::from(*i),
        JsonValue::Number(JsonNumber::Float(bits)) => serde_json::Value::from(f64::from_bits(*bits)),
        JsonValue::String(s) => serde_json::Value::String(s.clone()),
        JsonValue::Array(items) => serde_json::Value::Array(items.iter().map(from_json).collect()),
        JsonValue::Object(entries) => {
            let mut map = serde_json::Map::new();
            for (k, v) in entries {
                map.insert(k.clone(), from_json(v));
            }
            serde_json::Value::Object(map)
        }
    }
}

fn j(text: &str) -> JsonValue {
    to_json(&serde_json::from_str::<serde_json::Value>(text).unwrap())
}

fn screenshot_json() -> JsonValue {
    j(r#"{
        "output_path": "./captures/window-0x1.png",
        "region_virtual_desktop": {"x": 10, "y": 20, "width": 300, "height": 200},
        "width": 300,
        "height": 200
    }"#)
}

#[test]
fn screenshot_window_output_path_uses_safe_hwnd_component() {
    // The window's HWND is 0x0000000000981332; its file goes under the capture directory.
    let file_name = screenshot_window_file_name("0x0000000000981332");
    assert_eq!(file_name, "window-0x0000000000981332.png");
    assert!(!file_name.contains(':'));
    assert_eq!(screenshot_window_file_name("hwnd:0x1"), "window-hwnd_0x1.png");
    assert_eq!(sanitize_path_component("a/b\\c"), "a_b_c");
    assert_eq!(screenshot_display_file_name(2), "display-2.png");
}

#[test]
fn helper_success_stdout_decodes_screenshot() {
    let output = CaptureHelperProcessOutput {
        success: true,
        status_code: Some(0),
        stdout: "{\"ok\": true}".into(),
        stderr: String::new(),
        helper_pid: Some(1234),
        elapsed_ms: Some(50),
    };
    // What the helper's stdout parses to.
    let parsed = CaptureHelperResponse { ok: true, screenshot: Some(screenshot_json()), error: None };

    let screenshot = from_json(&decode_capture_helper_output(output, Some(Ok(parsed))).unwrap());

    assert_eq!(screenshot["output_path"], "./captures/window-0x1.png");
    assert_eq!(screenshot["region_virtual_desktop"]["x"], 10);
    assert_eq!(screenshot["width"], 300);
    assert_eq!(screenshot["height"], 200);
}

#[test]
fn helper_error_stdout_decodes_capture_error() {
    let output = CaptureHelperProcessOutput {
        success: true,
        status_code: Some(0),
        stdout: "{\"ok\": false}".into(),
        stderr: String::new(),
        helper_pid: Some(1234),
        elapsed_ms: Some(50),
    };
    let parsed = CaptureHelperResponse {
        ok: false,
        screenshot: None,
        error: Some(CaptureError {
            code: CaptureErrorCode::CaptureFailed,
            message: "windows-capture panicked".into(),
        }),
    };

    let error = decode_capture_helper_output(output, Some(Ok(parsed))).unwrap_err();

    assert_eq!(error.code, CaptureErrorCode::CaptureFailed);
    assert_eq!(error.message, "windows-capture panicked");
}

#[test]
fn helper_timeout_is_reported_as_capture_failed() {
    let error = capture_helper_timeout_error("window", 12, 1234, 12_050, "native stack stopped responding");

    assert_eq!(error.code, CaptureErrorCode::CaptureFailed);
    assert!(error.message.contains("window capture helper pid 1234 timed out"));
    assert!(error.message.contains("12s"));
    assert!(error.message.contains("12050ms"));
    assert!(error.message.contains("native stack stopped responding"));
}

#[test]
fn helper_crash_status_includes_native_exit_label() {
    let output = CaptureHelperProcessOutput {
        success: false,
        status_code: Some(0xC000_0005_u32 as i32),
        stdout: String::new(),
        stderr: "fault in d3d11".into(),
        helper_pid: Some(4321),
        elapsed_ms: Some(99),
    };

    let error = decode_capture_helper_output(output, None).unwrap_err();

    assert_eq!(error.code, CaptureErrorCode::CaptureFailed);
    assert!(error.message.contains("pid 4321"));
    assert!(error.message.contains("0xC0000005"));
    assert!(error.message.contains("access_violation"));
    assert!(error.message.contains("fault in d3d11"));
}

#[test]
fn helper_empty_or_invalid_stdout_is_capture_failure() {
    let output = CaptureHelperProcessOutput {
        success: true,
        status_code: Some(0),
        stdout: "   ".into(),
        stderr: String::new(),
        helper_pid: None,
        elapsed_ms: None,
    };
    let error = decode_capture_helper_output(output.clone(), None).unwrap_err();
    assert_eq!(error.message, "capture helper returned empty stdout");
    let garbled = CaptureHelperProcessOutput { stdout: "nope".into(), ..output };
    let error = decode_capture_helper_output(garbled, Some(Err("expected value".into()))).unwrap_err();
    assert_eq!(error.message, "invalid capture helper response: expected value; stdout: nope");
}

fn arm(state: &mut ControlRuntimeState, allow_for_ms: Option<u64>, now: u64) {
    state.control_arm(
        ControlArmRequest { session_id: Some("s1".into()), bound_id: None, allow_for_ms, reason: None },
        None,
        now,
    );
}

#[test]
fn armed_controller_allows_sensitive_action_until_deadline() {
    let mut state = ControlRuntimeState::new();
    assert!(state.require_explicit_consent);
    arm(&mut state, Some(10_000), 1_000);
    assert_eq!(state.status, ControlStatus::Armed);
    assert_eq!(state.armed_until_unix_ms, Some(11_000));
    let start = state.preflight_begin("input.click", None, "click", true, None, 2_000).unwrap();
    assert!(start.notification_sent);
    assert_eq!(start.event.kind, "notification");
    let started = state.preflight_after_countdown("input.click", "click", 3_500).unwrap();
    assert_eq!(started.kind, "control_started");
    assert_eq!(state.status, ControlStatus::Controlling);
    state.finish_control_action("input.click", "click", true, true, 4_000);
    assert_eq!(state.status, ControlStatus::Armed);
    // After the deadline a sensitive action needs consent again.
    let refused = state.preflight_begin("input.click", None, "click", true, None, 20_000).unwrap_err();
    assert_eq!(refused.code, ControlRejectionCode::ConsentRequired);
    assert_eq!(state.status, ControlStatus::Blocked);
}

#[test]
fn revoked_controller_refuses_every_action() {
    let mut state = ControlRuntimeState::new();
    arm(&mut state, None, 0);
    state.control_revoke(ControlRevokeRequest { session_id: None, reason: Some("user".into()) }, 10);
    assert_eq!(state.status, ControlStatus::Revoked);
    let refused = state.preflight_begin("windows.list", None, "read", false, None, 20).unwrap_err();
    assert_eq!(refused.code, ControlRejectionCode::Revoked);
    let refused = state.preflight_begin("input.click", None, "click", true, None, 25).unwrap_err();
    assert_eq!(refused.code, ControlRejectionCode::ConsentRequired);
    assert_eq!(refused.event.as_ref().map(|e| e.kind.as_str()), Some("blocked"));
    assert_eq!(state.status, ControlStatus::Revoked);
    let events = state.finish_control_action("x", "y", true, true, 30);
    assert_eq!(events.len(), 1);
    assert_eq!(events[0].kind, "overlay_cleared");
}

#[test]
fn fresh_controller_refuses_sensitive_action_until_armed() {
    let mut state = ControlRuntimeState::new();
    let refused = state.preflight_begin("input.click", None, "click", true, None, 5).unwrap_err();
    assert_eq!(refused.code, ControlRejectionCode::ConsentRequired);
    assert_eq!(state.status, ControlStatus::Blocked);
    let read = state.preflight_begin("windows.list", None, "read", false, None, 6).unwrap();
    assert!(!read.notification_sent);
    state.finish_control_action("windows.list", "read", true, true, 7);
    arm(&mut state, None, 10);
    let start = state.preflight_begin("input.click", None, "click", true, None, 20).unwrap();
    assert!(start.notification_sent);
}

#[test]
fn emergency_stop_cancels_countdown() {
    let mut state = ControlRuntimeState::new();
    arm(&mut state, None, 0);
    state.preflight_begin("input.click", None, "click", true, None, 0).unwrap();
    state.apply_emergency_stop("hotkey", 10);
    assert!(state.is_revoked());
    let refused = state.preflight_after_countdown("input.click", "click", 20).unwrap_err();
    assert_eq!(refused.code, ControlRejectionCode::RevokedDuringCountdown);
    assert!(refused.event.is_none());
}

#[test]
fn consent_decisions_and_unknown_decision() {
    let mut state = ControlRuntimeState::new();
    let request = |decision: &str| ControlConsentRequest {
        decision: decision.into(),
        session_id: None,
        bound_id: None,
        allow_for_ms: None,
    };
    state.control_consent(request("ALLOW_ONCE"), None, 100).unwrap();
    assert_eq!(state.status, ControlStatus::Armed);
    assert_eq!(state.armed_until_unix_ms, Some(30_100));
    state.control_consent(request("deny"), None, 200).unwrap();
    assert_eq!(state.status, ControlStatus::Blocked);
    let before = state.clone();
    assert_eq!(state.control_consent(request("maybe"), None, 300), Err(ControlConsentError::InvalidDecision));
    assert_eq!(ControlConsentError::InvalidDecision.code(), "invalid_control_decision");
    assert_eq!(
        ControlConsentError::InvalidDecision.message(),
        "decision must be allow_once, allow_session, deny, or revoke_session"
    );
    assert_eq!(state, before);
}

#[test]
fn event_log_stays_bounded_with_increasing_ids() {
    let mut state = ControlRuntimeState::new();
    for i in 0..(MAX_EVENTS as u64 + 20) {
        arm(&mut state, None, i);
    }
    assert_eq!(state.events.len(), MAX_EVENTS);
    assert!(state.events.windows(2).all(|pair| pair[0].id < pair[1].id));
    assert_eq!(state.events.last().unwrap().id, MAX_EVENTS as u64 + 20);
}

#[test]
fn arm_duration_is_clamped() {
    let mut state = ControlRuntimeState::new();
    arm(&mut state, Some(1), 0);
    assert_eq!(state.armed_until_unix_ms, Some(1_000));
    arm(&mut state, Some(u64::MAX), 0);
    assert_eq!(state.armed_until_unix_ms, Some(86_400_000));
    arm(&mut state, None, 5);
    assert_eq!(state.armed_until_unix_ms, Some(300_005));
}

#[test]
fn control_targets_are_described_with_stand_ins() {
    assert_eq!(control_target_text(None), "the active desktop");
    let target = j(r#"{"process_name": "Betty.exe", "pid": 42, "hwnd_hex": "0x1"}"#);
    assert_eq!(control_target_text(Some(&target)), "Betty.exe (PID 42, 0x1)");
    assert_eq!(control_target_text(Some(&j("{}"))), "target app (PID unknown, unknown HWND)");
}

#[test]
fn helper_response_mirrors_capture_outcome() {
    let ok = CaptureHelperResponse::from_result(Ok(screenshot_json()));
    assert!(ok.ok && ok.screenshot.is_some() && ok.error.is_none());
    let failed = CaptureHelperResponse::from_result(Err(CaptureError {
        code: CaptureErrorCode::Other("denied".into()),
        message: "no access".into(),
    }));
    assert!(!failed.ok && failed.screenshot.is_none());
    assert_eq!(failed.error.unwrap().message, "no access");
}

#[test]
fn video_target_and_settings() {
    assert_eq!(choose_video_target(Some("b1".into()), None, 0), Ok(VideoTargetChoice::Window("b1".into())));
    assert_eq!(choose_video_target(Some("b1".into()), Some(0), 2), Err(VideoTargetError::Ambiguous));
    assert_eq!(choose_video_target(None, None, 2), Ok(VideoTargetChoice::Display(0)));
    assert_eq!(choose_video_target(None, Some(2), 2), Err(VideoTargetError::NoDisplay(2)));
    assert_eq!(VideoTargetError::NoDisplay(2).message(), "display index 2 is unavailable");
    assert_eq!(VideoTargetError::Ambiguous.code(), "video_target_ambiguous");

    let request = VideoStartRequest {
        bound_id: None,
        display_index: None,
        frame_interval_ms: Some(10),
        max_duration_ms: None,
        max_frame_width: Some(100_000),
        max_frame_height: None,
        output_name: None,
    };
    let settings = video_settings(&request);
    assert_eq!(settings.frame_interval_ms, 100);
    assert_eq!(settings.max_duration_ms, 300_000);
    assert_eq!(settings.max_frame_width, 7680);
    assert_eq!(settings.max_frame_height, 720);

    assert_eq!(next_recording_number(0), 1);
    assert_eq!(next_recording_number(u64::MAX), u64::MAX);
    assert_eq!(recording_id(3), "video-3");
    assert_eq!(recording_file_stem("video-3", Some("demo run")), "demo_run");
    assert_eq!(recording_file_stem("video-3", Some("")), "video-3");
    assert_eq!(recording_file_stem("video-3", None), "video-3");
    assert_eq!(check_video_stop(None, None), Err(VideoStopError::NotActive));
    assert_eq!(check_video_stop(Some("video-1"), Some("video-2")), Err(VideoStopError::IdMismatch));
    assert_eq!(check_video_stop(Some("video-1"), Some("video-1")), Ok(()));
    assert_eq!(check_video_stop(Some("video-1"), None), Ok(()));
}

#[test]
fn baseline_comparison_counts_pixels_beyond_tolerance() {
    // Two 2x1 images: the first pixel differs by 3 on red, the second by 40 on blue.
    let actual = vec![10, 20, 30, 255, 100, 100, 140, 255];
    let baseline = vec![13, 20, 30, 0, 100, 100, 100, 255];
    let strict = compare_pixels(&actual, &baseline, (2, 1), (2, 1), None, None).unwrap();
    assert_eq!(strict.different_pixels, 2);
    assert!(!strict.passed);
    assert_eq!(strict.tolerance, 0);
    assert_eq!(strict.max_different_pixels, 0);
    assert_eq!(strict.diff_mask, vec![255, 0, 80, 255, 255, 0, 80, 255]);
    let loose = compare_pixels(&actual, &baseline, (2, 1), (2, 1), Some(5), Some(1)).unwrap();
    assert_eq!(loose.different_pixels, 1);
    assert!(loose.passed);
    assert_eq!(loose.diff_mask, vec![0, 0, 0, 0, 255, 0, 80, 255]);
    let same = compare_pixels(&actual, &actual, (2, 1), (2, 1), None, None).unwrap();
    assert!(same.passed);
    assert_eq!(same.different_pixels, 0);
}

#[test]
fn baseline_comparison_refuses_other_dimensions() {
    let actual = vec![0u8; 8];
    let baseline = vec![0u8; 8];
    assert_eq!(
        compare_pixels(&actual, &baseline, (2, 1), (1, 2), None, None),
        Err(DimensionsDiffer { actual: (2, 1), baseline: (1, 2) })
    );
}

#[test]
fn only_one_recording_runs_at_a_time() {
    assert_eq!(start_recording_number(true, 3), Err("video_recording_already_active"));
    assert_eq!(start_recording_number(false, 3), Ok(4));
    assert_eq!(start_recording_number(false, u64::MAX), Ok(u64::MAX));
}

#[test]
fn ocr_image_comes_from_path_or_screenshot() {
    assert_eq!(image_source(Some("a.png".into()), Some("b1".into())), Ok(ImageSource::Path("a.png".into())));
    assert_eq!(image_source(None, Some("b1".into())), Ok(ImageSource::BoundWindowScreenshot("b1".into())));
    let refused = image_source(None, None).unwrap_err();
    assert_eq!(refused.code, "image_or_bound_id_required");
    assert_eq!(refused.message, "image_path or bound_id is required");
}

#[test]
fn ocr_region_defaults_and_bounds() {
    assert_eq!(ocr_region(100, 50, None, None, None, None), Ok((0, 0, 100, 50)));
    assert_eq!(ocr_region(100, 50, Some(10), Some(5), None, None), Ok((10, 5, 90, 45)));
    assert_eq!(ocr_region(100, 50, Some(10), Some(5), Some(20), Some(10)), Ok((10, 5, 20, 10)));
    assert_eq!(ocr_region(100, 50, Some(100), None, None, None), Err(OcrRegionError::OriginOutside));
    assert_eq!(ocr_region(100, 50, Some(90), None, Some(20), None), Err(OcrRegionError::Invalid));
    assert_eq!(ocr_region(100, 50, None, None, Some(0), None), Err(OcrRegionError::Invalid));
    assert_eq!(
        OcrRegionError::Invalid.code_and_message(),
        ("ocr_region_invalid", "OCR region must fit inside the image and have non-zero size")
    );
}

#[test]
fn rejection_codes_and_messages() {
    assert_eq!(ControlRejectionCode::ConsentRequired.code(), "control_consent_required");
    assert_eq!(
        ControlRejectionCode::ConsentRequired.message(),
        "explicit control consent is required before this sensitive action"
    );
    assert_eq!(ControlRejectionCode::Revoked.code(), "control_revoked");
    assert_eq!(ControlRejectionCode::RevokedDuringCountdown.code(), "control_revoked");
    assert_eq!(
        ControlRejectionCode::RevokedDuringCountdown.message(),
        "control was revoked during the notification countdown"
    );
}

#[test]
fn baseline_verdict_of_each_outcome() {
    let actual = vec![0u8; 8];
    let differ = compare_pixels(&actual, &actual, (2, 1), (1, 2), None, None);
    let v = baseline_verdict(&differ);
    assert!(v.ok);
    assert!(!v.passed);
    let e = v.error.unwrap();
    assert_eq!(e.code, "image_dimensions_differ");
    assert_eq!(e.message, "actual and baseline dimensions differ");
    let same = compare_pixels(&actual, &actual, (2, 1), (2, 1), None, None);
    let v = baseline_verdict(&same);
    assert!(v.ok && v.passed && v.error.is_none());
}

#[test]
fn scoped_regions_and_refusals() {
    // Element scope: the element's rectangle moved by the offset.
    assert_eq!(
        scoped_image_region(true, false, true, true, Some((10, 20, 100, 50)), None, Some(5), None, None, Some(7)),
        Ok(Some((15, 20, 95, 7)))
    );
    assert_eq!(
        scoped_image_region(true, false, true, true, Some((u32::MAX - 1, 0, 3, 3)), None, Some(5), None, None, None),
        Ok(Some((u32::MAX, 0, 0, 3)))
    );
    let e = scoped_image_region(true, true, true, true, Some((0, 0, 1, 1)), None, None, None, None, None).unwrap_err();
    assert_eq!(e.code, "element_scope_requires_bound_window");
    assert_eq!(e.message, "element-scoped visual assertions require bound_id, not actual_path");
    let e = scoped_image_region(true, false, true, false, None, None, None, None, None, None).unwrap_err();
    assert_eq!(e.code, "screen_mapping_unavailable");
    let e = scoped_image_region(true, false, true, true, None, None, None, None, None, None).unwrap_err();
    assert_eq!(e.code, "element_scope_outside_capture");
    let e = scoped_image_region(false, false, false, false, None, None, None, None, None, None).unwrap_err();
    assert_eq!(e.code, "image_or_bound_id_required");
    // A region in the image, its size defaulting to the rest of the image.
    assert_eq!(
        scoped_image_region(false, true, false, false, None, Some((640, 480)), Some(40), Some(500), None, None),
        Ok(Some((40, 500, 600, 0)))
    );
    assert_eq!(scoped_image_region(false, true, false, false, None, None, None, None, None, None), Ok(None));
    assert_eq!(mapped_image_rect(3, 4, 10, 20), Some((3, 4, 10, 20)));
    assert_eq!(mapped_image_rect(-1, 4, 10, 20), None);
    assert_eq!(mapped_image_rect(3, 4, 0, 20), None);
}
