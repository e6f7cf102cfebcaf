//! Screen capture runs in a helper process; this module names its output
//! files, turns what the helper reports (its exit status, its standard output
//! and error) into a screenshot or a capture error, and chooses what a video
//! recording captures.

use vstd::prelude::*;

use crate::checks::{byte_distance, rgb_within_tolerance, ToolFailure};
use crate::json::{JsonValue, JsonView};
use crate::requests::VideoStartRequest;
use crate::text::{
    chars_of, concat2, concat3, owned, prefix_string, push_char, push_decimal, push_signed_decimal,
    push_str, spec_decimal, spec_signed_decimal, sv, trim_seq, trim_str,
};

verus! {

/// A path component keeps ASCII letters, digits, `.`, `-` and `_`; every other
/// character becomes `_`.
pub open spec fn safe_path_char(c: char) -> char {
    if ('a' <= c <= 'z') || ('A' <= c <= 'Z') || ('0' <= c <= '9') || c == '.' || c == '-' || c == '_' {
        c
    } else {
        '_'
    }
}

/// A value made safe for use as a file name component.
pub open spec fn safe_path_component(s: Seq<char>) -> Seq<char> {
    s.map_values(|c: char| safe_path_char(c))
}

/// Makes a value safe for use as a file name component.
pub fn sanitize_path_component(value: &str) -> (r: String)
    ensures
        r@ == safe_path_component(value@),
{
    let chars = chars_of(value);
    let mut r = String::new();
    let mut i: usize = 0;
    while i < chars.len()
        invariant
            i <= chars@.len(),
            r@ == safe_path_component(chars@.take(i as int)),
        decreases chars.len() - i,
    {
        let c = chars[i];
        let safe = if ('a' <= c && c <= 'z') || ('A' <= c && c <= 'Z') || ('0' <= c && c <= '9') || c
            == '.' || c == '-' || c == '_' {
            c
        } else {
            '_'
        };
        push_char(&mut r, safe);
        assert(safe_path_component(chars@.take(i + 1)) =~= safe_path_component(chars@.take(i as int)).push(safe));
        i += 1;
    }
    assert(chars@.take(chars@.len() as int) =~= chars@);
    r
}

/// The file name of a window screenshot: `window-<hwnd>.png`, the handle made safe.
pub open spec fn window_screenshot_name(hwnd_hex: Seq<char>) -> Seq<char> {
    "window-"@ + safe_path_component(hwnd_hex) + ".png"@
}

/// The file name of a window screenshot.
pub fn screenshot_window_file_name(hwnd_hex: &str) -> (r: String)
    ensures
        r@ == window_screenshot_name(hwnd_hex@),
{
    let safe = sanitize_path_component(hwnd_hex);
    concat3("window-", safe.as_str(), ".png")
}

/// The file name of a display screenshot: `display-<index>.png`.
pub fn screenshot_display_file_name(display_index: usize) -> (r: String)
    ensures
        r@ == "display-"@ + spec_decimal(display_index as nat) + ".png"@,
{
    let mut r = owned("display-");
    push_decimal(&mut r, display_index as u64);
    push_str(&mut r, ".png");
    r
}

/// The upper-case hexadecimal digit for `d < 16`.
pub open spec fn hex_upper(d: nat) -> char {
    if d < 10 {
        ((d + 48) as u8) as char
    } else {
        ((d - 10 + 65) as u8) as char
    }
}

/// The last `width` upper-case hexadecimal digits of `n`, zero-padded.
pub open spec fn hex_fixed(n: nat, width: nat) -> Seq<char>
    decreases width,
{
    if width == 0 {
        Seq::empty()
    } else {
        hex_fixed(n / 16, (width - 1) as nat).push(hex_upper(n % 16))
    }
}

fn push_hex_fixed(s: &mut String, n: u32, width: u32)
    ensures
        final(s)@ == old(s)@ + hex_fixed(n as nat, width as nat),
    decreases width,
{
    if width > 0 {
        push_hex_fixed(s, n / 16, width - 1);
        let d = (n % 16) as u8;
        let c = if d < 10 {
            (d + 48) as char
        } else {
            (d - 10 + 65) as char
        };
        push_char(s, c);
    }
}

/// The name of a well-known Windows crash status.
pub open spec fn exit_status_label(code: u32) -> Option<Seq<char>> {
    if code == 0xC000_0005 {
        Some("access_violation"@)
    } else if code == 0xC000_0409 {
        Some("stack_buffer_overrun"@)
    } else if code == 0xC000_00FD {
        Some("stack_overflow"@)
    } else if code == 0xC000_0374 {
        Some("heap_corruption"@)
    } else if code == 0xC000_013A {
        Some("control_c_exit"@)
    } else if code == 0xC000_0135 {
        Some("dll_not_found"@)
    } else {
        None
    }
}

/// An exit status as reported: the signed code, then its eight-digit hexadecimal
/// form and, for a well-known crash status, its name: `<code> (0x<HEX>, <name>)`.
pub open spec fn exit_status_text(code: i32) -> Seq<char> {
    let u = code as u32;
    spec_signed_decimal(code as int) + " (0x"@ + hex_fixed(u as nat, 8) + match exit_status_label(u) {
        Some(l) => ", "@ + l + ")"@,
        None => ")"@,
    }
}

fn exit_status_label_text(code: u32) -> (r: Option<&'static str>)
    ensures
        match r {
            Some(s) => exit_status_label(code) == Some(s@),
            None => exit_status_label(code) is None,
        },
{
    if code == 0xC000_0005 {
        Some("access_violation")
    } else if code == 0xC000_0409 {
        Some("stack_buffer_overrun")
    } else if code == 0xC000_00FD {
        Some("stack_overflow")
    } else if code == 0xC000_0374 {
        Some("heap_corruption")
    } else if code == 0xC000_013A {
        Some("control_c_exit")
    } else if code == 0xC000_0135 {
        Some("dll_not_found")
    } else {
        None
    }
}

/// Renders a process exit status.
pub fn format_exit_status_code(code: i32) -> (r: String)
    ensures
        r@ == exit_status_text(code),
{
    #[verifier::truncate]
    let unsigned = code as u32;
    let mut r = String::new();
    push_signed_decimal(&mut r, code as i64);
    push_str(&mut r, " (0x");
    push_hex_fixed(&mut r, unsigned, 8);
    match exit_status_label_text(unsigned) {
        Some(label) => {
            push_str(&mut r, ", ");
            push_str(&mut r, label);
            push_str(&mut r, ")");
        },
        None => {
            push_str(&mut r, ")");
        },
    }
    r
}

/// The longest helper output an error message quotes, in characters.
pub const OUTPUT_SUMMARY_LIMIT: usize = 500;

/// Helper output as an error message quotes it: trimmed, and cut to
/// `OUTPUT_SUMMARY_LIMIT` characters followed by `...` when longer.
pub open spec fn output_summary(s: Seq<char>) -> Seq<char> {
    let t = trim_seq(s);
    if t.len() <= OUTPUT_SUMMARY_LIMIT {
        t
    } else {
        t.take(OUTPUT_SUMMARY_LIMIT as int) + "..."@
    }
}

/// Summarizes helper output for an error message.
pub fn summarize_output(value: &str) -> (r: String)
    ensures
        r@ == output_summary(value@),
{
    let trimmed = trim_str(value);
    let chars = chars_of(trimmed.as_str());
    if chars.len() <= OUTPUT_SUMMARY_LIMIT {
        return trimmed;
    }
    let head = prefix_string(&chars, OUTPUT_SUMMARY_LIMIT);
    concat2(head.as_str(), "...")
}

/// What kind of capture error occurred.
#[derive(Debug, Clone, PartialEq, Eq)]
pub enum CaptureErrorCode {
    /// The capture failed (`capture_failed`).
    CaptureFailed,
    /// Any other code the helper reported.
    Other(String),
}

/// A capture error: its code and message.
#[derive(Debug, Clone, PartialEq, Eq)]
pub struct CaptureError {
    pub code: CaptureErrorCode,
    pub message: String,
}

/// The message for a helper that did not finish in time.
pub open spec fn timeout_message(kind: Seq<char>, timeout_secs: u64, pid: u32, elapsed_ms: u64, stderr: Seq<char>) -> Seq<char> {
    let s = output_summary(stderr);
    kind + " capture helper pid "@ + spec_decimal(pid as nat) + " timed out after "@ + spec_decimal(timeout_secs as nat)
        + "s ("@ + spec_decimal(elapsed_ms as nat) + "ms elapsed)"@ + if s.len() == 0 {
        Seq::empty()
    } else {
        "; stderr: "@ + s
    }
}

/// The error for a capture helper that did not finish within `timeout_secs` seconds.
pub fn capture_helper_timeout_error(
    capture_kind: &str,
    timeout_secs: u64,
    helper_pid: u32,
    elapsed_ms: u64,
    stderr: &str,
) -> (r: CaptureError)
    ensures
        r.code == CaptureErrorCode::CaptureFailed,
        r.message@ == timeout_message(capture_kind@, timeout_secs, helper_pid, elapsed_ms, stderr@),
{
    let summary = summarize_output(stderr);
    let mut message = concat2(capture_kind, " capture helper pid ");
    push_decimal(&mut message, helper_pid as u64);
    push_str(&mut message, " timed out after ");
    push_decimal(&mut message, timeout_secs);
    push_str(&mut message, "s (");
    push_decimal(&mut message, elapsed_ms);
    push_str(&mut message, "ms elapsed)");
    if !summary.as_str().is_empty() {
        push_str(&mut message, "; stderr: ");
        push_str(&mut message, summary.as_str());
    }
    CaptureError { code: CaptureErrorCode::CaptureFailed, message }
}

/// What the capture helper process left behind.
#[derive(Debug, Clone, PartialEq)]
pub struct CaptureHelperProcessOutput {
    pub success: bool,
    pub status_code: Option<i32>,
    pub stdout: String,
    pub stderr: String,
    pub helper_pid: Option<u32>,
    pub elapsed_ms: Option<u64>,
}

/// The response the capture helper prints: success with a screenshot, or failure with an error.
#[derive(Debug, Clone, PartialEq)]
pub struct CaptureHelperResponse {
    pub ok: bool,
    pub screenshot: Option<JsonValue>,
    pub error: Option<CaptureError>,
}

/// The message for a helper that exited unsuccessfully.
pub open spec fn exit_failure_message(o: CaptureHelperProcessOutput) -> Seq<char> {
    let pid = match o.helper_pid {
        Some(p) => " pid "@ + spec_decimal(p as nat),
        None => Seq::empty(),
    };
    let elapsed = match o.elapsed_ms {
        Some(e) => " after "@ + spec_decimal(e as nat) + "ms"@,
        None => Seq::empty(),
    };
    let status = match o.status_code {
        Some(c) => exit_status_text(c),
        None => "unknown"@,
    };
    let s = output_summary(o.stderr@);
    "capture helper"@ + pid + " exited with status "@ + status + elapsed + if s.len() == 0 {
        Seq::empty()
    } else {
        "; stderr: "@ + s
    }
}

/// What the helper's output comes to. A helper that exited unsuccessfully failed
/// (with its status and error output); one that printed nothing failed; one whose
/// output (`parsed`, from its trimmed standard output) could not be read failed
/// with the reason; otherwise its response decides: a screenshot on success, its
/// error on failure, and a failure when the response lacks either.
pub open spec fn helper_outcome(
    o: CaptureHelperProcessOutput,
    parsed: Option<Result<CaptureHelperResponse, String>>,
) -> Result<JsonView, (CaptureErrorCode, Seq<char>)> {
    let stdout = trim_seq(o.stdout@);
    if !o.success {
        Err((CaptureErrorCode::CaptureFailed, exit_failure_message(o)))
    } else if stdout.len() == 0 {
        Err((CaptureErrorCode::CaptureFailed, "capture helper returned empty stdout"@))
    } else {
        match parsed {
            Some(Err(reason)) => Err(
                (
                    CaptureErrorCode::CaptureFailed,
                    "invalid capture helper response: "@ + reason@ + "; stdout: "@ + output_summary(stdout),
                ),
            ),
            Some(Ok(response)) => if response.ok {
                match response.screenshot {
                    Some(s) => Ok(s@),
                    None => Err(
                        (CaptureErrorCode::CaptureFailed, "capture helper reported success without screenshot metadata"@),
                    ),
                }
            } else {
                match response.error {
                    Some(e) => Err((e.code, e.message@)),
                    None => Err(
                        (CaptureErrorCode::CaptureFailed, "capture helper reported failure without error metadata"@),
                    ),
                }
            },
            None => Err((CaptureErrorCode::CaptureFailed, Seq::empty())),
        }
    }
}

fn capture_failed(message: String) -> (r: CaptureError)
    ensures
        r.code == CaptureErrorCode::CaptureFailed,
        r.message == message,
{
    CaptureError { code: CaptureErrorCode::CaptureFailed, message }
}

/// Turns the helper's output into a screenshot or a capture error. `parsed` is
/// the helper's trimmed standard output read as a response (or why it could not
/// be); it must be given when the helper succeeded and printed something.
pub fn decode_capture_helper_output(
    output: CaptureHelperProcessOutput,
    parsed: Option<Result<CaptureHelperResponse, String>>,
) -> (r: Result<JsonValue, CaptureError>)
    requires
        output.success && trim_seq(output.stdout@).len() > 0 ==> parsed is Some,
    ensures
        match helper_outcome(output, parsed) {
            Ok(s) => r matches Ok(v) && v@ == s,
            Err((code, message)) => r matches Err(e) && e.code == code && e.message@ == message,
        },
{
    if !output.success {
        let stderr = summarize_output(output.stderr.as_str());
        let mut message = owned("capture helper");
        if let Some(pid) = output.helper_pid {
            push_str(&mut message, " pid ");
            push_decimal(&mut message, pid as u64);
        }
        push_str(&mut message, " exited with status ");
        match output.status_code {
            Some(code) => {
                let status = format_exit_status_code(code);
                push_str(&mut message, status.as_str());
            },
            None => push_str(&mut message, "unknown"),
        }
        if let Some(elapsed) = output.elapsed_ms {
            push_str(&mut message, " after ");
            push_decimal(&mut message, elapsed);
            push_str(&mut message, "ms");
        }
        if !stderr.as_str().is_empty() {
            push_str(&mut message, "; stderr: ");
            push_str(&mut message, stderr.as_str());
        }
        return Err(capture_failed(message));
    }
    let stdout = trim_str(output.stdout.as_str());
    if stdout.as_str().is_empty() {
        return Err(capture_failed(owned("capture helper returned empty stdout")));
    }
    match parsed {
        Some(Err(reason)) => {
            let mut message = concat2("invalid capture helper response: ", reason.as_str());
            push_str(&mut message, "; stdout: ");
            push_str(&mut message, summarize_output(stdout.as_str()).as_str());
            Err(capture_failed(message))
        },
        Some(Ok(response)) => {
            if response.ok {
                match response.screenshot {
                    Some(s) => Ok(s),
                    None => Err(capture_failed(owned("capture helper reported success without screenshot metadata"))),
                }
            } else {
                match response.error {
                    Some(e) => Err(e),
                    None => Err(capture_failed(owned("capture helper reported failure without error metadata"))),
                }
            }
        },
        None => Err(capture_failed(String::new())),
    }
}

impl CaptureHelperResponse {
    /// The response the helper writes for its capture's outcome.
    pub fn from_result(result: Result<JsonValue, CaptureError>) -> (r: CaptureHelperResponse)
        ensures
            r.ok == (result is Ok),
            match result {
                Ok(s) => r.screenshot == Some(s) && r.error is None,
                Err(e) => r.screenshot is None && r.error == Some(e),
            },
    {
        match result {
            Ok(screenshot) => CaptureHelperResponse { ok: true, screenshot: Some(screenshot), error: None },
            Err(error) => CaptureHelperResponse { ok: false, screenshot: None, error: Some(error) },
        }
    }
}

/// What a video recording captures.
#[derive(Debug, Clone, PartialEq, Eq)]
pub enum VideoTargetChoice {
    /// The bound window with this ID.
    Window(String),
    /// The display with this index.
    Display(usize),
}

/// Why a video recording has no target.
#[derive(Debug, Clone, PartialEq, Eq)]
pub enum VideoTargetError {
    /// Both a bound window and a display were named.
    Ambiguous,
    /// The display index names no display.
    NoDisplay(usize),
}

impl VideoTargetError {
    /// The error code reported.
    pub fn code(&self) -> (r: &'static str)
        ensures
            r@ == match *self {
                VideoTargetError::Ambiguous => "video_target_ambiguous"@,
                VideoTargetError::NoDisplay(_) => "no_display"@,
            },
    {
        match self {
            VideoTargetError::Ambiguous => "video_target_ambiguous",
            VideoTargetError::NoDisplay(_) => "no_display",
        }
    }

    /// The message reported.
    pub fn message(&self) -> (r: String)
        ensures
            r@ == match *self {
                VideoTargetError::Ambiguous => "specify either bound_id or display_index, not both"@,
                VideoTargetError::NoDisplay(i) => "display index "@ + spec_decimal(i as nat) + " is unavailable"@,
            },
    {
        match self {
            VideoTargetError::Ambiguous => owned("specify either bound_id or display_index, not both"),
            VideoTargetError::NoDisplay(i) => {
                let mut m = owned("display index ");
                push_decimal(&mut m, *i as u64);
                push_str(&mut m, " is unavailable");
                m
            },
        }
    }
}

/// Chooses what a recording captures: the bound window when only it is named,
/// else the display (the first by default) if there is one with that index;
/// naming both is refused.
pub fn choose_video_target(bound_id: Option<String>, display_index: Option<usize>, display_count: usize) -> (r: Result<
    VideoTargetChoice,
    VideoTargetError,
>)
    ensures
        match (bound_id, display_index) {
            (Some(b), None) => r == Ok::<VideoTargetChoice, VideoTargetError>(VideoTargetChoice::Window(b)),
            (Some(_), Some(_)) => r == Err::<VideoTargetChoice, VideoTargetError>(VideoTargetError::Ambiguous),
            (None, d) => {
                let i = match d {
                    Some(i) => i,
                    None => 0,
                };
                if i < display_count {
                    r == Ok::<VideoTargetChoice, VideoTargetError>(VideoTargetChoice::Display(i))
                } else {
                    r == Err::<VideoTargetChoice, VideoTargetError>(VideoTargetError::NoDisplay(i))
                }
            },
        },
{
    match (bound_id, display_index) {
        (Some(b), None) => Ok(VideoTargetChoice::Window(b)),
        (Some(_), Some(_)) => Err(VideoTargetError::Ambiguous),
        (None, d) => {
            let i = match d {
                Some(i) => i,
                None => 0,
            };
            if i < display_count {
                Ok(VideoTargetChoice::Display(i))
            } else {
                Err(VideoTargetError::NoDisplay(i))
            }
        },
    }
}

/// The frame interval a recording uses unless asked otherwise, in milliseconds.
pub const DEFAULT_VIDEO_FRAME_INTERVAL_MS: u64 = 250;

/// How long a recording runs at most unless asked otherwise (five minutes).
pub const DEFAULT_VIDEO_MAX_DURATION_MS: u64 = 300000;

/// The largest frame width unless asked otherwise.
pub const DEFAULT_VIDEO_MAX_FRAME_WIDTH: u32 = 1280;

/// The largest frame height unless asked otherwise.
pub const DEFAULT_VIDEO_MAX_FRAME_HEIGHT: u32 = 720;

/// The smallest frame bound a recording accepts.
pub const MIN_VIDEO_FRAME_DIMENSION: u32 = 64;

/// The largest frame bound a recording accepts.
pub const MAX_VIDEO_FRAME_DIMENSION: u32 = 7680;

/// `v` brought into `[lo, hi]`.
pub open spec fn clamp_between(v: int, lo: int, hi: int) -> int {
    if v < lo {
        lo
    } else if v > hi {
        hi
    } else {
        v
    }
}

/// How a recording runs: its frame interval, its longest duration, and the
/// largest frame it keeps.
#[derive(Debug, Clone, Copy, PartialEq, Eq)]
pub struct VideoSettings {
    pub frame_interval_ms: u64,
    pub max_duration_ms: u64,
    pub max_frame_width: u32,
    pub max_frame_height: u32,
}

fn clamp_u64(v: u64, lo: u64, hi: u64) -> (r: u64)
    requires
        lo <= hi,
    ensures
        r == clamp_between(v as int, lo as int, hi as int),
{
    if v < lo {
        lo
    } else if v > hi {
        hi
    } else {
        v
    }
}

fn clamp_u32(v: u32, lo: u32, hi: u32) -> (r: u32)
    requires
        lo <= hi,
    ensures
        r == clamp_between(v as int, lo as int, hi as int),
{
    if v < lo {
        lo
    } else if v > hi {
        hi
    } else {
        v
    }
}

/// The settings of a recording: each requested value (or its default) brought
/// into range: the frame interval into 100 ms to 5 s, the duration into 500 ms
/// to 30 minutes, and each frame bound into 64 to 7680 pixels.
pub fn video_settings(request: &VideoStartRequest) -> (r: VideoSettings)
    ensures
        r.frame_interval_ms == clamp_between(
            match request.frame_interval_ms {
                Some(v) => v as int,
                None => DEFAULT_VIDEO_FRAME_INTERVAL_MS as int,
            },
            100,
            5000,
        ),
        r.max_duration_ms == clamp_between(
            match request.max_duration_ms {
                Some(v) => v as int,
                None => DEFAULT_VIDEO_MAX_DURATION_MS as int,
            },
            500,
            1800000,
        ),
        r.max_frame_width == clamp_between(
            match request.max_frame_width {
                Some(v) => v as int,
                None => DEFAULT_VIDEO_MAX_FRAME_WIDTH as int,
            },
            MIN_VIDEO_FRAME_DIMENSION as int,
            MAX_VIDEO_FRAME_DIMENSION as int,
        ),
        r.max_frame_height == clamp_between(
            match request.max_frame_height {
                Some(v) => v as int,
                None => DEFAULT_VIDEO_MAX_FRAME_HEIGHT as int,
            },
            MIN_VIDEO_FRAME_DIMENSION as int,
            MAX_VIDEO_FRAME_DIMENSION as int,
        ),
{
    let interval = match request.frame_interval_ms {
        Some(v) => v,
        None => DEFAULT_VIDEO_FRAME_INTERVAL_MS,
    };
    let duration = match request.max_duration_ms {
        Some(v) => v,
        None => DEFAULT_VIDEO_MAX_DURATION_MS,
    };
    let width = match request.max_frame_width {
        Some(v) => v,
        None => DEFAULT_VIDEO_MAX_FRAME_WIDTH,
    };
    let height = match request.max_frame_height {
        Some(v) => v,
        None => DEFAULT_VIDEO_MAX_FRAME_HEIGHT,
    };
    VideoSettings {
        frame_interval_ms: clamp_u64(interval, 100, 5000),
        max_duration_ms: clamp_u64(duration, 500, 1800000),
        max_frame_width: clamp_u32(width, MIN_VIDEO_FRAME_DIMENSION, MAX_VIDEO_FRAME_DIMENSION),
        max_frame_height: clamp_u32(height, MIN_VIDEO_FRAME_DIMENSION, MAX_VIDEO_FRAME_DIMENSION),
    }
}

/// The number of the next recording after `current`: one more, staying at the
/// largest number once there.
pub fn next_recording_number(current: u64) -> (r: u64)
    ensures
        r == if current == u64::MAX {
            u64::MAX
        } else {
            (current + 1) as u64
        },
        r >= 1,
{
    if current == u64::MAX {
        u64::MAX
    } else {
        current + 1
    }
}

/// The number a new recording takes when `current` is the last one given, or
/// `video_recording_already_active` while a recording runs (only one may run).
pub fn start_recording_number(active: bool, current: u64) -> (r: Result<u64, &'static str>)
    ensures
        active ==> (r matches Err(code) && code@ == "video_recording_already_active"@),
        !active ==> r == Ok::<u64, &'static str>(
            if current == u64::MAX {
                u64::MAX
            } else {
                (current + 1) as u64
            },
        ),
{
    if active {
        Err("video_recording_already_active")
    } else {
        Ok(next_recording_number(current))
    }
}

/// The ID of recording number `n`: `video-<n>`.
pub open spec fn recording_id_for(n: u64) -> Seq<char> {
    "video-"@ + spec_decimal(n as nat)
}

/// The ID of recording number `n`.
pub fn recording_id(n: u64) -> (r: String)
    ensures
        r@ == recording_id_for(n),
{
    let mut r = owned("video-");
    push_decimal(&mut r, n);
    r
}

/// The name a recording's files take: the requested name made safe, unless
/// that leaves nothing, else the recording's ID.
pub fn recording_file_stem(recording_id: &str, output_name: Option<&str>) -> (r: String)
    ensures
        r@ == match output_name {
            Some(n) => if safe_path_component(n@).len() > 0 {
                safe_path_component(n@)
            } else {
                recording_id@
            },
            None => recording_id@,
        },
{
    match output_name {
        Some(n) => {
            let safe = sanitize_path_component(n);
            if safe.as_str().is_empty() {
                owned(recording_id)
            } else {
                safe
            }
        },
        None => owned(recording_id),
    }
}

/// Why a video recording cannot be stopped.
#[derive(Debug, Clone, Copy, PartialEq, Eq, Structural)]
pub enum VideoStopError {
    /// No recording is active (`video_recording_not_active`).
    NotActive,
    /// The request names another recording (`video_recording_id_mismatch`).
    IdMismatch,
}

/// Whether a stop request may stop the active recording: one must be active,
/// and a requested ID must be its ID.
pub fn check_video_stop(active_id: Option<&str>, requested_id: Option<&str>) -> (r: Result<(), VideoStopError>)
    ensures
        match active_id {
            None => r == Err::<(), VideoStopError>(VideoStopError::NotActive),
            Some(a) => match requested_id {
                Some(q) if q@ != a@ => r == Err::<(), VideoStopError>(VideoStopError::IdMismatch),
                _ => r is Ok,
            },
        },
{
    match active_id {
        None => Err(VideoStopError::NotActive),
        Some(a) => match requested_id {
            Some(q) => {
                if crate::text::str_eq(q, a) {
                    Ok(())
                } else {
                    Err(VideoStopError::IdMismatch)
                }
            },
            None => Ok(()),
        },
    }
}

// ---------------------------------------------------------------------------
// Comparing a capture with its baseline
// ---------------------------------------------------------------------------

/// Pixel `i` of two RGBA images (four bytes a pixel, row by row) has each of
/// its red, green and blue channels within `tolerance`; alpha is not compared.
pub open spec fn pixel_close(actual: Seq<u8>, baseline: Seq<u8>, i: int, tolerance: u8) -> bool {
    &&& byte_distance(actual[4 * i], baseline[4 * i]) <= tolerance
    &&& byte_distance(actual[4 * i + 1], baseline[4 * i + 1]) <= tolerance
    &&& byte_distance(actual[4 * i + 2], baseline[4 * i + 2]) <= tolerance
}

/// How many of the first `n` pixels are not within `tolerance`.
pub open spec fn differing_pixels(actual: Seq<u8>, baseline: Seq<u8>, tolerance: u8, n: nat) -> nat
    decreases n,
{
    if n == 0 {
        0
    } else {
        differing_pixels(actual, baseline, tolerance, (n - 1) as nat) + if pixel_close(
            actual,
            baseline,
            n - 1,
            tolerance,
        ) {
            0nat
        } else {
            1nat
        }
    }
}

/// The diff image's pixel: transparent where the images agree, opaque
/// `(255, 0, 80)` where they differ.
pub open spec fn mask_pixel(close: bool) -> Seq<u8> {
    if close {
        seq![0u8, 0u8, 0u8, 0u8]
    } else {
        seq![255u8, 0u8, 80u8, 255u8]
    }
}

/// The diff image of the first `n` pixels, as RGBA bytes.
pub open spec fn diff_mask(actual: Seq<u8>, baseline: Seq<u8>, tolerance: u8, n: nat) -> Seq<u8>
    decreases n,
{
    if n == 0 {
        Seq::empty()
    } else {
        diff_mask(actual, baseline, tolerance, (n - 1) as nat) + mask_pixel(
            pixel_close(actual, baseline, n - 1, tolerance),
        )
    }
}

/// The outcome of comparing an image with its baseline.
#[derive(Debug, Clone, PartialEq)]
pub struct BaselineComparison {
    /// Whether at most `max_different_pixels` pixels differ.
    pub passed: bool,
    pub different_pixels: u64,
    pub max_different_pixels: u64,
    pub tolerance: u8,
    /// The diff image (same size as the two images), as RGBA bytes.
    pub diff_mask: Vec<u8>,
}

/// The two images have different dimensions (`image_dimensions_differ`); each
/// is given as (width, height).
#[derive(Debug, Clone, Copy, PartialEq, Eq)]
pub struct DimensionsDiffer {
    pub actual: (u32, u32),
    pub baseline: (u32, u32),
}

/// Compares two RGBA images (four bytes a pixel, row by row) of the given
/// dimensions. Images of different dimensions are refused. Otherwise a pixel
/// differs when one of its red, green and blue channels is further than
/// `tolerance` (default 0) from the baseline's; the comparison passes when at
/// most `max_different_pixels` (default 0) pixels differ, and the diff image
/// marks each differing pixel.
pub fn compare_pixels(
    actual: &Vec<u8>,
    baseline: &Vec<u8>,
    actual_dims: (u32, u32),
    baseline_dims: (u32, u32),
    tolerance: Option<u8>,
    max_different_pixels: Option<u64>,
) -> (r: Result<BaselineComparison, DimensionsDiffer>)
    requires
        actual@.len() == 4 * (actual_dims.0 * actual_dims.1),
        baseline@.len() == 4 * (baseline_dims.0 * baseline_dims.1),
    ensures
        actual_dims != baseline_dims ==> r == Err::<BaselineComparison, DimensionsDiffer>(
            DimensionsDiffer { actual: actual_dims, baseline: baseline_dims },
        ),
        actual_dims == baseline_dims ==> ({
            let t = match tolerance {
                Some(t) => t,
                None => 0u8,
            };
            let max = match max_different_pixels {
                Some(m) => m,
                None => 0u64,
            };
            let n = (actual_dims.0 * actual_dims.1) as nat;
            &&& r is Ok
            &&& r->Ok_0.different_pixels == differing_pixels(actual@, baseline@, t, n)
            &&& r->Ok_0.passed == (r->Ok_0.different_pixels <= max)
            &&& r->Ok_0.max_different_pixels == max
            &&& r->Ok_0.tolerance == t
            &&& r->Ok_0.diff_mask@ == diff_mask(actual@, baseline@, t, n)
        }),
{
    if actual_dims.0 != baseline_dims.0 || actual_dims.1 != baseline_dims.1 {
        return Err(DimensionsDiffer { actual: actual_dims, baseline: baseline_dims });
    }
    let t: u8 = match tolerance {
        Some(t) => t,
        None => 0,
    };
    let max: u64 = match max_different_pixels {
        Some(m) => m,
        None => 0,
    };
    let len: usize = actual.len();
    let n: usize = len / 4;
    proof {
        assert(4 * (actual_dims.0 * actual_dims.1) % 4 == 0) by (nonlinear_arith);
    }
    let ghost a = actual@;
    let ghost b = baseline@;
    let mut mask: Vec<u8> = Vec::new();
    let mut different: u64 = 0;
    let mut i: usize = 0;
    while i < n
        invariant
            a == actual@,
            b == baseline@,
            4 * n == a.len(),
            4 * n <= usize::MAX,
            a.len() == b.len(),
            i <= n,
            different as nat == differing_pixels(a, b, t, i as nat),
            different <= i,
            mask@ == diff_mask(a, b, t, i as nat),
        decreases n - i,
    {
        let base: usize = 4 * i;
        let actual_rgb: [u8; 3] = [actual[base], actual[base + 1], actual[base + 2]];
        let baseline_rgb: [u8; 3] = [baseline[base], baseline[base + 1], baseline[base + 2]];
        let close = rgb_within_tolerance(actual_rgb, baseline_rgb, t);
        assert(close == pixel_close(a, b, i as int, t)) by {
            assert(actual_rgb@[0] == a[4 * i] && actual_rgb@[1] == a[4 * i + 1] && actual_rgb@[2] == a[4 * i + 2]);
            assert(baseline_rgb@[0] == b[4 * i] && baseline_rgb@[1] == b[4 * i + 1] && baseline_rgb@[2] == b[4 * i + 2]);
        }
        let ghost before = mask@;
        if close {
            mask.push(0);
            mask.push(0);
            mask.push(0);
            mask.push(0);
        } else {
            different = different + 1;
            mask.push(255);
            mask.push(0);
            mask.push(80);
            mask.push(255);
        }
        assert(mask@ =~= before + mask_pixel(close));
        i = i + 1;
    }
    proof {
        assert(n == actual_dims.0 * actual_dims.1);
    }
    Ok(BaselineComparison {
        passed: different <= max,
        different_pixels: different,
        max_different_pixels: max,
        tolerance: t,
        diff_mask: mask,
    })
}

/// An image compared with itself has no differing pixel, whatever the tolerance.
pub proof fn lemma_image_matches_itself(image: Seq<u8>, tolerance: u8, n: nat)
    ensures
        differing_pixels(image, image, tolerance, n) == 0,
    decreases n,
{
    if n > 0 {
        lemma_image_matches_itself(image, tolerance, (n - 1) as nat);
    }
}

/// The diff image of `n` pixels has four bytes a pixel.
pub proof fn lemma_diff_mask_len(actual: Seq<u8>, baseline: Seq<u8>, tolerance: u8, n: nat)
    ensures
        diff_mask(actual, baseline, tolerance, n).len() == 4 * n,
    decreases n,
{
    if n > 0 {
        lemma_diff_mask_len(actual, baseline, tolerance, (n - 1) as nat);
    }
}

/// How a pixel is judged: pixel `i` (of the first `n`) differs exactly when its
/// red, green or blue byte is further than `tolerance` from the baseline's, and
/// then the diff image marks it opaque `(255, 0, 80)` and at least one pixel is
/// counted as differing; otherwise the diff image leaves it transparent.
pub proof fn lemma_pixel_judged_by_each_channel(
    actual: Seq<u8>,
    baseline: Seq<u8>,
    tolerance: u8,
    n: nat,
    i: int,
)
    requires
        0 <= i < n,
    ensures
        ({
            let differs = byte_distance(actual[4 * i], baseline[4 * i]) > tolerance
                || byte_distance(actual[4 * i + 1], baseline[4 * i + 1]) > tolerance
                || byte_distance(actual[4 * i + 2], baseline[4 * i + 2]) > tolerance;
            &&& diff_mask(actual, baseline, tolerance, n).subrange(4 * i, 4 * i + 4) == if differs {
                seq![255u8, 0u8, 80u8, 255u8]
            } else {
                seq![0u8, 0u8, 0u8, 0u8]
            }
            &&& differs ==> differing_pixels(actual, baseline, tolerance, n) >= 1
        }),
    decreases n,
{
    let prev = (n - 1) as nat;
    lemma_diff_mask_len(actual, baseline, tolerance, prev);
    let m = diff_mask(actual, baseline, tolerance, n);
    let pm = diff_mask(actual, baseline, tolerance, prev);
    let close = pixel_close(actual, baseline, n - 1, tolerance);
    assert(m == pm + mask_pixel(close));
    if i == n - 1 {
        assert(m.subrange(4 * i, 4 * i + 4) =~= mask_pixel(close));
    } else {
        lemma_pixel_judged_by_each_channel(actual, baseline, tolerance, prev, i);
        assert(m.subrange(4 * i, 4 * i + 4) =~= pm.subrange(4 * i, 4 * i + 4));
    }
}

/// The alpha channel plays no part: changing only alpha bytes changes neither
/// the count of differing pixels nor the diff image.
pub proof fn lemma_alpha_ignored(actual: Seq<u8>, other: Seq<u8>, baseline: Seq<u8>, tolerance: u8, n: nat)
    requires
        forall|k: int| 0 <= k < 4 * n && k % 4 != 3 ==> #[trigger] actual[k] == other[k],
    ensures
        differing_pixels(actual, baseline, tolerance, n) == differing_pixels(other, baseline, tolerance, n),
        diff_mask(actual, baseline, tolerance, n) == diff_mask(other, baseline, tolerance, n),
    decreases n,
{
    if n > 0 {
        let j = n - 1;
        assert(actual[4 * j] == other[4 * j]);
        assert(actual[4 * j + 1] == other[4 * j + 1]);
        assert(actual[4 * j + 2] == other[4 * j + 2]);
        lemma_alpha_ignored(actual, other, baseline, tolerance, (n - 1) as nat);
    }
}

/// At most all the pixels differ.
pub proof fn lemma_differing_pixels_bounded(actual: Seq<u8>, baseline: Seq<u8>, tolerance: u8, n: nat)
    ensures
        differing_pixels(actual, baseline, tolerance, n) <= n,
    decreases n,
{
    if n > 0 {
        lemma_differing_pixels_bounded(actual, baseline, tolerance, (n - 1) as nat);
    }
}

// ---------------------------------------------------------------------------
// The image an OCR or text check reads
// ---------------------------------------------------------------------------

/// Where the image to read comes from.
#[derive(Debug, Clone, PartialEq, Eq)]
pub enum ImageSource {
    /// An image file the caller named.
    Path(String),
    /// A fresh screenshot of the bound window with this ID.
    BoundWindowScreenshot(String),
}

/// The image to read: the path given, else a screenshot of the bound window
/// given, else the refusal `image_or_bound_id_required`.
pub fn image_source(image_path: Option<String>, bound_id: Option<String>) -> (r: Result<ImageSource, ToolFailure>)
    ensures
        match image_path {
            Some(p) => r matches Ok(ImageSource::Path(q)) && q@ == p@,
            None => match bound_id {
                Some(b) => r matches Ok(ImageSource::BoundWindowScreenshot(c)) && c@ == b@,
                None => r matches Err(f) && f.code@ == "image_or_bound_id_required"@
                    && f.message@ == "image_path or bound_id is required"@,
            },
        },
{
    match image_path {
        Some(p) => Ok(ImageSource::Path(p)),
        None => match bound_id {
            Some(b) => Ok(ImageSource::BoundWindowScreenshot(b)),
            None => Err(ToolFailure { code: "image_or_bound_id_required", message: "image_path or bound_id is required" }),
        },
    }
}

/// Why an OCR region was refused.
#[derive(Debug, Clone, Copy, PartialEq, Eq, Structural)]
pub enum OcrRegionError {
    /// The origin lies outside the image (`ocr_region_out_of_bounds`).
    OriginOutside,
    /// The region is empty or does not fit inside the image (`ocr_region_invalid`).
    Invalid,
}

impl OcrRegionError {
    /// The error code and message the tool reports.
    pub fn code_and_message(&self) -> (r: (&'static str, &'static str))
        ensures
            r.0@ == match self {
                OcrRegionError::OriginOutside => "ocr_region_out_of_bounds"@,
                OcrRegionError::Invalid => "ocr_region_invalid"@,
            },
            r.1@ == match self {
                OcrRegionError::OriginOutside => "OCR region origin is outside the image"@,
                OcrRegionError::Invalid => "OCR region must fit inside the image and have non-zero size"@,
            },
    {
        match self {
            OcrRegionError::OriginOutside => ("ocr_region_out_of_bounds", "OCR region origin is outside the image"),
            OcrRegionError::Invalid => (
                "ocr_region_invalid",
                "OCR region must fit inside the image and have non-zero size",
            ),
        }
    }
}

/// `a + b`, saturating at the largest `u32`.
pub open spec fn sat_add_u32(a: u32, b: u32) -> int {
    if a + b > u32::MAX {
        u32::MAX as int
    } else {
        a + b
    }
}

/// The region of an image OCR reads, as (x, y, width, height): the origin
/// defaults to the top left corner and the size to the rest of the image. An
/// origin outside the image, an empty region, and one that does not fit (its
/// far edges computed with saturating addition) are refused.
pub fn ocr_region(
    image_width: u32,
    image_height: u32,
    x: Option<u32>,
    y: Option<u32>,
    width: Option<u32>,
    height: Option<u32>,
) -> (r: Result<(u32, u32, u32, u32), OcrRegionError>)
    ensures
        ({
            let x0 = match x {
                Some(v) => v,
                None => 0u32,
            };
            let y0 = match y {
                Some(v) => v,
                None => 0u32,
            };
            if x0 >= image_width || y0 >= image_height {
                r == Err::<(u32, u32, u32, u32), OcrRegionError>(OcrRegionError::OriginOutside)
            } else {
                let w = match width {
                    Some(v) => v,
                    None => (image_width - x0) as u32,
                };
                let h = match height {
                    Some(v) => v,
                    None => (image_height - y0) as u32,
                };
                if w == 0 || h == 0 || sat_add_u32(x0, w) > image_width || sat_add_u32(y0, h) > image_height {
                    r == Err::<(u32, u32, u32, u32), OcrRegionError>(OcrRegionError::Invalid)
                } else {
                    r == Ok::<(u32, u32, u32, u32), OcrRegionError>((x0, y0, w, h))
                }
            }
        }),
{
    let x0: u32 = match x {
        Some(v) => v,
        None => 0,
    };
    let y0: u32 = match y {
        Some(v) => v,
        None => 0,
    };
    if x0 >= image_width || y0 >= image_height {
        return Err(OcrRegionError::OriginOutside);
    }
    let w: u32 = match width {
        Some(v) => v,
        None => image_width - x0,
    };
    let h: u32 = match height {
        Some(v) => v,
        None => image_height - y0,
    };
    let right: u32 = if x0 as u64 + w as u64 > u32::MAX as u64 {
        u32::MAX
    } else {
        x0 + w
    };
    let bottom: u32 = if y0 as u64 + h as u64 > u32::MAX as u64 {
        u32::MAX
    } else {
        y0 + h
    };
    if w == 0 || h == 0 || right > image_width || bottom > image_height {
        return Err(OcrRegionError::Invalid);
    }
    Ok((x0, y0, w, h))
}

/// What the comparison tool answers of a comparison: it always succeeds as a
/// call; images of different sizes fail the comparison with
/// `image_dimensions_differ`, and otherwise the comparison's verdict stands.
#[derive(Debug, Clone, Copy, PartialEq, Eq)]
pub struct BaselineVerdict {
    pub ok: bool,
    pub passed: bool,
    pub error: Option<ToolFailure>,
}

/// The answer's `ok`, `passed` and `error` members for a comparison's outcome.
pub fn baseline_verdict(outcome: &Result<BaselineComparison, DimensionsDiffer>) -> (v: BaselineVerdict)
    ensures
        v.ok,
        match outcome {
            Ok(c) => v.passed == c.passed && v.error is None,
            Err(_) => !v.passed && (v.error matches Some(f) && f.code@ == "image_dimensions_differ"@
                && f.message@ == "actual and baseline dimensions differ"@),
        },
{
    match outcome {
        Ok(c) => BaselineVerdict { ok: true, passed: c.passed, error: None },
        Err(_) => BaselineVerdict {
            ok: true,
            passed: false,
            error: Some(ToolFailure { code: "image_dimensions_differ", message: "actual and baseline dimensions differ" }),
        },
    }
}

// ---------------------------------------------------------------------------
// The part of an image a visual assertion compares
// ---------------------------------------------------------------------------

/// An element's rectangle in image pixels, from its coordinates mapped from the
/// screen (rounded): none when it starts left of or above the image or is empty.
pub fn mapped_image_rect(x: i64, y: i64, width: i64, height: i64) -> (r: Option<(u32, u32, u32, u32)>)
    ensures
        r == if x < 0 || y < 0 || width <= 0 || height <= 0 {
            None::<(u32, u32, u32, u32)>
        } else {
            Some((x as u32, y as u32, width as u32, height as u32))
        },
{
    if x < 0 || y < 0 || width <= 0 || height <= 0 {
        return None;
    }
    Some((#[verifier::truncate] (x as u32), #[verifier::truncate] (y as u32), #[verifier::truncate] (width as u32), #[verifier::truncate] (height as u32)))
}

/// `a - b`, stopping at 0.
pub open spec fn sat_sub_u32(a: u32, b: u32) -> u32 {
    if a >= b {
        (a - b) as u32
    } else {
        0
    }
}

fn saturating_add_u32(a: u32, b: u32) -> (r: u32)
    ensures
        r == sat_add_u32(a, b),
{
    if a as u64 + b as u64 > u32::MAX as u64 {
        u32::MAX
    } else {
        a + b
    }
}

fn saturating_sub_u32(a: u32, b: u32) -> (r: u32)
    ensures
        r == sat_sub_u32(a, b),
{
    if a >= b {
        a - b
    } else {
        0
    }
}

/// The region of the image a visual assertion compares, as (x, y, width,
/// height), or `None` for the whole image; or why the request is refused.
///
/// The image comes from `image_path` or else a screenshot of the bound window
/// (neither: `image_or_bound_id_required`). With an element scope the image must
/// be the bound window's screenshot (`element_scope_requires_bound_window`), with
/// its screen mapping (`screen_mapping_unavailable`), and the element must map
/// into it (`element_image_rect`, else `element_scope_outside_capture`); the
/// region is then the element's rectangle moved by the offset (saturating),
/// its size defaulting to the element's minus the offset (saturating). Without
/// an element scope, a region given by any of `x`, `y`, `width`, `height` is
/// taken in the image (`image_dims`, read from it), the size defaulting to the
/// image's minus the offset.
pub fn scoped_image_region(
    has_element_scope: bool,
    image_path_given: bool,
    bound_id_given: bool,
    mapping_present: bool,
    element_image_rect: Option<(u32, u32, u32, u32)>,
    image_dims: Option<(u32, u32)>,
    x: Option<u32>,
    y: Option<u32>,
    width: Option<u32>,
    height: Option<u32>,
) -> (r: Result<Option<(u32, u32, u32, u32)>, ToolFailure>)
    requires
        !has_element_scope && (x is Some || y is Some || width is Some || height is Some) && (image_path_given
            || bound_id_given) ==> image_dims is Some,
    ensures
        ({
            let ox = match x {
                Some(v) => v,
                None => 0u32,
            };
            let oy = match y {
                Some(v) => v,
                None => 0u32,
            };
            if !image_path_given && !bound_id_given {
                r matches Err(f) && f.code@ == "image_or_bound_id_required"@
                    && f.message@ == "image_path or bound_id is required"@
            } else if has_element_scope {
                if image_path_given {
                    r matches Err(f) && f.code@ == "element_scope_requires_bound_window"@
                        && f.message@ == "element-scoped visual assertions require bound_id, not actual_path"@
                } else if !mapping_present {
                    r matches Err(f) && f.code@ == "screen_mapping_unavailable"@
                        && f.message@ == "bound-window screenshot did not include screen mapping metadata"@
                } else {
                    match element_image_rect {
                        None => r matches Err(f) && f.code@ == "element_scope_outside_capture"@
                            && f.message@ == "element bounds could not be mapped into the captured image"@,
                        Some((bx, by, bw, bh)) => r == Ok::<Option<(u32, u32, u32, u32)>, ToolFailure>(
                            Some(
                                (
                                    sat_add_u32(bx, ox) as u32,
                                    sat_add_u32(by, oy) as u32,
                                    match width {
                                        Some(w) => w,
                                        None => sat_sub_u32(bw, ox),
                                    },
                                    match height {
                                        Some(h) => h,
                                        None => sat_sub_u32(bh, oy),
                                    },
                                ),
                            ),
                        ),
                    }
                }
            } else if x is Some || y is Some || width is Some || height is Some {
                let (iw, ih) = image_dims->Some_0;
                r == Ok::<Option<(u32, u32, u32, u32)>, ToolFailure>(
                    Some(
                        (
                            ox,
                            oy,
                            match width {
                                Some(w) => w,
                                None => sat_sub_u32(iw, ox),
                            },
                            match height {
                                Some(h) => h,
                                None => sat_sub_u32(ih, oy),
                            },
                        ),
                    ),
                )
            } else {
                r == Ok::<Option<(u32, u32, u32, u32)>, ToolFailure>(None)
            }
        }),
{
    if !image_path_given && !bound_id_given {
        return Err(ToolFailure { code: "image_or_bound_id_required", message: "image_path or bound_id is required" });
    }
    let ox: u32 = match x {
        Some(v) => v,
        None => 0,
    };
    let oy: u32 = match y {
        Some(v) => v,
        None => 0,
    };
    if has_element_scope {
        if image_path_given {
            return Err(ToolFailure {
                code: "element_scope_requires_bound_window",
                message: "element-scoped visual assertions require bound_id, not actual_path",
            });
        }
        if !mapping_present {
            return Err(ToolFailure {
                code: "screen_mapping_unavailable",
                message: "bound-window screenshot did not include screen mapping metadata",
            });
        }
        match element_image_rect {
            None => Err(ToolFailure {
                code: "element_scope_outside_capture",
                message: "element bounds could not be mapped into the captured image",
            }),
            Some((bx, by, bw, bh)) => {
                let w = match width {
                    Some(w) => w,
                    None => saturating_sub_u32(bw, ox),
                };
                let h = match height {
                    Some(h) => h,
                    None => saturating_sub_u32(bh, oy),
                };
                Ok(Some((saturating_add_u32(bx, ox), saturating_add_u32(by, oy), w, h)))
            },
        }
    } else if x.is_some() || y.is_some() || width.is_some() || height.is_some() {
        let (iw, ih) = match image_dims {
            Some(d) => d,
            None => (0, 0),
        };
        let w = match width {
            Some(w) => w,
            None => saturating_sub_u32(iw, ox),
        };
        let h = match height {
            Some(h) => h,
            None => saturating_sub_u32(ih, oy),
        };
        Ok(Some((ox, oy, w, h)))
    } else {
        Ok(None)
    }
}

} // verus!
