//! Macro manifests: the data model of a replayable desktop-automation macro,
//! the table of tools a macro may call, the manifest validator and the dry-run
//! planner.

use vstd::prelude::*;

use crate::json::JsonValue;
use crate::text::{concat2, concat3, is_blank, owned, push_decimal, push_str, spec_decimal, spec_is_blank, str_eq};

verus! {

/// The manifest format version this library reads.
pub const MACRO_MANIFEST_VERSION: &'static str = "winctl.macro.v1";

/// A replayable macro: what to launch and bind, the steps in their sections,
/// and the artifact and replay metadata.
#[derive(Debug, Clone, PartialEq)]
pub struct MacroManifest {
    pub version: String,
    pub kind: String,
    pub title: String,
    pub description: String,
    pub tags: Vec<String>,
    pub app_identity: Option<AppIdentity>,
    pub launch: Option<ToolCall>,
    pub bind: Option<BindingStrategy>,
    pub preconditions: Vec<MacroStep>,
    pub steps: Vec<MacroStep>,
    pub waits: Vec<MacroStep>,
    pub assertions: Vec<MacroStep>,
    pub cleanup: Vec<MacroStep>,
    pub artifacts: ArtifactPolicy,
    pub replay: ReplayMetadata,
}

/// The default of a step's `required` flag when a manifest leaves it out: required.
pub fn default_required() -> (r: bool)
    ensures
        r,
{
    true
}

/// The test manifest format version.
pub const TEST_MANIFEST_VERSION: &'static str = "winctl.test.v1";

/// A test procedure: its description, the macro it runs, the artifacts it
/// keeps and free-form diagnostics.
#[derive(Debug, Clone, PartialEq)]
pub struct TestManifest {
    pub version: String,
    pub kind: String,
    pub title: String,
    pub description: String,
    pub tags: Vec<String>,
    pub macro_manifest: MacroManifest,
    pub artifact_paths: Vec<String>,
    pub diagnostics: JsonValue,
}

/// The application a macro expects to drive.
#[derive(Debug, Clone, PartialEq)]
pub struct AppIdentity {
    pub executable_name: Option<String>,
    pub executable_path: Option<String>,
    pub product_name: Option<String>,
    pub required: bool,
    pub extra: JsonValue,
}

/// A call of one tool with its arguments.
#[derive(Debug, Clone, PartialEq)]
pub struct ToolCall {
    pub tool: String,
    pub args: JsonValue,
}

/// How a macro binds to the window it drives.
#[derive(Debug, Clone, PartialEq)]
pub struct BindingStrategy {
    pub strategy: String,
    pub required_executable: Option<String>,
    pub expected_identity_json: Option<JsonValue>,
    pub allow_child_process_windows: bool,
}

/// One step of a macro.
#[derive(Debug, Clone, PartialEq)]
pub struct MacroStep {
    pub id: String,
    pub tool: String,
    pub args: JsonValue,
    pub target: Option<MacroTarget>,
    pub timeout_ms: Option<u64>,
    pub required: bool,
    pub continue_on_failure: bool,
    pub coordinate_fallback: Option<CoordinateFallbackMetadata>,
    pub audit: StepAudit,
}

/// What a step acts on.
#[derive(Debug, Clone, PartialEq)]
pub enum MacroTarget {
    BoundWindow { bound_id: Option<String> },
    LaunchedProcessWindow { launch_id: Option<String>, pid: Option<u32>, hwnd: Option<String> },
    UiElement(UiElementTarget),
    ImageCheckpoint { checkpoint_id: String, path: Option<String>, checksum_sha256: Option<String> },
    TextCheckpoint { text: String },
    Coordinates { x: i32, y: i32, coordinate_space: CoordinateSpace },
}

/// A UI Automation element named by its properties.
#[derive(Debug, Clone, PartialEq)]
pub struct UiElementTarget {
    pub element_ref: Option<String>,
    pub name: Option<String>,
    pub role: Option<String>,
    pub control_type: Option<String>,
    pub automation_id: Option<String>,
    pub class_name: Option<String>,
    pub hierarchy_path: Option<Vec<usize>>,
    pub visible_text: Option<String>,
    pub required: bool,
}

/// The space that raw coordinates are given in.
#[derive(Debug, Clone, Copy, PartialEq, Eq)]
pub enum CoordinateSpace {
    WindowClient,
    WindowVirtualDesktop,
    VirtualDesktop,
    Screenshot,
}

/// What a coordinate fallback was recorded against.
#[derive(Debug, Clone, PartialEq)]
pub struct CoordinateFallbackMetadata {
    pub monitor_id: Option<String>,
    pub virtual_desktop_x: i32,
    pub virtual_desktop_y: i32,
    pub window_rect: Rect,
    pub client_rect: Option<Rect>,
    pub dpi: Option<u32>,
    /// The display scale factor, held as the IEEE-754 bit pattern of the number.
    pub scale_factor_bits: Option<u64>,
    pub screenshot_size: Option<Size>,
    pub original_resolved_target: JsonValue,
    pub preflight_validation: JsonValue,
}

/// A rectangle in pixels.
#[derive(Debug, Clone, Copy, PartialEq, Eq)]
pub struct Rect {
    pub x: i32,
    pub y: i32,
    pub width: i32,
    pub height: i32,
}

/// A size in pixels.
#[derive(Debug, Clone, Copy, PartialEq, Eq)]
pub struct Size {
    pub width: u32,
    pub height: u32,
}

/// Audit data recorded with a step.
#[derive(Debug, Clone, PartialEq)]
pub struct StepAudit {
    pub expected_identity_json: Option<JsonValue>,
    pub resolved_target_json: Option<JsonValue>,
    pub notes: Vec<String>,
}

impl StepAudit {
    /// An audit record with nothing in it.
    pub fn empty() -> (r: StepAudit)
        ensures
            r.expected_identity_json is None,
            r.resolved_target_json is None,
            r.notes@.len() == 0,
    {
        StepAudit { expected_identity_json: None, resolved_target_json: None, notes: Vec::new() }
    }
}

/// Which artifacts a run keeps.
#[derive(Debug, Clone, Copy, PartialEq, Eq)]
pub struct ArtifactPolicy {
    pub screenshots: bool,
    pub step_results: bool,
    pub resolved_targets: bool,
    pub uia_snapshots: bool,
    pub logs: bool,
    pub retention_days: Option<u32>,
}

impl Default for ArtifactPolicy {
    fn default() -> (r: Self)
        ensures
            r.screenshots && r.step_results && r.resolved_targets && !r.uia_snapshots && r.logs,
            r.retention_days is None,
    {
        ArtifactPolicy {
            screenshots: true,
            step_results: true,
            resolved_targets: true,
            uia_snapshots: false,
            logs: true,
            retention_days: None,
        }
    }
}

/// When a macro was made and last run.
#[derive(Debug, Clone, PartialEq)]
pub struct ReplayMetadata {
    pub created_at: Option<String>,
    pub last_run_at: Option<String>,
    pub last_success_at: Option<String>,
    pub version_note: Option<String>,
    pub source_memory_id: Option<String>,
    pub extra: JsonValue,
}

impl ReplayMetadata {
    /// Replay metadata with nothing recorded.
    pub fn empty() -> (r: ReplayMetadata)
        ensures
            r.created_at is None && r.last_run_at is None && r.last_success_at is None,
            r.version_note is None && r.source_memory_id is None,
            r.extra == JsonValue::Null,
    {
        ReplayMetadata {
            created_at: None,
            last_run_at: None,
            last_success_at: None,
            version_note: None,
            source_memory_id: None,
            extra: JsonValue::Null,
        }
    }
}

/// The outcome of validating a manifest.
#[derive(Debug, Clone, PartialEq)]
pub struct MacroValidationReport {
    pub valid: bool,
    pub issues: Vec<MacroValidationIssue>,
}

/// One problem found in a manifest.
#[derive(Debug, Clone, PartialEq)]
pub struct MacroValidationIssue {
    pub severity: MacroValidationSeverity,
    pub code: String,
    pub message: String,
    pub path: String,
}

/// How serious a validation issue is: errors make a manifest invalid.
#[derive(Debug, Clone, Copy, PartialEq, Eq, Structural)]
pub enum MacroValidationSeverity {
    Error,
    Warning,
}

/// The dry-run plan of a valid manifest.
#[derive(Debug, Clone, PartialEq)]
pub struct MacroPlan {
    pub valid: bool,
    pub generated_at: String,
    pub manifest_version: String,
    pub title: String,
    pub steps: Vec<MacroPlanStep>,
    pub issues: Vec<MacroValidationIssue>,
}

/// One planned step, with what its tool does.
#[derive(Debug, Clone, PartialEq)]
pub struct MacroPlanStep {
    pub id: String,
    pub section: MacroSection,
    pub tool: String,
    pub mutates_ui: bool,
    pub requires_bound_window: bool,
    pub produces_artifact: bool,
    pub category: String,
    pub target_strategy: String,
}

/// The section of a manifest a step belongs to.
#[derive(Debug, Clone, Copy, PartialEq, Eq, Structural)]
pub enum MacroSection {
    Launch,
    Bind,
    Precondition,
    Step,
    Wait,
    Assertion,
    Cleanup,
}

/// The result of running a macro.
#[derive(Debug, Clone, PartialEq)]
pub struct MacroExecutionResult {
    pub manifest_title: String,
    pub started_at: String,
    pub finished_at: Option<String>,
    pub status: MacroExecutionStatus,
    pub step_results: Vec<MacroStepResult>,
    pub artifacts: Vec<MacroArtifact>,
    pub diagnostics: Vec<String>,
}

/// Where a macro run stands.
#[derive(Debug, Clone, Copy, PartialEq, Eq, Structural)]
pub enum MacroExecutionStatus {
    Pending,
    Running,
    Succeeded,
    Failed,
    Aborted,
}

/// The result of running one step.
#[derive(Debug, Clone, PartialEq)]
pub struct MacroStepResult {
    pub step_id: String,
    pub tool: String,
    pub status: MacroStepStatus,
    pub started_at: String,
    pub finished_at: Option<String>,
    pub output: JsonValue,
    pub diagnostics: Vec<String>,
    pub artifacts: Vec<MacroArtifact>,
    pub error: Option<MacroStepError>,
}

/// Where a step stands.
#[derive(Debug, Clone, Copy, PartialEq, Eq, Structural)]
pub enum MacroStepStatus {
    Pending,
    Running,
    Succeeded,
    Failed,
    Skipped,
}

/// Why a step failed.
#[derive(Debug, Clone, PartialEq)]
pub struct MacroStepError {
    pub kind: MacroStepErrorKind,
    pub code: String,
    pub message: String,
    pub diagnostics: JsonValue,
}

/// The kind of a step failure.
#[derive(Debug, Clone, Copy, PartialEq, Eq, Structural)]
pub enum MacroStepErrorKind {
    ValidationFailure,
    TargetIdentityFailure,
    WaitTimeout,
    AssertionFailure,
    PolicyDenial,
    ToolExecutionFailure,
    UserAbort,
}

/// A file or record a run produced.
#[derive(Debug, Clone, PartialEq)]
pub struct MacroArtifact {
    pub kind: String,
    pub path: Option<String>,
    pub metadata: JsonValue,
}

/// A tool a macro may call, and what calling it does.
#[derive(Debug, Clone, Copy, PartialEq, Eq)]
pub struct ToolDescriptor {
    pub name: &'static str,
    pub category: &'static str,
    pub mutates_ui: bool,
    pub requires_bound_window: bool,
    pub produces_artifact: bool,
}

/// A tool descriptor built from its parts.
pub open spec fn desc(
    name: &'static str,
    category: &'static str,
    mutates_ui: bool,
    requires_bound_window: bool,
    produces_artifact: bool,
) -> ToolDescriptor {
    ToolDescriptor { name, category, mutates_ui, requires_bound_window, produces_artifact }
}

/// The tools a macro may call, in their fixed order.
pub open spec fn tool_table() -> Seq<ToolDescriptor> {
    seq![
        desc("app.launch", "app", true, false, false),
        desc("process.launch", "process", true, false, false),
        desc("process.wait_for_exit", "process", false, false, false),
        desc("process.describe", "process", false, false, false),
        desc("process.kill", "process", true, false, false),
        desc("windows.wait_for_window", "window", false, false, false),
        desc("windows.bind", "window", false, false, false),
        desc("windows.focus", "window", true, true, false),
        desc("windows.wait_for_state", "window", false, true, false),
        desc("windows.move", "window", true, true, false),
        desc("windows.resize", "window", true, true, false),
        desc("windows.minimize", "window", true, true, false),
        desc("windows.maximize", "window", true, true, false),
        desc("windows.restore", "window", true, true, false),
        desc("windows.close", "window", true, true, false),
        desc("windows.foreground_diagnostics", "window", false, true, false),
        desc("windows.for_process", "window", false, false, false),
        desc("capture.screenshot_window", "capture", false, true, true),
        desc("capture.screenshot_display", "capture", false, false, true),
        desc("capture.wait_for_window_image_change", "capture", false, true, true),
        desc("input.click", "input", true, true, false),
        desc("input.double_click", "input", true, true, false),
        desc("input.drag", "input", true, true, false),
        desc("input.scroll", "input", true, true, false),
        desc("input.type_text", "input", true, true, false),
        desc("input.shortcut", "input", true, true, false),
        desc("input.key_down", "input", true, true, false),
        desc("input.key_up", "input", true, true, false),
        desc("input.delay", "timing", false, false, false),
        desc("uia.snapshot", "uia", false, true, true),
        desc("uia.find", "uia", false, true, false),
        desc("uia.resolve", "uia", false, true, false),
        desc("macro.assert_uia_element", "assertion", false, true, true),
        desc("macro.assert_image_checkpoint", "assertion", false, true, true),
        desc("macro.assert_text_checkpoint", "assertion", false, true, true),
    ]
}

fn tool(
    name: &'static str,
    category: &'static str,
    mutates_ui: bool,
    requires_bound_window: bool,
    produces_artifact: bool,
) -> (r: ToolDescriptor)
    ensures
        r == desc(name, category, mutates_ui, requires_bound_window, produces_artifact),
{
    ToolDescriptor { name, category, mutates_ui, requires_bound_window, produces_artifact }
}

/// The tool table as a vector.
fn supported_tools() -> (v: Vec<ToolDescriptor>)
    ensures
        v@ == tool_table(),
{
    let v = vec![
        tool("app.launch", "app", true, false, false),
        tool("process.launch", "process", true, false, false),
        tool("process.wait_for_exit", "process", false, false, false),
        tool("process.describe", "process", false, false, false),
        tool("process.kill", "process", true, false, false),
        tool("windows.wait_for_window", "window", false, false, false),
        tool("windows.bind", "window", false, false, false),
        tool("windows.focus", "window", true, true, false),
        tool("windows.wait_for_state", "window", false, true, false),
        tool("windows.move", "window", true, true, false),
        tool("windows.resize", "window", true, true, false),
        tool("windows.minimize", "window", true, true, false),
        tool("windows.maximize", "window", true, true, false),
        tool("windows.restore", "window", true, true, false),
        tool("windows.close", "window", true, true, false),
        tool("windows.foreground_diagnostics", "window", false, true, false),
        tool("windows.for_process", "window", false, false, false),
        tool("capture.screenshot_window", "capture", false, true, true),
        tool("capture.screenshot_display", "capture", false, false, true),
        tool("capture.wait_for_window_image_change", "capture", false, true, true),
        tool("input.click", "input", true, true, false),
        tool("input.double_click", "input", true, true, false),
        tool("input.drag", "input", true, true, false),
        tool("input.scroll", "input", true, true, false),
        tool("input.type_text", "input", true, true, false),
        tool("input.shortcut", "input", true, true, false),
        tool("input.key_down", "input", true, true, false),
        tool("input.key_up", "input", true, true, false),
        tool("input.delay", "timing", false, false, false),
        tool("uia.snapshot", "uia", false, true, true),
        tool("uia.find", "uia", false, true, false),
        tool("uia.resolve", "uia", false, true, false),
        tool("macro.assert_uia_element", "assertion", false, true, true),
        tool("macro.assert_image_checkpoint", "assertion", false, true, true),
        tool("macro.assert_text_checkpoint", "assertion", false, true, true),
    ];
    assert(v@ =~= tool_table());
    v
}

/// The first descriptor in `table` whose name is `name`.
pub open spec fn find_tool(table: Seq<ToolDescriptor>, name: Seq<char>) -> Option<ToolDescriptor>
    decreases table.len(),
{
    if table.len() == 0 {
        None
    } else if table[0].name@ == name {
        Some(table[0])
    } else {
        find_tool(table.drop_first(), name)
    }
}

/// The descriptor of the tool named `name`, if a macro may call it.
pub open spec fn spec_tool_descriptor(name: Seq<char>) -> Option<ToolDescriptor> {
    find_tool(tool_table(), name)
}

/// The names of the tools a macro may call, in table order.
pub fn supported_tool_names() -> (r: Vec<&'static str>)
    ensures
        r@ == tool_table().map_values(|d: ToolDescriptor| d.name),
{
    let table = supported_tools();
    let mut names: Vec<&'static str> = Vec::new();
    let mut i: usize = 0;
    while i < table.len()
        invariant
            table@ == tool_table(),
            i <= table@.len(),
            names@ == table@.take(i as int).map_values(|d: ToolDescriptor| d.name),
        decreases table.len() - i,
    {
        names.push(table[i].name);
        assert(table@.take(i + 1) == table@.take(i as int).push(table@[i as int]));
        i += 1;
    }
    assert(table@.take(table@.len() as int) == table@);
    names
}

/// The descriptor of the tool named `name`, if a macro may call it.
pub fn tool_descriptor(name: &str) -> (r: Option<ToolDescriptor>)
    ensures
        r == spec_tool_descriptor(name@),
{
    let table = supported_tools();
    let mut i: usize = 0;
    assert(table@.skip(0) == table@);
    while i < table.len()
        invariant
            table@ == tool_table(),
            i <= table@.len(),
            find_tool(tool_table(), name@) == find_tool(table@.skip(i as int), name@),
        decreases table.len() - i,
    {
        assert(table@.skip(i as int).drop_first() == table@.skip(i + 1));
        if str_eq(table[i].name, name) {
            return Some(table[i]);
        }
        i += 1;
    }
    None
}

// ---------------------------------------------------------------------------
// Validation
// ---------------------------------------------------------------------------

/// The view of a validation issue.
pub struct IssueView {
    pub severity: MacroValidationSeverity,
    pub code: Seq<char>,
    pub message: Seq<char>,
    pub path: Seq<char>,
}

/// The view of an issue.
pub open spec fn issue_view(i: MacroValidationIssue) -> IssueView {
    IssueView { severity: i.severity, code: i.code@, message: i.message@, path: i.path@ }
}

/// The views of a list of issues.
pub open spec fn issues_view(v: Seq<MacroValidationIssue>) -> Seq<IssueView> {
    v.map_values(|i: MacroValidationIssue| issue_view(i))
}

/// An error-severity issue.
pub open spec fn err_view(code: Seq<char>, message: Seq<char>, path: Seq<char>) -> IssueView {
    IssueView { severity: MacroValidationSeverity::Error, code, message, path }
}

/// The issues of the optional launch call of a manifest.
pub open spec fn launch_issues(call: Option<ToolCall>, section: MacroSection, path: Seq<char>) -> Seq<IssueView> {
    match call {
        None => seq![],
        Some(c) => if spec_is_blank(c.tool@) {
            seq![err_view("missing_tool"@, "tool call must include a stable tool name"@, path + "/tool"@)]
        } else if spec_tool_descriptor(c.tool@) is None {
            seq![
                err_view(
                    "unknown_tool"@,
                    "unsupported "@ + section_name(section)@ + " tool "@ + c.tool@,
                    path + "/tool"@,
                ),
            ]
        } else {
            seq![]
        },
    }
}

/// The name `{:?}` gives a section.
pub open spec fn section_name(section: MacroSection) -> &'static str {
    match section {
        MacroSection::Launch => "Launch",
        MacroSection::Bind => "Bind",
        MacroSection::Precondition => "Precondition",
        MacroSection::Step => "Step",
        MacroSection::Wait => "Wait",
        MacroSection::Assertion => "Assertion",
        MacroSection::Cleanup => "Cleanup",
    }
}

/// Whether the manifest names both a required app identity and a binding identity.
pub open spec fn has_bound_identity(m: MacroManifest) -> bool {
    let app = match m.app_identity {
        Some(a) => a.required && (a.executable_name is Some || a.executable_path is Some),
        None => false,
    };
    let bind = match m.bind {
        Some(b) => b.required_executable is Some || b.expected_identity_json is Some,
        None => false,
    };
    app && bind
}

/// Whether the manifest has no step in any of its five step sections.
pub open spec fn has_no_steps(m: MacroManifest) -> bool {
    m.steps@.len() == 0 && m.preconditions@.len() == 0 && m.waits@.len() == 0
        && m.assertions@.len() == 0 && m.cleanup@.len() == 0
}

/// The issues about the manifest header, its launch call and its step count.
pub open spec fn header_issues(m: MacroManifest) -> Seq<IssueView> {
    (if m.version@ != MACRO_MANIFEST_VERSION@ {
        seq![
            err_view(
                "unsupported_version"@,
                "manifest version must be "@ + MACRO_MANIFEST_VERSION@ + ", got "@ + m.version@,
                "/version"@,
            ),
        ]
    } else {
        seq![]
    }) + (if spec_is_blank(m.kind@) {
        seq![err_view("missing_kind"@, "manifest kind is required"@, "/kind"@)]
    } else {
        seq![]
    }) + (if spec_is_blank(m.title@) {
        seq![err_view("missing_title"@, "manifest title is required"@, "/title"@)]
    } else {
        seq![]
    }) + (if spec_is_blank(m.description@) {
        seq![
            IssueView {
                severity: MacroValidationSeverity::Warning,
                code: "missing_description"@,
                message: "manifest description is recommended for auditability"@,
                path: "/description"@,
            },
        ]
    } else {
        seq![]
    }) + launch_issues(m.launch, MacroSection::Launch, "/launch"@) + (if has_no_steps(m) {
        seq![err_view("missing_steps"@, MISSING_STEPS_MESSAGE@, "/steps"@)]
    } else {
        seq![]
    })
}

/// The message of the `missing_steps` issue.
pub const MISSING_STEPS_MESSAGE: &'static str =
    "manifest must include at least one step, wait, assertion, precondition, or cleanup action";

/// The message of the `coordinate_fallback_metadata_required` issue.
pub const COORDINATE_FALLBACK_MESSAGE: &'static str =
    "absolute or fallback coordinates require monitor, DPI, window, screenshot, and preflight metadata";

/// A step together with where it stands in the manifest.
pub struct StepEntry {
    pub section: MacroSection,
    pub path: Seq<char>,
    pub index: nat,
    pub step: MacroStep,
}

/// The entries of one section.
pub open spec fn section_entries(steps: Seq<MacroStep>, section: MacroSection, path: Seq<char>) -> Seq<StepEntry> {
    Seq::new(steps.len(), |i: int| StepEntry { section, path, index: i as nat, step: steps[i] })
}

/// All step entries of a manifest, section by section in validation order.
pub open spec fn all_entries(m: MacroManifest) -> Seq<StepEntry> {
    section_entries(m.preconditions@, MacroSection::Precondition, "/preconditions"@)
        + section_entries(m.steps@, MacroSection::Step, "/steps"@)
        + section_entries(m.waits@, MacroSection::Wait, "/waits"@)
        + section_entries(m.assertions@, MacroSection::Assertion, "/assertions"@)
        + section_entries(m.cleanup@, MacroSection::Cleanup, "/cleanup"@)
}

/// The non-blank step IDs among `entries`, in order.
pub open spec fn seen_ids(entries: Seq<StepEntry>) -> Seq<Seq<char>>
    decreases entries.len(),
{
    if entries.len() == 0 {
        seq![]
    } else {
        let prev = seen_ids(entries.drop_last());
        let id = entries.last().step.id@;
        if spec_is_blank(id) || prev.contains(id) {
            prev
        } else {
            prev.push(id)
        }
    }
}

/// The JSON-pointer path of a step entry.
pub open spec fn step_path(e: StepEntry) -> Seq<char> {
    e.path + "/"@ + spec_decimal(e.index)
}

/// The issues of one step, given the IDs of the steps before it.
pub open spec fn step_issues(m: MacroManifest, e: StepEntry, seen: Seq<Seq<char>>) -> Seq<IssueView> {
    let sp = step_path(e);
    let id_issues = if spec_is_blank(e.step.id@) {
        seq![err_view("missing_step_id"@, "macro step ID is required"@, sp + "/id"@)]
    } else if seen.contains(e.step.id@) {
        seq![
            err_view(
                "duplicate_step_id"@,
                "step ID "@ + e.step.id@ + " is used more than once"@,
                sp + "/id"@,
            ),
        ]
    } else {
        seq![]
    };
    match spec_tool_descriptor(e.step.tool@) {
        None => id_issues + seq![
            err_view("unknown_tool"@, "unsupported macro tool "@ + e.step.tool@, sp + "/tool"@),
        ],
        Some(d) => id_issues + (if d.requires_bound_window && !has_bound_identity(m) {
            seq![
                err_view(
                    "target_identity_required"@,
                    "step "@ + e.step.id@ + " uses "@ + e.step.tool@
                        + " and requires app identity plus a binding strategy"@,
                    sp,
                ),
            ]
        } else {
            seq![]
        }) + (if (e.step.target matches Some(MacroTarget::Coordinates { .. }))
            && e.step.coordinate_fallback is None {
            seq![
                err_view(
                    "coordinate_fallback_metadata_required"@,
                    COORDINATE_FALLBACK_MESSAGE@,
                    sp + "/coordinate_fallback"@,
                ),
            ]
        } else {
            seq![]
        }) + (if e.section == MacroSection::Assertion && d.mutates_ui {
            seq![err_view("mutating_assertion"@, "assertion steps must not mutate the UI"@, sp)]
        } else {
            seq![]
        }),
    }
}

/// The issues of a run of step entries, each checked against the IDs before it.
pub open spec fn entries_issues(m: MacroManifest, entries: Seq<StepEntry>) -> Seq<IssueView>
    decreases entries.len(),
{
    if entries.len() == 0 {
        seq![]
    } else {
        entries_issues(m, entries.drop_last()) + step_issues(
            m,
            entries.last(),
            seen_ids(entries.drop_last()),
        )
    }
}

/// Every issue of a manifest, in the order the validator reports them.
pub open spec fn manifest_issues(m: MacroManifest) -> Seq<IssueView> {
    header_issues(m) + entries_issues(m, all_entries(m))
}

/// Whether some issue is an error.
pub open spec fn has_error(issues: Seq<IssueView>) -> bool {
    exists|i: int| 0 <= i < issues.len() && issues[i].severity == MacroValidationSeverity::Error
}

/// A manifest is valid when none of its issues is an error.
pub open spec fn manifest_valid(m: MacroManifest) -> bool {
    !has_error(manifest_issues(m))
}

/// An error-severity issue.
fn error(code: &str, message: String, path: String) -> (r: MacroValidationIssue)
    ensures
        issue_view(r) == err_view(code@, message@, path@),
{
    MacroValidationIssue { severity: MacroValidationSeverity::Error, code: owned(code), message, path }
}

/// A warning-severity issue.
fn warning(code: &str, message: String, path: String) -> (r: MacroValidationIssue)
    ensures
        issue_view(r) == (IssueView {
            severity: MacroValidationSeverity::Warning,
            code: code@,
            message: message@,
            path: path@,
        }),
{
    MacroValidationIssue { severity: MacroValidationSeverity::Warning, code: owned(code), message, path }
}

/// The `{:?}` name of a section.
fn section_debug_name(section: MacroSection) -> (r: &'static str)
    ensures
        r == section_name(section),
{
    match section {
        MacroSection::Launch => "Launch",
        MacroSection::Bind => "Bind",
        MacroSection::Precondition => "Precondition",
        MacroSection::Step => "Step",
        MacroSection::Wait => "Wait",
        MacroSection::Assertion => "Assertion",
        MacroSection::Cleanup => "Cleanup",
    }
}

fn validate_optional_tool_call(
    call: Option<&ToolCall>,
    section: MacroSection,
    path: &str,
    issues: &mut Vec<MacroValidationIssue>,
)
    ensures
        issues_view(final(issues)@) == issues_view(old(issues)@) + launch_issues(
            match call {
                Some(c) => Some(*c),
                None => None,
            },
            section,
            path@,
        ),
{
    let ghost before = issues_view(issues@);
    let call = match call {
        Some(call) => call,
        None => {
            assert(issues_view(issues@) == before + Seq::<IssueView>::empty());
            return;
        },
    };
    if is_blank(call.tool.as_str()) {
        issues.push(
            error(
                "missing_tool",
                owned("tool call must include a stable tool name"),
                concat2(path, "/tool"),
            ),
        );
        assert(issues_view(issues@) =~= before + launch_issues(Some(*call), section, path@));
        return;
    }
    if tool_descriptor(call.tool.as_str()).is_none() {
        let mut message = concat3("unsupported ", section_debug_name(section), " tool ");
        push_str(&mut message, call.tool.as_str());
        issues.push(error("unknown_tool", message, concat2(path, "/tool")));
    }
    assert(issues_view(issues@) =~= before + launch_issues(Some(*call), section, path@));
}

fn manifest_has_bound_identity(manifest: &MacroManifest) -> (r: bool)
    ensures
        r == has_bound_identity(*manifest),
{
    let app_identity_required = match &manifest.app_identity {
        Some(identity) => identity.required && (identity.executable_name.is_some()
            || identity.executable_path.is_some()),
        None => false,
    };
    let bind_identity = match &manifest.bind {
        Some(bind) => bind.required_executable.is_some() || bind.expected_identity_json.is_some(),
        None => false,
    };
    app_identity_required && bind_identity
}

/// Whether `id` is among `ids`.
fn ids_contain(ids: &Vec<String>, id: &str) -> (r: bool)
    ensures
        r == ids@.map_values(|s: String| s@).contains(id@),
{
    let ghost view = ids@.map_values(|s: String| s@);
    let mut i: usize = 0;
    while i < ids.len()
        invariant
            view == ids@.map_values(|s: String| s@),
            i <= ids@.len(),
            forall|j: int| 0 <= j < i ==> view[j] != id@,
        decreases ids.len() - i,
    {
        if str_eq(ids[i].as_str(), id) {
            assert(view[i as int] == id@);
            return true;
        }
        i += 1;
    }
    false
}

proof fn lemma_entries_push(m: MacroManifest, prior: Seq<StepEntry>, e: StepEntry)
    ensures
        entries_issues(m, prior.push(e)) == entries_issues(m, prior) + step_issues(
            m,
            e,
            seen_ids(prior),
        ),
        seen_ids(prior.push(e)) == (if spec_is_blank(e.step.id@) || seen_ids(prior).contains(e.step.id@) {
            seen_ids(prior)
        } else {
            seen_ids(prior).push(e.step.id@)
        }),
{
    assert(prior.push(e).drop_last() == prior);
}

#[verifier::rlimit(50)]
fn validate_steps(
    manifest: &MacroManifest,
    steps: &Vec<MacroStep>,
    section: MacroSection,
    path: &str,
    ids: &mut Vec<String>,
    issues: &mut Vec<MacroValidationIssue>,
    Ghost(prefix): Ghost<Seq<IssueView>>,
    Ghost(prior): Ghost<Seq<StepEntry>>,
)
    requires
        issues_view(old(issues)@) == prefix + entries_issues(*manifest, prior),
        old(ids)@.map_values(|s: String| s@) == seen_ids(prior),
    ensures
        issues_view(final(issues)@) == prefix + entries_issues(
            *manifest,
            prior + section_entries(steps@, section, path@),
        ),
        final(ids)@.map_values(|s: String| s@) == seen_ids(
            prior + section_entries(steps@, section, path@),
        ),
{
    let ghost entries = section_entries(steps@, section, path@);
    let mut index: usize = 0;
    while index < steps.len()
        invariant
            entries == section_entries(steps@, section, path@),
            index <= steps@.len(),
            issues_view(issues@) == prefix + entries_issues(*manifest, prior + entries.take(index as int)),
            ids@.map_values(|s: String| s@) == seen_ids(prior + entries.take(index as int)),
        decreases steps.len() - index,
    {
        let step = &steps[index];
        let ghost done = prior + entries.take(index as int);
        let ghost e = entries[index as int];
        assert(prior + entries.take(index + 1) == done.push(e));
        proof {
            lemma_entries_push(*manifest, done, e);
        }
        let ghost before = issues_view(issues@);
        let ghost seen = seen_ids(done);
        assert(e.step == steps@[index as int] && e.section == section && e.path == path@ && e.index == index);

        let mut sp = concat2(path, "/");
        push_decimal(&mut sp, index as u64);
        assert(sp@ == step_path(e));

        if is_blank(step.id.as_str()) {
            issues.push(error("missing_step_id", owned("macro step ID is required"), concat2(sp.as_str(), "/id")));
        } else if ids_contain(ids, step.id.as_str()) {
            let message = concat3("step ID ", step.id.as_str(), " is used more than once");
            issues.push(error("duplicate_step_id", message, concat2(sp.as_str(), "/id")));
        } else {
            ids.push(step.id.clone());
        }
        let ghost after_id = issues_view(issues@);
        let ghost id_issues = if spec_is_blank(e.step.id@) {
            seq![err_view("missing_step_id"@, "macro step ID is required"@, step_path(e) + "/id"@)]
        } else if seen.contains(e.step.id@) {
            seq![
                err_view(
                    "duplicate_step_id"@,
                    "step ID "@ + e.step.id@ + " is used more than once"@,
                    step_path(e) + "/id"@,
                ),
            ]
        } else {
            seq![]
        };
        assert(after_id =~= before + id_issues);
        assert(ids@.map_values(|s: String| s@) =~= seen_ids(done.push(e)));

        match tool_descriptor(step.tool.as_str()) {
            None => {
                let message = concat2("unsupported macro tool ", step.tool.as_str());
                issues.push(error("unknown_tool", message, concat2(sp.as_str(), "/tool")));
                assert(issues_view(issues@) =~= before + step_issues(*manifest, e, seen));
            },
            Some(descriptor) => {
                if descriptor.requires_bound_window && !manifest_has_bound_identity(manifest) {
                    let mut message = concat3("step ", step.id.as_str(), " uses ");
                    push_str(&mut message, step.tool.as_str());
                    push_str(&mut message, " and requires app identity plus a binding strategy");
                    issues.push(error("target_identity_required", message, owned(sp.as_str())));
                }
                let coordinates = match &step.target {
                    Some(MacroTarget::Coordinates { .. }) => true,
                    _ => false,
                };
                if coordinates && step.coordinate_fallback.is_none() {
                    issues.push(
                        error(
                            "coordinate_fallback_metadata_required",
                            owned(COORDINATE_FALLBACK_MESSAGE),
                            concat2(sp.as_str(), "/coordinate_fallback"),
                        ),
                    );
                }
                if section == MacroSection::Assertion && descriptor.mutates_ui {
                    issues.push(
                        error(
                            "mutating_assertion",
                            owned("assertion steps must not mutate the UI"),
                            owned(sp.as_str()),
                        ),
                    );
                }
                assert(issues_view(issues@) =~= before + step_issues(*manifest, e, seen));
            },
        }
        index += 1;
    }
    assert(entries.take(steps@.len() as int) == entries);
}

/// Whether some issue in the list is an error.
fn any_error(issues: &Vec<MacroValidationIssue>) -> (r: bool)
    ensures
        r == has_error(issues_view(issues@)),
{
    let mut i: usize = 0;
    while i < issues.len()
        invariant
            i <= issues@.len(),
            forall|j: int| 0 <= j < i ==> issues@[j].severity != MacroValidationSeverity::Error,
        decreases issues.len() - i,
    {
        if issues[i].severity == MacroValidationSeverity::Error {
            assert(issues_view(issues@)[i as int].severity == MacroValidationSeverity::Error);
            return true;
        }
        i += 1;
    }
    false
}

/// Validates a macro manifest: the header, the launch call, and every step in
/// section order (preconditions, steps, waits, assertions, cleanup). The report
/// lists every issue found, and the manifest is valid when none is an error.
#[verifier::rlimit(50)]
pub fn validate_manifest(manifest: &MacroManifest) -> (r: MacroValidationReport)
    ensures
        issues_view(r.issues@) == manifest_issues(*manifest),
        r.valid == manifest_valid(*manifest),
{
    let mut issues: Vec<MacroValidationIssue> = Vec::new();
    let ghost m = *manifest;
    let ghost p1 = if m.version@ != MACRO_MANIFEST_VERSION@ {
        seq![
            err_view(
                "unsupported_version"@,
                "manifest version must be "@ + MACRO_MANIFEST_VERSION@ + ", got "@ + m.version@,
                "/version"@,
            ),
        ]
    } else {
        Seq::<IssueView>::empty()
    };
    let ghost p2 = if spec_is_blank(m.kind@) {
        seq![err_view("missing_kind"@, "manifest kind is required"@, "/kind"@)]
    } else {
        Seq::<IssueView>::empty()
    };
    let ghost p3 = if spec_is_blank(m.title@) {
        seq![err_view("missing_title"@, "manifest title is required"@, "/title"@)]
    } else {
        Seq::<IssueView>::empty()
    };
    let ghost p4 = if spec_is_blank(m.description@) {
        seq![
            IssueView {
                severity: MacroValidationSeverity::Warning,
                code: "missing_description"@,
                message: "manifest description is recommended for auditability"@,
                path: "/description"@,
            },
        ]
    } else {
        Seq::<IssueView>::empty()
    };
    let ghost p5 = launch_issues(m.launch, MacroSection::Launch, "/launch"@);
    let ghost p6 = if has_no_steps(m) {
        seq![err_view("missing_steps"@, MISSING_STEPS_MESSAGE@, "/steps"@)]
    } else {
        Seq::<IssueView>::empty()
    };
    if !str_eq(manifest.version.as_str(), MACRO_MANIFEST_VERSION) {
        let mut message = concat3("manifest version must be ", MACRO_MANIFEST_VERSION, ", got ");
        push_str(&mut message, manifest.version.as_str());
        issues.push(error("unsupported_version", message, owned("/version")));
    }
    assert(issues_view(issues@) =~= p1);
    if is_blank(manifest.kind.as_str()) {
        issues.push(error("missing_kind", owned("manifest kind is required"), owned("/kind")));
    }
    assert(issues_view(issues@) =~= p1 + p2);
    if is_blank(manifest.title.as_str()) {
        issues.push(error("missing_title", owned("manifest title is required"), owned("/title")));
    }
    assert(issues_view(issues@) =~= p1 + p2 + p3);
    if is_blank(manifest.description.as_str()) {
        issues.push(
            warning(
                "missing_description",
                owned("manifest description is recommended for auditability"),
                owned("/description"),
            ),
        );
    }
    assert(issues_view(issues@) =~= p1 + p2 + p3 + p4);
    let launch = match &manifest.launch {
        Some(call) => Some(call),
        None => None,
    };
    assert(match launch { Some(c) => Some(*c), None => None } == manifest.launch);
    validate_optional_tool_call(launch, MacroSection::Launch, "/launch", &mut issues);
    assert(issues_view(issues@) =~= p1 + p2 + p3 + p4 + p5);
    if manifest.steps.len() == 0 && manifest.preconditions.len() == 0 && manifest.waits.len() == 0
        && manifest.assertions.len() == 0 && manifest.cleanup.len() == 0 {
        issues.push(error("missing_steps", owned(MISSING_STEPS_MESSAGE), owned("/steps")));
    }
    assert(issues_view(issues@) =~= p1 + p2 + p3 + p4 + p5 + p6);
    assert(header_issues(m) == p1 + p2 + p3 + p4 + p5 + p6);
    assert(issues_view(issues@) =~= header_issues(*manifest));

    let ghost header = header_issues(*manifest);
    let ghost e1 = section_entries(m.preconditions@, MacroSection::Precondition, "/preconditions"@);
    let ghost e2 = section_entries(m.steps@, MacroSection::Step, "/steps"@);
    let ghost e3 = section_entries(m.waits@, MacroSection::Wait, "/waits"@);
    let ghost e4 = section_entries(m.assertions@, MacroSection::Assertion, "/assertions"@);
    let ghost e5 = section_entries(m.cleanup@, MacroSection::Cleanup, "/cleanup"@);
    let mut ids: Vec<String> = Vec::new();
    let ghost empty: Seq<StepEntry> = seq![];
    assert(issues_view(issues@) == header + entries_issues(m, empty));
    assert(ids@.map_values(|s: String| s@) =~= seen_ids(empty));
    validate_steps(manifest, &manifest.preconditions, MacroSection::Precondition, "/preconditions", &mut ids, &mut issues, Ghost(header), Ghost(empty));
    assert(empty + e1 == e1);
    validate_steps(manifest, &manifest.steps, MacroSection::Step, "/steps", &mut ids, &mut issues, Ghost(header), Ghost(e1));
    validate_steps(manifest, &manifest.waits, MacroSection::Wait, "/waits", &mut ids, &mut issues, Ghost(header), Ghost(e1 + e2));
    validate_steps(manifest, &manifest.assertions, MacroSection::Assertion, "/assertions", &mut ids, &mut issues, Ghost(header), Ghost(e1 + e2 + e3));
    validate_steps(manifest, &manifest.cleanup, MacroSection::Cleanup, "/cleanup", &mut ids, &mut issues, Ghost(header), Ghost(e1 + e2 + e3 + e4));
    assert(e1 + e2 + e3 + e4 + e5 == all_entries(m));
    let valid = !any_error(&issues);
    MacroValidationReport { valid, issues }
}


// ---------------------------------------------------------------------------
// Dry-run planning
// ---------------------------------------------------------------------------

/// The view of a planned step.
pub struct PlanStepView {
    pub id: Seq<char>,
    pub section: MacroSection,
    pub tool: Seq<char>,
    pub mutates_ui: bool,
    pub requires_bound_window: bool,
    pub produces_artifact: bool,
    pub category: Seq<char>,
    pub target_strategy: Seq<char>,
}

/// The view of a planned step.
pub open spec fn plan_step_view(p: MacroPlanStep) -> PlanStepView {
    PlanStepView {
        id: p.id@,
        section: p.section,
        tool: p.tool@,
        mutates_ui: p.mutates_ui,
        requires_bound_window: p.requires_bound_window,
        produces_artifact: p.produces_artifact,
        category: p.category@,
        target_strategy: p.target_strategy@,
    }
}

/// The views of a list of planned steps.
pub open spec fn plan_view(v: Seq<MacroPlanStep>) -> Seq<PlanStepView> {
    v.map_values(|p: MacroPlanStep| plan_step_view(p))
}

/// How a step's target is resolved, named after the kind of target.
pub open spec fn spec_target_strategy(target: Option<MacroTarget>) -> Seq<char> {
    match target {
        Some(MacroTarget::BoundWindow { .. }) => "bound_window"@,
        Some(MacroTarget::LaunchedProcessWindow { .. }) => "launched_process_window"@,
        Some(MacroTarget::UiElement(_)) => "uia_element"@,
        Some(MacroTarget::ImageCheckpoint { .. }) => "image_checkpoint"@,
        Some(MacroTarget::TextCheckpoint { .. }) => "text_checkpoint"@,
        Some(MacroTarget::Coordinates { .. }) => "coordinate_fallback"@,
        None => "tool_arguments"@,
    }
}

/// The planned step of a call of a known tool.
pub open spec fn tool_plan_view(
    id: Seq<char>,
    section: MacroSection,
    tool: Seq<char>,
    d: ToolDescriptor,
    target: Option<MacroTarget>,
) -> PlanStepView {
    PlanStepView {
        id,
        section,
        tool,
        mutates_ui: d.mutates_ui,
        requires_bound_window: d.requires_bound_window,
        produces_artifact: d.produces_artifact,
        category: d.category@,
        target_strategy: spec_target_strategy(target),
    }
}

/// The planned step of a step entry, if its tool is known (steps with unknown tools are left out).
pub open spec fn entry_plan(e: StepEntry) -> Seq<PlanStepView> {
    match spec_tool_descriptor(e.step.tool@) {
        Some(d) => seq![tool_plan_view(e.step.id@, e.section, e.step.tool@, d, e.step.target)],
        None => seq![],
    }
}

/// The planned steps of a run of step entries.
pub open spec fn entries_plan(entries: Seq<StepEntry>) -> Seq<PlanStepView>
    decreases entries.len(),
{
    if entries.len() == 0 {
        seq![]
    } else {
        entries_plan(entries.drop_last()) + entry_plan(entries.last())
    }
}

/// The planned launch step, if the manifest launches a known tool.
pub open spec fn launch_plan(m: MacroManifest) -> Seq<PlanStepView> {
    match m.launch {
        Some(call) => match spec_tool_descriptor(call.tool@) {
            Some(d) => seq![tool_plan_view("launch"@, MacroSection::Launch, call.tool@, d, None)],
            None => seq![],
        },
        None => seq![],
    }
}

/// The planned bind step, if the manifest has a binding strategy.
pub open spec fn bind_plan(m: MacroManifest) -> Seq<PlanStepView> {
    match m.bind {
        Some(b) => seq![
            PlanStepView {
                id: "bind"@,
                section: MacroSection::Bind,
                tool: "windows.bind"@,
                mutates_ui: false,
                requires_bound_window: false,
                produces_artifact: false,
                category: "window"@,
                target_strategy: b.strategy@,
            },
        ],
        None => seq![],
    }
}

/// Every planned step of a manifest: launch, bind, then the steps in section order.
pub open spec fn manifest_plan(m: MacroManifest) -> Seq<PlanStepView> {
    launch_plan(m) + bind_plan(m) + entries_plan(all_entries(m))
}

fn target_strategy(target: Option<&MacroTarget>) -> (r: String)
    ensures
        r@ == spec_target_strategy(
            match target {
                Some(t) => Some(*t),
                None => None,
            },
        ),
{
    match target {
        Some(MacroTarget::BoundWindow { .. }) => owned("bound_window"),
        Some(MacroTarget::LaunchedProcessWindow { .. }) => owned("launched_process_window"),
        Some(MacroTarget::UiElement(_)) => owned("uia_element"),
        Some(MacroTarget::ImageCheckpoint { .. }) => owned("image_checkpoint"),
        Some(MacroTarget::TextCheckpoint { .. }) => owned("text_checkpoint"),
        Some(MacroTarget::Coordinates { .. }) => owned("coordinate_fallback"),
        None => owned("tool_arguments"),
    }
}

fn plan_tool_call(
    id: &str,
    section: MacroSection,
    tool: &str,
    descriptor: ToolDescriptor,
    target: Option<&MacroTarget>,
) -> (r: MacroPlanStep)
    ensures
        plan_step_view(r) == tool_plan_view(
            id@,
            section,
            tool@,
            descriptor,
            match target {
                Some(t) => Some(*t),
                None => None,
            },
        ),
{
    MacroPlanStep {
        id: owned(id),
        section,
        tool: owned(tool),
        mutates_ui: descriptor.mutates_ui,
        requires_bound_window: descriptor.requires_bound_window,
        produces_artifact: descriptor.produces_artifact,
        category: owned(descriptor.category),
        target_strategy: target_strategy(target),
    }
}

fn plan_section(
    steps: &Vec<MacroStep>,
    section: MacroSection,
    path: &str,
    plan: &mut Vec<MacroPlanStep>,
    Ghost(prefix): Ghost<Seq<PlanStepView>>,
    Ghost(prior): Ghost<Seq<StepEntry>>,
)
    requires
        plan_view(old(plan)@) == prefix + entries_plan(prior),
    ensures
        plan_view(final(plan)@) == prefix + entries_plan(prior + section_entries(steps@, section, path@)),
{
    let ghost entries = section_entries(steps@, section, path@);
    let mut index: usize = 0;
    while index < steps.len()
        invariant
            entries == section_entries(steps@, section, path@),
            index <= steps@.len(),
            plan_view(plan@) == prefix + entries_plan(prior + entries.take(index as int)),
        decreases steps.len() - index,
    {
        let step = &steps[index];
        let ghost done = prior + entries.take(index as int);
        let ghost e = entries[index as int];
        assert(prior + entries.take(index + 1) == done.push(e));
        assert(done.push(e).drop_last() == done);
        assert(e.step == steps@[index as int] && e.section == section);
        let ghost before = plan_view(plan@);
        match tool_descriptor(step.tool.as_str()) {
            Some(descriptor) => {
                let target = match &step.target {
                    Some(t) => Some(t),
                    None => None,
                };
                assert(match target { Some(t) => Some(*t), None => None } == step.target);
                plan.push(plan_tool_call(step.id.as_str(), section, step.tool.as_str(), descriptor, target));
            },
            None => {},
        }
        assert(plan_view(plan@) =~= before + entry_plan(e));
        index += 1;
    }
    assert(entries.take(steps@.len() as int) == entries);
}

fn plan_steps(manifest: &MacroManifest) -> (r: Vec<MacroPlanStep>)
    ensures
        plan_view(r@) == manifest_plan(*manifest),
{
    let ghost m = *manifest;
    let mut steps: Vec<MacroPlanStep> = Vec::new();
    if let Some(launch) = &manifest.launch {
        if let Some(descriptor) = tool_descriptor(launch.tool.as_str()) {
            steps.push(plan_tool_call("launch", MacroSection::Launch, launch.tool.as_str(), descriptor, None));
        }
    }
    assert(plan_view(steps@) =~= launch_plan(m));
    if let Some(bind) = &manifest.bind {
        steps.push(MacroPlanStep {
            id: owned("bind"),
            section: MacroSection::Bind,
            tool: owned("windows.bind"),
            mutates_ui: false,
            requires_bound_window: false,
            produces_artifact: false,
            category: owned("window"),
            target_strategy: bind.strategy.clone(),
        });
    }
    let ghost head = launch_plan(m) + bind_plan(m);
    assert(plan_view(steps@) =~= head);
    let ghost e1 = section_entries(m.preconditions@, MacroSection::Precondition, "/preconditions"@);
    let ghost e2 = section_entries(m.steps@, MacroSection::Step, "/steps"@);
    let ghost e3 = section_entries(m.waits@, MacroSection::Wait, "/waits"@);
    let ghost e4 = section_entries(m.assertions@, MacroSection::Assertion, "/assertions"@);
    let ghost e5 = section_entries(m.cleanup@, MacroSection::Cleanup, "/cleanup"@);
    let ghost empty: Seq<StepEntry> = seq![];
    assert(plan_view(steps@) == head + entries_plan(empty));
    plan_section(&manifest.preconditions, MacroSection::Precondition, "/preconditions", &mut steps, Ghost(head), Ghost(empty));
    assert(empty + e1 == e1);
    plan_section(&manifest.steps, MacroSection::Step, "/steps", &mut steps, Ghost(head), Ghost(e1));
    plan_section(&manifest.waits, MacroSection::Wait, "/waits", &mut steps, Ghost(head), Ghost(e1 + e2));
    plan_section(&manifest.assertions, MacroSection::Assertion, "/assertions", &mut steps, Ghost(head), Ghost(e1 + e2 + e3));
    plan_section(&manifest.cleanup, MacroSection::Cleanup, "/cleanup", &mut steps, Ghost(head), Ghost(e1 + e2 + e3 + e4));
    assert(e1 + e2 + e3 + e4 + e5 == all_entries(m));
    steps
}

/// The current UTC time in RFC 3339 form.
///
/// Trusted: calls chrono `Utc::now()` and formats it with `to_rfc3339`. The
/// result depends on the clock, so nothing is stated of it.
#[verifier::external_body]
fn utc_now_rfc3339() -> String {
    chrono::Utc::now().to_rfc3339()
}

/// The dry-run plan of a manifest stamped with `generated_at`: the plan when the
/// manifest is valid, else the validation report (with `valid` false).
pub fn dry_run_plan_at(manifest: &MacroManifest, generated_at: String) -> (r: Result<MacroPlan, MacroValidationReport>)
    ensures
        r is Ok <==> manifest_valid(*manifest),
        match r {
            Ok(plan) => {
                &&& plan.valid
                &&& plan.generated_at@ == generated_at@
                &&& plan.manifest_version@ == manifest.version@
                &&& plan.title@ == manifest.title@
                &&& plan_view(plan.steps@) == manifest_plan(*manifest)
                &&& issues_view(plan.issues@) == manifest_issues(*manifest)
            },
            Err(report) => {
                &&& !report.valid
                &&& issues_view(report.issues@) == manifest_issues(*manifest)
            },
        },
{
    let report = validate_manifest(manifest);
    if report.valid {
        let steps = plan_steps(manifest);
        Ok(MacroPlan {
            valid: report.valid,
            generated_at,
            manifest_version: manifest.version.clone(),
            title: manifest.title.clone(),
            steps,
            issues: report.issues,
        })
    } else {
        Err(MacroValidationReport { valid: false, issues: report.issues })
    }
}

/// The dry-run plan of a manifest, stamped with the current time: the plan when
/// the manifest is valid, else the validation report (with `valid` false).
pub fn dry_run_plan(manifest: &MacroManifest) -> (r: Result<MacroPlan, MacroValidationReport>)
    ensures
        r is Ok <==> manifest_valid(*manifest),
        match r {
            Ok(plan) => {
                &&& plan.valid
                &&& plan.manifest_version@ == manifest.version@
                &&& plan.title@ == manifest.title@
                &&& plan_view(plan.steps@) == manifest_plan(*manifest)
                &&& issues_view(plan.issues@) == manifest_issues(*manifest)
            },
            Err(report) => {
                &&& !report.valid
                &&& issues_view(report.issues@) == manifest_issues(*manifest)
            },
        },
{
    let generated_at = utc_now_rfc3339();
    dry_run_plan_at(manifest, generated_at)
}

// ---------------------------------------------------------------------------
// Laws of validation
// ---------------------------------------------------------------------------

/// The codes of the issues a step or a launch call of `m` can have:
/// `target_identity_required` only when `m` lacks a bound identity.
pub open spec fn step_codes(m: MacroManifest) -> Set<Seq<char>> {
    let codes = set![
        "missing_step_id"@,
        "duplicate_step_id"@,
        "unknown_tool"@,
        "coordinate_fallback_metadata_required"@,
        "mutating_assertion"@,
        "missing_tool"@,
    ];
    if has_bound_identity(m) {
        codes
    } else {
        codes.insert("target_identity_required"@)
    }
}

/// Every issue among `issues` is an error with one of the step codes of `m`.
pub open spec fn step_errors_only(m: MacroManifest, issues: Seq<IssueView>) -> bool {
    forall|i: int|
        0 <= i < issues.len() ==> (#[trigger] issues[i]).severity == MacroValidationSeverity::Error
            && step_codes(m).contains(issues[i].code)
}

/// The warning a blank description gives.
pub open spec fn description_warning() -> IssueView {
    IssueView {
        severity: MacroValidationSeverity::Warning,
        code: "missing_description"@,
        message: "manifest description is recommended for auditability"@,
        path: "/description"@,
    }
}

proof fn lemma_step_errors_concat(m: MacroManifest, a: Seq<IssueView>, b: Seq<IssueView>)
    requires
        step_errors_only(m, a),
        step_errors_only(m, b),
    ensures
        step_errors_only(m, a + b),
{
    assert forall|i: int| 0 <= i < (a + b).len() implies (#[trigger] (a + b)[i]).severity
        == MacroValidationSeverity::Error && step_codes(m).contains((a + b)[i].code) by {
        if i < a.len() {
            assert((a + b)[i] == a[i]);
        } else {
            assert((a + b)[i] == b[i - a.len()]);
        }
    }
}

proof fn lemma_launch_issues_are_step_errors(m: MacroManifest, call: Option<ToolCall>, section: MacroSection, path: Seq<char>)
    ensures
        step_errors_only(m, launch_issues(call, section, path)),
{
}

proof fn lemma_step_issues_are_step_errors(m: MacroManifest, e: StepEntry, seen: Seq<Seq<char>>)
    ensures
        step_errors_only(m, step_issues(m, e, seen)),
{
    let sp = step_path(e);
    let id_issues = if spec_is_blank(e.step.id@) {
        seq![err_view("missing_step_id"@, "macro step ID is required"@, sp + "/id"@)]
    } else if seen.contains(e.step.id@) {
        seq![
            err_view(
                "duplicate_step_id"@,
                "step ID "@ + e.step.id@ + " is used more than once"@,
                sp + "/id"@,
            ),
        ]
    } else {
        seq![]
    };
    assert(step_errors_only(m, id_issues));
    match spec_tool_descriptor(e.step.tool@) {
        None => {
            let tail = seq![err_view("unknown_tool"@, "unsupported macro tool "@ + e.step.tool@, sp + "/tool"@)];
            assert(step_errors_only(m, tail));
            lemma_step_errors_concat(m, id_issues, tail);
        },
        Some(d) => {
            let a = if d.requires_bound_window && !has_bound_identity(m) {
                seq![
                    err_view(
                        "target_identity_required"@,
                        "step "@ + e.step.id@ + " uses "@ + e.step.tool@
                            + " and requires app identity plus a binding strategy"@,
                        sp,
                    ),
                ]
            } else {
                seq![]
            };
            let b = if (e.step.target matches Some(MacroTarget::Coordinates { .. }))
                && e.step.coordinate_fallback is None {
                seq![
                    err_view(
                        "coordinate_fallback_metadata_required"@,
                        COORDINATE_FALLBACK_MESSAGE@,
                        sp + "/coordinate_fallback"@,
                    ),
                ]
            } else {
                seq![]
            };
            let c = if e.section == MacroSection::Assertion && d.mutates_ui {
                seq![err_view("mutating_assertion"@, "assertion steps must not mutate the UI"@, sp)]
            } else {
                seq![]
            };
            assert(step_errors_only(m, a));
            assert(step_errors_only(m, b));
            assert(step_errors_only(m, c));
            lemma_step_errors_concat(m, id_issues, a);
            lemma_step_errors_concat(m, id_issues + a, b);
            lemma_step_errors_concat(m, id_issues + a + b, c);
        },
    }
}

proof fn lemma_entries_issues_are_step_errors(m: MacroManifest, entries: Seq<StepEntry>)
    ensures
        step_errors_only(m, entries_issues(m, entries)),
    decreases entries.len(),
{
    if entries.len() > 0 {
        lemma_entries_issues_are_step_errors(m, entries.drop_last());
        lemma_step_issues_are_step_errors(m, entries.last(), seen_ids(entries.drop_last()));
        lemma_step_errors_concat(
            m,
            entries_issues(m, entries.drop_last()),
            step_issues(m, entries.last(), seen_ids(entries.drop_last())),
        );
    }
}

/// Where each issue of a manifest comes from: the header's version, kind, title,
/// description and step-count checks, each only in its own case, or a launch
/// call or step (an error with a step code).
pub proof fn lemma_issue_origin(m: MacroManifest, i: int)
    requires
        0 <= i < manifest_issues(m).len(),
    ensures
        ({
            let x = manifest_issues(m)[i];
            ||| (x == err_view(
                "unsupported_version"@,
                "manifest version must be "@ + MACRO_MANIFEST_VERSION@ + ", got "@ + m.version@,
                "/version"@,
            ) && m.version@ != MACRO_MANIFEST_VERSION@)
            ||| (x == err_view("missing_kind"@, "manifest kind is required"@, "/kind"@) && spec_is_blank(m.kind@))
            ||| (x == err_view("missing_title"@, "manifest title is required"@, "/title"@) && spec_is_blank(m.title@))
            ||| (x == description_warning() && spec_is_blank(m.description@))
            ||| (x == err_view("missing_steps"@, MISSING_STEPS_MESSAGE@, "/steps"@) && has_no_steps(m))
            ||| (x.severity == MacroValidationSeverity::Error && step_codes(m).contains(x.code))
        }),
{
    let v = if m.version@ != MACRO_MANIFEST_VERSION@ {
        seq![
            err_view(
                "unsupported_version"@,
                "manifest version must be "@ + MACRO_MANIFEST_VERSION@ + ", got "@ + m.version@,
                "/version"@,
            ),
        ]
    } else {
        seq![]
    };
    let k = if spec_is_blank(m.kind@) {
        seq![err_view("missing_kind"@, "manifest kind is required"@, "/kind"@)]
    } else {
        seq![]
    };
    let t = if spec_is_blank(m.title@) {
        seq![err_view("missing_title"@, "manifest title is required"@, "/title"@)]
    } else {
        seq![]
    };
    let d = if spec_is_blank(m.description@) {
        seq![description_warning()]
    } else {
        seq![]
    };
    let l = launch_issues(m.launch, MacroSection::Launch, "/launch"@);
    let st = if has_no_steps(m) {
        seq![err_view("missing_steps"@, MISSING_STEPS_MESSAGE@, "/steps"@)]
    } else {
        seq![]
    };
    let e = entries_issues(m, all_entries(m));
    assert(header_issues(m) == v + k + t + d + l + st);
    let all = v + k + t + d + l + st + e;
    assert(manifest_issues(m) == all);
    lemma_launch_issues_are_step_errors(m, m.launch, MacroSection::Launch, "/launch"@);
    lemma_entries_issues_are_step_errors(m, all_entries(m));
    let n1 = v.len() as int;
    let n2 = n1 + k.len();
    let n3 = n2 + t.len();
    let n4 = n3 + d.len();
    let n5 = n4 + l.len();
    let n6 = n5 + st.len();
    if i < n1 {
        assert(all[i] == v[i]);
    } else if i < n2 {
        assert(all[i] == k[i - n1]);
    } else if i < n3 {
        assert(all[i] == t[i - n2]);
    } else if i < n4 {
        assert(all[i] == d[i - n3]);
    } else if i < n5 {
        assert(all[i] == l[i - n4]);
    } else if i < n6 {
        assert(all[i] == st[i - n5]);
    } else {
        assert(all[i] == e[i - n6]);
    }
}

/// The issue an unsupported version gives.
pub open spec fn version_issue(m: MacroManifest) -> IssueView {
    err_view(
        "unsupported_version"@,
        "manifest version must be "@ + MACRO_MANIFEST_VERSION@ + ", got "@ + m.version@,
        "/version"@,
    )
}

/// The issue a manifest without steps gives.
pub open spec fn missing_steps_issue() -> IssueView {
    err_view("missing_steps"@, MISSING_STEPS_MESSAGE@, "/steps"@)
}

/// The header's issues come first, then the steps'; the version issue, when
/// there is one, is the very first, and the description warning and the
/// step-count issue appear when their cases hold.
proof fn lemma_header_positions(m: MacroManifest)
    ensures
        manifest_issues(m) == header_issues(m) + entries_issues(m, all_entries(m)),
        m.version@ != MACRO_MANIFEST_VERSION@ ==> manifest_issues(m).len() > 0 && manifest_issues(m)[0]
            == version_issue(m),
        spec_is_blank(m.description@) ==> exists|p: int|
            0 <= p < manifest_issues(m).len() && #[trigger] manifest_issues(m)[p] == description_warning(),
        has_no_steps(m) ==> exists|p: int|
            0 <= p < manifest_issues(m).len() && #[trigger] manifest_issues(m)[p] == missing_steps_issue(),
{
    let v = if m.version@ != MACRO_MANIFEST_VERSION@ {
        seq![version_issue(m)]
    } else {
        seq![]
    };
    let k = if spec_is_blank(m.kind@) {
        seq![err_view("missing_kind"@, "manifest kind is required"@, "/kind"@)]
    } else {
        seq![]
    };
    let t = if spec_is_blank(m.title@) {
        seq![err_view("missing_title"@, "manifest title is required"@, "/title"@)]
    } else {
        seq![]
    };
    let d = if spec_is_blank(m.description@) {
        seq![description_warning()]
    } else {
        seq![]
    };
    let l = launch_issues(m.launch, MacroSection::Launch, "/launch"@);
    let st = if has_no_steps(m) {
        seq![missing_steps_issue()]
    } else {
        seq![]
    };
    let e = entries_issues(m, all_entries(m));
    assert(header_issues(m) == v + k + t + d + l + st);
    let all = v + k + t + d + l + st + e;
    assert(manifest_issues(m) == all);
    if m.version@ != MACRO_MANIFEST_VERSION@ {
        assert(all[0] == v[0]);
    }
    if spec_is_blank(m.description@) {
        let p = (v.len() + k.len() + t.len()) as int;
        assert(all[p] == d[0]);
    }
    if has_no_steps(m) {
        let p = (v.len() + k.len() + t.len() + d.len() + l.len()) as int;
        assert(all[p] == st[0]);
    }
}

/// The codes of the header's checks differ from each other and from the step codes.
proof fn lemma_header_codes_distinct(m: MacroManifest)
    ensures
        !step_codes(m).contains("unsupported_version"@),
        !step_codes(m).contains("missing_steps"@),
        !step_codes(m).contains("target_identity_required"@) || !has_bound_identity(m),
        "unsupported_version"@ != "missing_kind"@,
        "unsupported_version"@ != "missing_title"@,
        "unsupported_version"@ != "missing_description"@,
        "unsupported_version"@ != "missing_steps"@,
        "missing_steps"@ != "missing_kind"@,
        "missing_steps"@ != "missing_title"@,
        "missing_steps"@ != "missing_description"@,
        "target_identity_required"@ != "unsupported_version"@,
        "target_identity_required"@ != "missing_kind"@,
        "target_identity_required"@ != "missing_title"@,
        "target_identity_required"@ != "missing_description"@,
        "target_identity_required"@ != "missing_steps"@,
{
    reveal_strlit("unsupported_version");
    reveal_strlit("missing_kind");
    reveal_strlit("missing_title");
    reveal_strlit("missing_description");
    reveal_strlit("missing_steps");
    reveal_strlit("missing_step_id");
    reveal_strlit("duplicate_step_id");
    reveal_strlit("unknown_tool");
    reveal_strlit("target_identity_required");
    reveal_strlit("coordinate_fallback_metadata_required");
    reveal_strlit("mutating_assertion");
    reveal_strlit("missing_tool");
    assert("unsupported_version"@[0] != "missing_kind"@[0]);
    assert("unsupported_version"@[0] != "missing_description"@[0]);
    assert("missing_steps"@[8] != "missing_step_id"@[8] || "missing_steps"@.len() != "missing_step_id"@.len());
    assert("missing_steps"@.len() != "missing_tool"@.len());
    assert("missing_steps"@.len() != "missing_kind"@.len());
    assert("missing_steps"@[8] != "missing_title"@[8]);
    assert("unsupported_version"@[0] != "unknown_tool"@[1]);
    let codes = seq![
        "missing_step_id"@,
        "duplicate_step_id"@,
        "unknown_tool"@,
        "coordinate_fallback_metadata_required"@,
        "mutating_assertion"@,
        "missing_tool"@,
    ];
    assert forall|j: int| 0 <= j < codes.len() implies #[trigger] codes[j] != "unsupported_version"@ && codes[j]
        != "target_identity_required"@ && codes[j] != "missing_steps"@ by {
        assert(codes[j].len() != "unsupported_version"@.len());
        assert(codes[j].len() != "target_identity_required"@.len());
        if j == 0 {
            assert(codes[j][8] != "missing_steps"@[8] || codes[j].len() != "missing_steps"@.len());
        } else {
            assert(codes[j].len() != "missing_steps"@.len());
        }
    }
    assert(!step_codes(m).contains("unsupported_version"@)) by {
        assert(codes[0] != "unsupported_version"@ && codes[1] != "unsupported_version"@);
        assert(codes[2] != "unsupported_version"@ && codes[3] != "unsupported_version"@);
        assert(codes[4] != "unsupported_version"@ && codes[5] != "unsupported_version"@);
    }
    assert(!step_codes(m).contains("missing_steps"@)) by {
        assert(codes[0] != "missing_steps"@ && codes[1] != "missing_steps"@);
        assert(codes[2] != "missing_steps"@ && codes[3] != "missing_steps"@);
        assert(codes[4] != "missing_steps"@ && codes[5] != "missing_steps"@);
    }
    assert(!step_codes(m).contains("target_identity_required"@) || !has_bound_identity(m)) by {
        assert(codes[0] != "target_identity_required"@ && codes[1] != "target_identity_required"@);
        assert(codes[2] != "target_identity_required"@ && codes[3] != "target_identity_required"@);
        assert(codes[4] != "target_identity_required"@ && codes[5] != "target_identity_required"@);
    }
}

/// Only a blank description gives a warning: every warning among a manifest's
/// issues is the `missing_description` warning at `/description`, there is one
/// exactly when the description is blank, and a manifest is valid exactly when
/// it has no issue but that warning (so a blank description alone never makes
/// it invalid).
pub proof fn lemma_only_missing_description_warns(m: MacroManifest)
    ensures
        forall|i: int|
            0 <= i < manifest_issues(m).len() && (#[trigger] manifest_issues(m)[i]).severity
                == MacroValidationSeverity::Warning ==> manifest_issues(m)[i] == description_warning(),
        (exists|i: int|
            0 <= i < manifest_issues(m).len() && (#[trigger] manifest_issues(m)[i]).severity
                == MacroValidationSeverity::Warning) <==> spec_is_blank(m.description@),
        manifest_valid(m) <==> forall|i: int|
            0 <= i < manifest_issues(m).len() ==> #[trigger] manifest_issues(m)[i] == description_warning(),
{
    let issues = manifest_issues(m);
    assert forall|i: int| 0 <= i < issues.len() && (#[trigger] issues[i]).severity
        == MacroValidationSeverity::Warning implies issues[i] == description_warning() && spec_is_blank(
        m.description@,
    ) by {
        lemma_issue_origin(m, i);
    }
    lemma_header_positions(m);
    if spec_is_blank(m.description@) {
        let p = choose|p: int| 0 <= p < issues.len() && #[trigger] issues[p] == description_warning();
        assert(issues[p].severity == MacroValidationSeverity::Warning);
    }
    assert(manifest_valid(m) <==> forall|i: int| 0 <= i < issues.len() ==> #[trigger] issues[i] == description_warning()) by {
        if manifest_valid(m) {
            assert forall|i: int| 0 <= i < issues.len() implies #[trigger] issues[i] == description_warning() by {
                if issues[i].severity == MacroValidationSeverity::Error {
                    assert(has_error(issues));
                }
            }
        }
        if forall|i: int| 0 <= i < issues.len() ==> #[trigger] issues[i] == description_warning() {
            if has_error(issues) {
                let j = choose|j: int| 0 <= j < issues.len() && issues[j].severity == MacroValidationSeverity::Error;
                assert(issues[j] == description_warning());
            }
        }
    }
}

/// The `unsupported_version` error at `/version` is among a manifest's issues
/// exactly when its version is not `MACRO_MANIFEST_VERSION` (compared exactly),
/// and such a manifest is invalid.
pub proof fn lemma_unsupported_version_iff(m: MacroManifest)
    ensures
        (exists|i: int|
            0 <= i < manifest_issues(m).len() && (#[trigger] manifest_issues(m)[i]).code == "unsupported_version"@
                && manifest_issues(m)[i].path == "/version"@ && manifest_issues(m)[i].severity
                == MacroValidationSeverity::Error) <==> m.version@ != MACRO_MANIFEST_VERSION@,
        m.version@ != MACRO_MANIFEST_VERSION@ ==> !manifest_valid(m),
        MACRO_MANIFEST_VERSION@ == "winctl.macro.v1"@,
{
    let issues = manifest_issues(m);
    lemma_header_positions(m);
    lemma_header_codes_distinct(m);
    assert forall|i: int| 0 <= i < issues.len() && (#[trigger] issues[i]).code == "unsupported_version"@ implies m.version@
        != MACRO_MANIFEST_VERSION@ by {
        lemma_issue_origin(m, i);
    }
    if m.version@ != MACRO_MANIFEST_VERSION@ {
        assert(issues[0].code == "unsupported_version"@);
        assert(has_error(issues));
    }
}

/// The `missing_steps` error at `/steps` is among a manifest's issues exactly
/// when its five step sections are all empty (a launch call or a binding does
/// not count as a step).
pub proof fn lemma_missing_steps_iff(m: MacroManifest)
    ensures
        (exists|i: int|
            0 <= i < manifest_issues(m).len() && (#[trigger] manifest_issues(m)[i]).code == "missing_steps"@
                && manifest_issues(m)[i].path == "/steps"@ && manifest_issues(m)[i].severity
                == MacroValidationSeverity::Error) <==> has_no_steps(m),
        has_no_steps(m) <==> (m.preconditions@.len() == 0 && m.steps@.len() == 0 && m.waits@.len() == 0
            && m.assertions@.len() == 0 && m.cleanup@.len() == 0),
{
    let issues = manifest_issues(m);
    lemma_header_positions(m);
    lemma_header_codes_distinct(m);
    assert forall|i: int| 0 <= i < issues.len() && (#[trigger] issues[i]).code == "missing_steps"@ implies has_no_steps(m) by {
        lemma_issue_origin(m, i);
    }
    if has_no_steps(m) {
        let p = choose|p: int| 0 <= p < issues.len() && #[trigger] issues[p] == missing_steps_issue();
        assert(issues[p].code == "missing_steps"@);
    }
}

/// Each issue of one entry appears among the issues of the entries it stands in.
proof fn lemma_entry_issues_included(m: MacroManifest, entries: Seq<StepEntry>, k: int, j: int)
    requires
        0 <= k < entries.len(),
        0 <= j < step_issues(m, entries[k], seen_ids(entries.take(k))).len(),
    ensures
        exists|p: int|
            0 <= p < entries_issues(m, entries).len() && #[trigger] entries_issues(m, entries)[p]
                == step_issues(m, entries[k], seen_ids(entries.take(k)))[j],
    decreases entries.len(),
{
    let prev = entries.drop_last();
    let all = entries_issues(m, entries);
    let before = entries_issues(m, prev);
    assert(all == before + step_issues(m, entries.last(), seen_ids(prev)));
    if k == entries.len() - 1 {
        assert(entries.take(k) =~= prev);
        let p = before.len() + j;
        assert(all[p] == step_issues(m, entries[k], seen_ids(entries.take(k)))[j]);
    } else {
        assert(prev[k] == entries[k]);
        assert(prev.take(k) =~= entries.take(k));
        lemma_entry_issues_included(m, prev, k, j);
        let p = choose|p: int| 0 <= p < before.len() && #[trigger] before[p]
            == step_issues(m, prev[k], seen_ids(prev.take(k)))[j];
        assert(all[p] == before[p]);
    }
}

/// For a step whose tool acts on a bound window, the `target_identity_required`
/// error at the step's path is among the manifest's issues exactly when the
/// manifest lacks a required app identity or a binding identity.
pub proof fn lemma_target_identity_required_iff(m: MacroManifest, k: int)
    requires
        0 <= k < all_entries(m).len(),
        spec_tool_descriptor(all_entries(m)[k].step.tool@) matches Some(d) && d.requires_bound_window,
    ensures
        (exists|i: int|
            0 <= i < manifest_issues(m).len() && (#[trigger] manifest_issues(m)[i]).code
                == "target_identity_required"@ && manifest_issues(m)[i].path == step_path(all_entries(m)[k])
                && manifest_issues(m)[i].severity == MacroValidationSeverity::Error) <==> !has_bound_identity(m),
{
    let issues = manifest_issues(m);
    let entries = all_entries(m);
    let e = entries[k];
    lemma_header_positions(m);
    lemma_header_codes_distinct(m);
    assert forall|i: int| 0 <= i < issues.len() && (#[trigger] issues[i]).code == "target_identity_required"@ implies !has_bound_identity(m) by {
        lemma_issue_origin(m, i);
    }
    if !has_bound_identity(m) {
        let seen = seen_ids(entries.take(k));
        let si = step_issues(m, e, seen);
        let sp = step_path(e);
        let d = spec_tool_descriptor(e.step.tool@)->Some_0;
        let id_issues = if spec_is_blank(e.step.id@) {
            seq![err_view("missing_step_id"@, "macro step ID is required"@, sp + "/id"@)]
        } else if seen.contains(e.step.id@) {
            seq![
                err_view(
                    "duplicate_step_id"@,
                    "step ID "@ + e.step.id@ + " is used more than once"@,
                    sp + "/id"@,
                ),
            ]
        } else {
            seq![]
        };
        let target = err_view(
            "target_identity_required"@,
            "step "@ + e.step.id@ + " uses "@ + e.step.tool@ + " and requires app identity plus a binding strategy"@,
            sp,
        );
        let rest = (if (e.step.target matches Some(MacroTarget::Coordinates { .. }))
            && e.step.coordinate_fallback is None {
            seq![
                err_view(
                    "coordinate_fallback_metadata_required"@,
                    COORDINATE_FALLBACK_MESSAGE@,
                    sp + "/coordinate_fallback"@,
                ),
            ]
        } else {
            seq![]
        }) + (if e.section == MacroSection::Assertion && d.mutates_ui {
            seq![err_view("mutating_assertion"@, "assertion steps must not mutate the UI"@, sp)]
        } else {
            seq![]
        });
        assert(si =~= id_issues + seq![target] + rest);
        let j = id_issues.len() as int;
        assert(si[j] == target);
        lemma_entry_issues_included(m, entries, k, j);
        let ei = entries_issues(m, entries);
        let p = choose|p: int| 0 <= p < ei.len() && #[trigger] ei[p] == si[j];
        let q = header_issues(m).len() + p;
        assert(issues[q] == ei[p]);
    }
}

/// The planned step of an entry whose tool is known.
pub open spec fn known_entry_plan(e: StepEntry) -> PlanStepView {
    tool_plan_view(e.step.id@, e.section, e.step.tool@, spec_tool_descriptor(e.step.tool@)->Some_0, e.step.target)
}

proof fn lemma_entries_plan_of_known_tools(entries: Seq<StepEntry>)
    requires
        forall|k: int| 0 <= k < entries.len() ==> spec_tool_descriptor((#[trigger] entries[k]).step.tool@) is Some,
    ensures
        entries_plan(entries).len() == entries.len(),
        forall|k: int| 0 <= k < entries.len() ==> #[trigger] entries_plan(entries)[k] == known_entry_plan(entries[k]),
    decreases entries.len(),
{
    if entries.len() > 0 {
        let prev = entries.drop_last();
        assert forall|k: int| 0 <= k < prev.len() implies spec_tool_descriptor((#[trigger] prev[k]).step.tool@) is Some by {
            assert(prev[k] == entries[k]);
        }
        lemma_entries_plan_of_known_tools(prev);
        assert(spec_tool_descriptor(entries[entries.len() - 1].step.tool@) is Some);
        assert forall|k: int| 0 <= k < entries.len() implies #[trigger] entries_plan(entries)[k] == known_entry_plan(
            entries[k],
        ) by {
            if k < prev.len() {
                assert(prev[k] == entries[k]);
            }
        }
    }
}

/// A valid manifest's dry-run plan has one step for the launch call (if any),
/// one for the binding (if any) and then one for each step of its five step
/// sections in order, each carrying its tool's catalogue descriptor.
pub proof fn lemma_valid_plan_covers_every_step(m: MacroManifest)
    requires
        manifest_valid(m),
    ensures
        launch_plan(m).len() == (if m.launch is Some { 1int } else { 0int }),
        bind_plan(m).len() == (if m.bind is Some { 1int } else { 0int }),
        manifest_plan(m).len() == launch_plan(m).len() + bind_plan(m).len() + all_entries(m).len(),
        forall|k: int|
            0 <= k < all_entries(m).len() ==> spec_tool_descriptor((#[trigger] all_entries(m)[k]).step.tool@) is Some
                && manifest_plan(m)[launch_plan(m).len() + bind_plan(m).len() + k] == known_entry_plan(
                all_entries(m)[k],
            ),
{
    let issues = manifest_issues(m);
    let entries = all_entries(m);
    lemma_header_positions(m);
    assert forall|k: int| 0 <= k < entries.len() implies spec_tool_descriptor((#[trigger] entries[k]).step.tool@) is Some by {
        if spec_tool_descriptor(entries[k].step.tool@) is None {
            let e = entries[k];
            let seen = seen_ids(entries.take(k));
            let si = step_issues(m, e, seen);
            let j = si.len() - 1;
            assert(si[j].severity == MacroValidationSeverity::Error);
            lemma_entry_issues_included(m, entries, k, j);
            let ei = entries_issues(m, entries);
            let p = choose|p: int| 0 <= p < ei.len() && #[trigger] ei[p] == si[j];
            let q = header_issues(m).len() + p;
            assert(issues[q] == ei[p]);
            assert(has_error(issues));
        }
    }
    if m.launch is Some {
        let call = m.launch->Some_0;
        if spec_tool_descriptor(call.tool@) is None {
            let l = launch_issues(m.launch, MacroSection::Launch, "/launch"@);
            assert(l.len() == 1 && l[0].severity == MacroValidationSeverity::Error);
            lemma_launch_in_header(m);
            assert(has_error(issues));
        }
    }
    lemma_entries_plan_of_known_tools(entries);
    let plan = manifest_plan(m);
    let off = launch_plan(m).len() + bind_plan(m).len();
    assert forall|k: int| 0 <= k < entries.len() implies spec_tool_descriptor((#[trigger] entries[k]).step.tool@) is Some
        && plan[off + k] == known_entry_plan(entries[k]) by {
        assert(plan[off + k] == entries_plan(entries)[k]);
    }
}

/// The launch call's issues follow the header's version, kind, title and
/// description checks.
proof fn lemma_launch_in_header(m: MacroManifest)
    ensures
        launch_issues(m.launch, MacroSection::Launch, "/launch"@).len() > 0 ==> exists|p: int|
            0 <= p < manifest_issues(m).len() && #[trigger] manifest_issues(m)[p] == launch_issues(
                m.launch,
                MacroSection::Launch,
                "/launch"@,
            )[0],
{
    let v = if m.version@ != MACRO_MANIFEST_VERSION@ {
        seq![version_issue(m)]
    } else {
        seq![]
    };
    let k = if spec_is_blank(m.kind@) {
        seq![err_view("missing_kind"@, "manifest kind is required"@, "/kind"@)]
    } else {
        seq![]
    };
    let t = if spec_is_blank(m.title@) {
        seq![err_view("missing_title"@, "manifest title is required"@, "/title"@)]
    } else {
        seq![]
    };
    let d = if spec_is_blank(m.description@) {
        seq![description_warning()]
    } else {
        seq![]
    };
    let l = launch_issues(m.launch, MacroSection::Launch, "/launch"@);
    let st = if has_no_steps(m) {
        seq![missing_steps_issue()]
    } else {
        seq![]
    };
    let e = entries_issues(m, all_entries(m));
    assert(header_issues(m) == v + k + t + d + l + st);
    let all = v + k + t + d + l + st + e;
    assert(manifest_issues(m) == all);
    if l.len() > 0 {
        let p = (v.len() + k.len() + t.len() + d.len()) as int;
        assert(all[p] == l[0]);
    }
}

/// Some entry among `entries`, whose tool acts on a bound window, has this path.
pub open spec fn bound_window_step_at(entries: Seq<StepEntry>, path: Seq<char>) -> bool {
    exists|k: int|
        0 <= k < entries.len() && #[trigger] step_path(entries[k]) == path && (spec_tool_descriptor(
            entries[k].step.tool@,
        ) matches Some(d) && d.requires_bound_window)
}

proof fn lemma_target_code_distinct()
    ensures
        "target_identity_required"@ != "missing_step_id"@,
        "target_identity_required"@ != "duplicate_step_id"@,
        "target_identity_required"@ != "unknown_tool"@,
        "target_identity_required"@ != "coordinate_fallback_metadata_required"@,
        "target_identity_required"@ != "mutating_assertion"@,
        "target_identity_required"@ != "missing_tool"@,
{
    reveal_strlit("target_identity_required");
    reveal_strlit("missing_step_id");
    reveal_strlit("duplicate_step_id");
    reveal_strlit("unknown_tool");
    reveal_strlit("coordinate_fallback_metadata_required");
    reveal_strlit("mutating_assertion");
    reveal_strlit("missing_tool");
    assert("target_identity_required"@.len() != "missing_step_id"@.len());
    assert("target_identity_required"@.len() != "duplicate_step_id"@.len());
    assert("target_identity_required"@.len() != "unknown_tool"@.len());
    assert("target_identity_required"@.len() != "coordinate_fallback_metadata_required"@.len());
    assert("target_identity_required"@.len() != "mutating_assertion"@.len());
    assert("target_identity_required"@.len() != "missing_tool"@.len());
}

/// In one step's issues, `target_identity_required` stands only at the step's
/// own path, and only when its tool acts on a bound window.
proof fn lemma_step_target_issue(m: MacroManifest, e: StepEntry, seen: Seq<Seq<char>>)
    ensures
        forall|j: int|
            0 <= j < step_issues(m, e, seen).len() && (#[trigger] step_issues(m, e, seen)[j]).code
                == "target_identity_required"@ ==> step_issues(m, e, seen)[j].path == step_path(e)
                && (spec_tool_descriptor(e.step.tool@) matches Some(d) && d.requires_bound_window),
{
    lemma_target_code_distinct();
    let si = step_issues(m, e, seen);
    let sp = step_path(e);
    let id_issues = if spec_is_blank(e.step.id@) {
        seq![err_view("missing_step_id"@, "macro step ID is required"@, sp + "/id"@)]
    } else if seen.contains(e.step.id@) {
        seq![
            err_view(
                "duplicate_step_id"@,
                "step ID "@ + e.step.id@ + " is used more than once"@,
                sp + "/id"@,
            ),
        ]
    } else {
        seq![]
    };
    assert forall|j: int| 0 <= j < si.len() && (#[trigger] si[j]).code == "target_identity_required"@ implies si[j].path == sp
        && (spec_tool_descriptor(e.step.tool@) matches Some(d) && d.requires_bound_window) by {
        match spec_tool_descriptor(e.step.tool@) {
            None => {
                let tail = seq![err_view("unknown_tool"@, "unsupported macro tool "@ + e.step.tool@, sp + "/tool"@)];
                assert(si == id_issues + tail);
                if j < id_issues.len() {
                    assert(si[j] == id_issues[j]);
                } else {
                    assert(si[j] == tail[j - id_issues.len()]);
                }
            },
            Some(d) => {
                let a = if d.requires_bound_window && !has_bound_identity(m) {
                    seq![
                        err_view(
                            "target_identity_required"@,
                            "step "@ + e.step.id@ + " uses "@ + e.step.tool@
                                + " and requires app identity plus a binding strategy"@,
                            sp,
                        ),
                    ]
                } else {
                    seq![]
                };
                let b = if (e.step.target matches Some(MacroTarget::Coordinates { .. }))
                    && e.step.coordinate_fallback is None {
                    seq![
                        err_view(
                            "coordinate_fallback_metadata_required"@,
                            COORDINATE_FALLBACK_MESSAGE@,
                            sp + "/coordinate_fallback"@,
                        ),
                    ]
                } else {
                    seq![]
                };
                let c = if e.section == MacroSection::Assertion && d.mutates_ui {
                    seq![err_view("mutating_assertion"@, "assertion steps must not mutate the UI"@, sp)]
                } else {
                    seq![]
                };
                assert(si == id_issues + a + b + c);
                let n1 = id_issues.len() as int;
                let n2 = n1 + a.len();
                let n3 = n2 + b.len();
                if j < n1 {
                    assert(si[j] == id_issues[j]);
                } else if j < n2 {
                    assert(si[j] == a[j - n1]);
                } else if j < n3 {
                    assert(si[j] == b[j - n2]);
                } else {
                    assert(si[j] == c[j - n3]);
                }
            },
        }
    }
}

proof fn lemma_entries_target_origin(m: MacroManifest, entries: Seq<StepEntry>)
    ensures
        forall|p: int|
            0 <= p < entries_issues(m, entries).len() && (#[trigger] entries_issues(m, entries)[p]).code
                == "target_identity_required"@ ==> bound_window_step_at(entries, entries_issues(m, entries)[p].path),
    decreases entries.len(),
{
    if entries.len() > 0 {
        let prev = entries.drop_last();
        let last = entries.last();
        let before = entries_issues(m, prev);
        let si = step_issues(m, last, seen_ids(prev));
        let all = entries_issues(m, entries);
        assert(all == before + si);
        lemma_entries_target_origin(m, prev);
        lemma_step_target_issue(m, last, seen_ids(prev));
        assert forall|p: int| 0 <= p < all.len() && (#[trigger] all[p]).code == "target_identity_required"@ implies bound_window_step_at(
            entries,
            all[p].path,
        ) by {
            if p < before.len() {
                assert(all[p] == before[p]);
                let k = choose|k: int|
                    0 <= k < prev.len() && #[trigger] step_path(prev[k]) == before[p].path && (spec_tool_descriptor(
                        prev[k].step.tool@,
                    ) matches Some(d) && d.requires_bound_window);
                assert(prev[k] == entries[k]);
                assert(step_path(entries[k]) == all[p].path);
            } else {
                let j = p - before.len();
                assert(all[p] == si[j]);
                let k = entries.len() - 1;
                assert(entries[k] == last);
                assert(step_path(entries[k]) == all[p].path);
            }
        }
    }
}

/// `target_identity_required` arises only for a step whose tool acts on a bound
/// window, at that step's path, and only when the manifest lacks a required app
/// identity or a binding identity: no other step, and nothing outside the steps,
/// ever raises it.
pub proof fn lemma_target_identity_required_only_for_bound_window_steps(m: MacroManifest, i: int)
    requires
        0 <= i < manifest_issues(m).len(),
        manifest_issues(m)[i].code == "target_identity_required"@,
    ensures
        !has_bound_identity(m),
        bound_window_step_at(all_entries(m), manifest_issues(m)[i].path),
{
    let issues = manifest_issues(m);
    lemma_header_positions(m);
    lemma_header_codes_distinct(m);
    lemma_target_code_distinct();
    lemma_issue_origin(m, i);
    let h = header_issues(m);
    let ei = entries_issues(m, all_entries(m));
    if i < h.len() {
        let v = if m.version@ != MACRO_MANIFEST_VERSION@ {
            seq![version_issue(m)]
        } else {
            seq![]
        };
        let k = if spec_is_blank(m.kind@) {
            seq![err_view("missing_kind"@, "manifest kind is required"@, "/kind"@)]
        } else {
            seq![]
        };
        let t = if spec_is_blank(m.title@) {
            seq![err_view("missing_title"@, "manifest title is required"@, "/title"@)]
        } else {
            seq![]
        };
        let d = if spec_is_blank(m.description@) {
            seq![description_warning()]
        } else {
            seq![]
        };
        let l = launch_issues(m.launch, MacroSection::Launch, "/launch"@);
        let st = if has_no_steps(m) {
            seq![missing_steps_issue()]
        } else {
            seq![]
        };
        assert(h == v + k + t + d + l + st);
        assert(issues[i] == h[i]);
        let n4 = (v.len() + k.len() + t.len() + d.len()) as int;
        let n5 = n4 + l.len();
        if n4 <= i < n5 {
            assert(h[i] == l[i - n4]);
        }
        assert(false);
    } else {
        lemma_entries_target_origin(m, all_entries(m));
        assert(issues[i] == ei[i - h.len()]);
    }
}

/// An assertion step whose tool mutates the UI is refused: for the `j`-th
/// step of the manifest's `assertions` section, when the tool catalogue says its
/// tool mutates the UI, the issues hold the error `mutating_assertion` ("assertion
/// steps must not mutate the UI") at `/assertions/<j>`, and the manifest is not
/// valid.
pub proof fn lemma_mutating_assertion_refused(m: MacroManifest, j: int)
    requires
        0 <= j < m.assertions@.len(),
        spec_tool_descriptor(m.assertions@[j].tool@) matches Some(d) && d.mutates_ui,
    ensures
        exists|i: int|
            0 <= i < manifest_issues(m).len() && #[trigger] manifest_issues(m)[i] == err_view(
                "mutating_assertion"@,
                "assertion steps must not mutate the UI"@,
                "/assertions/"@ + spec_decimal(j as nat),
            ),
        !manifest_valid(m),
{
    let entries = all_entries(m);
    let pre = section_entries(m.preconditions@, MacroSection::Precondition, "/preconditions"@);
    let st = section_entries(m.steps@, MacroSection::Step, "/steps"@);
    let wa = section_entries(m.waits@, MacroSection::Wait, "/waits"@);
    let asr = section_entries(m.assertions@, MacroSection::Assertion, "/assertions"@);
    let cl = section_entries(m.cleanup@, MacroSection::Cleanup, "/cleanup"@);
    assert(entries == pre + st + wa + asr + cl);
    let k = pre.len() + st.len() + wa.len() + j;
    assert(entries[k] == asr[j]);
    let e = entries[k];
    assert(e == StepEntry { section: MacroSection::Assertion, path: "/assertions"@, index: j as nat, step: m.assertions@[j] });
    let sp = step_path(e);
    assert(sp == "/assertions"@ + "/"@ + spec_decimal(j as nat));
    assert("/assertions"@ + "/"@ + spec_decimal(j as nat) == "/assertions/"@ + spec_decimal(j as nat)) by {
        reveal_strlit("/assertions");
        reveal_strlit("/");
        reveal_strlit("/assertions/");
        assert("/assertions"@ + "/"@ =~= "/assertions/"@);
    }
    let seen = seen_ids(entries.take(k));
    let si = step_issues(m, e, seen);
    let d = spec_tool_descriptor(e.step.tool@)->Some_0;
    let id_issues = if spec_is_blank(e.step.id@) {
        seq![err_view("missing_step_id"@, "macro step ID is required"@, sp + "/id"@)]
    } else if seen.contains(e.step.id@) {
        seq![
            err_view(
                "duplicate_step_id"@,
                "step ID "@ + e.step.id@ + " is used more than once"@,
                sp + "/id"@,
            ),
        ]
    } else {
        seq![]
    };
    let a = if d.requires_bound_window && !has_bound_identity(m) {
        seq![
            err_view(
                "target_identity_required"@,
                "step "@ + e.step.id@ + " uses "@ + e.step.tool@ + " and requires app identity plus a binding strategy"@,
                sp,
            ),
        ]
    } else {
        seq![]
    };
    let b = if (e.step.target matches Some(MacroTarget::Coordinates { .. })) && e.step.coordinate_fallback is None {
        seq![
            err_view(
                "coordinate_fallback_metadata_required"@,
                COORDINATE_FALLBACK_MESSAGE@,
                sp + "/coordinate_fallback"@,
            ),
        ]
    } else {
        seq![]
    };
    let target = err_view("mutating_assertion"@, "assertion steps must not mutate the UI"@, sp);
    assert(si =~= id_issues + a + b + seq![target]);
    let jj = (id_issues.len() + a.len() + b.len()) as int;
    assert(si[jj] == target);
    lemma_entry_issues_included(m, entries, k, jj);
    lemma_header_positions(m);
    let ei = entries_issues(m, entries);
    let p = choose|p: int| 0 <= p < ei.len() && #[trigger] ei[p] == si[jj];
    let issues = manifest_issues(m);
    let q = header_issues(m).len() + p;
    assert(issues[q] == ei[p]);
    assert(issues[q].severity == MacroValidationSeverity::Error);
    assert(has_error(issues));
}

/// The steps of one of a manifest's five step sections (none for the others).
pub open spec fn section_steps(m: MacroManifest, section: MacroSection) -> Seq<MacroStep> {
    match section {
        MacroSection::Precondition => m.preconditions@,
        MacroSection::Step => m.steps@,
        MacroSection::Wait => m.waits@,
        MacroSection::Assertion => m.assertions@,
        MacroSection::Cleanup => m.cleanup@,
        _ => seq![],
    }
}

/// The JSON-pointer path of one of the five step sections.
pub open spec fn section_path(section: MacroSection) -> Seq<char> {
    match section {
        MacroSection::Precondition => "/preconditions"@,
        MacroSection::Step => "/steps"@,
        MacroSection::Wait => "/waits"@,
        MacroSection::Assertion => "/assertions"@,
        MacroSection::Cleanup => "/cleanup"@,
        _ => seq![],
    }
}

/// The `j`-th step of a section stands among the manifest's step entries.
proof fn lemma_section_entry(m: MacroManifest, section: MacroSection, j: int) -> (k: int)
    requires
        0 <= j < section_steps(m, section).len(),
    ensures
        0 <= k < all_entries(m).len(),
        all_entries(m)[k] == (StepEntry {
            section,
            path: section_path(section),
            index: j as nat,
            step: section_steps(m, section)[j],
        }),
{
    let entries = all_entries(m);
    let pre = section_entries(m.preconditions@, MacroSection::Precondition, "/preconditions"@);
    let st = section_entries(m.steps@, MacroSection::Step, "/steps"@);
    let wa = section_entries(m.waits@, MacroSection::Wait, "/waits"@);
    let asr = section_entries(m.assertions@, MacroSection::Assertion, "/assertions"@);
    let cl = section_entries(m.cleanup@, MacroSection::Cleanup, "/cleanup"@);
    assert(entries == pre + st + wa + asr + cl);
    let k = match section {
        MacroSection::Precondition => j,
        MacroSection::Step => pre.len() + j,
        MacroSection::Wait => pre.len() + st.len() + j,
        MacroSection::Assertion => pre.len() + st.len() + wa.len() + j,
        _ => pre.len() + st.len() + wa.len() + asr.len() + j,
    };
    match section {
        MacroSection::Precondition => {
            assert(entries[k] == pre[j]);
        },
        MacroSection::Step => {
            assert(entries[k] == st[j]);
        },
        MacroSection::Wait => {
            assert(entries[k] == wa[j]);
        },
        MacroSection::Assertion => {
            assert(entries[k] == asr[j]);
        },
        _ => {
            assert(entries[k] == cl[j]);
        },
    }
    k
}

/// Every issue of a step entry is among the manifest's issues, and an error
/// there makes the manifest invalid.
proof fn lemma_step_issue_in_manifest(m: MacroManifest, k: int, jj: int)
    requires
        0 <= k < all_entries(m).len(),
        0 <= jj < step_issues(m, all_entries(m)[k], seen_ids(all_entries(m).take(k))).len(),
    ensures
        exists|i: int|
            0 <= i < manifest_issues(m).len() && #[trigger] manifest_issues(m)[i] == step_issues(
                m,
                all_entries(m)[k],
                seen_ids(all_entries(m).take(k)),
            )[jj],
        step_issues(m, all_entries(m)[k], seen_ids(all_entries(m).take(k)))[jj].severity
            == MacroValidationSeverity::Error ==> !manifest_valid(m),
{
    let entries = all_entries(m);
    let si = step_issues(m, entries[k], seen_ids(entries.take(k)));
    lemma_entry_issues_included(m, entries, k, jj);
    lemma_header_positions(m);
    let ei = entries_issues(m, entries);
    let p = choose|p: int| 0 <= p < ei.len() && #[trigger] ei[p] == si[jj];
    let issues = manifest_issues(m);
    let q = header_issues(m).len() + p;
    assert(issues[q] == ei[p]);
    if si[jj].severity == MacroValidationSeverity::Error {
        assert(has_error(issues));
    }
}

/// Rules every step of the five step sections is held to: the `j`-th step of a
/// section, at `<section>/<j>`, is reported with `missing_step_id` at `/id` when
/// its ID is blank, with `unknown_tool` at `/tool` when the tool catalogue does
/// not know its tool, and, when its tool is known, with
/// `coordinate_fallback_metadata_required` at `/coordinate_fallback` when it
/// targets coordinates without fallback metadata; each is an error, so the
/// manifest is then not valid.
pub proof fn lemma_step_rules(m: MacroManifest, section: MacroSection, j: int)
    requires
        0 <= j < section_steps(m, section).len(),
    ensures
        ({
            let step = section_steps(m, section)[j];
            let sp = section_path(section) + "/"@ + spec_decimal(j as nat);
            &&& spec_is_blank(step.id@) ==> !manifest_valid(m) && exists|i: int|
                0 <= i < manifest_issues(m).len() && #[trigger] manifest_issues(m)[i] == err_view(
                    "missing_step_id"@,
                    "macro step ID is required"@,
                    sp + "/id"@,
                )
            &&& spec_tool_descriptor(step.tool@) is None ==> !manifest_valid(m) && exists|i: int|
                0 <= i < manifest_issues(m).len() && #[trigger] manifest_issues(m)[i] == err_view(
                    "unknown_tool"@,
                    "unsupported macro tool "@ + step.tool@,
                    sp + "/tool"@,
                )
            &&& (spec_tool_descriptor(step.tool@) is Some && (step.target matches Some(
                MacroTarget::Coordinates { .. },
            )) && step.coordinate_fallback is None) ==> !manifest_valid(m) && exists|i: int|
                0 <= i < manifest_issues(m).len() && #[trigger] manifest_issues(m)[i] == err_view(
                    "coordinate_fallback_metadata_required"@,
                    COORDINATE_FALLBACK_MESSAGE@,
                    sp + "/coordinate_fallback"@,
                )
        }),
{
    let k = lemma_section_entry(m, section, j);
    let entries = all_entries(m);
    let e = entries[k];
    let step = e.step;
    let sp = step_path(e);
    let seen = seen_ids(entries.take(k));
    let si = step_issues(m, e, seen);
    let id_issues = if spec_is_blank(step.id@) {
        seq![err_view("missing_step_id"@, "macro step ID is required"@, sp + "/id"@)]
    } else if seen.contains(step.id@) {
        seq![err_view("duplicate_step_id"@, "step ID "@ + step.id@ + " is used more than once"@, sp + "/id"@)]
    } else {
        seq![]
    };
    if spec_is_blank(step.id@) {
        assert(si[0] == id_issues[0]);
        lemma_step_issue_in_manifest(m, k, 0);
    }
    match spec_tool_descriptor(step.tool@) {
        None => {
            let tail = seq![err_view("unknown_tool"@, "unsupported macro tool "@ + step.tool@, sp + "/tool"@)];
            assert(si =~= id_issues + tail);
            let jj = id_issues.len() as int;
            assert(si[jj] == tail[0]);
            lemma_step_issue_in_manifest(m, k, jj);
        },
        Some(d) => {
            let a = if d.requires_bound_window && !has_bound_identity(m) {
                seq![
                    err_view(
                        "target_identity_required"@,
                        "step "@ + step.id@ + " uses "@ + step.tool@ + " and requires app identity plus a binding strategy"@,
                        sp,
                    ),
                ]
            } else {
                seq![]
            };
            let b = if (step.target matches Some(MacroTarget::Coordinates { .. })) && step.coordinate_fallback is None {
                seq![
                    err_view(
                        "coordinate_fallback_metadata_required"@,
                        COORDINATE_FALLBACK_MESSAGE@,
                        sp + "/coordinate_fallback"@,
                    ),
                ]
            } else {
                seq![]
            };
            let c = if e.section == MacroSection::Assertion && d.mutates_ui {
                seq![err_view("mutating_assertion"@, "assertion steps must not mutate the UI"@, sp)]
            } else {
                seq![]
            };
            assert(si =~= id_issues + a + b + c);
            if b.len() > 0 {
                let jj = (id_issues.len() + a.len()) as int;
                assert(si[jj] == b[0]);
                lemma_step_issue_in_manifest(m, k, jj);
            }
        },
    }
}

proof fn lemma_kind_title_codes_distinct(m: MacroManifest)
    ensures
        !step_codes(m).contains("missing_kind"@),
        !step_codes(m).contains("missing_title"@),
        "missing_kind"@ != "unsupported_version"@,
        "missing_kind"@ != "missing_title"@,
        "missing_kind"@ != "missing_description"@,
        "missing_kind"@ != "missing_steps"@,
        "missing_title"@ != "unsupported_version"@,
        "missing_title"@ != "missing_description"@,
        "missing_title"@ != "missing_steps"@,
{
    reveal_strlit("unsupported_version");
    reveal_strlit("missing_kind");
    reveal_strlit("missing_title");
    reveal_strlit("missing_description");
    reveal_strlit("missing_steps");
    reveal_strlit("missing_step_id");
    reveal_strlit("duplicate_step_id");
    reveal_strlit("unknown_tool");
    reveal_strlit("target_identity_required");
    reveal_strlit("coordinate_fallback_metadata_required");
    reveal_strlit("mutating_assertion");
    reveal_strlit("missing_tool");
    assert("missing_kind"@.len() == 12 && "missing_title"@.len() == 13);
    assert("unsupported_version"@.len() == 19 && "missing_description"@.len() == 19 && "missing_steps"@.len() == 13);
    assert("missing_step_id"@.len() == 15 && "duplicate_step_id"@.len() == 17 && "unknown_tool"@.len() == 12);
    assert("target_identity_required"@.len() == 24 && "coordinate_fallback_metadata_required"@.len() == 37);
    assert("mutating_assertion"@.len() == 18 && "missing_tool"@.len() == 12);
    assert("missing_kind"@[0] != "unknown_tool"@[0]);
    assert("missing_kind"@[8] != "missing_tool"@[8]);
    assert("missing_title"@[8] != "missing_steps"@[8]);
}

/// The manifest's kind and title are required: the `missing_kind` error at
/// `/kind` is among its issues exactly when its kind is blank, and the
/// `missing_title` error at `/title` exactly when its title is blank; either
/// makes it invalid.
pub proof fn lemma_kind_and_title_required(m: MacroManifest)
    ensures
        (exists|i: int|
            0 <= i < manifest_issues(m).len() && (#[trigger] manifest_issues(m)[i]).code == "missing_kind"@
                && manifest_issues(m)[i].path == "/kind"@ && manifest_issues(m)[i].severity
                == MacroValidationSeverity::Error) <==> spec_is_blank(m.kind@),
        (exists|i: int|
            0 <= i < manifest_issues(m).len() && (#[trigger] manifest_issues(m)[i]).code == "missing_title"@
                && manifest_issues(m)[i].path == "/title"@ && manifest_issues(m)[i].severity
                == MacroValidationSeverity::Error) <==> spec_is_blank(m.title@),
        spec_is_blank(m.kind@) || spec_is_blank(m.title@) ==> !manifest_valid(m),
{
    let issues = manifest_issues(m);
    lemma_header_positions(m);
    lemma_kind_title_codes_distinct(m);
    assert forall|i: int| 0 <= i < issues.len() && (#[trigger] issues[i]).code == "missing_kind"@ implies spec_is_blank(m.kind@) by {
        lemma_issue_origin(m, i);
    }
    assert forall|i: int| 0 <= i < issues.len() && (#[trigger] issues[i]).code == "missing_title"@ implies spec_is_blank(m.title@) by {
        lemma_issue_origin(m, i);
    }
    let v = if m.version@ != MACRO_MANIFEST_VERSION@ {
        seq![version_issue(m)]
    } else {
        seq![]
    };
    let k = if spec_is_blank(m.kind@) {
        seq![err_view("missing_kind"@, "manifest kind is required"@, "/kind"@)]
    } else {
        seq![]
    };
    let t = if spec_is_blank(m.title@) {
        seq![err_view("missing_title"@, "manifest title is required"@, "/title"@)]
    } else {
        seq![]
    };
    let d = if spec_is_blank(m.description@) {
        seq![description_warning()]
    } else {
        seq![]
    };
    let l = launch_issues(m.launch, MacroSection::Launch, "/launch"@);
    let st = if has_no_steps(m) {
        seq![missing_steps_issue()]
    } else {
        seq![]
    };
    let e = entries_issues(m, all_entries(m));
    assert(header_issues(m) == v + k + t + d + l + st);
    let all = v + k + t + d + l + st + e;
    assert(issues == all);
    if spec_is_blank(m.kind@) {
        assert(all[v.len() as int] == k[0]);
        assert(has_error(issues));
    }
    if spec_is_blank(m.title@) {
        assert(all[(v.len() + k.len()) as int] == t[0]);
        assert(has_error(issues));
    }
}

/// A step of any of the five step sections whose tool acts on a bound window
/// gets the `target_identity_required` error at its path exactly when the
/// manifest lacks a required app identity naming the executable (by name or
/// path) or a binding naming the executable or the expected identity.
pub proof fn lemma_bound_window_step_needs_identity(m: MacroManifest, section: MacroSection, j: int)
    requires
        0 <= j < section_steps(m, section).len(),
        spec_tool_descriptor(section_steps(m, section)[j].tool@) matches Some(d) && d.requires_bound_window,
    ensures
        (exists|i: int|
            0 <= i < manifest_issues(m).len() && (#[trigger] manifest_issues(m)[i]).code
                == "target_identity_required"@ && manifest_issues(m)[i].path == section_path(section) + "/"@
                + spec_decimal(j as nat) && manifest_issues(m)[i].severity == MacroValidationSeverity::Error) <==> !(
        (m.app_identity is Some && m.app_identity->Some_0.required && (m.app_identity->Some_0.executable_name is Some
            || m.app_identity->Some_0.executable_path is Some)) && (m.bind is Some && (
        m.bind->Some_0.required_executable is Some || m.bind->Some_0.expected_identity_json is Some))),
{
    let k = lemma_section_entry(m, section, j);
    lemma_target_identity_required_iff(m, k);
}

/// Step IDs are unique across the five step sections: when a step has the same
/// non-blank ID as an earlier one (in section order: preconditions, steps,
/// waits, assertions, cleanup), the later one is reported with
/// `duplicate_step_id` at its `/id`, and the manifest is not valid.
pub proof fn lemma_duplicate_step_id_reported(m: MacroManifest, k1: int, k2: int)
    requires
        0 <= k1 < k2 < all_entries(m).len(),
        !spec_is_blank(all_entries(m)[k1].step.id@),
        all_entries(m)[k1].step.id@ == all_entries(m)[k2].step.id@,
    ensures
        exists|i: int|
            0 <= i < manifest_issues(m).len() && #[trigger] manifest_issues(m)[i] == err_view(
                "duplicate_step_id"@,
                "step ID "@ + all_entries(m)[k2].step.id@ + " is used more than once"@,
                step_path(all_entries(m)[k2]) + "/id"@,
            ),
        !manifest_valid(m),
{
    let entries = all_entries(m);
    let id = entries[k1].step.id@;
    lemma_seen_ids_contains(entries.take(k2), k1);
    assert(entries.take(k2)[k1] == entries[k1]);
    let seen = seen_ids(entries.take(k2));
    let si = step_issues(m, entries[k2], seen);
    assert(si[0] == err_view(
        "duplicate_step_id"@,
        "step ID "@ + id + " is used more than once"@,
        step_path(entries[k2]) + "/id"@,
    ));
    lemma_step_issue_in_manifest(m, k2, 0);
}

/// The IDs seen among entries include every non-blank ID of them.
proof fn lemma_seen_ids_contains(entries: Seq<StepEntry>, k: int)
    requires
        0 <= k < entries.len(),
        !spec_is_blank(entries[k].step.id@),
    ensures
        seen_ids(entries).contains(entries[k].step.id@),
    decreases entries.len(),
{
    let prev = entries.drop_last();
    if k < entries.len() - 1 {
        assert(prev[k] == entries[k]);
        lemma_seen_ids_contains(prev, k);
        let id = entries.last().step.id@;
        if !(spec_is_blank(id) || seen_ids(prev).contains(id)) {
            assert(seen_ids(entries) == seen_ids(prev).push(id));
            let x = entries[k].step.id@;
            let j = choose|j: int| 0 <= j < seen_ids(prev).len() && seen_ids(prev)[j] == x;
            assert(seen_ids(entries)[j] == x);
        }
    } else {
        let id = entries.last().step.id@;
        if !seen_ids(prev).contains(id) {
            assert(seen_ids(entries) == seen_ids(prev).push(id));
            assert(seen_ids(entries)[seen_ids(prev).len() as int] == id);
        }
    }
}

/// The launch call must name a known tool: a blank tool is reported with
/// `missing_tool` and an unknown one with `unknown_tool`, both at
/// `/launch/tool`, and either makes the manifest invalid.
pub proof fn lemma_launch_tool_checked(m: MacroManifest)
    ensures
        (m.launch is Some && spec_is_blank(m.launch->Some_0.tool@)) ==> !manifest_valid(m) && exists|i: int|
            0 <= i < manifest_issues(m).len() && #[trigger] manifest_issues(m)[i] == err_view(
                "missing_tool"@,
                "tool call must include a stable tool name"@,
                "/launch"@ + "/tool"@,
            ),
        (m.launch is Some && !spec_is_blank(m.launch->Some_0.tool@) && spec_tool_descriptor(m.launch->Some_0.tool@)
            is None) ==> !manifest_valid(m) && exists|i: int|
            0 <= i < manifest_issues(m).len() && #[trigger] manifest_issues(m)[i] == err_view(
                "unknown_tool"@,
                "unsupported "@ + "Launch"@ + " tool "@ + m.launch->Some_0.tool@,
                "/launch"@ + "/tool"@,
            ),
{
    lemma_launch_in_header(m);
    let l = launch_issues(m.launch, MacroSection::Launch, "/launch"@);
    if l.len() > 0 {
        let p = choose|p: int| 0 <= p < manifest_issues(m).len() && #[trigger] manifest_issues(m)[p] == l[0];
        assert(has_error(manifest_issues(m)));
    }
}

} // verus!
