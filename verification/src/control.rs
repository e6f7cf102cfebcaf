//! The desktop controller: the state machine that decides whether a
//! sensitive desktop action may run (armed, consented, revoked, emergency
//! stop), and the bounded log of control events it keeps.
//!
//! Each transition takes the current time as an argument and returns the
//! events it recorded; persisting those events to the audit log, showing
//! notifications and overlays, and waiting out countdowns are left to the
//! caller.

use vstd::prelude::*;

use crate::bounded::{keep_last, trim_front};
use crate::json::{clone_opt_json, json_as_str, json_get, jv, JsonNumber, JsonValue, JsonView};
use crate::requests::{ControlArmRequest, ControlConsentRequest, ControlNotifyRequest, ControlRevokeRequest};
use crate::text::{clone_opt_string, sv, concat2, concat3, lower_seq, owned, push_decimal, push_str, spec_decimal, str_eq, to_ascii_lowercase};

verus! {

/// How many control events the in-memory log keeps.
pub const MAX_EVENTS: usize = 200;

/// How long an arm or session consent lasts when the caller gives no duration.
pub const DEFAULT_ARM_MS: u64 = 300000;

/// The shortest arm duration accepted.
pub const MIN_ARM_MS: u64 = 1000;

/// The longest arm duration accepted (one day).
pub const MAX_ARM_MS: u64 = 86400000;

/// How long an `allow_once` consent lasts.
pub const ALLOW_ONCE_MS: u64 = 30000;

/// The countdown before the first sensitive action of a session.
pub const FIRST_CONTROL_COUNTDOWN_MS: u64 = 1500;

/// The schema version written with each audit record.
pub const CONTROL_AUDIT_SCHEMA_VERSION: u32 = 1;

/// The state of the desktop controller.
#[derive(Debug, Clone, Copy, PartialEq, Eq, Structural)]
pub enum ControlStatus {
    Idle,
    Armed,
    Warning,
    Controlling,
    Cooldown,
    Blocked,
    Revoked,
}

/// A recorded control event.
#[derive(Debug, Clone, PartialEq)]
pub struct ControlEvent {
    pub id: u64,
    pub timestamp_unix_ms: u64,
    pub kind: String,
    pub status: ControlStatus,
    pub tool_name: Option<String>,
    pub action_kind: Option<String>,
    pub bound_id: Option<String>,
    pub session_id: Option<String>,
    pub message: String,
    pub target_identity: Option<JsonValue>,
}

/// The desktop controller's state.
#[derive(Debug, Clone, PartialEq)]
pub struct ControlRuntimeState {
    pub status: ControlStatus,
    pub session_id: Option<String>,
    pub bound_id: Option<String>,
    pub target_identity: Option<JsonValue>,
    pub armed_until_unix_ms: Option<u64>,
    pub last_decision: Option<String>,
    /// Reported with the controller's status: every sensitive action needs the
    /// controller armed first.
    pub require_explicit_consent: bool,
    pub first_control_notification_sent: bool,
    pub emergency_stop_active: bool,
    pub active_tool: Option<String>,
    pub active_action_kind: Option<String>,
    pub next_event_id: u64,
    pub events: Vec<ControlEvent>,
    pub audit_log_path: Option<String>,
    pub audit_last_write_error: Option<String>,
    pub audit_last_write_error_unix_ms: Option<u64>,
}

/// The view of a control event.
pub struct EventView {
    pub id: u64,
    pub timestamp_unix_ms: u64,
    pub kind: Seq<char>,
    pub status: ControlStatus,
    pub tool_name: Option<Seq<char>>,
    pub action_kind: Option<Seq<char>>,
    pub bound_id: Option<Seq<char>>,
    pub session_id: Option<Seq<char>>,
    pub message: Seq<char>,
    pub target_identity: Option<JsonView>,
}

impl View for ControlEvent {
    type V = EventView;

    open spec fn view(&self) -> EventView {
        EventView {
            id: self.id,
            timestamp_unix_ms: self.timestamp_unix_ms,
            kind: self.kind@,
            status: self.status,
            tool_name: sv(self.tool_name),
            action_kind: sv(self.action_kind),
            bound_id: sv(self.bound_id),
            session_id: sv(self.session_id),
            message: self.message@,
            target_identity: jv(self.target_identity),
        }
    }
}

/// The view of the desktop controller's state.
pub struct ControlView {
    pub status: ControlStatus,
    pub session_id: Option<Seq<char>>,
    pub bound_id: Option<Seq<char>>,
    pub target_identity: Option<JsonView>,
    pub armed_until_unix_ms: Option<u64>,
    pub last_decision: Option<Seq<char>>,
    pub require_explicit_consent: bool,
    pub first_control_notification_sent: bool,
    pub emergency_stop_active: bool,
    pub active_tool: Option<Seq<char>>,
    pub active_action_kind: Option<Seq<char>>,
    pub next_event_id: u64,
    pub events: Seq<EventView>,
    pub audit_log_path: Option<Seq<char>>,
    pub audit_last_write_error: Option<Seq<char>>,
    pub audit_last_write_error_unix_ms: Option<u64>,
}

/// The views of a list of events.
pub open spec fn events_view(v: Seq<ControlEvent>) -> Seq<EventView> {
    v.map_values(|e: ControlEvent| e@)
}

impl View for ControlRuntimeState {
    type V = ControlView;

    open spec fn view(&self) -> ControlView {
        ControlView {
            status: self.status,
            session_id: sv(self.session_id),
            bound_id: sv(self.bound_id),
            target_identity: jv(self.target_identity),
            armed_until_unix_ms: self.armed_until_unix_ms,
            last_decision: sv(self.last_decision),
            require_explicit_consent: self.require_explicit_consent,
            first_control_notification_sent: self.first_control_notification_sent,
            emergency_stop_active: self.emergency_stop_active,
            active_tool: sv(self.active_tool),
            active_action_kind: sv(self.active_action_kind),
            next_event_id: self.next_event_id,
            events: events_view(self.events@),
            audit_log_path: sv(self.audit_log_path),
            audit_last_write_error: sv(self.audit_last_write_error),
            audit_last_write_error_unix_ms: self.audit_last_write_error_unix_ms,
        }
    }
}

/// The controller's state is well formed when its event log holds at most `MAX_EVENTS` events.
pub open spec fn control_wf(s: ControlView) -> bool {
    s.events.len() <= MAX_EVENTS
}

/// `n + 1`, saturating at the largest `u64`.
pub open spec fn sat_inc(n: u64) -> u64 {
    if n == u64::MAX {
        n
    } else {
        (n + 1) as u64
    }
}

/// `a + b`, saturating at the largest `u64`.
pub open spec fn sat_add(a: u64, b: u64) -> u64 {
    if a + b > u64::MAX {
        u64::MAX
    } else {
        (a + b) as u64
    }
}

/// The event that the next push on `s` records.
pub open spec fn new_event(
    s: ControlView,
    now: u64,
    kind: Seq<char>,
    tool_name: Option<Seq<char>>,
    action_kind: Option<Seq<char>>,
    bound_id: Option<Seq<char>>,
    session_id: Option<Seq<char>>,
    message: Seq<char>,
) -> EventView {
    EventView {
        id: s.next_event_id,
        timestamp_unix_ms: now,
        kind,
        status: s.status,
        tool_name,
        action_kind,
        bound_id,
        session_id,
        message,
        target_identity: s.target_identity,
    }
}

/// The state after recording `ev`: the next ID advances and the log keeps its last `MAX_EVENTS` events.
pub open spec fn after_push(s: ControlView, ev: EventView) -> ControlView {
    ControlView {
        next_event_id: sat_inc(s.next_event_id),
        events: keep_last(s.events.push(ev), MAX_EVENTS as nat),
        ..s
    }
}

/// An arm or session-consent duration, defaulted and clamped to `[MIN_ARM_MS, MAX_ARM_MS]`.
pub open spec fn arm_duration(requested: Option<u64>) -> u64 {
    let d = match requested {
        Some(d) => d,
        None => DEFAULT_ARM_MS,
    };
    if d < MIN_ARM_MS {
        MIN_ARM_MS
    } else if d > MAX_ARM_MS {
        MAX_ARM_MS
    } else {
        d
    }
}

/// The state once armed (before the `armed` event is recorded).
pub open spec fn armed_state(
    s: ControlView,
    session_id: Option<Seq<char>>,
    bound_id: Option<Seq<char>>,
    target: Option<JsonView>,
    allow_for_ms: Option<u64>,
    now: u64,
) -> ControlView {
    ControlView {
        status: ControlStatus::Armed,
        session_id,
        bound_id,
        target_identity: target,
        armed_until_unix_ms: Some(sat_add(now, arm_duration(allow_for_ms))),
        last_decision: Some("allow_session"@),
        emergency_stop_active: false,
        ..s
    }
}

/// The state once revoked (before the revocation event is recorded).
pub open spec fn revoked_state(s: ControlView, decision: Seq<char>) -> ControlView {
    ControlView {
        status: ControlStatus::Revoked,
        armed_until_unix_ms: None,
        last_decision: Some(decision),
        emergency_stop_active: true,
        active_tool: None,
        active_action_kind: None,
        ..s
    }
}

/// The state of `s` at time `now`, with an arm whose time has passed expired.
pub open spec fn expire(s: ControlView, now: u64) -> ControlView {
    match s.armed_until_unix_ms {
        Some(until) => if until < now {
            ControlView {
                status: ControlStatus::Idle,
                armed_until_unix_ms: None,
                last_decision: Some("expired"@),
                ..s
            }
        } else {
            s
        },
        None => s,
    }
}

/// Whether the controller refuses every action because control was revoked or stopped.
pub open spec fn is_revoked(s: ControlView) -> bool {
    s.emergency_stop_active || s.status == ControlStatus::Revoked
}

/// Why the controller refused an action.
#[derive(Debug, Clone, Copy, PartialEq, Eq, Structural)]
pub enum ControlRejectionCode {
    /// A non-sensitive action while control is revoked or the emergency stop is active
    /// (`control_revoked`).
    Revoked,
    /// A sensitive action while the controller is not armed (`control_consent_required`).
    ConsentRequired,
    /// Control was revoked while the first-action countdown ran (`control_revoked`).
    RevokedDuringCountdown,
}

/// What the controller decides for a requested action.
pub enum PreflightDecision {
    Reject(ControlRejectionCode),
    /// The action may start; `notify` is true when it is the session's first sensitive action.
    Proceed { notify: bool },
}

/// The controller's decision for an action requested at time `now`.
///
/// A sensitive action goes ahead only while the controller is armed (an arm whose
/// time has passed no longer counts); a revoked or stopped controller, or one that
/// was never armed, refuses it for want of consent. A non-sensitive action is
/// refused only by a revoked or stopped controller.
pub open spec fn preflight_decision(s: ControlView, now: u64, sensitive: bool) -> PreflightDecision {
    if sensitive {
        if is_revoked(s) || expire(s, now).status != ControlStatus::Armed {
            PreflightDecision::Reject(ControlRejectionCode::ConsentRequired)
        } else {
            PreflightDecision::Proceed { notify: !s.first_control_notification_sent }
        }
    } else if is_revoked(s) {
        PreflightDecision::Reject(ControlRejectionCode::Revoked)
    } else {
        PreflightDecision::Proceed { notify: false }
    }
}

/// The state after an accepted preflight (before its event is recorded).
pub open spec fn proceed_state(
    s: ControlView,
    now: u64,
    notify: bool,
    tool_name: Seq<char>,
    bound_id: Option<Seq<char>>,
    action_kind: Seq<char>,
    target: Option<JsonView>,
) -> ControlView {
    let s1 = expire(s, now);
    ControlView {
        first_control_notification_sent: s1.first_control_notification_sent || notify,
        status: if notify { ControlStatus::Warning } else { ControlStatus::Controlling },
        bound_id: if bound_id is Some { bound_id } else { s1.bound_id },
        target_identity: if target is Some { target } else { s1.target_identity },
        active_tool: Some(tool_name),
        active_action_kind: Some(action_kind),
        ..s1
    }
}

/// What an accepted preflight hands back.
#[derive(Debug, Clone, PartialEq)]
pub struct PreflightStart {
    pub status_before: ControlStatus,
    pub notification_sent: bool,
    /// The event the preflight recorded (`notification` or `control_started`).
    pub event: ControlEvent,
    pub target_identity: Option<JsonValue>,
    pub armed_until_unix_ms: Option<u64>,
    pub session_id: Option<String>,
}

/// A refused action, with the event recorded for it, if any.
#[derive(Debug, Clone, PartialEq)]
pub struct ControlRejection {
    pub code: ControlRejectionCode,
    pub event: Option<ControlEvent>,
}

/// Why a consent decision was refused.
#[derive(Debug, Clone, Copy, PartialEq, Eq, Structural)]
pub enum ControlConsentError {
    /// The decision is not one of the known ones (`invalid_control_decision`).
    InvalidDecision,
}

impl ControlConsentError {
    /// The error code the tool reports.
    pub fn code(&self) -> (r: &'static str)
        ensures
            r@ == "invalid_control_decision"@,
    {
        "invalid_control_decision"
    }

    /// The message the tool reports.
    pub fn message(&self) -> (r: &'static str)
        ensures
            r@ == "decision must be allow_once, allow_session, deny, or revoke_session"@,
    {
        "decision must be allow_once, allow_session, deny, or revoke_session"
    }
}

impl ControlRejectionCode {
    /// The error code the tool reports.
    pub fn code(&self) -> (r: &'static str)
        ensures
            r@ == match self {
                ControlRejectionCode::ConsentRequired => "control_consent_required"@,
                _ => "control_revoked"@,
            },
    {
        match self {
            ControlRejectionCode::ConsentRequired => "control_consent_required",
            _ => "control_revoked",
        }
    }

    /// The message the tool reports.
    pub fn message(&self) -> (r: &'static str)
        ensures
            r@ == match self {
                ControlRejectionCode::Revoked =>
                    "control has been revoked; call control.arm or control.consent before sensitive actions"@,
                ControlRejectionCode::ConsentRequired => "explicit control consent is required before this sensitive action"@,
                ControlRejectionCode::RevokedDuringCountdown => "control was revoked during the notification countdown"@,
            },
    {
        match self {
            ControlRejectionCode::Revoked => "control has been revoked; call control.arm or control.consent before sensitive actions",
            ControlRejectionCode::ConsentRequired => "explicit control consent is required before this sensitive action",
            ControlRejectionCode::RevokedDuringCountdown => "control was revoked during the notification countdown",
        }
    }
}

/// The status and arm deadline a consent decision leads to, if the decision is known.
pub open spec fn consent_outcome(decision: Seq<char>, allow_for_ms: Option<u64>, now: u64) -> Option<(ControlStatus, Option<u64>)> {
    if decision == "allow_once"@ {
        Some((ControlStatus::Armed, Some(sat_add(now, ALLOW_ONCE_MS))))
    } else if decision == "allow_session"@ {
        Some((ControlStatus::Armed, Some(sat_add(now, arm_duration(allow_for_ms)))))
    } else if decision == "deny"@ {
        Some((ControlStatus::Blocked, None))
    } else if decision == "revoke_session"@ || decision == "revoke"@ {
        Some((ControlStatus::Revoked, None))
    } else {
        None
    }
}

/// `"true"` or `"false"`.
pub open spec fn bool_text(b: bool) -> Seq<char> {
    if b {
        "true"@
    } else {
        "false"@
    }
}

fn bool_str(b: bool) -> (r: &'static str)
    ensures
        r@ == bool_text(b),
{
    if b {
        "true"
    } else {
        "false"
    }
}

/// An optional owned copy of an optional string slice.
fn opt_owned(o: Option<&str>) -> (r: Option<String>)
    ensures
        sv(r) == match o {
            Some(s) => Some(s@),
            None => None,
        },
{
    match o {
        Some(s) => Some(owned(s)),
        None => None,
    }
}

/// `min(max(d, MIN_ARM_MS), MAX_ARM_MS)` of the requested or default duration.
fn clamp_arm_duration(requested: Option<u64>) -> (r: u64)
    ensures
        r == arm_duration(requested),
{
    let d = match requested {
        Some(d) => d,
        None => DEFAULT_ARM_MS,
    };
    if d < MIN_ARM_MS {
        MIN_ARM_MS
    } else if d > MAX_ARM_MS {
        MAX_ARM_MS
    } else {
        d
    }
}

fn saturating_add(a: u64, b: u64) -> (r: u64)
    ensures
        r == sat_add(a, b),
{
    if a > u64::MAX - b {
        u64::MAX
    } else {
        a + b
    }
}

/// Viewing the events commutes with keeping the last `n` of them.
proof fn lemma_events_view_keep_last(q: Seq<ControlEvent>, n: nat)
    ensures
        events_view(keep_last(q, n)) == keep_last(events_view(q), n),
{
    let l = events_view(keep_last(q, n));
    let r = keep_last(events_view(q), n);
    assert(l.len() == r.len());
    assert forall|i: int| 0 <= i < l.len() implies l[i] == r[i] by {
        if q.len() > n {
            assert(keep_last(q, n)[i] == q[i + (q.len() - n)]);
        }
    }
    assert(l =~= r);
}

impl ControlRuntimeState {
    /// The initial state: idle, no session, no events, event IDs starting at 1.
    pub fn new() -> (r: ControlRuntimeState)
        ensures
            r@.status == ControlStatus::Idle,
            r@.session_id is None && r@.bound_id is None && r@.target_identity is None,
            r@.armed_until_unix_ms is None && r@.last_decision is None,
            r@.require_explicit_consent && !r@.first_control_notification_sent,
            !r@.emergency_stop_active,
            r@.active_tool is None && r@.active_action_kind is None,
            r@.next_event_id == 1,
            r@.events.len() == 0,
            r@.audit_log_path is None && r@.audit_last_write_error is None,
            r@.audit_last_write_error_unix_ms is None,
            control_wf(r@),
    {
        ControlRuntimeState {
            status: ControlStatus::Idle,
            session_id: None,
            bound_id: None,
            target_identity: None,
            armed_until_unix_ms: None,
            last_decision: None,
            require_explicit_consent: true,
            first_control_notification_sent: false,
            emergency_stop_active: false,
            active_tool: None,
            active_action_kind: None,
            next_event_id: 1,
            events: Vec::new(),
            audit_log_path: None,
            audit_last_write_error: None,
            audit_last_write_error_unix_ms: None,
        }
    }

    /// Records a control event: it takes the next event ID and the controller's current
    /// status and target, and the log keeps only its last `MAX_EVENTS` events.
    pub fn push_event(
        &mut self,
        now: u64,
        kind: &str,
        tool_name: Option<String>,
        action_kind: Option<String>,
        bound_id: Option<String>,
        session_id: Option<String>,
        message: String,
    ) -> (ev: ControlEvent)
        ensures
            ev@ == new_event(
                old(self)@,
                now,
                kind@,
                sv(tool_name),
                sv(action_kind),
                sv(bound_id),
                sv(session_id),
                message@,
            ),
            final(self)@ == after_push(old(self)@, ev@),
    {
        let event = ControlEvent {
            id: self.next_event_id,
            timestamp_unix_ms: now,
            kind: owned(kind),
            status: self.status,
            tool_name,
            action_kind,
            bound_id,
            session_id,
            message,
            target_identity: clone_opt_json(&self.target_identity),
        };
        self.next_event_id = if self.next_event_id == u64::MAX {
            u64::MAX
        } else {
            self.next_event_id + 1
        };
        let copy = ControlEvent {
            id: event.id,
            timestamp_unix_ms: event.timestamp_unix_ms,
            kind: event.kind.clone(),
            status: event.status,
            tool_name: clone_opt_string(&event.tool_name),
            action_kind: clone_opt_string(&event.action_kind),
            bound_id: clone_opt_string(&event.bound_id),
            session_id: clone_opt_string(&event.session_id),
            message: event.message.clone(),
            target_identity: clone_opt_json(&event.target_identity),
        };
        assert(copy@ == event@);
        let ghost before = self.events@;
        self.events.push(copy);
        assert(events_view(self.events@) =~= events_view(before).push(event@));
        let ghost pushed = self.events@;
        trim_front(&mut self.events, MAX_EVENTS);
        proof {
            lemma_events_view_keep_last(pushed, MAX_EVENTS as nat);
        }
        event
    }

    /// `control.arm`: arms the controller for the requested session and target until
    /// `now` plus the clamped duration, clears any emergency stop, and records an
    /// `armed` event.
    pub fn control_arm(&mut self, request: ControlArmRequest, target_identity: Option<JsonValue>, now: u64) -> (ev: ControlEvent)
        ensures
            ({
                let s1 = armed_state(
                    old(self)@,
                    sv(request.session_id),
                    sv(request.bound_id),
                    jv(target_identity),
                    request.allow_for_ms,
                    now,
                );
                &&& ev@ == new_event(
                    s1,
                    now,
                    "armed"@,
                    None,
                    None,
                    sv(request.bound_id),
                    sv(request.session_id),
                    match request.reason {
                        Some(r) => r@,
                        None => "control session armed"@,
                    },
                )
                &&& final(self)@ == after_push(s1, ev@)
            }),
    {
        let allow_for_ms = clamp_arm_duration(request.allow_for_ms);
        self.status = ControlStatus::Armed;
        self.session_id = clone_opt_string(&request.session_id);
        self.bound_id = clone_opt_string(&request.bound_id);
        self.target_identity = target_identity;
        self.armed_until_unix_ms = Some(saturating_add(now, allow_for_ms));
        self.last_decision = Some(owned("allow_session"));
        self.emergency_stop_active = false;
        let message = match request.reason {
            Some(reason) => reason,
            None => owned("control session armed"),
        };
        self.push_event(now, "armed", None, None, request.bound_id, request.session_id, message)
    }

    /// `control.consent`: applies an `allow_once`, `allow_session`, `deny` or
    /// `revoke_session` (or `revoke`) decision, compared case-insensitively, and
    /// records a `consent` event. Any other decision is refused and changes nothing.
    pub fn control_consent(
        &mut self,
        request: ControlConsentRequest,
        target_identity: Option<JsonValue>,
        now: u64,
    ) -> (r: Result<ControlEvent, ControlConsentError>)
        ensures
            ({
                let decision = lower_seq(request.decision@);
                match consent_outcome(decision, request.allow_for_ms, now) {
                    None => r == Err::<ControlEvent, ControlConsentError>(ControlConsentError::InvalidDecision) && final(self)@ == old(self)@,
                    Some((status, armed_until)) => {
                        let s1 = ControlView {
                            status,
                            session_id: sv(request.session_id),
                            bound_id: sv(request.bound_id),
                            target_identity: jv(target_identity),
                            armed_until_unix_ms: armed_until,
                            last_decision: Some(decision),
                            emergency_stop_active: status == ControlStatus::Revoked,
                            ..old(self)@
                        };
                        &&& r is Ok
                        &&& r->Ok_0@ == new_event(
                            s1,
                            now,
                            "consent"@,
                            None,
                            None,
                            sv(request.bound_id),
                            sv(request.session_id),
                            "control consent decision: "@ + decision,
                        )
                        &&& final(self)@ == after_push(s1, r->Ok_0@)
                    },
                }
            }),
            lower_seq(request.decision@) == "revoke_session"@ || lower_seq(request.decision@) == "revoke"@ ==> r is Ok
                && is_revoked(final(self)@),
            lower_seq(request.decision@) == "allow_once"@ || lower_seq(request.decision@) == "allow_session"@ ==> r is Ok
                && final(self)@.status == ControlStatus::Armed && !is_revoked(final(self)@),
            lower_seq(request.decision@) == "deny"@ ==> r is Ok && final(self)@.status == ControlStatus::Blocked
                && !is_revoked(final(self)@),
    {
        proof {
            lemma_decision_names_distinct();
        }
        let decision = to_ascii_lowercase(request.decision.as_str());
        let (status, armed_until) = if str_eq(decision.as_str(), "allow_once") {
            (ControlStatus::Armed, Some(saturating_add(now, ALLOW_ONCE_MS)))
        } else if str_eq(decision.as_str(), "allow_session") {
            (ControlStatus::Armed, Some(saturating_add(now, clamp_arm_duration(request.allow_for_ms))))
        } else if str_eq(decision.as_str(), "deny") {
            (ControlStatus::Blocked, None)
        } else if str_eq(decision.as_str(), "revoke_session") || str_eq(decision.as_str(), "revoke") {
            (ControlStatus::Revoked, None)
        } else {
            return Err(ControlConsentError::InvalidDecision);
        };
        self.status = status;
        self.session_id = clone_opt_string(&request.session_id);
        self.bound_id = clone_opt_string(&request.bound_id);
        self.target_identity = target_identity;
        self.armed_until_unix_ms = armed_until;
        self.last_decision = Some(decision.clone());
        self.emergency_stop_active = status == ControlStatus::Revoked;
        let message = concat2("control consent decision: ", decision.as_str());
        Ok(self.push_event(now, "consent", None, None, request.bound_id, request.session_id, message))
    }

    /// `control.revoke` (and `control.emergency_stop`): revokes control, sets the
    /// emergency stop, clears the active action and records a `revoked` event.
    pub fn control_revoke(&mut self, request: ControlRevokeRequest, now: u64) -> (ev: ControlEvent)
        ensures
            ({
                let s1 = revoked_state(old(self)@, "revoke_session"@);
                &&& ev@ == new_event(
                    s1,
                    now,
                    "revoked"@,
                    None,
                    None,
                    old(self)@.bound_id,
                    sv(request.session_id),
                    match request.reason {
                        Some(r) => r@,
                        None => "control session revoked"@,
                    },
                )
                &&& final(self)@ == after_push(s1, ev@)
            }),
    {
        self.status = ControlStatus::Revoked;
        self.armed_until_unix_ms = None;
        self.last_decision = Some(owned("revoke_session"));
        self.emergency_stop_active = true;
        self.active_tool = None;
        self.active_action_kind = None;
        let bound_id = clone_opt_string(&self.bound_id);
        let message = match request.reason {
            Some(reason) => reason,
            None => owned("control session revoked"),
        };
        self.push_event(now, "revoked", None, None, bound_id, request.session_id, message)
    }

    /// The global emergency-stop hotkey: the same revoked state as `control.revoke`,
    /// recorded as an `emergency_stop` event from `global_hotkey`.
    pub fn apply_emergency_stop(&mut self, reason: &str, now: u64) -> (ev: ControlEvent)
        ensures
            ({
                let s1 = revoked_state(old(self)@, "emergency_stop"@);
                &&& ev@ == new_event(
                    s1,
                    now,
                    "emergency_stop"@,
                    Some("global_hotkey"@),
                    Some("control_revoke"@),
                    old(self)@.bound_id,
                    old(self)@.session_id,
                    reason@,
                )
                &&& final(self)@ == after_push(s1, ev@)
            }),
    {
        self.status = ControlStatus::Revoked;
        self.armed_until_unix_ms = None;
        self.last_decision = Some(owned("emergency_stop"));
        self.emergency_stop_active = true;
        self.active_tool = None;
        self.active_action_kind = None;
        let bound_id = clone_opt_string(&self.bound_id);
        let session_id = clone_opt_string(&self.session_id);
        self.push_event(
            now,
            "emergency_stop",
            Some(owned("global_hotkey")),
            Some(owned("control_revoke")),
            bound_id,
            session_id,
            owned(reason),
        )
    }

    /// `control.notify`: announces that a tool will take control after the
    /// countdown (given or `FIRST_CONTROL_COUNTDOWN_MS`), marks the first-action
    /// notification as sent and records a `notification` event. Returns the event
    /// and the countdown.
    pub fn control_notify(&mut self, request: ControlNotifyRequest, target_identity: Option<JsonValue>, now: u64) -> (r: (ControlEvent, u64))
        ensures
            ({
                let countdown = match request.countdown_ms {
                    Some(c) => c,
                    None => FIRST_CONTROL_COUNTDOWN_MS,
                };
                let s1 = ControlView {
                    status: ControlStatus::Warning,
                    session_id: sv(request.session_id),
                    bound_id: sv(request.bound_id),
                    target_identity: jv(target_identity),
                    first_control_notification_sent: true,
                    ..old(self)@
                };
                &&& r.1 == countdown
                &&& r.0@ == new_event(
                    s1,
                    now,
                    "notification"@,
                    Some(request.tool_name@),
                    sv(request.action_kind),
                    sv(request.bound_id),
                    sv(request.session_id),
                    request.tool_name@ + " will control the desktop after "@ + spec_decimal(countdown as nat) + " ms"@,
                )
                &&& final(self)@ == after_push(s1, r.0@)
            }),
    {
        let countdown_ms = match request.countdown_ms {
            Some(c) => c,
            None => FIRST_CONTROL_COUNTDOWN_MS,
        };
        self.status = ControlStatus::Warning;
        self.session_id = clone_opt_string(&request.session_id);
        self.bound_id = clone_opt_string(&request.bound_id);
        self.target_identity = target_identity;
        self.first_control_notification_sent = true;
        let mut message = concat2(request.tool_name.as_str(), " will control the desktop after ");
        push_decimal(&mut message, countdown_ms);
        push_str(&mut message, " ms");
        let event = self.push_event(
            now,
            "notification",
            Some(request.tool_name),
            request.action_kind,
            request.bound_id,
            request.session_id,
            message,
        );
        (event, countdown_ms)
    }

    /// Whether the controller is revoked or stopped (what interrupts a countdown).
    pub fn is_revoked(&self) -> (r: bool)
        ensures
            r == is_revoked(self@),
    {
        self.emergency_stop_active || self.status == ControlStatus::Revoked
    }

    /// The first phase of the controller check before a control action.
    ///
    /// A revoked or stopped controller refuses the action (`ConsentRequired` for a
    /// sensitive one, `Revoked` otherwise), stays revoked and records a `blocked` event.
    /// Otherwise an arm whose time has passed expires; a sensitive action then needs
    /// the controller armed (else `ConsentRequired`, the controller becomes blocked,
    /// and a `blocked` event is recorded). An accepted
    /// action marks the controller active for this tool and records `notification` (the
    /// session's first sensitive action, which the caller must follow with the
    /// countdown) or `control_started`.
    #[verifier::rlimit(50)]
    pub fn preflight_begin(
        &mut self,
        tool_name: &str,
        bound_id: Option<&str>,
        action_kind: &str,
        sensitive: bool,
        target_identity: Option<JsonValue>,
        now: u64,
    ) -> (r: Result<PreflightStart, ControlRejection>)
        ensures
            ({
                let s = old(self)@;
                let bound = match bound_id {
                    Some(b) => Some(b@),
                    None => None,
                };
                match preflight_decision(s, now, sensitive) {
                    PreflightDecision::Reject(code) => {
                        let s1 = if is_revoked(s) {
                            s
                        } else {
                            ControlView { status: ControlStatus::Blocked, ..expire(s, now) }
                        };
                        let message = if is_revoked(s) {
                            "control action rejected because emergency stop or revocation is active"@
                        } else {
                            "control action rejected because explicit consent is required"@
                        };
                        &&& r is Err
                        &&& r->Err_0.code == code
                        &&& r->Err_0.event is Some
                        &&& r->Err_0.event->Some_0@ == new_event(
                            s1,
                            now,
                            "blocked"@,
                            Some(tool_name@),
                            Some(action_kind@),
                            bound,
                            s1.session_id,
                            message,
                        )
                        &&& final(self)@ == after_push(s1, r->Err_0.event->Some_0@)
                    },
                    PreflightDecision::Proceed { notify } => {
                        let s1 = proceed_state(s, now, notify, tool_name@, bound, action_kind@, jv(target_identity));
                        &&& r is Ok
                        &&& r->Ok_0.status_before == s.status
                        &&& r->Ok_0.notification_sent == notify
                        &&& r->Ok_0.event@ == new_event(
                            s1,
                            now,
                            if notify { "notification"@ } else { "control_started"@ },
                            Some(tool_name@),
                            Some(action_kind@),
                            bound,
                            s1.session_id,
                            if notify {
                                "first sensitive control action in this session; native toast countdown started"@
                            } else {
                                "control action entered active state"@
                            },
                        )
                        &&& jv(r->Ok_0.target_identity) == s1.target_identity
                        &&& r->Ok_0.armed_until_unix_ms == s1.armed_until_unix_ms
                        &&& sv(r->Ok_0.session_id) == s1.session_id
                        &&& final(self)@ == after_push(s1, r->Ok_0.event@)
                    },
                }
            }),
    {
        let status_before = self.status;
        if self.emergency_stop_active || self.status == ControlStatus::Revoked {
            let session_id = clone_opt_string(&self.session_id);
            let event = self.push_event(
                now,
                "blocked",
                Some(owned(tool_name)),
                Some(owned(action_kind)),
                opt_owned(bound_id),
                session_id,
                owned("control action rejected because emergency stop or revocation is active"),
            );
            let code = if sensitive {
                ControlRejectionCode::ConsentRequired
            } else {
                ControlRejectionCode::Revoked
            };
            return Err(ControlRejection { code, event: Some(event) });
        }
        let expired = match self.armed_until_unix_ms {
            Some(until) => until < now,
            None => false,
        };
        if expired {
            self.status = ControlStatus::Idle;
            self.armed_until_unix_ms = None;
            self.last_decision = Some(owned("expired"));
        }
        if sensitive && self.status != ControlStatus::Armed {
            self.status = ControlStatus::Blocked;
            let session_id = clone_opt_string(&self.session_id);
            let event = self.push_event(
                now,
                "blocked",
                Some(owned(tool_name)),
                Some(owned(action_kind)),
                opt_owned(bound_id),
                session_id,
                owned("control action rejected because explicit consent is required"),
            );
            return Err(ControlRejection { code: ControlRejectionCode::ConsentRequired, event: Some(event) });
        }
        let notification_sent = sensitive && !self.first_control_notification_sent;
        if notification_sent {
            self.first_control_notification_sent = true;
        }
        self.status = if notification_sent {
            ControlStatus::Warning
        } else {
            ControlStatus::Controlling
        };
        if bound_id.is_some() {
            self.bound_id = opt_owned(bound_id);
        }
        if target_identity.is_some() {
            self.target_identity = target_identity;
        }
        self.active_tool = Some(owned(tool_name));
        self.active_action_kind = Some(owned(action_kind));
        let session_id = clone_opt_string(&self.session_id);
        let kind = if notification_sent {
            "notification"
        } else {
            "control_started"
        };
        let message = if notification_sent {
            owned("first sensitive control action in this session; native toast countdown started")
        } else {
            owned("control action entered active state")
        };
        let event = self.push_event(
            now,
            kind,
            Some(owned(tool_name)),
            Some(owned(action_kind)),
            opt_owned(bound_id),
            session_id,
            message,
        );
        Ok(PreflightStart {
            status_before,
            notification_sent,
            event,
            target_identity: clone_opt_json(&self.target_identity),
            armed_until_unix_ms: self.armed_until_unix_ms,
            session_id: clone_opt_string(&self.session_id),
        })
    }

    /// The second phase of the controller check, after the first-action countdown: the
    /// action is refused if control was revoked meanwhile (nothing is recorded);
    /// otherwise the controller becomes active and a `control_started` event is recorded.
    pub fn preflight_after_countdown(&mut self, tool_name: &str, action_kind: &str, now: u64) -> (r: Result<ControlEvent, ControlRejection>)
        ensures
            is_revoked(old(self)@) ==> r == Err::<ControlEvent, ControlRejection>(ControlRejection {
                code: ControlRejectionCode::RevokedDuringCountdown,
                event: None,
            }) && final(self)@ == old(self)@,
            !is_revoked(old(self)@) ==> ({
                let s1 = ControlView { status: ControlStatus::Controlling, ..old(self)@ };
                &&& r is Ok
                &&& r->Ok_0@ == new_event(
                    s1,
                    now,
                    "control_started"@,
                    Some(tool_name@),
                    Some(action_kind@),
                    s1.bound_id,
                    s1.session_id,
                    "control action entered active state"@,
                )
                &&& final(self)@ == after_push(s1, r->Ok_0@)
            }),
    {
        if self.emergency_stop_active || self.status == ControlStatus::Revoked {
            return Err(ControlRejection { code: ControlRejectionCode::RevokedDuringCountdown, event: None });
        }
        self.status = ControlStatus::Controlling;
        let session_id = clone_opt_string(&self.session_id);
        let bound_id = clone_opt_string(&self.bound_id);
        Ok(self.push_event(
            now,
            "control_started",
            Some(owned(tool_name)),
            Some(owned(action_kind)),
            bound_id,
            session_id,
            owned("control action entered active state"),
        ))
    }

    /// Ends a control action. After a revocation it only records that the overlay
    /// was cleared. Otherwise it records `control_finished` (completed or failed)
    /// and `overlay_cleared`, then returns to armed while the arm lasts at `now`,
    /// else to idle, and clears the active action. `overlay_hidden` is whether the
    /// caller managed to hide the overlay.
    pub fn finish_control_action(
        &mut self,
        tool_name: &str,
        action_kind: &str,
        ok: bool,
        overlay_hidden: bool,
        now: u64,
    ) -> (r: Vec<ControlEvent>)
        ensures
            ({
                let s = old(self)@;
                if s.status == ControlStatus::Revoked {
                    &&& r@.len() == 1
                    &&& r@[0]@ == new_event(
                        s,
                        now,
                        "overlay_cleared"@,
                        Some(tool_name@),
                        Some(action_kind@),
                        s.bound_id,
                        s.session_id,
                        "active-control overlay cleared after revocation; hidden="@ + bool_text(overlay_hidden),
                    )
                    &&& final(self)@ == after_push(s, r@[0]@)
                } else {
                    let s1 = ControlView { status: ControlStatus::Cooldown, ..s };
                    let s2 = after_push(s1, r@[0]@);
                    let s3 = after_push(s2, r@[1]@);
                    let still_armed = match s.armed_until_unix_ms {
                        Some(until) => until >= now,
                        None => false,
                    };
                    &&& r@.len() == 2
                    &&& r@[0]@ == new_event(
                        s1,
                        now,
                        "control_finished"@,
                        Some(tool_name@),
                        Some(action_kind@),
                        s.bound_id,
                        s.session_id,
                        if ok { "control action completed"@ } else { "control action failed"@ },
                    )
                    &&& r@[1]@ == new_event(
                        s2,
                        now,
                        "overlay_cleared"@,
                        Some(tool_name@),
                        Some(action_kind@),
                        s.bound_id,
                        s.session_id,
                        "active-control overlay cleared; hidden="@ + bool_text(overlay_hidden),
                    )
                    &&& final(self)@ == ControlView {
                        status: if still_armed { ControlStatus::Armed } else { ControlStatus::Idle },
                        armed_until_unix_ms: if still_armed { s.armed_until_unix_ms } else { None },
                        active_tool: None,
                        active_action_kind: None,
                        ..s3
                    }
                }
            }),
            old(self)@.status != ControlStatus::Revoked && !old(self)@.emergency_stop_active && (old(self)@.armed_until_unix_ms matches Some(
                until,
            ) && until >= now) ==> preflight_decision(final(self)@, now, true) is Proceed,
            old(self)@.status != ControlStatus::Revoked && !(old(self)@.armed_until_unix_ms matches Some(until) && until
                >= now) ==> final(self)@.status == ControlStatus::Idle && preflight_decision(final(self)@, now, true)
                == PreflightDecision::Reject(ControlRejectionCode::ConsentRequired),
            old(self)@.status == ControlStatus::Revoked ==> is_revoked(final(self)@),
    {
        let mut events: Vec<ControlEvent> = Vec::new();
        if self.status == ControlStatus::Revoked {
            let bound_id = clone_opt_string(&self.bound_id);
            let session_id = clone_opt_string(&self.session_id);
            let message = concat2("active-control overlay cleared after revocation; hidden=", bool_str(overlay_hidden));
            let event = self.push_event(
                now,
                "overlay_cleared",
                Some(owned(tool_name)),
                Some(owned(action_kind)),
                bound_id,
                session_id,
                message,
            );
            events.push(event);
            return events;
        }
        self.status = ControlStatus::Cooldown;
        let bound_id = clone_opt_string(&self.bound_id);
        let session_id = clone_opt_string(&self.session_id);
        let message = if ok {
            owned("control action completed")
        } else {
            owned("control action failed")
        };
        let finished = self.push_event(
            now,
            "control_finished",
            Some(owned(tool_name)),
            Some(owned(action_kind)),
            bound_id,
            session_id,
            message,
        );
        events.push(finished);
        let bound_id = clone_opt_string(&self.bound_id);
        let session_id = clone_opt_string(&self.session_id);
        let message = concat2("active-control overlay cleared; hidden=", bool_str(overlay_hidden));
        let cleared = self.push_event(
            now,
            "overlay_cleared",
            Some(owned(tool_name)),
            Some(owned(action_kind)),
            bound_id,
            session_id,
            message,
        );
        events.push(cleared);
        let still_armed = match self.armed_until_unix_ms {
            Some(until) => until >= now,
            None => false,
        };
        if still_armed {
            self.status = ControlStatus::Armed;
        } else {
            self.status = ControlStatus::Idle;
            self.armed_until_unix_ms = None;
        }
        self.active_tool = None;
        self.active_action_kind = None;
        events
    }

    /// Points the controller at its audit log. `high_watermark` is the largest event ID
    /// already in the log (0 for none) or why it could not be read: on success the
    /// next event ID moves past it and the write error is cleared; on failure the
    /// error is kept with the time.
    pub fn configure_audit_log(&mut self, path: String, high_watermark: Result<u64, String>, now: u64)
        ensures
            ({
                let s = old(self)@;
                match high_watermark {
                    Ok(max_id) => final(self)@ == ControlView {
                        audit_log_path: Some(path@),
                        next_event_id: if s.next_event_id >= sat_inc(max_id) {
                            s.next_event_id
                        } else {
                            sat_inc(max_id)
                        },
                        audit_last_write_error: None,
                        audit_last_write_error_unix_ms: None,
                        ..s
                    },
                    Err(e) => final(self)@ == ControlView {
                        audit_log_path: Some(path@),
                        audit_last_write_error: Some(e@),
                        audit_last_write_error_unix_ms: Some(now),
                        ..s
                    },
                }
            }),
    {
        self.audit_log_path = Some(path);
        match high_watermark {
            Ok(max_id) => {
                let next = if max_id == u64::MAX {
                    u64::MAX
                } else {
                    max_id + 1
                };
                if self.next_event_id < next {
                    self.next_event_id = next;
                }
                self.audit_last_write_error = None;
                self.audit_last_write_error_unix_ms = None;
            },
            Err(error) => {
                self.audit_last_write_error = Some(error);
                self.audit_last_write_error_unix_ms = Some(now);
            },
        }
    }

    /// Records the outcome of appending an event to the audit log. Nothing changes
    /// when no audit log is configured.
    pub fn record_audit_write(&mut self, result: Result<(), String>, now: u64)
        ensures
            ({
                let s = old(self)@;
                if s.audit_log_path is None {
                    final(self)@ == s
                } else {
                    match result {
                        Ok(()) => final(self)@ == ControlView {
                            audit_last_write_error: None,
                            audit_last_write_error_unix_ms: None,
                            ..s
                        },
                        Err(e) => final(self)@ == ControlView {
                            audit_last_write_error: Some(e@),
                            audit_last_write_error_unix_ms: Some(now),
                            ..s
                        },
                    }
                }
            }),
    {
        if self.audit_log_path.is_none() {
            return;
        }
        match result {
            Ok(()) => {
                self.audit_last_write_error = None;
                self.audit_last_write_error_unix_ms = None;
            },
            Err(error) => {
                self.audit_last_write_error = Some(error);
                self.audit_last_write_error_unix_ms = Some(now);
            },
        }
    }
}

/// The largest of the given event IDs, or 0 when there are none.
pub open spec fn max_id(ids: Seq<u64>) -> u64
    decreases ids.len(),
{
    if ids.len() == 0 {
        0
    } else {
        let m = max_id(ids.drop_last());
        if ids.last() > m {
            ids.last()
        } else {
            m
        }
    }
}

/// The high watermark of an audit log: the largest event ID it holds, 0 for none.
pub fn audit_high_watermark(ids: &Vec<u64>) -> (r: u64)
    ensures
        r == max_id(ids@),
{
    let mut m: u64 = 0;
    let mut i: usize = 0;
    while i < ids.len()
        invariant
            i <= ids@.len(),
            m == max_id(ids@.take(i as int)),
        decreases ids.len() - i,
    {
        assert(ids@.take(i + 1).drop_last() == ids@.take(i as int));
        if ids[i] > m {
            m = ids[i];
        }
        i += 1;
    }
    assert(ids@.take(ids@.len() as int) == ids@);
    m
}

/// The event IDs in the log increase strictly, and each is below the next ID to hand out.
pub open spec fn ids_ordered(s: ControlView) -> bool {
    &&& forall|i: int, j: int| 0 <= i < j < s.events.len() ==> #[trigger] s.events[i].id < #[trigger] s.events[j].id
    &&& forall|i: int| 0 <= i < s.events.len() ==> #[trigger] s.events[i].id < s.next_event_id
}

/// Recording an event keeps the log within `MAX_EVENTS`, and the recorded event is the newest one.
pub proof fn lemma_push_keeps_log_bounded(s: ControlView, ev: EventView)
    ensures
        control_wf(after_push(s, ev)),
        after_push(s, ev).events.len() > 0,
        after_push(s, ev).events.last() == ev,
{
}

/// Recording the event that a push hands out keeps the log's IDs strictly increasing,
/// as long as the ID counter has not reached its largest value.
pub proof fn lemma_push_keeps_ids_ordered(s: ControlView, ev: EventView)
    requires
        ids_ordered(s),
        ev.id == s.next_event_id,
        s.next_event_id < u64::MAX,
    ensures
        ids_ordered(after_push(s, ev)),
{
    let q = s.events.push(ev);
    let t = after_push(s, ev);
    assert forall|i: int, j: int| 0 <= i < j < q.len() implies q[i].id < q[j].id by {
        if j == q.len() - 1 {
            assert(q[i] == s.events[i]);
        } else {
            assert(q[i] == s.events[i] && q[j] == s.events[j]);
        }
    }
    if q.len() > MAX_EVENTS {
        let k = q.len() - MAX_EVENTS;
        assert forall|i: int, j: int| 0 <= i < j < t.events.len() implies t.events[i].id < t.events[j].id by {
            assert(t.events[i] == q[i + k] && t.events[j] == q[j + k]);
        }
        assert forall|i: int| 0 <= i < t.events.len() implies t.events[i].id < t.next_event_id by {
            assert(t.events[i] == q[i + k]);
            if i + k < s.events.len() {
                assert(q[i + k] == s.events[i + k]);
            }
        }
    } else {
        assert forall|i: int| 0 <= i < t.events.len() implies t.events[i].id < t.next_event_id by {
            assert(t.events[i] == q[i]);
            if i < s.events.len() {
                assert(q[i] == s.events[i]);
            }
        }
    }
}

/// A revoked or stopped controller refuses every action (a sensitive one for want
/// of consent), and recording the refusal leaves it revoked.
pub proof fn lemma_revoked_gate_refuses(s: ControlView, now: u64, sensitive: bool, ev: EventView)
    requires
        is_revoked(s),
    ensures
        preflight_decision(s, now, sensitive) == PreflightDecision::Reject(
            if sensitive { ControlRejectionCode::ConsentRequired } else { ControlRejectionCode::Revoked },
        ),
        is_revoked(after_push(s, ev)),
{
}

/// After a revocation (by `control.revoke` or the emergency stop) and its event,
/// every sensitive action is refused for want of consent, and every other action
/// as revoked, at any time.
pub proof fn lemma_revocation_refuses_every_action(
    s: ControlView,
    decision: Seq<char>,
    ev: EventView,
    now: u64,
    sensitive: bool,
)
    ensures
        is_revoked(after_push(revoked_state(s, decision), ev)),
        preflight_decision(after_push(revoked_state(s, decision), ev), now, sensitive)
            == PreflightDecision::Reject(
            if sensitive { ControlRejectionCode::ConsentRequired } else { ControlRejectionCode::Revoked },
        ),
{
}

/// A sensitive action goes ahead only when the controller is not revoked and is
/// armed at the time of the request: from the initial state, after a revocation,
/// after a refused consent and after the arm's deadline it is refused with
/// `ConsentRequired`.
pub proof fn lemma_sensitive_action_needs_arm(s: ControlView, now: u64)
    ensures
        preflight_decision(s, now, true) is Proceed <==> (!is_revoked(s) && expire(s, now).status
            == ControlStatus::Armed),
        preflight_decision(s, now, true) is Reject ==> preflight_decision(s, now, true)
            == PreflightDecision::Reject(ControlRejectionCode::ConsentRequired),
{
}

/// The arm duration always lies within `[MIN_ARM_MS, MAX_ARM_MS]`, and a requested
/// duration inside that range is kept as it is.
pub proof fn lemma_arm_duration_clamped(requested: Option<u64>)
    ensures
        MIN_ARM_MS <= arm_duration(requested) <= MAX_ARM_MS,
        requested is None ==> arm_duration(requested) == DEFAULT_ARM_MS,
        (requested matches Some(d) && MIN_ARM_MS <= d <= MAX_ARM_MS) ==> arm_duration(requested) == requested->Some_0,
{
}

/// After `control.arm` and its event, any action, sensitive or not, requested no
/// later than the arm's deadline goes ahead.
pub proof fn lemma_armed_gate_allows_until_deadline(
    s: ControlView,
    session_id: Option<Seq<char>>,
    bound_id: Option<Seq<char>>,
    target: Option<JsonView>,
    allow_for_ms: Option<u64>,
    now: u64,
    ev: EventView,
    t: u64,
    sensitive: bool,
)
    requires
        t <= sat_add(now, arm_duration(allow_for_ms)),
    ensures
        !is_revoked(after_push(armed_state(s, session_id, bound_id, target, allow_for_ms, now), ev)),
        preflight_decision(
            after_push(armed_state(s, session_id, bound_id, target, allow_for_ms, now), ev),
            t,
            sensitive,
        ) is Proceed,
{
}

/// A sensitive action requested after the arm's deadline is refused for want of
/// consent.
pub proof fn lemma_expired_arm_needs_consent(s: ControlView, t: u64)
    requires
        s.armed_until_unix_ms matches Some(until) && until < t,
    ensures
        preflight_decision(s, t, true) == PreflightDecision::Reject(ControlRejectionCode::ConsentRequired),
{
}

/// A non-sensitive action is never refused for want of consent, and only a
/// revoked controller refuses it.
pub proof fn lemma_insensitive_action_only_refused_when_revoked(s: ControlView, now: u64)
    ensures
        preflight_decision(s, now, false) is Reject <==> is_revoked(s),
        preflight_decision(s, now, false) is Proceed ==> !preflight_decision(s, now, false)->notify,
{
}

/// The text a control notification uses for its target: the process, its PID
/// and its window handle, each with a stand-in when the identity lacks it.
pub open spec fn target_text(target: Option<JsonView>) -> Seq<char> {
    match target {
        None => "the active desktop"@,
        Some(t) => {
            let process = match json_as_str(json_get(t, "process_name"@)) {
                Some(p) => p,
                None => "target app"@,
            };
            let pid = match json_get(t, "pid"@) {
                Some(JsonView::Number(JsonNumber::PosInt(n))) => spec_decimal(n as nat),
                _ => "unknown"@,
            };
            let hwnd = match json_as_str(json_get(t, "hwnd_hex"@)) {
                Some(h) => h,
                None => "unknown HWND"@,
            };
            process + " (PID "@ + pid + ", "@ + hwnd + ")"@
        },
    }
}

/// Describes a control target for a notification.
pub fn control_target_text(target_identity: Option<&JsonValue>) -> (r: String)
    ensures
        r@ == target_text(
            match target_identity {
                Some(t) => Some(t@),
                None => None,
            },
        ),
{
    let target = match target_identity {
        Some(t) => t,
        None => return owned("the active desktop"),
    };
    let process: &str = match target.get("process_name") {
        Some(v) => match v.as_str() {
            Some(p) => p,
            None => "target app",
        },
        None => "target app",
    };
    let mut r = owned(process);
    push_str(&mut r, " (PID ");
    match target.get("pid") {
        Some(JsonValue::Number(JsonNumber::PosInt(n))) => push_decimal(&mut r, *n),
        _ => push_str(&mut r, "unknown"),
    }
    push_str(&mut r, ", ");
    let hwnd: &str = match target.get("hwnd_hex") {
        Some(v) => match v.as_str() {
            Some(h) => h,
            None => "unknown HWND",
        },
        None => "unknown HWND",
    };
    push_str(&mut r, hwnd);
    push_str(&mut r, ")");
    r
}

/// A consent decision to revoke (`revoke_session` or `revoke`, in any case)
/// revokes control: whatever the controller's state before, the state after the
/// decision and its event is revoked, and from then on every action is refused,
/// a sensitive one for want of consent and any other as revoked.
pub proof fn lemma_revoke_consent_refuses_everything(
    s: ControlView,
    raw_decision: Seq<char>,
    allow_for_ms: Option<u64>,
    now: u64,
    session_id: Option<Seq<char>>,
    bound_id: Option<Seq<char>>,
    target: Option<JsonView>,
    ev: EventView,
    t: u64,
    sensitive: bool,
)
    requires
        lower_seq(raw_decision) == "revoke_session"@ || lower_seq(raw_decision) == "revoke"@,
    ensures
        consent_outcome(lower_seq(raw_decision), allow_for_ms, now) matches Some((status, until)) && ({
            let s1 = ControlView {
                status,
                session_id,
                bound_id,
                target_identity: target,
                armed_until_unix_ms: until,
                last_decision: Some(lower_seq(raw_decision)),
                emergency_stop_active: status == ControlStatus::Revoked,
                ..s
            };
            &&& is_revoked(after_push(s1, ev))
            &&& preflight_decision(after_push(s1, ev), t, sensitive) == PreflightDecision::Reject(
                if sensitive { ControlRejectionCode::ConsentRequired } else { ControlRejectionCode::Revoked },
            )
        }),
{
    lemma_decision_names_distinct();
}

/// The consent decisions' names differ from one another.
proof fn lemma_decision_names_distinct()
    ensures
        "allow_once"@ != "allow_session"@,
        "allow_once"@ != "deny"@,
        "allow_once"@ != "revoke_session"@,
        "allow_once"@ != "revoke"@,
        "allow_session"@ != "deny"@,
        "allow_session"@ != "revoke_session"@,
        "allow_session"@ != "revoke"@,
        "deny"@ != "revoke_session"@,
        "deny"@ != "revoke"@,
        "revoke_session"@ != "revoke"@,
{
    reveal_strlit("revoke_session");
    reveal_strlit("revoke");
    reveal_strlit("allow_once");
    reveal_strlit("allow_session");
    reveal_strlit("deny");
    assert("allow_once"@.len() == 10);
    assert("allow_session"@.len() == 13);
    assert("deny"@.len() == 4);
    assert("revoke_session"@.len() == 14);
    assert("revoke"@.len() == 6);
}

/// An arm lasts exactly until its deadline: after `control.arm` at `now` and its
/// event, a sensitive action is refused for want of consent at any time past
/// `now` plus the arm's duration (defaulted and clamped), and goes ahead up to it.
pub proof fn lemma_arm_lasts_until_deadline(
    s: ControlView,
    session_id: Option<Seq<char>>,
    bound_id: Option<Seq<char>>,
    target: Option<JsonView>,
    allow_for_ms: Option<u64>,
    now: u64,
    ev: EventView,
    t: u64,
)
    ensures
        ({
            let armed = after_push(armed_state(s, session_id, bound_id, target, allow_for_ms, now), ev);
            let d = match allow_for_ms {
                Some(v) => if v < MIN_ARM_MS {
                    MIN_ARM_MS as int
                } else if v > MAX_ARM_MS {
                    MAX_ARM_MS as int
                } else {
                    v as int
                },
                None => DEFAULT_ARM_MS as int,
            };
            let deadline = if now + d > u64::MAX { u64::MAX as int } else { now + d };
            &&& t <= deadline ==> preflight_decision(armed, t, true) is Proceed
            &&& t > deadline ==> preflight_decision(armed, t, true) == PreflightDecision::Reject(
                ControlRejectionCode::ConsentRequired,
            )
        }),
{
}

/// Only the session's first sensitive action is announced: a sensitive action
/// that goes ahead carries the notification exactly when none was sent yet,
/// and afterwards the controller remembers that one was sent, so the next one
/// is not announced.
pub proof fn lemma_first_sensitive_action_announced_once(
    s: ControlView,
    now: u64,
    tool_name: Seq<char>,
    bound_id: Option<Seq<char>>,
    action_kind: Seq<char>,
    target: Option<JsonView>,
    ev: EventView,
    later: u64,
)
    requires
        preflight_decision(s, now, true) is Proceed,
    ensures
        preflight_decision(s, now, true)->notify == !s.first_control_notification_sent,
        ({
            let after = after_push(
                proceed_state(s, now, preflight_decision(s, now, true)->notify, tool_name, bound_id, action_kind, target),
                ev,
            );
            &&& after.first_control_notification_sent
            &&& preflight_decision(after, later, true) is Proceed ==> !preflight_decision(after, later, true)->notify
        }),
{
}

} // verus!
