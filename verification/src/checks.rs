//! The predicates behind the assertion tools: what each assertion compares,
//! which failures it reports and in what words, and how polling decides when
//! an assertion is settled. The UI, window, process and clipboard facts they
//! judge are handed in as plain values.

use vstd::prelude::*;

use crate::pattern::{regex_finds_match, CompiledRegex};
use crate::json::{array_items, lemma_array_view, lemma_object_view, object_entries, entries_insert, object_insert, JsonNumber, JsonValue, JsonView};
use crate::pattern::regex_compile_error;
use crate::requests::AssertClipboardRequest;
use crate::text::{
    concat2, concat3, debug_quoted, debug_str, eq_ignore_ascii_case, lower_seq, owned, push_decimal,
    push_signed_decimal, push_str, spec_contains, spec_decimal, spec_signed_decimal, str_contains,
    str_eq, strs_view, sv, to_ascii_lowercase, is_blank, spec_is_blank,
};

verus! {

/// Whether an assertion expects its target to be there or not.
#[derive(Debug, Clone, Copy, PartialEq, Eq, Structural)]
pub enum AssertionExpect {
    Present,
    Absent,
}

/// Whether the assertion expects its target to be absent.
pub fn expect_absent(expect: Option<AssertionExpect>) -> (r: bool)
    ensures
        r == (expect == Some(AssertionExpect::Absent)),
{
    match expect {
        Some(AssertionExpect::Absent) => true,
        _ => false,
    }
}

/// The placeholder shown in place of a secret expected value.
pub const REDACTED: &'static str = "<redacted>";

/// `<redacted>` when a value is given, nothing otherwise: what an assertion
/// reports of an expected value that may be secret.
pub fn redacted_option<T>(value: &Option<T>) -> (r: Option<&'static str>)
    ensures
        r is Some <==> value is Some,
        r matches Some(s) ==> s@ == REDACTED@,
{
    match value {
        Some(_) => Some(REDACTED),
        None => None,
    }
}

/// An actual string equals the expected one ignoring ASCII case; a missing one never does.
pub open spec fn role_match(actual: Option<Seq<char>>, expected: Seq<char>) -> bool {
    match actual {
        Some(a) => lower_seq(a) == lower_seq(expected),
        None => false,
    }
}

/// Whether an element's role is the expected one, ignoring ASCII case.
pub fn role_matches(actual: Option<&str>, expected: &str) -> (r: bool)
    ensures
        r == role_match(
            match actual {
                Some(a) => Some(a@),
                None => None,
            },
            expected@,
        ),
{
    match actual {
        Some(a) => eq_ignore_ascii_case(a, expected),
        None => false,
    }
}

/// An actual string contains the expected one, both lower-cased (ASCII); a missing one never does.
pub open spec fn contains_ignoring_case(actual: Option<Seq<char>>, expected: Seq<char>) -> bool {
    match actual {
        Some(a) => spec_contains(lower_seq(a), lower_seq(expected)),
        None => false,
    }
}

/// Whether `actual` contains `expected`, ignoring ASCII case.
pub fn contains_ci(actual: Option<&str>, expected: &str) -> (r: bool)
    ensures
        r == contains_ignoring_case(
            match actual {
                Some(a) => Some(a@),
                None => None,
            },
            expected@,
        ),
{
    match actual {
        Some(a) => {
            let hay = to_ascii_lowercase(a);
            let needle = to_ascii_lowercase(expected);
            str_contains(hay.as_str(), needle.as_str())
        },
        None => false,
    }
}

/// What a toggle state says about being checked: `on` is checked, `off` is not,
/// anything else (`indeterminate` included) says nothing.
pub open spec fn toggle_value(state: Option<Seq<char>>) -> Option<bool> {
    match state {
        Some(s) => if s == "on"@ {
            Some(true)
        } else if s == "off"@ {
            Some(false)
        } else {
            None
        },
        None => None,
    }
}

/// Whether a UI Automation toggle state means checked.
pub fn toggle_checked(state: Option<&str>) -> (r: Option<bool>)
    ensures
        r == toggle_value(
            match state {
                Some(s) => Some(s@),
                None => None,
            },
        ),
{
    match state {
        Some(s) => if str_eq(s, "on") {
            Some(true)
        } else if str_eq(s, "off") {
            Some(false)
        } else {
            None
        },
        None => None,
    }
}

/// What an expand/collapse state says about being expanded: `expanded` and
/// `partially_expanded` are, `collapsed` is not, anything else says nothing.
pub open spec fn expansion_value(state: Option<Seq<char>>) -> Option<bool> {
    match state {
        Some(s) => if s == "expanded"@ || s == "partially_expanded"@ {
            Some(true)
        } else if s == "collapsed"@ {
            Some(false)
        } else {
            None
        },
        None => None,
    }
}

/// Whether a UI Automation expand/collapse state means expanded.
pub fn expanded_state(state: Option<&str>) -> (r: Option<bool>)
    ensures
        r == expansion_value(
            match state {
                Some(s) => Some(s@),
                None => None,
            },
        ),
{
    match state {
        Some(s) => if str_eq(s, "expanded") || str_eq(s, "partially_expanded") {
            Some(true)
        } else if str_eq(s, "collapsed") {
            Some(false)
        } else {
            None
        },
        None => None,
    }
}

/// `|a - b|` for bytes.
pub open spec fn byte_distance(a: u8, b: u8) -> int {
    if a >= b {
        a - b
    } else {
        b - a
    }
}

/// Each colour channel is within `tolerance` of the expected one.
pub open spec fn rgb_close(actual: [u8; 3], expected: [u8; 3], tolerance: u8) -> bool {
    forall|i: int| 0 <= i < 3 ==> byte_distance(#[trigger] actual@[i], expected@[i]) <= tolerance
}

fn abs_diff_u8(a: u8, b: u8) -> (r: u8)
    ensures
        r == byte_distance(a, b),
{
    if a >= b {
        a - b
    } else {
        b - a
    }
}

/// Whether a pixel's colour is within `tolerance` of the expected one on every channel.
pub fn rgb_within_tolerance(actual: [u8; 3], expected: [u8; 3], tolerance: u8) -> (r: bool)
    ensures
        r == rgb_close(actual, expected, tolerance),
{
    let d0 = abs_diff_u8(actual[0], expected[0]);
    let d1 = abs_diff_u8(actual[1], expected[1]);
    let d2 = abs_diff_u8(actual[2], expected[2]);
    let r = d0 <= tolerance && d1 <= tolerance && d2 <= tolerance;
    assert(r == rgb_close(actual, expected, tolerance)) by {
        assert(d0 == byte_distance(actual@[0], expected@[0]));
        assert(d1 == byte_distance(actual@[1], expected@[1]));
        assert(d2 == byte_distance(actual@[2], expected@[2]));
    };
    r
}

/// An optional regular expression accepts an optional text: no expression
/// accepts everything, an expression accepts a text it matches and no missing text.
pub open spec fn regex_accepts(actual: Option<Seq<char>>, regex: Option<Seq<char>>) -> bool {
    match regex {
        Some(pattern) => match actual {
            Some(a) => regex_finds_match(pattern, a),
            None => false,
        },
        None => true,
    }
}

/// Whether an optional regular expression accepts an optional text.
pub fn regex_matches(actual: Option<&str>, regex: Option<&CompiledRegex>) -> (r: bool)
    ensures
        r == regex_accepts(
            match actual {
                Some(a) => Some(a@),
                None => None,
            },
            match regex {
                Some(re) => Some(re@),
                None => None,
            },
        ),
{
    match regex {
        Some(re) => match actual {
            Some(a) => re.is_match(a),
            None => false,
        },
        None => true,
    }
}

/// The response for a regex an assertion could not compile.
pub open spec fn invalid_regex_response(pattern: Seq<char>, message: Seq<char>) -> JsonView {
    JsonView::Object(
        seq![
            ("ok"@, JsonView::Bool(false)),
            ("error"@, JsonView::Object(
                seq![
                    ("code"@, JsonView::Str("invalid_assertion_regex"@)),
                    ("message"@, JsonView::Str("invalid regex "@ + debug_quoted(pattern) + ": "@ + message)),
                ],
            )),
        ],
    )
}

/// Compiles an assertion's optional regex; a pattern that does not compile
/// gives the `invalid_assertion_regex` response.
pub fn compile_optional_regex(pattern: Option<&str>) -> (r: Result<Option<CompiledRegex>, JsonValue>)
    ensures
        match pattern {
            None => r matches Ok(None),
            Some(p) => match regex_compile_error(p@) {
                None => r matches Ok(Some(re)) && re@ == p@,
                Some(m) => r matches Err(v) && v@ == invalid_regex_response(p@, m),
            },
        },
{
    match pattern {
        None => Ok(None),
        Some(p) => match CompiledRegex::compile(p) {
            Ok(re) => Ok(Some(re)),
            Err(message) => {
                let mut text = owned("invalid regex ");
                push_str(&mut text, debug_str(p).as_str());
                push_str(&mut text, ": ");
                push_str(&mut text, message.as_str());
                let mut inner: Vec<(String, JsonValue)> = Vec::new();
                inner.push((owned("code"), JsonValue::String(owned("invalid_assertion_regex"))));
                let ghost tv = text@;
                inner.push((owned("message"), JsonValue::String(text)));
                proof {
                    lemma_object_view(inner);
                    assert(object_entries(inner@) =~= seq![
                        ("code"@, JsonView::Str("invalid_assertion_regex"@)),
                        ("message"@, JsonView::Str(tv)),
                    ]);
                }
                let error = JsonValue::Object(inner);
                let ghost ev = error@;
                let mut outer: Vec<(String, JsonValue)> = Vec::new();
                outer.push((owned("ok"), JsonValue::Bool(false)));
                outer.push((owned("error"), error));
                proof {
                    lemma_object_view(outer);
                    assert(object_entries(outer@) =~= seq![("ok"@, JsonView::Bool(false)), ("error"@, ev)]);
                }
                Err(JsonValue::Object(outer))
            },
        },
    }
}

/// A text the assertion looks for is in a candidate: it contains the literal
/// (ignoring ASCII case) when one is given, and the expression matches it when one is given.
pub open spec fn text_candidate(candidate: Seq<char>, literal: Option<Seq<char>>, regex: Option<Seq<char>>) -> bool {
    (match literal {
        Some(l) => contains_ignoring_case(Some(candidate), l),
        None => true,
    }) && (match regex {
        Some(p) => regex_finds_match(p, candidate),
        None => true,
    })
}

/// Whether `candidate` shows the text an assertion looks for.
pub fn text_candidate_matches(candidate: &str, literal: Option<&str>, regex: Option<&CompiledRegex>) -> (r: bool)
    ensures
        r == text_candidate(
            candidate@,
            match literal {
                Some(l) => Some(l@),
                None => None,
            },
            match regex {
                Some(re) => Some(re@),
                None => None,
            },
        ),
{
    let literal_matches = match literal {
        Some(l) => contains_ci(Some(candidate), l),
        None => true,
    };
    let regex_ok = match regex {
        Some(re) => re.is_match(candidate),
        None => true,
    };
    literal_matches && regex_ok
}

// ---------------------------------------------------------------------------
// How values are shown in failure messages (`{:?}`)
// ---------------------------------------------------------------------------

/// `true` or `false`.
pub open spec fn show_bool(b: bool) -> Seq<char> {
    if b {
        "true"@
    } else {
        "false"@
    }
}

/// `{:?}` of an optional boolean: `Some(true)`, `Some(false)` or `None`.
pub open spec fn show_opt_bool(o: Option<bool>) -> Seq<char> {
    match o {
        Some(b) => "Some("@ + show_bool(b) + ")"@,
        None => "None"@,
    }
}

/// `{:?}` of an optional string: `Some("...")` or `None`.
pub open spec fn show_opt_text(o: Option<Seq<char>>) -> Seq<char> {
    match o {
        Some(s) => "Some("@ + debug_quoted(s) + ")"@,
        None => "None"@,
    }
}

/// `{:?}` of an optional integer: `Some(<n>)` or `None`.
pub open spec fn show_opt_int(o: Option<i32>) -> Seq<char> {
    match o {
        Some(n) => "Some("@ + spec_signed_decimal(n as int) + ")"@,
        None => "None"@,
    }
}

fn bool_text(b: bool) -> (r: &'static str)
    ensures
        r@ == show_bool(b),
{
    if b {
        "true"
    } else {
        "false"
    }
}

fn opt_bool_text(o: Option<bool>) -> (r: String)
    ensures
        r@ == show_opt_bool(o),
{
    match o {
        Some(b) => concat3("Some(", bool_text(b), ")"),
        None => owned("None"),
    }
}

fn opt_str_text(o: Option<&str>) -> (r: String)
    ensures
        r@ == show_opt_text(
            match o {
                Some(s) => Some(s@),
                None => None,
            },
        ),
{
    match o {
        Some(s) => {
            let quoted = debug_str(s);
            concat3("Some(", quoted.as_str(), ")")
        },
        None => owned("None"),
    }
}

fn opt_int_text(o: Option<i32>) -> (r: String)
    ensures
        r@ == show_opt_int(o),
{
    match o {
        Some(n) => {
            let mut s = owned("Some(");
            push_signed_decimal(&mut s, n as i64);
            push_str(&mut s, ")");
            s
        },
        None => owned("None"),
    }
}

/// A message made of `prefix` and the rendering of a value.
pub open spec fn was(prefix: Seq<char>, shown: Seq<char>) -> Seq<char> {
    prefix + shown
}

// ---------------------------------------------------------------------------
// UI elements
// ---------------------------------------------------------------------------

/// A rectangle in screen pixels.
#[derive(Debug, Clone, Copy, PartialEq, Eq, Structural)]
pub struct UiRect {
    pub x: i32,
    pub y: i32,
    pub width: i32,
    pub height: i32,
}

/// `{:?}` of a rectangle.
pub open spec fn show_rect(r: UiRect) -> Seq<char> {
    "UiRect { x: "@ + spec_signed_decimal(r.x as int) + ", y: "@ + spec_signed_decimal(r.y as int)
        + ", width: "@ + spec_signed_decimal(r.width as int) + ", height: "@ + spec_signed_decimal(
        r.height as int,
    ) + " }"@
}

/// `{:?}` of an optional rectangle.
pub open spec fn show_opt_rect(o: Option<UiRect>) -> Seq<char> {
    match o {
        Some(r) => "Some("@ + show_rect(r) + ")"@,
        None => "None"@,
    }
}

fn rect_text(r: UiRect) -> (s: String)
    ensures
        s@ == show_rect(r),
{
    let mut s = owned("UiRect { x: ");
    push_signed_decimal(&mut s, r.x as i64);
    push_str(&mut s, ", y: ");
    push_signed_decimal(&mut s, r.y as i64);
    push_str(&mut s, ", width: ");
    push_signed_decimal(&mut s, r.width as i64);
    push_str(&mut s, ", height: ");
    push_signed_decimal(&mut s, r.height as i64);
    push_str(&mut s, " }");
    s
}

fn opt_rect_text(o: Option<UiRect>) -> (s: String)
    ensures
        s@ == show_opt_rect(o),
{
    match o {
        Some(r) => {
            let inner = rect_text(r);
            concat3("Some(", inner.as_str(), ")")
        },
        None => owned("None"),
    }
}

/// The differences between two rectangles' coordinates fit in an `i32` and
/// have an absolute value (what comparing them computes without overflow).
pub open spec fn rect_diffs_fit(a: UiRect, e: UiRect) -> bool {
    &&& i32::MIN < a.x - e.x <= i32::MAX
    &&& i32::MIN < a.y - e.y <= i32::MAX
    &&& i32::MIN < a.width - e.width <= i32::MAX
    &&& i32::MIN < a.height - e.height <= i32::MAX
}

/// `|n|`.
pub open spec fn magnitude(n: int) -> int {
    if n < 0 {
        -n
    } else {
        n
    }
}

/// A rectangle is within `tolerance` (at least 0) of the expected one in every
/// coordinate; a missing rectangle never is.
pub open spec fn bounds_close(actual: Option<UiRect>, expected: UiRect, tolerance: i32) -> bool {
    let t = if tolerance < 0 {
        0
    } else {
        tolerance as int
    };
    match actual {
        Some(a) => {
            &&& magnitude(a.x - expected.x) <= t
            &&& magnitude(a.y - expected.y) <= t
            &&& magnitude(a.width - expected.width) <= t
            &&& magnitude(a.height - expected.height) <= t
        },
        None => false,
    }
}

fn abs_diff_i32(a: i32, b: i32) -> (r: i32)
    requires
        i32::MIN < a - b <= i32::MAX,
    ensures
        r == magnitude(a - b),
{
    let d = a - b;
    if d < 0 {
        -d
    } else {
        d
    }
}

/// Whether an element's bounds are within `tolerance` of the expected ones.
pub fn bounds_within_tolerance(actual: Option<UiRect>, expected: UiRect, tolerance: i32) -> (r: bool)
    requires
        actual matches Some(a) ==> rect_diffs_fit(a, expected),
    ensures
        r == bounds_close(actual, expected, tolerance),
{
    let a = match actual {
        Some(a) => a,
        None => return false,
    };
    let t = if tolerance < 0 {
        0
    } else {
        tolerance
    };
    abs_diff_i32(a.x, expected.x) <= t && abs_diff_i32(a.y, expected.y) <= t && abs_diff_i32(
        a.width,
        expected.width,
    ) <= t && abs_diff_i32(a.height, expected.height) <= t
}

/// What an assertion reads of a UI element.
#[derive(Debug, Clone, PartialEq)]
pub struct ElementFacts {
    pub enabled: Option<bool>,
    pub focused: Option<bool>,
    pub offscreen: Option<bool>,
    pub name: Option<String>,
    pub role: Option<String>,
    pub control_type_id: Option<i32>,
    pub bounds: Option<UiRect>,
}

/// What an assertion reads of an element's control patterns.
#[derive(Debug, Clone, PartialEq)]
pub struct PatternFacts {
    pub toggle_state: Option<String>,
    pub selected: Option<bool>,
    pub expand_collapse_state: Option<String>,
    pub value: Option<String>,
    pub value_readonly: Option<bool>,
}

/// A pattern state fit to report: its value, when there is one, replaced by
/// `<redacted>`; everything else kept.
pub fn redact_pattern_state(state: PatternFacts) -> (r: PatternFacts)
    ensures
        r.value is Some <==> state.value is Some,
        r.value matches Some(v) ==> v@ == REDACTED@,
        r.toggle_state == state.toggle_state,
        r.selected == state.selected,
        r.expand_collapse_state == state.expand_collapse_state,
        r.value_readonly == state.value_readonly,
{
    let mut state = state;
    if state.value.is_some() {
        state.value = Some(owned(REDACTED));
    }
    state
}

/// What `assert.element` expects of the first matching element, of its control
/// patterns, and of the number of matches. Each is checked only when given.
#[derive(Debug, Clone, Default, PartialEq)]
pub struct ElementExpectations {
    pub enabled: Option<bool>,
    pub focused: Option<bool>,
    pub offscreen: Option<bool>,
    pub name: Option<String>,
    pub name_contains: Option<String>,
    pub role: Option<String>,
    pub control_type_id: Option<i32>,
    pub bounds: Option<UiRect>,
    pub bounds_tolerance: Option<i32>,
    pub checked: Option<bool>,
    pub selected: Option<bool>,
    pub expanded: Option<bool>,
    pub value: Option<String>,
    pub value_contains: Option<String>,
    pub readonly: Option<bool>,
    pub editable: Option<bool>,
    pub count: Option<usize>,
}

/// `assert.element` reads the element's control patterns only when it checks
/// one of them: checked, selected, expanded, the value (exact, contained or by
/// regex), editable or read-only.
pub open spec fn needs_patterns(e: ElementExpectations, value_regex_given: bool) -> bool {
    e.checked is Some || e.selected is Some || e.expanded is Some || e.value is Some || e.value_contains is Some
        || value_regex_given || e.editable is Some || e.readonly is Some
}

/// Why `assert.element` refuses a request before or while evaluating it.
#[derive(Debug, Clone, Copy, PartialEq, Eq, Structural)]
pub enum ElementRequestError {
    /// Control-pattern predicates together with a count
    /// (`uia_pattern_assertion_requires_single_element`).
    PatternStateNeedsSingleElement,
    /// Neither an element reference nor a selector (`uia_selector_required`).
    SelectorRequired,
}

impl ElementRequestError {
    /// The error code and message the tool reports.
    pub fn code_and_message(&self) -> (r: (&'static str, &'static str))
        ensures
            r.0@ == match self {
                ElementRequestError::PatternStateNeedsSingleElement => "uia_pattern_assertion_requires_single_element"@,
                ElementRequestError::SelectorRequired => "uia_selector_required"@,
            },
            r.1@ == match self {
                ElementRequestError::PatternStateNeedsSingleElement =>
                    "pattern-state predicates require a single resolved UIA element; use count in a separate assertion"@,
                ElementRequestError::SelectorRequired => "element_ref or selector is required"@,
            },
    {
        match self {
            ElementRequestError::PatternStateNeedsSingleElement => (
                "uia_pattern_assertion_requires_single_element",
                "pattern-state predicates require a single resolved UIA element; use count in a separate assertion",
            ),
            ElementRequestError::SelectorRequired => ("uia_selector_required", "element_ref or selector is required"),
        }
    }
}

/// How `assert.element` evaluates a request: whether it reads the resolved
/// element's control patterns (they are asked for and the element is not
/// expected absent). Such a request with a count is refused, and every request
/// needs an element reference or a selector.
pub fn element_assertion_mode(
    needs_pattern_state: bool,
    absent: bool,
    has_count: bool,
    has_element_ref: bool,
    has_selector: bool,
) -> (r: Result<bool, ElementRequestError>)
    ensures
        r == if needs_pattern_state && !absent && has_count {
            Err::<bool, ElementRequestError>(ElementRequestError::PatternStateNeedsSingleElement)
        } else if !has_element_ref && !has_selector {
            Err::<bool, ElementRequestError>(ElementRequestError::SelectorRequired)
        } else {
            Ok::<bool, ElementRequestError>(needs_pattern_state && !absent)
        },
{
    let use_resolved_state = needs_pattern_state && !absent;
    if use_resolved_state && has_count {
        return Err(ElementRequestError::PatternStateNeedsSingleElement);
    }
    if !has_element_ref && !has_selector {
        return Err(ElementRequestError::SelectorRequired);
    }
    Ok(use_resolved_state)
}

/// A refusal a tool answers with: its error code and message.
#[derive(Debug, Clone, Copy, PartialEq, Eq)]
pub struct ToolFailure {
    pub code: &'static str,
    pub message: &'static str,
}

/// The answer of a refused tool call: `ok` false, the error's code and message,
/// and the path concerned (`null` when there is none).
pub open spec fn failure_json(code: Seq<char>, message: Seq<char>, path: Option<Seq<char>>) -> JsonView {
    JsonView::Object(
        seq![
            ("ok"@, JsonView::Bool(false)),
            ("error"@, JsonView::Object(seq![("code"@, JsonView::Str(code)), ("message"@, JsonView::Str(message))])),
            ("path"@, opt_text_json(path)),
        ],
    )
}

/// The answer of a tool call refused with `failure`, about `path` if any.
pub fn failure_response(failure: &ToolFailure, path: Option<&str>) -> (r: JsonValue)
    ensures
        r@ == failure_json(
            failure.code@,
            failure.message@,
            match path {
                Some(p) => Some(p@),
                None => None,
            },
        ),
{
    let mut error: Vec<(String, JsonValue)> = Vec::new();
    push_entry(&mut error, "code", JsonValue::String(owned(failure.code)));
    push_entry(&mut error, "message", JsonValue::String(owned(failure.message)));
    let ghost ev = object_entries(error@);
    let mut es: Vec<(String, JsonValue)> = Vec::new();
    push_entry(&mut es, "ok", JsonValue::Bool(false));
    proof {
        lemma_object_view(error);
    }
    push_entry(&mut es, "error", JsonValue::Object(error));
    push_entry(&mut es, "path", opt_text_value(path));
    proof {
        lemma_object_view(es);
        assert(ev =~= seq![("code"@, JsonView::Str(failure.code@)), ("message"@, JsonView::Str(failure.message@))]);
        let expected = failure_json(
            failure.code@,
            failure.message@,
            match path {
                Some(p) => Some(p@),
                None => None,
            },
        );
        assert(object_entries(es@) =~= expected->Object_0);
    }
    JsonValue::Object(es)
}

/// `assert.text_visible` needs the text or an expression for it: without
/// either it is refused with `text_assertion_required`.
pub fn text_assertion_given(has_text: bool, has_text_regex: bool) -> (r: Result<(), ToolFailure>)
    ensures
        has_text || has_text_regex ==> r is Ok,
        !has_text && !has_text_regex ==> (r matches Err(f) && f.code@ == "text_assertion_required"@
            && f.message@ == "text or text_regex is required"@),
{
    if !has_text && !has_text_regex {
        Err(ToolFailure { code: "text_assertion_required", message: "text or text_regex is required" })
    } else {
        Ok(())
    }
}

/// Whether `assert.element` must read the element's control patterns.
pub fn needs_element_pattern_state(e: &ElementExpectations, value_regex_given: bool) -> (r: bool)
    ensures
        r == needs_patterns(*e, value_regex_given),
{
    e.checked.is_some() || e.selected.is_some() || e.expanded.is_some() || e.value.is_some()
        || e.value_contains.is_some() || value_regex_given || e.editable.is_some() || e.readonly.is_some()
}

/// What `assert.clipboard` reports it expected: the text and the contained
/// text only as `<redacted>`, and the character limit.
pub open spec fn clipboard_expected(r: AssertClipboardRequest) -> JsonView {
    let expected = if r.expected is Some {
        JsonView::Str(REDACTED@)
    } else {
        JsonView::Null
    };
    let contains = if r.contains is Some {
        JsonView::Str(REDACTED@)
    } else {
        JsonView::Null
    };
    let max_chars = match r.max_chars {
        Some(n) => JsonView::Number(JsonNumber::PosInt(n as u64)),
        None => JsonView::Null,
    };
    JsonView::Object(seq![("expected"@, expected), ("contains"@, contains), ("max_chars"@, max_chars)])
}

/// The expectations `assert.clipboard` reports.
pub fn clipboard_expected_summary(request: &AssertClipboardRequest) -> (r: JsonValue)
    ensures
        r@ == clipboard_expected(*request),
{
    let expected = if request.expected.is_some() {
        JsonValue::String(owned(REDACTED))
    } else {
        JsonValue::Null
    };
    let contains = if request.contains.is_some() {
        JsonValue::String(owned(REDACTED))
    } else {
        JsonValue::Null
    };
    let max_chars = match request.max_chars {
        Some(n) => JsonValue::Number(JsonNumber::PosInt(n as u64)),
        None => JsonValue::Null,
    };
    let ghost (ev, cv, mv) = (expected@, contains@, max_chars@);
    let mut es: Vec<(String, JsonValue)> = Vec::new();
    es.push((owned("expected"), expected));
    es.push((owned("contains"), contains));
    es.push((owned("max_chars"), max_chars));
    proof {
        lemma_object_view(es);
        assert(object_entries(es@) =~= seq![("expected"@, ev), ("contains"@, cv), ("max_chars"@, mv)]);
    }
    JsonValue::Object(es)
}

/// A flag as JSON (`null` when not given).
pub open spec fn opt_bool_json(o: Option<bool>) -> JsonView {
    match o {
        Some(b) => JsonView::Bool(b),
        None => JsonView::Null,
    }
}

/// A text as JSON (`null` when not given).
pub open spec fn opt_text_json(o: Option<Seq<char>>) -> JsonView {
    match o {
        Some(t) => JsonView::Str(t),
        None => JsonView::Null,
    }
}

/// `<redacted>` in place of a text that was given, else `null`.
pub open spec fn redacted_json(given: bool) -> JsonView {
    if given {
        JsonView::Str(REDACTED@)
    } else {
        JsonView::Null
    }
}

/// An integer as a JSON number.
pub open spec fn int_json(n: i32) -> JsonView {
    if n >= 0 {
        JsonView::Number(JsonNumber::PosInt(n as u64))
    } else {
        JsonView::Number(JsonNumber::NegInt(n as i64))
    }
}

/// An optional integer as JSON (`null` when not given).
pub open spec fn opt_int_json(o: Option<i32>) -> JsonView {
    match o {
        Some(n) => int_json(n),
        None => JsonView::Null,
    }
}

/// A rectangle as a JSON object of its coordinates.
pub open spec fn rect_json(r: UiRect) -> JsonView {
    JsonView::Object(
        seq![("x"@, int_json(r.x)), ("y"@, int_json(r.y)), ("width"@, int_json(r.width)), ("height"@, int_json(r.height))],
    )
}

/// What `assert.element` reports it expected: whether the element should be
/// present or absent, each expectation as given, and the value expectations
/// (exact, contained, by expression) only as `<redacted>`.
pub open spec fn element_expected(
    e: ElementExpectations,
    absent: bool,
    name_regex: Option<Seq<char>>,
    value_regex_given: bool,
) -> JsonView {
    JsonView::Object(
        seq![
            ("expect"@, JsonView::Str(if absent { "absent"@ } else { "present"@ })),
            ("exists"@, JsonView::Bool(!absent)),
            ("enabled"@, opt_bool_json(e.enabled)),
            ("focused"@, opt_bool_json(e.focused)),
            ("checked"@, opt_bool_json(e.checked)),
            ("selected"@, opt_bool_json(e.selected)),
            ("expanded"@, opt_bool_json(e.expanded)),
            ("name"@, opt_text_json(sv(e.name))),
            ("name_contains"@, opt_text_json(sv(e.name_contains))),
            ("name_regex"@, opt_text_json(name_regex)),
            ("value"@, redacted_json(e.value is Some)),
            ("value_contains"@, redacted_json(e.value_contains is Some)),
            ("value_regex"@, redacted_json(value_regex_given)),
            ("role"@, opt_text_json(sv(e.role))),
            ("control_type_id"@, opt_int_json(e.control_type_id)),
            ("editable"@, opt_bool_json(e.editable)),
            ("readonly"@, opt_bool_json(e.readonly)),
            ("offscreen"@, opt_bool_json(e.offscreen)),
            ("bounds"@, match e.bounds {
                Some(r) => rect_json(r),
                None => JsonView::Null,
            }),
            ("bounds_tolerance"@, opt_int_json(e.bounds_tolerance)),
            ("count"@, match e.count {
                Some(c) => JsonView::Number(JsonNumber::PosInt(c as u64)),
                None => JsonView::Null,
            }),
        ],
    )
}

fn opt_bool_value(o: Option<bool>) -> (r: JsonValue)
    ensures
        r@ == opt_bool_json(o),
{
    match o {
        Some(b) => JsonValue::Bool(b),
        None => JsonValue::Null,
    }
}

fn opt_text_value(o: Option<&str>) -> (r: JsonValue)
    ensures
        r@ == opt_text_json(
            match o {
                Some(t) => Some(t@),
                None => None,
            },
        ),
{
    match o {
        Some(t) => JsonValue::String(owned(t)),
        None => JsonValue::Null,
    }
}

fn redacted_value(given: bool) -> (r: JsonValue)
    ensures
        r@ == redacted_json(given),
{
    if given {
        JsonValue::String(owned(REDACTED))
    } else {
        JsonValue::Null
    }
}

fn int_value(n: i32) -> (r: JsonValue)
    ensures
        r@ == int_json(n),
{
    if n >= 0 {
        JsonValue::Number(JsonNumber::PosInt(n as u64))
    } else {
        JsonValue::Number(JsonNumber::NegInt(n as i64))
    }
}

fn opt_int_value(o: Option<i32>) -> (r: JsonValue)
    ensures
        r@ == opt_int_json(o),
{
    match o {
        Some(n) => int_value(n),
        None => JsonValue::Null,
    }
}

fn rect_value(r: UiRect) -> (v: JsonValue)
    ensures
        v@ == rect_json(r),
{
    let (x, y, w, h) = (int_value(r.x), int_value(r.y), int_value(r.width), int_value(r.height));
    let ghost (xv, yv, wv, hv) = (x@, y@, w@, h@);
    let mut es: Vec<(String, JsonValue)> = Vec::new();
    es.push((owned("x"), x));
    es.push((owned("y"), y));
    es.push((owned("width"), w));
    es.push((owned("height"), h));
    proof {
        lemma_object_view(es);
        assert(object_entries(es@) =~= seq![("x"@, xv), ("y"@, yv), ("width"@, wv), ("height"@, hv)]);
    }
    JsonValue::Object(es)
}

fn push_entry(es: &mut Vec<(String, JsonValue)>, key: &str, value: JsonValue)
    ensures
        object_entries(final(es)@) == object_entries(old(es)@).push((key@, value@)),
{
    let ghost before = es@;
    es.push((owned(key), value));
    assert(object_entries(es@) =~= object_entries(before).push((key@, value@)));
}

/// The expectations `assert.element` reports; `name_regex` is the name
/// expression as given.
#[verifier::rlimit(50)]
pub fn element_expected_summary(
    e: &ElementExpectations,
    absent: bool,
    name_regex: Option<&str>,
    value_regex_given: bool,
) -> (r: JsonValue)
    ensures
        r@ == element_expected(
            *e,
            absent,
            match name_regex {
                Some(t) => Some(t@),
                None => None,
            },
            value_regex_given,
        ),
{
    let mut es: Vec<(String, JsonValue)> = Vec::new();
    push_entry(&mut es, "expect", JsonValue::String(owned(if absent { "absent" } else { "present" })));
    push_entry(&mut es, "exists", JsonValue::Bool(!absent));
    push_entry(&mut es, "enabled", opt_bool_value(e.enabled));
    push_entry(&mut es, "focused", opt_bool_value(e.focused));
    push_entry(&mut es, "checked", opt_bool_value(e.checked));
    push_entry(&mut es, "selected", opt_bool_value(e.selected));
    push_entry(&mut es, "expanded", opt_bool_value(e.expanded));
    push_entry(&mut es, "name", opt_text_value(opt_string_str(&e.name)));
    push_entry(&mut es, "name_contains", opt_text_value(opt_string_str(&e.name_contains)));
    push_entry(&mut es, "name_regex", opt_text_value(name_regex));
    push_entry(&mut es, "value", redacted_value(e.value.is_some()));
    push_entry(&mut es, "value_contains", redacted_value(e.value_contains.is_some()));
    push_entry(&mut es, "value_regex", redacted_value(value_regex_given));
    push_entry(&mut es, "role", opt_text_value(opt_string_str(&e.role)));
    push_entry(&mut es, "control_type_id", opt_int_value(e.control_type_id));
    push_entry(&mut es, "editable", opt_bool_value(e.editable));
    push_entry(&mut es, "readonly", opt_bool_value(e.readonly));
    push_entry(&mut es, "offscreen", opt_bool_value(e.offscreen));
    let bounds = match e.bounds {
        Some(r) => rect_value(r),
        None => JsonValue::Null,
    };
    push_entry(&mut es, "bounds", bounds);
    push_entry(&mut es, "bounds_tolerance", opt_int_value(e.bounds_tolerance));
    let count = match e.count {
        Some(c) => JsonValue::Number(JsonNumber::PosInt(c as u64)),
        None => JsonValue::Null,
    };
    push_entry(&mut es, "count", count);
    proof {
        lemma_object_view(es);
        let expected = element_expected(
            *e,
            absent,
            match name_regex {
                Some(t) => Some(t@),
                None => None,
            },
            value_regex_given,
        );
        assert(object_entries(es@) =~= expected->Object_0);
    }
    JsonValue::Object(es)
}

/// The fields of an element in which `assert.text_visible` sees its text, in
/// order: `name`, `automation_id`, `class_name` (each when the element has it).
pub open spec fn matched_text_fields(
    name: Option<Seq<char>>,
    automation_id: Option<Seq<char>>,
    class_name: Option<Seq<char>>,
    literal: Option<Seq<char>>,
    regex: Option<Seq<char>>,
) -> Seq<Seq<char>> {
    let f1: Seq<Seq<char>> = match name {
        Some(v) => if text_candidate(v, literal, regex) {
            seq!["name"@]
        } else {
            Seq::empty()
        },
        None => Seq::empty(),
    };
    let f2: Seq<Seq<char>> = match automation_id {
        Some(v) => if text_candidate(v, literal, regex) {
            seq!["automation_id"@]
        } else {
            Seq::empty()
        },
        None => Seq::empty(),
    };
    let f3: Seq<Seq<char>> = match class_name {
        Some(v) => if text_candidate(v, literal, regex) {
            seq!["class_name"@]
        } else {
            Seq::empty()
        },
        None => Seq::empty(),
    };
    f1 + f2 + f3
}

/// Lists the fields of an element in which the text is visible.
pub fn text_matched_fields(
    name: Option<&str>,
    automation_id: Option<&str>,
    class_name: Option<&str>,
    literal: Option<&str>,
    regex: Option<&CompiledRegex>,
) -> (r: Vec<String>)
    ensures
        strs_view(r@) == matched_text_fields(
            match name {
                Some(s) => Some(s@),
                None => None,
            },
            match automation_id {
                Some(s) => Some(s@),
                None => None,
            },
            match class_name {
                Some(s) => Some(s@),
                None => None,
            },
            match literal {
                Some(s) => Some(s@),
                None => None,
            },
            match regex {
                Some(re) => Some(re@),
                None => None,
            },
        ),
{
    let mut r: Vec<String> = Vec::new();
    if let Some(v) = name {
        if text_candidate_matches(v, literal, regex) {
            r.push(owned("name"));
        }
    }
    let ghost r1 = strs_view(r@);
    if let Some(v) = automation_id {
        if text_candidate_matches(v, literal, regex) {
            r.push(owned("automation_id"));
        }
    }
    let ghost r2 = strs_view(r@);
    if let Some(v) = class_name {
        if text_candidate_matches(v, literal, regex) {
            r.push(owned("class_name"));
        }
    }
    proof {
        let nv = match name {
            Some(s) => Some(s@),
            None => None::<Seq<char>>,
        };
        let av = match automation_id {
            Some(s) => Some(s@),
            None => None::<Seq<char>>,
        };
        let cv = match class_name {
            Some(s) => Some(s@),
            None => None::<Seq<char>>,
        };
        let lv = match literal {
            Some(s) => Some(s@),
            None => None::<Seq<char>>,
        };
        let rv = match regex {
            Some(re) => Some(re@),
            None => None::<Seq<char>>,
        };
        assert(strs_view(r@) =~= matched_text_fields(nv, av, cv, lv, rv));
    }
    r
}

/// The window-level places where `assert.text_visible` sees its text, in order:
/// the title, then the class name; none when the assertion is scoped to elements.
pub open spec fn window_text_sources(
    scoped: bool,
    title: Seq<char>,
    class_name: Seq<char>,
    literal: Option<Seq<char>>,
    regex: Option<Seq<char>>,
) -> Seq<Seq<char>> {
    if scoped {
        Seq::empty()
    } else {
        let s1: Seq<Seq<char>> = if text_candidate(title, literal, regex) {
            seq!["window_title"@]
        } else {
            Seq::empty()
        };
        let s2: Seq<Seq<char>> = if text_candidate(class_name, literal, regex) {
            seq!["window_class"@]
        } else {
            Seq::empty()
        };
        s1 + s2
    }
}

/// Lists where in the window itself the text is visible.
pub fn window_text_matches(
    scoped: bool,
    title: &str,
    class_name: &str,
    literal: Option<&str>,
    regex: Option<&CompiledRegex>,
) -> (r: Vec<String>)
    ensures
        strs_view(r@) == window_text_sources(
            scoped,
            title@,
            class_name@,
            match literal {
                Some(s) => Some(s@),
                None => None,
            },
            match regex {
                Some(re) => Some(re@),
                None => None,
            },
        ),
{
    let mut r: Vec<String> = Vec::new();
    if !scoped {
        if text_candidate_matches(title, literal, regex) {
            r.push(owned("window_title"));
        }
        let ghost r1 = strs_view(r@);
        if text_candidate_matches(class_name, literal, regex) {
            r.push(owned("window_class"));
        }
    }
    proof {
        let lv = match literal {
            Some(s) => Some(s@),
            None => None::<Seq<char>>,
        };
        let rv = match regex {
            Some(re) => Some(re@),
            None => None::<Seq<char>>,
        };
        assert(strs_view(r@) =~= window_text_sources(scoped, title@, class_name@, lv, rv));
    }
    r
}

/// `seq![m]` when `cond` holds, else nothing.
pub open spec fn failure_if(cond: bool, m: Seq<char>) -> Seq<Seq<char>> {
    if cond {
        seq![m]
    } else {
        Seq::empty()
    }
}

/// The failures about the first matching element's own properties.
pub open spec fn element_property_failures(
    e: ElementExpectations,
    first: Option<ElementFacts>,
    name_regex: Option<Seq<char>>,
) -> Seq<Seq<char>> {
    match first {
        None => Seq::empty(),
        Some(f) => {
            let tolerance = or_zero(e.bounds_tolerance);
            failure_if(e.enabled is Some && f.enabled != e.enabled, was("enabled was "@, show_opt_bool(f.enabled)))
                + failure_if(e.focused is Some && f.focused != e.focused, was("focused was "@, show_opt_bool(f.focused)))
                + failure_if(e.offscreen is Some && f.offscreen != e.offscreen, was("offscreen was "@, show_opt_bool(f.offscreen)))
                + failure_if(e.name is Some && sv(f.name) != sv(e.name), was("name was "@, show_opt_text(sv(f.name))))
                + failure_if(
                    e.name_contains is Some && !contains_ignoring_case(sv(f.name), e.name_contains->Some_0@),
                    "name did not contain "@ + debug_quoted(e.name_contains->Some_0@),
                )
                + failure_if(
                    name_regex is Some && !regex_accepts(sv(f.name), name_regex),
                    "name did not match regex "@ + debug_quoted(name_regex->Some_0),
                )
                + failure_if(
                    e.role is Some && !role_match(sv(f.role), e.role->Some_0@),
                    was("role was "@, show_opt_text(sv(f.role))),
                )
                + failure_if(
                    e.control_type_id is Some && f.control_type_id != e.control_type_id,
                    was("control_type_id was "@, show_opt_int(f.control_type_id)),
                )
                + failure_if(
                    e.bounds is Some && !bounds_close(f.bounds, e.bounds->Some_0, tolerance),
                    "bounds were "@ + show_opt_rect(f.bounds) + ", expected "@ + show_rect(e.bounds->Some_0)
                        + " within tolerance "@ + spec_signed_decimal(tolerance as int),
                )
        },
    }
}

/// `o`'s value, or 0.
pub open spec fn or_zero(o: Option<i32>) -> i32 {
    match o {
        Some(v) => v,
        None => 0,
    }
}

/// The failures about the element's control patterns (read from the resolved
/// element, when there is one).
pub open spec fn element_pattern_failures(
    e: ElementExpectations,
    p: Option<PatternFacts>,
    value_regex: Option<Seq<char>>,
) -> Seq<Seq<char>> {
    let checked = match p {
        Some(s) => toggle_value(sv(s.toggle_state)),
        None => None,
    };
    let selected = match p {
        Some(s) => s.selected,
        None => None,
    };
    let expanded = match p {
        Some(s) => expansion_value(sv(s.expand_collapse_state)),
        None => None,
    };
    let value = match p {
        Some(s) => sv(s.value),
        None => None,
    };
    let readonly = match p {
        Some(s) => s.value_readonly,
        None => None,
    };
    let editable = match readonly {
        Some(r) => Some(!r),
        None => None,
    };
    failure_if(e.checked is Some && checked != e.checked, was("checked was "@, show_opt_bool(checked)))
        + failure_if(e.selected is Some && selected != e.selected, was("selected was "@, show_opt_bool(selected)))
        + failure_if(e.expanded is Some && expanded != e.expanded, was("expanded was "@, show_opt_bool(expanded)))
        + failure_if(e.value is Some && value != sv(e.value), "value did not equal expected text"@)
        + failure_if(
            e.value_contains is Some && !contains_ignoring_case(value, e.value_contains->Some_0@),
            "value did not contain expected text"@,
        )
        + failure_if(value_regex is Some && !regex_accepts(value, value_regex), "value did not match expected regex"@)
        + failure_if(e.readonly is Some && readonly != e.readonly, was("readonly was "@, show_opt_bool(readonly)))
        + failure_if(e.editable is Some && editable != e.editable, was("editable was "@, show_opt_bool(editable)))
}

/// The failures `assert.element` reports, in order. When the element is
/// expected absent, only finding matches fails; otherwise finding none fails,
/// then the first match's properties and the control patterns are checked.
/// A count, when given, must equal the number of matches either way.
pub open spec fn element_failure_list(
    e: ElementExpectations,
    absent: bool,
    match_count: nat,
    first: Option<ElementFacts>,
    pattern: Option<PatternFacts>,
    name_regex: Option<Seq<char>>,
    value_regex: Option<Seq<char>>,
) -> Seq<Seq<char>> {
    let main = if absent {
        failure_if(match_count > 0, "expected absent, found "@ + spec_decimal(match_count) + " match(es)"@)
    } else {
        failure_if(match_count == 0, "expected present, found no matches"@) + element_property_failures(e, first, name_regex)
            + element_pattern_failures(e, pattern, value_regex)
    };
    main + match e.count {
        Some(c) => failure_if(
            match_count != c,
            "count was "@ + spec_decimal(match_count) + ", expected exactly "@ + spec_decimal(c as nat),
        ),
        None => Seq::empty(),
    }
}

fn push_failure(failures: &mut Vec<String>, m: String)
    ensures
        strs_view(final(failures)@) == strs_view(old(failures)@).push(m@),
{
    let ghost before = failures@;
    failures.push(m);
    assert(strs_view(failures@) =~= strs_view(before).push(m@));
}

/// The view of an optional message as a list of at most one failure.
pub open spec fn msg_list(m: Option<String>) -> Seq<Seq<char>> {
    match m {
        Some(s) => seq![s@],
        None => Seq::empty(),
    }
}

/// Appending to a prefix and then appending more is appending the two together.
proof fn lemma_append_assoc(a: Seq<Seq<char>>, b: Seq<Seq<char>>, c: Seq<Seq<char>>)
    ensures
        (a + b) + c == a + (b + c),
{
    assert((a + b) + c =~= a + (b + c));
}

fn append_failure(failures: &mut Vec<String>, m: Option<String>)
    ensures
        strs_view(final(failures)@) == strs_view(old(failures)@) + msg_list(m),
{
    let ghost before = strs_view(failures@);
    match m {
        Some(s) => {
            push_failure(failures, s);
            assert(strs_view(failures@) =~= before + msg_list(m));
        },
        None => {
            assert(before + msg_list(m) =~= before);
        },
    }
}

fn opt_string_str(o: &Option<String>) -> (r: Option<&str>)
    ensures
        match r {
            Some(s) => sv(*o) == Some(s@),
            None => o is None,
        },
{
    match o {
        Some(s) => Some(s.as_str()),
        None => None,
    }
}

fn bool_failure(label: &str, expected: Option<bool>, actual: Option<bool>) -> (r: Option<String>)
    ensures
        msg_list(r) == failure_if(expected is Some && actual != expected, was(label@, show_opt_bool(actual))),
{
    if expected.is_some() && actual != expected {
        Some(concat2(label, opt_bool_text(actual).as_str()))
    } else {
        None
    }
}

fn name_failure(expected: &Option<String>, name: Option<&str>) -> (r: Option<String>)
    ensures
        msg_list(r) == failure_if(
            expected is Some && match name {
                Some(n) => Some(n@),
                None => None,
            } != sv(*expected),
            was(
                "name was "@,
                show_opt_text(
                    match name {
                        Some(n) => Some(n@),
                        None => None,
                    },
                ),
            ),
        ),
{
    match expected {
        Some(x) => {
            let same = match name {
                Some(n) => str_eq(n, x.as_str()),
                None => false,
            };
            if same {
                None
            } else {
                Some(concat2("name was ", opt_str_text(name).as_str()))
            }
        },
        None => None,
    }
}

fn name_contains_failure(needle: &Option<String>, name: Option<&str>) -> (r: Option<String>)
    ensures
        msg_list(r) == failure_if(
            needle is Some && !contains_ignoring_case(
                match name {
                    Some(n) => Some(n@),
                    None => None,
                },
                needle->Some_0@,
            ),
            "name did not contain "@ + debug_quoted(needle->Some_0@),
        ),
{
    match needle {
        Some(n) => if contains_ci(name, n.as_str()) {
            None
        } else {
            Some(concat2("name did not contain ", debug_str(n.as_str()).as_str()))
        },
        None => None,
    }
}

fn name_regex_failure(regex: Option<&CompiledRegex>, name: Option<&str>) -> (r: Option<String>)
    ensures
        msg_list(r) == failure_if(
            regex is Some && !regex_accepts(
                match name {
                    Some(n) => Some(n@),
                    None => None,
                },
                match regex {
                    Some(re) => Some(re@),
                    None => None,
                },
            ),
            "name did not match regex "@ + debug_quoted(regex->Some_0@),
        ),
{
    match regex {
        Some(re) => if regex_matches(name, Some(re)) {
            None
        } else {
            Some(concat2("name did not match regex ", debug_str(re.as_str()).as_str()))
        },
        None => None,
    }
}

fn role_failure(expected: &Option<String>, role: Option<&str>) -> (r: Option<String>)
    ensures
        msg_list(r) == failure_if(
            expected is Some && !role_match(
                match role {
                    Some(n) => Some(n@),
                    None => None,
                },
                expected->Some_0@,
            ),
            was(
                "role was "@,
                show_opt_text(
                    match role {
                        Some(n) => Some(n@),
                        None => None,
                    },
                ),
            ),
        ),
{
    match expected {
        Some(x) => if role_matches(role, x.as_str()) {
            None
        } else {
            Some(concat2("role was ", opt_str_text(role).as_str()))
        },
        None => None,
    }
}

fn control_type_failure(expected: Option<i32>, actual: Option<i32>) -> (r: Option<String>)
    ensures
        msg_list(r) == failure_if(
            expected is Some && actual != expected,
            was("control_type_id was "@, show_opt_int(actual)),
        ),
{
    if expected.is_some() && actual != expected {
        Some(concat2("control_type_id was ", opt_int_text(actual).as_str()))
    } else {
        None
    }
}

fn bounds_failure(expected: Option<UiRect>, actual: Option<UiRect>, tolerance: i32) -> (r: Option<String>)
    requires
        actual matches Some(b) && expected matches Some(x) ==> rect_diffs_fit(b, x),
    ensures
        msg_list(r) == failure_if(
            expected is Some && !bounds_close(actual, expected->Some_0, tolerance),
            "bounds were "@ + show_opt_rect(actual) + ", expected "@ + show_rect(expected->Some_0)
                + " within tolerance "@ + spec_signed_decimal(tolerance as int),
        ),
{
    match expected {
        Some(x) => if bounds_within_tolerance(actual, x, tolerance) {
            None
        } else {
            let mut m = concat2("bounds were ", opt_rect_text(actual).as_str());
            push_str(&mut m, ", expected ");
            push_str(&mut m, rect_text(x).as_str());
            push_str(&mut m, " within tolerance ");
            push_signed_decimal(&mut m, tolerance as i64);
            Some(m)
        },
        None => None,
    }
}

fn text_failure(cond: bool, m: &str) -> (r: Option<String>)
    ensures
        msg_list(r) == failure_if(cond, m@),
{
    if cond {
        Some(owned(m))
    } else {
        None
    }
}

/// Appends the failures about the first element's own properties.
#[verifier::rlimit(100)]
#[verifier::spinoff_prover]
fn check_element_properties(
    failures: &mut Vec<String>,
    e: &ElementExpectations,
    f: &ElementFacts,
    name_regex: Option<&CompiledRegex>,
)
    requires
        f.bounds matches Some(b) && e.bounds matches Some(x) ==> rect_diffs_fit(b, x),
    ensures
        strs_view(final(failures)@) == strs_view(old(failures)@) + element_property_failures(
            *e,
            Some(*f),
            match name_regex {
                Some(re) => Some(re@),
                None => None,
            },
        ),
{
    let ghost start = strs_view(failures@);
    let tolerance = match e.bounds_tolerance {
        Some(t) => t,
        None => 0,
    };
    let name = opt_string_str(&f.name);
    let role = opt_string_str(&f.role);
    let m1 = bool_failure("enabled was ", e.enabled, f.enabled);
    let m2 = bool_failure("focused was ", e.focused, f.focused);
    let m3 = bool_failure("offscreen was ", e.offscreen, f.offscreen);
    let m4 = name_failure(&e.name, name);
    let m5 = name_contains_failure(&e.name_contains, name);
    let m6 = name_regex_failure(name_regex, name);
    let m7 = role_failure(&e.role, role);
    let m8 = control_type_failure(e.control_type_id, f.control_type_id);
    let m9 = bounds_failure(e.bounds, f.bounds, tolerance);
    let ghost all = msg_list(m1) + msg_list(m2) + msg_list(m3) + msg_list(m4) + msg_list(m5) + msg_list(m6)
        + msg_list(m7) + msg_list(m8) + msg_list(m9);
    append_failure(failures, m1);
    let ghost acc = msg_list(m1);
    proof {
        lemma_append_assoc(start, acc, msg_list(m2));
    }
    append_failure(failures, m2);
    let ghost acc = acc + msg_list(m2);
    proof {
        lemma_append_assoc(start, acc, msg_list(m3));
    }
    append_failure(failures, m3);
    let ghost acc = acc + msg_list(m3);
    proof {
        lemma_append_assoc(start, acc, msg_list(m4));
    }
    append_failure(failures, m4);
    let ghost acc = acc + msg_list(m4);
    proof {
        lemma_append_assoc(start, acc, msg_list(m5));
    }
    append_failure(failures, m5);
    let ghost acc = acc + msg_list(m5);
    proof {
        lemma_append_assoc(start, acc, msg_list(m6));
    }
    append_failure(failures, m6);
    let ghost acc = acc + msg_list(m6);
    proof {
        lemma_append_assoc(start, acc, msg_list(m7));
    }
    append_failure(failures, m7);
    let ghost acc = acc + msg_list(m7);
    proof {
        lemma_append_assoc(start, acc, msg_list(m8));
    }
    append_failure(failures, m8);
    let ghost acc = acc + msg_list(m8);
    proof {
        lemma_append_assoc(start, acc, msg_list(m9));
    }
    append_failure(failures, m9);
    let ghost acc = acc + msg_list(m9);
    assert(acc == all);
}

/// Appends the failures about the element's control patterns.
#[verifier::rlimit(50)]
fn check_element_patterns(
    failures: &mut Vec<String>,
    e: &ElementExpectations,
    p: Option<&PatternFacts>,
    value_regex: Option<&CompiledRegex>,
)
    ensures
        strs_view(final(failures)@) == strs_view(old(failures)@) + element_pattern_failures(
            *e,
            match p {
                Some(s) => Some(*s),
                None => None,
            },
            match value_regex {
                Some(re) => Some(re@),
                None => None,
            },
        ),
{
    let ghost start = strs_view(failures@);
    let checked = match p {
        Some(s) => toggle_checked(opt_string_str(&s.toggle_state)),
        None => None,
    };
    let selected = match p {
        Some(s) => s.selected,
        None => None,
    };
    let expanded = match p {
        Some(s) => expanded_state(opt_string_str(&s.expand_collapse_state)),
        None => None,
    };
    let value = match p {
        Some(s) => opt_string_str(&s.value),
        None => None,
    };
    let readonly = match p {
        Some(s) => s.value_readonly,
        None => None,
    };
    let editable = match readonly {
        Some(r) => Some(!r),
        None => None,
    };
    let value_equal = match (&e.value, value) {
        (Some(x), Some(v)) => str_eq(v, x.as_str()),
        _ => false,
    };
    let value_contains = match &e.value_contains {
        Some(n) => contains_ci(value, n.as_str()),
        None => true,
    };
    let value_regex_ok = match value_regex {
        Some(re) => regex_matches(value, Some(re)),
        None => true,
    };
    let m1 = bool_failure("checked was ", e.checked, checked);
    let m2 = bool_failure("selected was ", e.selected, selected);
    let m3 = bool_failure("expanded was ", e.expanded, expanded);
    let m4 = text_failure(e.value.is_some() && !value_equal, "value did not equal expected text");
    let m5 = text_failure(e.value_contains.is_some() && !value_contains, "value did not contain expected text");
    let m6 = text_failure(value_regex.is_some() && !value_regex_ok, "value did not match expected regex");
    let m7 = bool_failure("readonly was ", e.readonly, readonly);
    let m8 = bool_failure("editable was ", e.editable, editable);
    let ghost all = msg_list(m1) + msg_list(m2) + msg_list(m3) + msg_list(m4) + msg_list(m5) + msg_list(m6)
        + msg_list(m7) + msg_list(m8);
    append_failure(failures, m1);
    let ghost acc = msg_list(m1);
    proof {
        lemma_append_assoc(start, acc, msg_list(m2));
    }
    append_failure(failures, m2);
    let ghost acc = acc + msg_list(m2);
    proof {
        lemma_append_assoc(start, acc, msg_list(m3));
    }
    append_failure(failures, m3);
    let ghost acc = acc + msg_list(m3);
    proof {
        lemma_append_assoc(start, acc, msg_list(m4));
    }
    append_failure(failures, m4);
    let ghost acc = acc + msg_list(m4);
    proof {
        lemma_append_assoc(start, acc, msg_list(m5));
    }
    append_failure(failures, m5);
    let ghost acc = acc + msg_list(m5);
    proof {
        lemma_append_assoc(start, acc, msg_list(m6));
    }
    append_failure(failures, m6);
    let ghost acc = acc + msg_list(m6);
    proof {
        lemma_append_assoc(start, acc, msg_list(m7));
    }
    append_failure(failures, m7);
    let ghost acc = acc + msg_list(m7);
    proof {
        lemma_append_assoc(start, acc, msg_list(m8));
    }
    append_failure(failures, m8);
    let ghost acc = acc + msg_list(m8);
    assert(acc == all);
}

/// The failures `assert.element` reports for one evaluation: `absent` is
/// whether the element is expected absent, `match_count` how many elements
/// matched, `first` the first match, `pattern` the resolved element's control
/// patterns, and the expressions those compiled from the request.
pub fn element_failures(
    e: &ElementExpectations,
    absent: bool,
    match_count: usize,
    first: Option<&ElementFacts>,
    pattern: Option<&PatternFacts>,
    name_regex: Option<&CompiledRegex>,
    value_regex: Option<&CompiledRegex>,
) -> (r: Vec<String>)
    requires
        !absent ==> (first matches Some(f) ==> (f.bounds matches Some(b) && e.bounds matches Some(x) ==> rect_diffs_fit(b, x))),
    ensures
        strs_view(r@) == element_failure_list(
            *e,
            absent,
            match_count as nat,
            match first {
                Some(f) => Some(*f),
                None => None,
            },
            match pattern {
                Some(s) => Some(*s),
                None => None,
            },
            match name_regex {
                Some(re) => Some(re@),
                None => None,
            },
            match value_regex {
                Some(re) => Some(re@),
                None => None,
            },
        ),
{
    let mut failures: Vec<String> = Vec::new();
    let ghost main: Seq<Seq<char>>;
    if absent {
        let m = if match_count > 0 {
            let mut m = owned("expected absent, found ");
            push_decimal(&mut m, match_count as u64);
            push_str(&mut m, " match(es)");
            Some(m)
        } else {
            None
        };
        append_failure(&mut failures, m);
        proof {
            main = strs_view(failures@);
        }
    } else {
        append_failure(&mut failures, text_failure(match_count == 0, "expected present, found no matches"));
        let ghost after_presence = strs_view(failures@);
        if let Some(f) = first {
            check_element_properties(&mut failures, e, f, name_regex);
        }
        let ghost after_properties = strs_view(failures@);
        check_element_patterns(&mut failures, e, pattern, value_regex);
        proof {
            main = strs_view(failures@);
        }
    }
    let count_failure = match e.count {
        Some(expected) => if match_count != expected {
            let mut m = owned("count was ");
            push_decimal(&mut m, match_count as u64);
            push_str(&mut m, ", expected exactly ");
            push_decimal(&mut m, expected as u64);
            Some(m)
        } else {
            None
        },
        None => None,
    };
    append_failure(&mut failures, count_failure);
    proof {
        let fs = element_failure_list(
            *e,
            absent,
            match_count as nat,
            match first {
                Some(f) => Some(*f),
                None => None,
            },
            match pattern {
                Some(s) => Some(*s),
                None => None,
            },
            match name_regex {
                Some(re) => Some(re@),
                None => None,
            },
            match value_regex {
                Some(re) => Some(re@),
                None => None,
            },
        );
        assert(strs_view(failures@) =~= fs);
    }
    failures
}

// ---------------------------------------------------------------------------
// Process metrics
// ---------------------------------------------------------------------------

/// The failure for a metric with a limit: `<name> <actual> exceeded <max>` when
/// it is over, `<name> was unavailable` when it could not be read, none when
/// there is no limit or it is within it.
pub open spec fn metric_failure(name: Seq<char>, actual: Option<int>, max: Option<int>) -> Seq<Seq<char>> {
    match max {
        Some(m) => match actual {
            Some(a) => failure_if(a > m, name + " "@ + spec_decimal(a as nat) + " exceeded "@ + spec_decimal(m as nat)),
            None => seq![name + " was unavailable"@],
        },
        None => Seq::empty(),
    }
}

/// Checks a 64-bit process metric against its limit, appending the failure.
pub fn check_metric_u64(name: &str, actual: Option<u64>, max: Option<u64>, failures: &mut Vec<String>)
    ensures
        strs_view(final(failures)@) == strs_view(old(failures)@) + metric_failure(
            name@,
            match actual {
                Some(a) => Some(a as int),
                None => None,
            },
            match max {
                Some(m) => Some(m as int),
                None => None,
            },
        ),
{
    let m = match max {
        Some(max) => match actual {
            Some(a) => if a <= max {
                None
            } else {
                let mut s = concat2(name, " ");
                push_decimal(&mut s, a);
                push_str(&mut s, " exceeded ");
                push_decimal(&mut s, max);
                Some(s)
            },
            None => Some(concat2(name, " was unavailable")),
        },
        None => None,
    };
    append_failure(failures, m);
}

/// Checks a 32-bit process metric against its limit, appending the failure.
pub fn check_metric_u32(name: &str, actual: Option<u32>, max: Option<u32>, failures: &mut Vec<String>)
    ensures
        strs_view(final(failures)@) == strs_view(old(failures)@) + metric_failure(
            name@,
            match actual {
                Some(a) => Some(a as int),
                None => None,
            },
            match max {
                Some(m) => Some(m as int),
                None => None,
            },
        ),
{
    check_metric_u64(
        name,
        match actual {
            Some(a) => Some(a as u64),
            None => None,
        },
        match max {
            Some(m) => Some(m as u64),
            None => None,
        },
        failures,
    );
}

// ---------------------------------------------------------------------------
// Window count and clipboard
// ---------------------------------------------------------------------------

/// The failures `assert.window_count` reports: against the exact count, the
/// minimum and the maximum when given; with none of them, against presence or
/// absence.
pub open spec fn window_count_failure_list(
    count: nat,
    expected: Option<usize>,
    min: Option<usize>,
    max: Option<usize>,
    absent: bool,
) -> Seq<Seq<char>> {
    let c = spec_decimal(count);
    failure_if(
        expected is Some && count != expected->Some_0,
        "count "@ + c + " did not equal "@ + spec_decimal(expected->Some_0 as nat),
    ) + failure_if(
        min is Some && count < min->Some_0,
        "count "@ + c + " was less than "@ + spec_decimal(min->Some_0 as nat),
    ) + failure_if(
        max is Some && count > max->Some_0,
        "count "@ + c + " was greater than "@ + spec_decimal(max->Some_0 as nat),
    ) + if expected is None && min is None && max is None {
        if absent && count != 0 {
            seq!["expected absent, found "@ + c + " match(es)"@]
        } else if !absent && count == 0 {
            seq!["expected present, found no matches"@]
        } else {
            Seq::empty()
        }
    } else {
        Seq::empty()
    }
}

/// The rules of `assert.window_count`: a count below the minimum, above the
/// maximum or unequal to the exact count is reported with its own message,
/// each whatever the other bounds are; and the assertion passes (no failures)
/// exactly when every bound given holds and, when none is given, the windows are
/// present or absent as expected.
pub proof fn lemma_window_count_rules(
    count: nat,
    expected: Option<usize>,
    min: Option<usize>,
    max: Option<usize>,
    absent: bool,
)
    ensures
        min is Some && count < min->Some_0 ==> window_count_failure_list(count, expected, min, max, absent).contains(
            "count "@ + spec_decimal(count) + " was less than "@ + spec_decimal(min->Some_0 as nat),
        ),
        max is Some && count > max->Some_0 ==> window_count_failure_list(count, expected, min, max, absent).contains(
            "count "@ + spec_decimal(count) + " was greater than "@ + spec_decimal(max->Some_0 as nat),
        ),
        expected is Some && count != expected->Some_0 ==> window_count_failure_list(
            count,
            expected,
            min,
            max,
            absent,
        ).contains("count "@ + spec_decimal(count) + " did not equal "@ + spec_decimal(expected->Some_0 as nat)),
        window_count_failure_list(count, expected, min, max, absent).len() == 0 <==> ({
            &&& (expected matches Some(e) ==> count == e)
            &&& (min matches Some(m) ==> count >= m)
            &&& (max matches Some(m) ==> count <= m)
            &&& (expected is None && min is None && max is None ==> (absent <==> count == 0))
        }),
{
    let c = spec_decimal(count);
    let f1 = failure_if(
        expected is Some && count != expected->Some_0,
        "count "@ + c + " did not equal "@ + spec_decimal(expected->Some_0 as nat),
    );
    let f2 = failure_if(
        min is Some && count < min->Some_0,
        "count "@ + c + " was less than "@ + spec_decimal(min->Some_0 as nat),
    );
    let f3 = failure_if(
        max is Some && count > max->Some_0,
        "count "@ + c + " was greater than "@ + spec_decimal(max->Some_0 as nat),
    );
    let f4 = if expected is None && min is None && max is None {
        if absent && count != 0 {
            seq!["expected absent, found "@ + c + " match(es)"@]
        } else if !absent && count == 0 {
            seq!["expected present, found no matches"@]
        } else {
            Seq::empty()
        }
    } else {
        Seq::empty()
    };
    let all = f1 + f2 + f3 + f4;
    assert(window_count_failure_list(count, expected, min, max, absent) == all);
    if f1.len() > 0 {
        assert(all[0] == f1[0]);
    }
    if f2.len() > 0 {
        assert(all[f1.len() as int] == f2[0]);
    }
    if f3.len() > 0 {
        assert(all[(f1.len() + f2.len()) as int] == f3[0]);
    }
}

fn count_message(prefix: &str, count: usize, middle: &str, bound: usize) -> (r: String)
    ensures
        r@ == prefix@ + spec_decimal(count as nat) + middle@ + spec_decimal(bound as nat),
{
    let mut s = owned(prefix);
    push_decimal(&mut s, count as u64);
    push_str(&mut s, middle);
    push_decimal(&mut s, bound as u64);
    s
}

/// The failures of `assert.window_count` for `count` matching windows.
pub fn window_count_failures(
    count: usize,
    expected: Option<usize>,
    min: Option<usize>,
    max: Option<usize>,
    absent: bool,
) -> (r: Vec<String>)
    ensures
        strs_view(r@) == window_count_failure_list(count as nat, expected, min, max, absent),
{
    let mut failures: Vec<String> = Vec::new();
    let m1 = match expected {
        Some(e) => if count != e {
            Some(count_message("count ", count, " did not equal ", e))
        } else {
            None
        },
        None => None,
    };
    let m2 = match min {
        Some(m) => if count < m {
            Some(count_message("count ", count, " was less than ", m))
        } else {
            None
        },
        None => None,
    };
    let m3 = match max {
        Some(m) => if count > m {
            Some(count_message("count ", count, " was greater than ", m))
        } else {
            None
        },
        None => None,
    };
    let m4 = if expected.is_none() && min.is_none() && max.is_none() {
        if absent && count != 0 {
            let mut s = owned("expected absent, found ");
            push_decimal(&mut s, count as u64);
            push_str(&mut s, " match(es)");
            Some(s)
        } else if !absent && count == 0 {
            Some(owned("expected present, found no matches"))
        } else {
            None
        }
    } else {
        None
    };
    append_failure(&mut failures, m1);
    proof {
        lemma_append_assoc(Seq::empty(), msg_list(m1), msg_list(m2));
    }
    append_failure(&mut failures, m2);
    proof {
        lemma_append_assoc(Seq::empty(), msg_list(m1) + msg_list(m2), msg_list(m3));
    }
    append_failure(&mut failures, m3);
    proof {
        lemma_append_assoc(Seq::empty(), msg_list(m1) + msg_list(m2) + msg_list(m3), msg_list(m4));
    }
    append_failure(&mut failures, m4);
    assert(strs_view(failures@) =~= window_count_failure_list(count as nat, expected, min, max, absent));
    failures
}

/// At most `max_chars` characters of a text (all of it when no limit is given).
pub open spec fn clipped_text(text: Seq<char>, max_chars: Option<usize>) -> Seq<char> {
    match max_chars {
        Some(m) => if text.len() > m {
            text.take(m as int)
        } else {
            text
        },
        None => text,
    }
}

/// The clipboard text as `assert.clipboard` compares it: cut to `max_chars` characters.
pub fn clip_clipboard_text(text: &str, max_chars: Option<usize>) -> (r: String)
    ensures
        r@ == clipped_text(text@, max_chars),
{
    let chars = crate::text::chars_of(text);
    match max_chars {
        Some(m) => if chars.len() > m {
            crate::text::prefix_string(&chars, m)
        } else {
            owned(text)
        },
        None => owned(text),
    }
}

/// The failures `assert.clipboard` reports for the (clipped) clipboard text.
pub open spec fn clipboard_failure_list(text: Seq<char>, expected: Option<Seq<char>>, contains: Option<Seq<char>>) -> Seq<Seq<char>> {
    failure_if(expected is Some && text != expected->Some_0, "clipboard text did not equal expected text"@)
        + failure_if(
        contains is Some && !spec_contains(text, contains->Some_0),
        "clipboard text did not contain requested text"@,
    )
}

/// The failures of `assert.clipboard` for the clipped clipboard text (empty when
/// the clipboard holds no text).
pub fn clipboard_failures(text: &str, expected: Option<&str>, contains: Option<&str>) -> (r: Vec<String>)
    ensures
        strs_view(r@) == clipboard_failure_list(
            text@,
            match expected {
                Some(e) => Some(e@),
                None => None,
            },
            match contains {
                Some(c) => Some(c@),
                None => None,
            },
        ),
{
    let mut failures: Vec<String> = Vec::new();
    let differs = match expected {
        Some(e) => !str_eq(text, e),
        None => false,
    };
    let lacks = match contains {
        Some(c) => !str_contains(text, c),
        None => false,
    };
    let m1 = text_failure(differs, "clipboard text did not equal expected text");
    let m2 = text_failure(lacks, "clipboard text did not contain requested text");
    append_failure(&mut failures, m1);
    proof {
        lemma_append_assoc(Seq::empty(), msg_list(m1), msg_list(m2));
    }
    append_failure(&mut failures, m2);
    assert(strs_view(failures@) =~= clipboard_failure_list(
        text@,
        match expected {
            Some(e) => Some(e@),
            None => None,
        },
        match contains {
            Some(c) => Some(c@),
            None => None,
        },
    ));
    failures
}

// ---------------------------------------------------------------------------
// Windows
// ---------------------------------------------------------------------------

/// The window state an assertion can expect.
#[derive(Debug, Clone, Copy, PartialEq, Eq, Structural)]
pub enum AssertWindowState {
    Minimized,
    Maximized,
    Normal,
}

/// `{:?}` of a window state.
pub open spec fn show_window_state(s: AssertWindowState) -> Seq<char> {
    match s {
        AssertWindowState::Minimized => "Minimized"@,
        AssertWindowState::Maximized => "Maximized"@,
        AssertWindowState::Normal => "Normal"@,
    }
}

fn window_state_text(s: AssertWindowState) -> (r: &'static str)
    ensures
        r@ == show_window_state(s),
{
    match s {
        AssertWindowState::Minimized => "Minimized",
        AssertWindowState::Maximized => "Maximized",
        AssertWindowState::Normal => "Normal",
    }
}

/// What an assertion reads of a top-level window. `maximized` and
/// `responsive` are unknown when the platform cannot tell.
#[derive(Debug, Clone, PartialEq)]
pub struct WindowFacts {
    pub foreground: bool,
    pub minimized: bool,
    pub maximized: Option<bool>,
    pub title: String,
    pub class_name: String,
    pub x: i32,
    pub y: i32,
    pub width: i32,
    pub height: i32,
    pub responsive: Option<bool>,
}

/// What `assert.window` expects of the first matching window. Each is checked
/// only when given.
#[derive(Debug, Clone, Default, PartialEq)]
pub struct WindowExpectations {
    pub foreground: Option<bool>,
    pub state: Option<AssertWindowState>,
    pub title: Option<String>,
    pub title_contains: Option<String>,
    pub class_name: Option<String>,
    pub class_name_contains: Option<String>,
    pub x: Option<i32>,
    pub y: Option<i32>,
    pub width: Option<i32>,
    pub height: Option<i32>,
    pub bounds_tolerance: Option<i32>,
    pub responsive: Option<bool>,
}

/// Whether a window is in the expected state: minimized; maximized (unknown
/// counts as not); or normal, which needs it known not to be maximized.
pub open spec fn window_in_state(w: WindowFacts, s: AssertWindowState) -> bool {
    match s {
        AssertWindowState::Minimized => w.minimized,
        AssertWindowState::Maximized => w.maximized == Some(true),
        AssertWindowState::Normal => !w.minimized && w.maximized == Some(false),
    }
}

/// The failure for one coordinate off by more than the tolerance.
pub open spec fn coordinate_failure(name: Seq<char>, actual: i32, expected: Option<i32>, tolerance: int) -> Seq<Seq<char>> {
    match expected {
        Some(e) => failure_if(
            magnitude(actual - e) > tolerance,
            name + " was "@ + spec_signed_decimal(actual as int) + ", expected "@ + spec_signed_decimal(e as int)
                + " +/- "@ + spec_signed_decimal(tolerance),
        ),
        None => Seq::empty(),
    }
}

/// The tolerance a window check uses: the one given, at least 0.
pub open spec fn window_tolerance(t: Option<i32>) -> int {
    match t {
        Some(v) => if v < 0 {
            0
        } else {
            v as int
        },
        None => 0,
    }
}

/// The failures about a window's focus, state, title and class, in order.
pub open spec fn window_identity_failures(
    w: WindowFacts,
    e: WindowExpectations,
    title_regex: Option<Seq<char>>,
    class_regex: Option<Seq<char>>,
) -> Seq<Seq<char>> {
    failure_if(e.foreground is Some && w.foreground != e.foreground->Some_0, "foreground was "@ + show_bool(w.foreground))
        + failure_if(
        e.state is Some && !window_in_state(w, e.state->Some_0),
        "window state did not match "@ + show_window_state(e.state->Some_0) + "; minimized="@ + show_bool(w.minimized)
            + ", maximized="@ + show_opt_bool(w.maximized),
    ) + failure_if(e.title is Some && w.title@ != e.title->Some_0@, "title was "@ + debug_quoted(w.title@))
        + failure_if(
        e.title_contains is Some && !contains_ignoring_case(Some(w.title@), e.title_contains->Some_0@),
        "title did not contain "@ + debug_quoted(e.title_contains->Some_0@),
    ) + failure_if(title_regex is Some && !regex_accepts(Some(w.title@), title_regex), "title did not match regex"@)
        + failure_if(e.class_name is Some && w.class_name@ != e.class_name->Some_0@, "class_name was "@ + debug_quoted(w.class_name@))
        + failure_if(
        e.class_name_contains is Some && !contains_ignoring_case(Some(w.class_name@), e.class_name_contains->Some_0@),
        "class_name did not contain "@ + debug_quoted(e.class_name_contains->Some_0@),
    ) + failure_if(class_regex is Some && !regex_accepts(Some(w.class_name@), class_regex), "class_name did not match regex"@)
}

/// The failures about a window's position, size and responsiveness, in order.
pub open spec fn window_geometry_failures(w: WindowFacts, e: WindowExpectations) -> Seq<Seq<char>> {
    let t = window_tolerance(e.bounds_tolerance);
    coordinate_failure("x"@, w.x, e.x, t) + coordinate_failure("y"@, w.y, e.y, t) + coordinate_failure("width"@, w.width, e.width, t)
        + coordinate_failure("height"@, w.height, e.height, t) + failure_if(
        e.responsive is Some && w.responsive != e.responsive,
        "responsive was "@ + show_opt_bool(w.responsive),
    )
}

/// The failures `assert.window` reports for the first matching window, in order.
pub open spec fn window_failure_list(
    w: WindowFacts,
    e: WindowExpectations,
    title_regex: Option<Seq<char>>,
    class_regex: Option<Seq<char>>,
) -> Seq<Seq<char>> {
    window_identity_failures(w, e, title_regex, class_regex) + window_geometry_failures(w, e)
}

/// The fields `assert.window` could not read but needed, in order: `maximized`
/// when a state is expected, `responsive` when responsiveness is.
pub open spec fn window_unavailable_fields(w: WindowFacts, e: WindowExpectations) -> Seq<Seq<char>> {
    failure_if(e.state is Some && w.maximized is None, "maximized"@) + failure_if(
        e.responsive is Some && w.responsive is None,
        "responsive"@,
    )
}

/// The coordinates of a window are close enough to those expected that the
/// differences, and their absolute values, fit in an `i32`.
pub open spec fn window_diffs_fit(w: WindowFacts, e: WindowExpectations) -> bool {
    &&& (e.x matches Some(v) ==> i32::MIN < w.x - v <= i32::MAX)
    &&& (e.y matches Some(v) ==> i32::MIN < w.y - v <= i32::MAX)
    &&& (e.width matches Some(v) ==> i32::MIN < w.width - v <= i32::MAX)
    &&& (e.height matches Some(v) ==> i32::MIN < w.height - v <= i32::MAX)
}

fn coordinate_failure_text(name: &str, actual: i32, expected: Option<i32>, tolerance: i32) -> (r: Option<String>)
    requires
        tolerance >= 0,
        expected matches Some(v) ==> i32::MIN < actual - v <= i32::MAX,
    ensures
        msg_list(r) == coordinate_failure(name@, actual, expected, tolerance as int),
{
    match expected {
        Some(e) => if abs_diff_i32(actual, e) > tolerance {
            let mut s = concat2(name, " was ");
            push_signed_decimal(&mut s, actual as i64);
            push_str(&mut s, ", expected ");
            push_signed_decimal(&mut s, e as i64);
            push_str(&mut s, " +/- ");
            push_signed_decimal(&mut s, tolerance as i64);
            Some(s)
        } else {
            None
        },
        None => None,
    }
}

fn title_like_failure(label: &str, actual: &str, expected: &Option<String>) -> (r: Option<String>)
    ensures
        msg_list(r) == failure_if(expected is Some && actual@ != expected->Some_0@, label@ + debug_quoted(actual@)),
{
    match expected {
        Some(x) => if str_eq(actual, x.as_str()) {
            None
        } else {
            Some(concat2(label, debug_str(actual).as_str()))
        },
        None => None,
    }
}

fn contains_like_failure(label: &str, actual: &str, needle: &Option<String>) -> (r: Option<String>)
    ensures
        msg_list(r) == failure_if(
            needle is Some && !contains_ignoring_case(Some(actual@), needle->Some_0@),
            label@ + debug_quoted(needle->Some_0@),
        ),
{
    match needle {
        Some(n) => if contains_ci(Some(actual), n.as_str()) {
            None
        } else {
            Some(concat2(label, debug_str(n.as_str()).as_str()))
        },
        None => None,
    }
}

fn regex_like_failure(actual: &str, regex: Option<&CompiledRegex>, message: &str) -> (r: Option<String>)
    ensures
        msg_list(r) == failure_if(
            regex is Some && !regex_accepts(
                Some(actual@),
                match regex {
                    Some(re) => Some(re@),
                    None => None,
                },
            ),
            message@,
        ),
{
    match regex {
        Some(re) => if re.is_match(actual) {
            None
        } else {
            Some(owned(message))
        },
        None => None,
    }
}

fn foreground_failure(expected: Option<bool>, actual: bool) -> (r: Option<String>)
    ensures
        msg_list(r) == failure_if(expected is Some && actual != expected->Some_0, "foreground was "@ + show_bool(actual)),
{
    match expected {
        Some(x) => if actual != x {
            Some(concat2("foreground was ", bool_text(actual)))
        } else {
            None
        },
        None => None,
    }
}

fn state_failure(w: &WindowFacts, expected: Option<AssertWindowState>) -> (r: Option<String>)
    ensures
        msg_list(r) == failure_if(
            expected is Some && !window_in_state(*w, expected->Some_0),
            "window state did not match "@ + show_window_state(expected->Some_0) + "; minimized="@ + show_bool(w.minimized)
                + ", maximized="@ + show_opt_bool(w.maximized),
        ),
{
    match expected {
        Some(s) => {
            let matched = match s {
                AssertWindowState::Minimized => w.minimized,
                AssertWindowState::Maximized => w.maximized == Some(true),
                AssertWindowState::Normal => !w.minimized && w.maximized == Some(false),
            };
            if matched {
                None
            } else {
                let mut m = concat2("window state did not match ", window_state_text(s));
                push_str(&mut m, "; minimized=");
                push_str(&mut m, bool_text(w.minimized));
                push_str(&mut m, ", maximized=");
                push_str(&mut m, opt_bool_text(w.maximized).as_str());
                Some(m)
            }
        },
        None => None,
    }
}

#[verifier::rlimit(50)]
fn check_window_identity(
    failures: &mut Vec<String>,
    w: &WindowFacts,
    e: &WindowExpectations,
    title_regex: Option<&CompiledRegex>,
    class_regex: Option<&CompiledRegex>,
)
    ensures
        strs_view(final(failures)@) == strs_view(old(failures)@) + window_identity_failures(
            *w,
            *e,
            match title_regex {
                Some(re) => Some(re@),
                None => None,
            },
            match class_regex {
                Some(re) => Some(re@),
                None => None,
            },
        ),
{
    let ghost start = strs_view(failures@);
    let m1 = foreground_failure(e.foreground, w.foreground);
    let m2 = state_failure(w, e.state);
    let m3 = title_like_failure("title was ", w.title.as_str(), &e.title);
    let m4 = contains_like_failure("title did not contain ", w.title.as_str(), &e.title_contains);
    let m5 = regex_like_failure(w.title.as_str(), title_regex, "title did not match regex");
    let m6 = title_like_failure("class_name was ", w.class_name.as_str(), &e.class_name);
    let m7 = contains_like_failure("class_name did not contain ", w.class_name.as_str(), &e.class_name_contains);
    let m8 = regex_like_failure(w.class_name.as_str(), class_regex, "class_name did not match regex");
    let ghost all = msg_list(m1) + msg_list(m2) + msg_list(m3) + msg_list(m4) + msg_list(m5) + msg_list(m6)
        + msg_list(m7) + msg_list(m8);
    append_failure(failures, m1);
    let ghost acc = msg_list(m1);
    proof {
        lemma_append_assoc(start, acc, msg_list(m2));
    }
    append_failure(failures, m2);
    let ghost acc = acc + msg_list(m2);
    proof {
        lemma_append_assoc(start, acc, msg_list(m3));
    }
    append_failure(failures, m3);
    let ghost acc = acc + msg_list(m3);
    proof {
        lemma_append_assoc(start, acc, msg_list(m4));
    }
    append_failure(failures, m4);
    let ghost acc = acc + msg_list(m4);
    proof {
        lemma_append_assoc(start, acc, msg_list(m5));
    }
    append_failure(failures, m5);
    let ghost acc = acc + msg_list(m5);
    proof {
        lemma_append_assoc(start, acc, msg_list(m6));
    }
    append_failure(failures, m6);
    let ghost acc = acc + msg_list(m6);
    proof {
        lemma_append_assoc(start, acc, msg_list(m7));
    }
    append_failure(failures, m7);
    let ghost acc = acc + msg_list(m7);
    proof {
        lemma_append_assoc(start, acc, msg_list(m8));
    }
    append_failure(failures, m8);
    let ghost acc = acc + msg_list(m8);
    assert(acc == all);
}

fn check_window_geometry(failures: &mut Vec<String>, w: &WindowFacts, e: &WindowExpectations)
    requires
        window_diffs_fit(*w, *e),
    ensures
        strs_view(final(failures)@) == strs_view(old(failures)@) + window_geometry_failures(*w, *e),
{
    let ghost start = strs_view(failures@);
    let tolerance = match e.bounds_tolerance {
        Some(t) => if t < 0 {
            0
        } else {
            t
        },
        None => 0,
    };
    let m1 = coordinate_failure_text("x", w.x, e.x, tolerance);
    let m2 = coordinate_failure_text("y", w.y, e.y, tolerance);
    let m3 = coordinate_failure_text("width", w.width, e.width, tolerance);
    let m4 = coordinate_failure_text("height", w.height, e.height, tolerance);
    let m5 = bool_failure("responsive was ", e.responsive, w.responsive);
    let ghost all = msg_list(m1) + msg_list(m2) + msg_list(m3) + msg_list(m4) + msg_list(m5);
    append_failure(failures, m1);
    let ghost acc = msg_list(m1);
    proof {
        lemma_append_assoc(start, acc, msg_list(m2));
    }
    append_failure(failures, m2);
    let ghost acc = acc + msg_list(m2);
    proof {
        lemma_append_assoc(start, acc, msg_list(m3));
    }
    append_failure(failures, m3);
    let ghost acc = acc + msg_list(m3);
    proof {
        lemma_append_assoc(start, acc, msg_list(m4));
    }
    append_failure(failures, m4);
    let ghost acc = acc + msg_list(m4);
    proof {
        lemma_append_assoc(start, acc, msg_list(m5));
    }
    append_failure(failures, m5);
    let ghost acc = acc + msg_list(m5);
    assert(acc == all);
}

/// The failures of `assert.window` for the first matching window, and the
/// fields it needed but could not read (each reported as a `provider_unavailable`
/// diagnostic).
pub fn window_failures(
    w: &WindowFacts,
    e: &WindowExpectations,
    title_regex: Option<&CompiledRegex>,
    class_regex: Option<&CompiledRegex>,
) -> (r: (Vec<String>, Vec<String>))
    requires
        window_diffs_fit(*w, *e),
    ensures
        strs_view(r.0@) == window_failure_list(
            *w,
            *e,
            match title_regex {
                Some(re) => Some(re@),
                None => None,
            },
            match class_regex {
                Some(re) => Some(re@),
                None => None,
            },
        ),
        strs_view(r.1@) == window_unavailable_fields(*w, *e),
{
    let mut failures: Vec<String> = Vec::new();
    check_window_identity(&mut failures, w, e, title_regex, class_regex);
    let ghost first = strs_view(failures@);
    check_window_geometry(&mut failures, w, e);
    assert(Seq::<Seq<char>>::empty() + first =~= first);
    let mut unavailable: Vec<String> = Vec::new();
    let u1 = text_failure(e.state.is_some() && w.maximized.is_none(), "maximized");
    let u2 = text_failure(e.responsive.is_some() && w.responsive.is_none(), "responsive");
    append_failure(&mut unavailable, u1);
    proof {
        lemma_append_assoc(Seq::empty(), msg_list(u1), msg_list(u2));
    }
    append_failure(&mut unavailable, u2);
    assert(strs_view(unavailable@) =~= window_unavailable_fields(*w, *e));
    (failures, unavailable)
}

// ---------------------------------------------------------------------------
// Processes
// ---------------------------------------------------------------------------

/// What `assert.process` expects of a process. Each is checked only when given.
#[derive(Debug, Clone, Default, PartialEq)]
pub struct ProcessExpectations {
    pub running: Option<bool>,
    pub exited: Option<bool>,
    pub exit_code: Option<i32>,
    pub responsive: Option<bool>,
    pub max_working_set_bytes: Option<u64>,
    pub max_handle_count: Option<u32>,
    pub max_gdi_objects: Option<u32>,
    pub max_user_objects: Option<u32>,
}

/// A process's resource use, each figure unknown when it could not be read.
#[derive(Debug, Clone, Copy, PartialEq, Eq, Structural)]
pub struct ProcessMetricsFacts {
    pub working_set_bytes: Option<u64>,
    pub handle_count: Option<u32>,
    pub gdi_object_count: Option<u32>,
    pub user_object_count: Option<u32>,
}

/// Whether a process assertion needs the process's resource use.
pub open spec fn metrics_needed(e: ProcessExpectations) -> bool {
    e.max_working_set_bytes is Some || e.max_handle_count is Some || e.max_gdi_objects is Some
        || e.max_user_objects is Some
}

/// An optional unsigned figure as an optional integer.
pub open spec fn opt_u64_int(o: Option<u64>) -> Option<int> {
    match o {
        Some(v) => Some(v as int),
        None => None,
    }
}

/// An optional 32-bit figure as an optional integer.
pub open spec fn opt_u32_int(o: Option<u32>) -> Option<int> {
    match o {
        Some(v) => Some(v as int),
        None => None,
    }
}

/// The failures of the resource limits, in order.
pub open spec fn metrics_failure_list(m: ProcessMetricsFacts, e: ProcessExpectations) -> Seq<Seq<char>> {
    metric_failure("working_set_bytes"@, opt_u64_int(m.working_set_bytes), opt_u64_int(e.max_working_set_bytes))
        + metric_failure("handle_count"@, opt_u32_int(m.handle_count), opt_u32_int(e.max_handle_count))
        + metric_failure("gdi_object_count"@, opt_u32_int(m.gdi_object_count), opt_u32_int(e.max_gdi_objects))
        + metric_failure("user_object_count"@, opt_u32_int(m.user_object_count), opt_u32_int(e.max_user_objects))
}

/// The failures `assert.process` reports about a process's presence, state and
/// resource use, in order. `responsive` is what the process's first window that
/// could tell says; `metrics` the resource use, read only when a limit is given
/// and the process runs (`None` inside when reading it failed).
pub open spec fn process_failure_list(
    pid: u32,
    absent: bool,
    running: bool,
    e: ProcessExpectations,
    responsive: Option<bool>,
    metrics: Option<Option<ProcessMetricsFacts>>,
) -> Seq<Seq<char>> {
    let pid_text = spec_decimal(pid as nat);
    let presence = if absent {
        failure_if(running, "expected pid "@ + pid_text + " absent, but it is running"@)
    } else {
        failure_if(!running, "expected pid "@ + pid_text + " running, but it was not found"@)
    };
    presence + failure_if(e.running is Some && running != e.running->Some_0, "running was "@ + show_bool(running))
        + failure_if(e.exited is Some && !running != e.exited->Some_0, "exited was "@ + show_bool(!running))
        + failure_if(e.exit_code is Some, "exit_code is unavailable for this assertion provider"@)
        + failure_if(e.responsive is Some && responsive != e.responsive, "responsive was "@ + show_opt_bool(responsive))
        + match metrics {
        Some(Some(m)) => metrics_failure_list(m, e),
        Some(None) => seq!["process metrics were unavailable"@],
        None => Seq::empty(),
    }
}

fn presence_failure(pid: u32, absent: bool, running: bool) -> (r: Option<String>)
    ensures
        msg_list(r) == if absent {
            failure_if(running, "expected pid "@ + spec_decimal(pid as nat) + " absent, but it is running"@)
        } else {
            failure_if(!running, "expected pid "@ + spec_decimal(pid as nat) + " running, but it was not found"@)
        },
{
    if absent && running {
        let mut m = owned("expected pid ");
        push_decimal(&mut m, pid as u64);
        push_str(&mut m, " absent, but it is running");
        Some(m)
    } else if !absent && !running {
        let mut m = owned("expected pid ");
        push_decimal(&mut m, pid as u64);
        push_str(&mut m, " running, but it was not found");
        Some(m)
    } else {
        None
    }
}

fn plain_bool_failure(label: &str, expected: Option<bool>, actual: bool) -> (r: Option<String>)
    ensures
        msg_list(r) == failure_if(expected is Some && actual != expected->Some_0, label@ + show_bool(actual)),
{
    match expected {
        Some(x) => if actual != x {
            Some(concat2(label, bool_text(actual)))
        } else {
            None
        },
        None => None,
    }
}

fn check_metrics(failures: &mut Vec<String>, m: ProcessMetricsFacts, e: &ProcessExpectations)
    ensures
        strs_view(final(failures)@) == strs_view(old(failures)@) + metrics_failure_list(m, *e),
{
    let ghost start = strs_view(failures@);
    check_metric_u64("working_set_bytes", m.working_set_bytes, e.max_working_set_bytes, failures);
    let ghost l1 = metric_failure("working_set_bytes"@, opt_u64_int(m.working_set_bytes), opt_u64_int(e.max_working_set_bytes));
    let ghost l2 = metric_failure("handle_count"@, opt_u32_int(m.handle_count), opt_u32_int(e.max_handle_count));
    let ghost l3 = metric_failure("gdi_object_count"@, opt_u32_int(m.gdi_object_count), opt_u32_int(e.max_gdi_objects));
    let ghost l4 = metric_failure("user_object_count"@, opt_u32_int(m.user_object_count), opt_u32_int(e.max_user_objects));
    proof {
        lemma_append_assoc(start, l1, l2);
    }
    check_metric_u32("handle_count", m.handle_count, e.max_handle_count, failures);
    proof {
        lemma_append_assoc(start, l1 + l2, l3);
    }
    check_metric_u32("gdi_object_count", m.gdi_object_count, e.max_gdi_objects, failures);
    proof {
        lemma_append_assoc(start, l1 + l2 + l3, l4);
    }
    check_metric_u32("user_object_count", m.user_object_count, e.max_user_objects, failures);
}

/// The failures of `assert.process` about presence, state and resource use.
/// `metrics` must be given exactly when a resource limit is and the process
/// runs; it is `None` inside when reading the resource use failed.
#[verifier::rlimit(50)]
pub fn process_failures(
    pid: u32,
    absent: bool,
    running: bool,
    e: &ProcessExpectations,
    responsive: Option<bool>,
    metrics: Option<Option<ProcessMetricsFacts>>,
) -> (r: Vec<String>)
    requires
        metrics is Some <==> (metrics_needed(*e) && running),
    ensures
        strs_view(r@) == process_failure_list(pid, absent, running, *e, responsive, metrics),
{
    let mut failures: Vec<String> = Vec::new();
    let ghost start = strs_view(failures@);
    let m1 = presence_failure(pid, absent, running);
    let m2 = plain_bool_failure("running was ", e.running, running);
    let m3 = plain_bool_failure("exited was ", e.exited, !running);
    let m4 = text_failure(e.exit_code.is_some(), "exit_code is unavailable for this assertion provider");
    let m5 = bool_failure("responsive was ", e.responsive, responsive);
    append_failure(&mut failures, m1);
    let ghost acc = msg_list(m1);
    proof {
        lemma_append_assoc(start, acc, msg_list(m2));
    }
    append_failure(&mut failures, m2);
    let ghost acc = acc + msg_list(m2);
    proof {
        lemma_append_assoc(start, acc, msg_list(m3));
    }
    append_failure(&mut failures, m3);
    let ghost acc = acc + msg_list(m3);
    proof {
        lemma_append_assoc(start, acc, msg_list(m4));
    }
    append_failure(&mut failures, m4);
    let ghost acc = acc + msg_list(m4);
    proof {
        lemma_append_assoc(start, acc, msg_list(m5));
    }
    append_failure(&mut failures, m5);
    let ghost acc = acc + msg_list(m5);
    let ghost before_metrics = strs_view(failures@);
    assert(before_metrics =~= acc);
    match metrics {
        Some(Some(m)) => {
            check_metrics(&mut failures, m, e);
        },
        Some(None) => {
            push_failure(&mut failures, owned("process metrics were unavailable"));
        },
        None => {},
    }
    let ghost tail = match metrics {
        Some(Some(m)) => metrics_failure_list(m, *e),
        Some(None) => seq!["process metrics were unavailable"@],
        None => Seq::empty(),
    };
    assert(strs_view(failures@) =~= before_metrics + tail);
    assert(acc + tail == process_failure_list(pid, absent, running, *e, responsive, metrics));
    failures
}

// ---------------------------------------------------------------------------
// Polling and the response
// ---------------------------------------------------------------------------

/// The default pause between polls of an assertion.
pub const DEFAULT_POLL_INTERVAL_MS: u64 = 100;

/// The shortest pause between polls.
pub const MIN_POLL_INTERVAL_MS: u64 = 10;

/// The pause between polls: the one requested (or the default), at least the minimum.
pub open spec fn poll_interval(requested: Option<u64>) -> u64 {
    let r = match requested {
        Some(v) => v,
        None => DEFAULT_POLL_INTERVAL_MS,
    };
    if r < MIN_POLL_INTERVAL_MS {
        MIN_POLL_INTERVAL_MS
    } else {
        r
    }
}

/// What polling an assertion does after an evaluation.
#[derive(Debug, Clone, Copy, PartialEq, Eq, Structural)]
pub enum PollStep {
    /// The assertion is settled with this outcome (after negation).
    Finish { passed: bool },
    /// Evaluate again after this many milliseconds.
    Wait { ms: u64 },
}

/// The step after an evaluation whose predicate came out `raw_passed`, at
/// `elapsed_ms` since polling began: the outcome is the predicate, inverted for
/// a negated assertion; it is final once it passes or the timeout (0 by
/// default) has run out, else polling waits the poll interval.
pub open spec fn poll_step(negate: bool, raw_passed: bool, elapsed_ms: u64, timeout_ms: Option<u64>, poll_interval_ms: Option<u64>) -> PollStep {
    let passed = if negate {
        !raw_passed
    } else {
        raw_passed
    };
    let timeout = match timeout_ms {
        Some(t) => t,
        None => 0,
    };
    if passed || elapsed_ms >= timeout {
        PollStep::Finish { passed }
    } else {
        PollStep::Wait { ms: poll_interval(poll_interval_ms) }
    }
}

/// Decides what polling does after an evaluation.
pub fn assertion_poll_step(
    negate: bool,
    raw_passed: bool,
    elapsed_ms: u64,
    timeout_ms: Option<u64>,
    poll_interval_ms: Option<u64>,
) -> (r: PollStep)
    ensures
        r == poll_step(negate, raw_passed, elapsed_ms, timeout_ms, poll_interval_ms),
{
    let passed = if negate {
        !raw_passed
    } else {
        raw_passed
    };
    let timeout = match timeout_ms {
        Some(t) => t,
        None => 0,
    };
    if passed || elapsed_ms >= timeout {
        PollStep::Finish { passed }
    } else {
        let requested = match poll_interval_ms {
            Some(v) => v,
            None => DEFAULT_POLL_INTERVAL_MS,
        };
        PollStep::Wait {
            ms: if requested < MIN_POLL_INTERVAL_MS {
                MIN_POLL_INTERVAL_MS
            } else {
                requested
            },
        }
    }
}

/// A passing evaluation always settles the assertion as passed; a failing one
/// settles it as failed exactly when the timeout has run out; without a
/// timeout every evaluation settles it.
pub proof fn lemma_poll_step_settles(negate: bool, raw_passed: bool, elapsed_ms: u64, timeout_ms: Option<u64>, interval: Option<u64>)
    ensures
        (negate != raw_passed) ==> poll_step(negate, raw_passed, elapsed_ms, timeout_ms, interval) == (PollStep::Finish { passed: true }),
        timeout_ms is None ==> poll_step(negate, raw_passed, elapsed_ms, timeout_ms, interval) is Finish,
        (negate == raw_passed && (timeout_ms matches Some(t) && elapsed_ms < t)) ==> poll_step(negate, raw_passed, elapsed_ms, timeout_ms, interval)
            == (PollStep::Wait { ms: poll_interval(interval) }),
        poll_interval(interval) >= MIN_POLL_INTERVAL_MS,
{
}

/// One evaluation of an assertion: whether its predicate held, what was
/// expected and found, the predicate's name, the target, diagnostics, and extra
/// members for the response.
#[derive(Debug, PartialEq)]
pub struct AssertionAttempt {
    pub passed: bool,
    pub expected: JsonValue,
    pub actual: JsonValue,
    pub predicate: String,
    pub target: JsonValue,
    pub diagnostics: Vec<JsonValue>,
    pub extra: Vec<(String, JsonValue)>,
}

/// The view of an assertion attempt.
pub struct AttemptView {
    pub passed: bool,
    pub expected: JsonView,
    pub actual: JsonView,
    pub predicate: Seq<char>,
    pub target: JsonView,
    pub diagnostics: Seq<JsonView>,
    pub extra: Seq<(Seq<char>, JsonView)>,
}

impl View for AssertionAttempt {
    type V = AttemptView;

    open spec fn view(&self) -> AttemptView {
        AttemptView {
            passed: self.passed,
            expected: self.expected@,
            actual: self.actual@,
            predicate: self.predicate@,
            target: self.target@,
            diagnostics: array_items(self.diagnostics@),
            extra: object_entries(self.extra@),
        }
    }
}

impl AssertionAttempt {
    /// The attempt with member `key` of its extra details set to `value`.
    pub fn with_extra(self, key: &str, value: JsonValue) -> (r: AssertionAttempt)
        ensures
            r@ == (AttemptView { extra: entries_insert(self@.extra, key@, value@), ..self@ }),
    {
        let mut a = self;
        object_insert(&mut a.extra, owned(key), value);
        a
    }

    /// The attempt with `diagnostics` added after its own.
    pub fn with_diagnostics(self, diagnostics: Vec<JsonValue>) -> (r: AssertionAttempt)
        ensures
            r@ == (AttemptView { diagnostics: self@.diagnostics + array_items(diagnostics@), ..self@ }),
    {
        let mut a = self;
        let ghost start = a.diagnostics@;
        let mut d = diagnostics;
        let ghost added = d@;
        a.diagnostics.append(&mut d);
        assert(array_items(a.diagnostics@) =~= array_items(start) + array_items(added));
        a
    }
}

/// The extra details `assert.element` attaches to an evaluation: the number of
/// matches, the matches themselves and the snapshot summary (as the caller
/// rendered them), after the failures already there.
pub fn element_attempt_extras(
    attempt: AssertionAttempt,
    match_count: usize,
    matches: JsonValue,
    snapshot_summary: JsonValue,
) -> (r: AssertionAttempt)
    ensures
        r@ == (AttemptView {
            extra: entries_insert(
                entries_insert(
                    entries_insert(attempt@.extra, "match_count"@, JsonView::Number(JsonNumber::PosInt(match_count as u64))),
                    "matches"@,
                    matches@,
                ),
                "snapshot_summary"@,
                snapshot_summary@,
            ),
            ..attempt@
        }),
{
    attempt.with_extra("match_count", JsonValue::Number(JsonNumber::PosInt(match_count as u64))).with_extra(
        "matches",
        matches,
    ).with_extra("snapshot_summary", snapshot_summary)
}

/// Failure messages as JSON strings.
pub open spec fn failure_items(failures: Seq<Seq<char>>) -> Seq<JsonView> {
    failures.map_values(|f: Seq<char>| JsonView::Str(f))
}

/// The attempt an assertion makes of its failures: passed exactly when there
/// are none, with the failures listed under `failures`.
pub fn assertion_from_failures(
    failures: Vec<String>,
    predicate: &str,
    expected: JsonValue,
    actual: JsonValue,
    target: JsonValue,
    diagnostics: Vec<JsonValue>,
) -> (r: AssertionAttempt)
    ensures
        r@ == (AttemptView {
            passed: failures@.len() == 0,
            expected: expected@,
            actual: actual@,
            predicate: predicate@,
            target: target@,
            diagnostics: array_items(diagnostics@),
            extra: seq![("failures"@, JsonView::Array(failure_items(strs_view(failures@))))],
        }),
{
    let passed = failures.len() == 0;
    let mut items: Vec<JsonValue> = Vec::new();
    let mut i: usize = 0;
    while i < failures.len()
        invariant
            i <= failures@.len(),
            array_items(items@) == failure_items(strs_view(failures@)).take(i as int),
        decreases failures.len() - i,
    {
        let ghost before = array_items(items@);
        let f = failures[i].clone();
        assert(f@ == failures@[i as int]@);
        let item = JsonValue::String(f);
        assert(item@ == JsonView::Str(failures@[i as int]@));
        items.push(item);
        assert(array_items(items@) =~= before.push(JsonView::Str(failures@[i as int]@)));
        assert(array_items(items@) =~= failure_items(strs_view(failures@)).take(i + 1));
        i += 1;
    }
    assert(failure_items(strs_view(failures@)).take(failures@.len() as int) =~= failure_items(strs_view(failures@)));
    proof {
        lemma_array_view(items);
    }
    let list = JsonValue::Array(items);
    let ghost lv = list@;
    let mut extra: Vec<(String, JsonValue)> = Vec::new();
    extra.push((owned("failures"), list));
    assert(object_entries(extra@) =~= seq![("failures"@, lv)]);
    AssertionAttempt { passed, expected, actual, predicate: owned(predicate), target, diagnostics, extra }
}

/// The members of `es` with each of `extra` set in turn.
pub open spec fn entries_extend(es: Seq<(Seq<char>, JsonView)>, extra: Seq<(Seq<char>, JsonView)>) -> Seq<(Seq<char>, JsonView)>
    decreases extra.len(),
{
    if extra.len() == 0 {
        es
    } else {
        entries_insert(entries_extend(es, extra.drop_last()), extra.last().0, extra.last().1)
    }
}

/// `{"kind": "polling", "attempts": n}`.
pub open spec fn polling_diagnostic(attempts: u64) -> JsonView {
    JsonView::Object(seq![("kind"@, JsonView::Str("polling"@)), ("attempts"@, JsonView::Number(JsonNumber::PosInt(attempts)))])
}

/// `{"code": "assertion_failed", "message": "assertion predicate did not pass"}`.
pub open spec fn assertion_failed_error() -> JsonView {
    JsonView::Object(
        seq![
            ("code"@, JsonView::Str("assertion_failed"@)),
            ("message"@, JsonView::Str("assertion predicate did not pass"@)),
        ],
    )
}

/// The response of an assertion tool: `ok` and `passed` (the outcome),
/// `negated`, `expected`, `actual`, `predicate`, `target`, `elapsed_ms`,
/// `diagnostics` (with a polling note when it took several attempts), an
/// `assertion_failed` error when it did not pass, and then the extra members.
pub open spec fn response_view(a: AttemptView, negated: bool, attempts: u64, elapsed_ms: u64) -> JsonView {
    let diagnostics = if attempts > 1 {
        a.diagnostics.push(polling_diagnostic(attempts))
    } else {
        a.diagnostics
    };
    let base = seq![
        ("ok"@, JsonView::Bool(a.passed)),
        ("passed"@, JsonView::Bool(a.passed)),
        ("negated"@, JsonView::Bool(negated)),
        ("expected"@, a.expected),
        ("actual"@, a.actual),
        ("predicate"@, JsonView::Str(a.predicate)),
        ("target"@, a.target),
        ("elapsed_ms"@, JsonView::Number(JsonNumber::PosInt(elapsed_ms))),
        ("diagnostics"@, JsonView::Array(diagnostics)),
    ];
    let with_error = if a.passed {
        base
    } else {
        base.push(("error"@, assertion_failed_error()))
    };
    JsonView::Object(entries_extend(with_error, a.extra))
}

fn str_value(s: &str) -> (r: JsonValue)
    ensures
        r@ == JsonView::Str(s@),
{
    JsonValue::String(owned(s))
}

fn small_object2(k1: &str, v1: JsonValue, k2: &str, v2: JsonValue) -> (r: JsonValue)
    ensures
        r@ == JsonView::Object(seq![(k1@, v1@), (k2@, v2@)]),
{
    let mut es: Vec<(String, JsonValue)> = Vec::new();
    es.push((owned(k1), v1));
    es.push((owned(k2), v2));
    proof {
        lemma_object_view(es);
        assert(object_entries(es@) =~= seq![(k1@, v1@), (k2@, v2@)]);
    }
    JsonValue::Object(es)
}

/// The response of an assertion tool for its settled attempt, after
/// `attempts` evaluations taking `elapsed_ms`.
pub fn assertion_response(attempt: AssertionAttempt, negated: bool, attempts: u64, elapsed_ms: u64) -> (r: JsonValue)
    ensures
        r@ == response_view(attempt@, negated, attempts, elapsed_ms),
{
    let ghost a = attempt@;
    let AssertionAttempt { passed, expected, actual, predicate, target, diagnostics, extra } = attempt;
    let mut diagnostics = diagnostics;
    if attempts > 1 {
        let ghost before = diagnostics@;
        diagnostics.push(small_object2("kind", str_value("polling"), "attempts", JsonValue::Number(JsonNumber::PosInt(attempts))));
        assert(array_items(diagnostics@) =~= array_items(before).push(polling_diagnostic(attempts)));
    }
    let ghost diags = array_items(diagnostics@);
    let mut response: Vec<(String, JsonValue)> = Vec::new();
    response.push((owned("ok"), JsonValue::Bool(passed)));
    response.push((owned("passed"), JsonValue::Bool(passed)));
    response.push((owned("negated"), JsonValue::Bool(negated)));
    response.push((owned("expected"), expected));
    response.push((owned("actual"), actual));
    response.push((owned("predicate"), JsonValue::String(predicate)));
    response.push((owned("target"), target));
    response.push((owned("elapsed_ms"), JsonValue::Number(JsonNumber::PosInt(elapsed_ms))));
    proof {
        lemma_array_view(diagnostics);
    }
    response.push((owned("diagnostics"), JsonValue::Array(diagnostics)));
    if !passed {
        response.push(
            (
                owned("error"),
                small_object2(
                    "code",
                    str_value("assertion_failed"),
                    "message",
                    str_value("assertion predicate did not pass"),
                ),
            ),
        );
    }
    let ghost base = object_entries(response@);
    let ghost spec_diags = if attempts > 1 {
        a.diagnostics.push(polling_diagnostic(attempts))
    } else {
        a.diagnostics
    };
    assert(diags == spec_diags);
    let ghost nine = seq![
        ("ok"@, JsonView::Bool(a.passed)),
        ("passed"@, JsonView::Bool(a.passed)),
        ("negated"@, JsonView::Bool(negated)),
        ("expected"@, a.expected),
        ("actual"@, a.actual),
        ("predicate"@, JsonView::Str(a.predicate)),
        ("target"@, a.target),
        ("elapsed_ms"@, JsonView::Number(JsonNumber::PosInt(elapsed_ms))),
        ("diagnostics"@, JsonView::Array(spec_diags)),
    ];
    assert(base =~= if a.passed {
        nine
    } else {
        nine.push(("error"@, assertion_failed_error()))
    });
    let ghost xs = object_entries(extra@);
    let mut i: usize = 0;
    assert(xs.take(0) =~= Seq::<(Seq<char>, JsonView)>::empty());
    while i < extra.len()
        invariant
            xs == object_entries(extra@),
            i <= extra@.len(),
            object_entries(response@) == entries_extend(base, xs.take(i as int)),
        decreases extra.len() - i,
    {
        assert(xs.take(i + 1).drop_last() =~= xs.take(i as int));
        let key = extra[i].0.clone();
        let value = extra[i].1.clone_value();
        object_insert(&mut response, key, value);
        i += 1;
    }
    assert(xs.take(extra@.len() as int) =~= xs);
    assert(xs == a.extra);
    proof {
        lemma_object_view(response);
    }
    JsonValue::Object(response)
}

/// What `capture.read_text` reads of a UI Automation element.
#[derive(Debug, Clone, PartialEq, Eq)]
pub struct TextElement {
    pub element_ref: String,
    pub name: Option<String>,
    pub automation_id: Option<String>,
    pub class_name: Option<String>,
}

/// A piece of text read from an element: the field it came from, the text,
/// and the element.
#[derive(Debug, Clone, PartialEq, Eq)]
pub struct TextFragment {
    pub source: String,
    pub text: String,
    pub element_ref: String,
}

/// The view of a text fragment: source, text, element reference.
pub open spec fn fragment_view(f: TextFragment) -> (Seq<char>, Seq<char>, Seq<char>) {
    (f.source@, f.text@, f.element_ref@)
}

/// The views of a list of fragments.
pub open spec fn fragments_view(fs: Seq<TextFragment>) -> Seq<(Seq<char>, Seq<char>, Seq<char>)> {
    fs.map_values(|f: TextFragment| fragment_view(f))
}

/// A field as a fragment, when it holds more than whitespace.
pub open spec fn field_fragment(source: Seq<char>, value: Option<Seq<char>>, element_ref: Seq<char>) -> Seq<(Seq<char>, Seq<char>, Seq<char>)> {
    match value {
        Some(v) => if spec_is_blank(v) {
            Seq::empty()
        } else {
            seq![(source, v, element_ref)]
        },
        None => Seq::empty(),
    }
}

/// The fragments of one element, in field order: name, automation ID, class name.
pub open spec fn element_fragments(e: TextElement) -> Seq<(Seq<char>, Seq<char>, Seq<char>)> {
    field_fragment("name"@, sv(e.name), e.element_ref@) + field_fragment("automation_id"@, sv(e.automation_id), e.element_ref@)
        + field_fragment("class_name"@, sv(e.class_name), e.element_ref@)
}

/// The fragments of a list of elements, element by element.
pub open spec fn all_fragments(es: Seq<TextElement>) -> Seq<(Seq<char>, Seq<char>, Seq<char>)>
    decreases es.len(),
{
    if es.len() == 0 {
        Seq::empty()
    } else {
        all_fragments(es.drop_last()) + element_fragments(es.last())
    }
}

fn push_field_fragment(out: &mut Vec<TextFragment>, source: &str, value: &Option<String>, element_ref: &String)
    ensures
        fragments_view(final(out)@) == fragments_view(old(out)@) + field_fragment(source@, sv(*value), element_ref@),
{
    let ghost before = fragments_view(out@);
    if let Some(v) = value {
        if !is_blank(v.as_str()) {
            let f = TextFragment { source: owned(source), text: v.clone(), element_ref: element_ref.clone() };
            out.push(f);
            assert(fragments_view(out@) =~= before + field_fragment(source@, sv(*value), element_ref@));
            return;
        }
    }
    assert(fragments_view(out@) =~= before + field_fragment(source@, sv(*value), element_ref@));
}

/// Collects the text `capture.read_text` reports: each element's non-blank
/// name, automation ID and class name, in order.
pub fn read_text_fragments(elements: &Vec<TextElement>) -> (r: Vec<TextFragment>)
    ensures
        fragments_view(r@) == all_fragments(elements@),
{
    let mut out: Vec<TextFragment> = Vec::new();
    let mut i: usize = 0;
    while i < elements.len()
        invariant
            i <= elements@.len(),
            fragments_view(out@) == all_fragments(elements@.take(i as int)),
        decreases elements.len() - i,
    {
        assert(elements@.take(i + 1).drop_last() =~= elements@.take(i as int));
        assert(elements@.take(i + 1).last() == elements@[i as int]);
        let e = &elements[i];
        let ghost start = fragments_view(out@);
        push_field_fragment(&mut out, "name", &e.name, &e.element_ref);
        push_field_fragment(&mut out, "automation_id", &e.automation_id, &e.element_ref);
        push_field_fragment(&mut out, "class_name", &e.class_name, &e.element_ref);
        assert(fragments_view(out@) =~= start + element_fragments(*e));
        i += 1;
    }
    assert(elements@.take(elements@.len() as int) =~= elements@);
    out
}

/// Texts joined by newlines.
pub open spec fn joined_lines(ts: Seq<Seq<char>>) -> Seq<char>
    decreases ts.len(),
{
    if ts.len() == 0 {
        Seq::empty()
    } else if ts.len() == 1 {
        ts[0]
    } else {
        joined_lines(ts.drop_last()) + "\n"@ + ts.last()
    }
}

/// The text of the fragments, one per line.
pub fn fragments_text(fragments: &Vec<TextFragment>) -> (r: String)
    ensures
        r@ == joined_lines(fragments@.map_values(|f: TextFragment| f.text@)),
{
    let ghost ts = fragments@.map_values(|f: TextFragment| f.text@);
    let mut r = String::new();
    let mut i: usize = 0;
    while i < fragments.len()
        invariant
            ts == fragments@.map_values(|f: TextFragment| f.text@),
            i <= fragments@.len(),
            r@ == joined_lines(ts.take(i as int)),
        decreases fragments.len() - i,
    {
        assert(ts.take(i + 1).drop_last() =~= ts.take(i as int));
        assert(ts.take(i + 1).last() == fragments@[i as int].text@);
        if i > 0 {
            push_str(&mut r, "\n");
        } else {
            assert(ts.take(0) =~= Seq::<Seq<char>>::empty());
        }
        push_str(&mut r, fragments[i].text.as_str());
        i += 1;
    }
    assert(ts.take(fragments@.len() as int) =~= ts);
    r
}

/// The presence rules of `assert.element`: an element expected absent passes
/// exactly when nothing matched and any count given is 0, and each match is
/// reported; an element expected present is reported when nothing matched; and
/// a count given that differs from the number of matches is always reported.
pub proof fn lemma_element_presence_rules(
    e: ElementExpectations,
    absent: bool,
    match_count: nat,
    first: Option<ElementFacts>,
    pattern: Option<PatternFacts>,
    name_regex: Option<Seq<char>>,
    value_regex: Option<Seq<char>>,
)
    ensures
        ({
            let fs = element_failure_list(e, absent, match_count, first, pattern, name_regex, value_regex);
            &&& absent ==> (fs.len() == 0 <==> match_count == 0 && (e.count is None || e.count->Some_0 == 0))
            &&& absent && match_count > 0 ==> fs.contains(
                "expected absent, found "@ + spec_decimal(match_count) + " match(es)"@,
            )
            &&& !absent && match_count == 0 ==> fs.contains("expected present, found no matches"@)
            &&& e.count is Some && match_count != e.count->Some_0 ==> fs.contains(
                "count was "@ + spec_decimal(match_count) + ", expected exactly "@ + spec_decimal(e.count->Some_0 as nat),
            )
        }),
{
    let fs = element_failure_list(e, absent, match_count, first, pattern, name_regex, value_regex);
    let main = if absent {
        failure_if(match_count > 0, "expected absent, found "@ + spec_decimal(match_count) + " match(es)"@)
    } else {
        failure_if(match_count == 0, "expected present, found no matches"@) + element_property_failures(
            e,
            first,
            name_regex,
        ) + element_pattern_failures(e, pattern, value_regex)
    };
    let tail = match e.count {
        Some(c) => failure_if(
            match_count != c,
            "count was "@ + spec_decimal(match_count) + ", expected exactly "@ + spec_decimal(c as nat),
        ),
        None => Seq::empty(),
    };
    assert(fs == main + tail);
    if main.len() > 0 {
        assert(fs[0] == main[0]);
    }
    if tail.len() > 0 {
        assert(fs[main.len() as int] == tail[0]);
    }
}

/// The rules of `assert.clipboard`: it passes exactly when the text equals the
/// expected text and contains the requested text (each when given), and each
/// unmet expectation is reported with its own message.
pub proof fn lemma_clipboard_rules(text: Seq<char>, expected: Option<Seq<char>>, contains: Option<Seq<char>>)
    ensures
        clipboard_failure_list(text, expected, contains).len() == 0 <==> (expected is Some ==> text
            == expected->Some_0) && (contains is Some ==> spec_contains(text, contains->Some_0)),
        expected is Some && text != expected->Some_0 ==> clipboard_failure_list(text, expected, contains).contains(
            "clipboard text did not equal expected text"@,
        ),
        contains is Some && !spec_contains(text, contains->Some_0) ==> clipboard_failure_list(
            text,
            expected,
            contains,
        ).contains("clipboard text did not contain requested text"@),
{
    let f1 = failure_if(expected is Some && text != expected->Some_0, "clipboard text did not equal expected text"@);
    let f2 = failure_if(
        contains is Some && !spec_contains(text, contains->Some_0),
        "clipboard text did not contain requested text"@,
    );
    let fs = f1 + f2;
    assert(clipboard_failure_list(text, expected, contains) == fs);
    if f1.len() > 0 {
        assert(fs[0] == f1[0]);
    }
    if f2.len() > 0 {
        assert(fs[f1.len() as int] == f2[0]);
    }
}

/// How polling goes: a negated assertion passes exactly when its evaluation does
/// not; polling stops at once when the assertion passes and once the timeout
/// (0 when not given) is reached, reporting whether it passed; otherwise it
/// waits at least `MIN_POLL_INTERVAL_MS` before the next evaluation.
pub proof fn lemma_poll_rules(
    negate: bool,
    raw_passed: bool,
    elapsed_ms: u64,
    timeout_ms: Option<u64>,
    poll_interval_ms: Option<u64>,
)
    ensures
        ({
            let passed = raw_passed != negate;
            let timeout = match timeout_ms {
                Some(t) => t,
                None => 0u64,
            };
            &&& (passed || elapsed_ms >= timeout) ==> poll_step(negate, raw_passed, elapsed_ms, timeout_ms, poll_interval_ms)
                == PollStep::Finish { passed }
            &&& !(passed || elapsed_ms >= timeout) ==> (poll_step(negate, raw_passed, elapsed_ms, timeout_ms, poll_interval_ms)
                matches PollStep::Wait { ms } && ms >= MIN_POLL_INTERVAL_MS)
            &&& (!(passed || elapsed_ms >= timeout) && poll_interval_ms is Some && poll_interval_ms->Some_0
                >= MIN_POLL_INTERVAL_MS) ==> poll_step(negate, raw_passed, elapsed_ms, timeout_ms, poll_interval_ms)
                == PollStep::Wait { ms: poll_interval_ms->Some_0 }
        }),
{
}

/// An element expected present passes exactly when something matched, any
/// count given equals the number of matches, the first match has every
/// property asked for (enabled, focused, offscreen, name exactly, name
/// containing a text ignoring case, name matching the expression, role
/// ignoring ASCII case, control type, bounds within the tolerance), and the
/// resolved element's control patterns show every state asked for (checked,
/// selected, expanded, value exactly, containing a text or matching the
/// expression, read-only, editable as not read-only).
pub proof fn lemma_present_element_passes_iff(
    e: ElementExpectations,
    match_count: nat,
    f: ElementFacts,
    p: PatternFacts,
    name_regex: Option<Seq<char>>,
    value_regex: Option<Seq<char>>,
)
    ensures
        element_failure_list(e, false, match_count, Some(f), Some(p), name_regex, value_regex).len() == 0 <==> ({
            let value = sv(p.value);
            let checked = toggle_value(sv(p.toggle_state));
            let expanded = expansion_value(sv(p.expand_collapse_state));
            &&& match_count > 0
            &&& (e.count is Some ==> match_count == e.count->Some_0)
            &&& (e.enabled is Some ==> f.enabled == e.enabled)
            &&& (e.focused is Some ==> f.focused == e.focused)
            &&& (e.offscreen is Some ==> f.offscreen == e.offscreen)
            &&& (e.name is Some ==> sv(f.name) == sv(e.name))
            &&& (e.name_contains is Some ==> contains_ignoring_case(sv(f.name), e.name_contains->Some_0@))
            &&& (name_regex is Some ==> regex_accepts(sv(f.name), name_regex))
            &&& (e.role is Some ==> role_match(sv(f.role), e.role->Some_0@))
            &&& (e.control_type_id is Some ==> f.control_type_id == e.control_type_id)
            &&& (e.bounds is Some ==> bounds_close(f.bounds, e.bounds->Some_0, or_zero(e.bounds_tolerance)))
            &&& (e.checked is Some ==> checked == e.checked)
            &&& (e.selected is Some ==> p.selected == e.selected)
            &&& (e.expanded is Some ==> expanded == e.expanded)
            &&& (e.value is Some ==> value == sv(e.value))
            &&& (e.value_contains is Some ==> contains_ignoring_case(value, e.value_contains->Some_0@))
            &&& (value_regex is Some ==> regex_accepts(value, value_regex))
            &&& (e.readonly is Some ==> p.value_readonly == e.readonly)
            &&& (e.editable is Some ==> (match p.value_readonly {
                Some(r) => Some(!r),
                None => None,
            }) == e.editable)
        }),
{
}

/// A window passes `assert.window` exactly when it has every property asked
/// for: foreground, state, title and class (exactly, containing a text ignoring
/// case, matching an expression), each coordinate within the tolerance (the one
/// given, at least 0), and responsiveness.
pub proof fn lemma_window_passes_iff(
    w: WindowFacts,
    e: WindowExpectations,
    title_regex: Option<Seq<char>>,
    class_regex: Option<Seq<char>>,
)
    ensures
        window_failure_list(w, e, title_regex, class_regex).len() == 0 <==> ({
            let t = if e.bounds_tolerance is Some && e.bounds_tolerance->Some_0 >= 0 {
                e.bounds_tolerance->Some_0 as int
            } else {
                0int
            };
            &&& (e.foreground is Some ==> w.foreground == e.foreground->Some_0)
            &&& (e.state is Some ==> window_in_state(w, e.state->Some_0))
            &&& (e.title is Some ==> w.title@ == e.title->Some_0@)
            &&& (e.title_contains is Some ==> contains_ignoring_case(Some(w.title@), e.title_contains->Some_0@))
            &&& (title_regex is Some ==> regex_accepts(Some(w.title@), title_regex))
            &&& (e.class_name is Some ==> w.class_name@ == e.class_name->Some_0@)
            &&& (e.class_name_contains is Some ==> contains_ignoring_case(
                Some(w.class_name@),
                e.class_name_contains->Some_0@,
            ))
            &&& (class_regex is Some ==> regex_accepts(Some(w.class_name@), class_regex))
            &&& (e.x is Some ==> -t <= w.x - e.x->Some_0 <= t)
            &&& (e.y is Some ==> -t <= w.y - e.y->Some_0 <= t)
            &&& (e.width is Some ==> -t <= w.width - e.width->Some_0 <= t)
            &&& (e.height is Some ==> -t <= w.height - e.height->Some_0 <= t)
            &&& (e.responsive is Some ==> w.responsive == e.responsive)
        }),
{
}

/// A process passes `assert.process` exactly when it runs or not as expected
/// (and as `running` and `exited` ask), no exit code is asked for, its
/// responsiveness is as asked, and, when limits were read, each reading is
/// known and within its limit.
pub proof fn lemma_process_passes_iff(
    pid: u32,
    absent: bool,
    running: bool,
    e: ProcessExpectations,
    responsive: Option<bool>,
    metrics: Option<Option<ProcessMetricsFacts>>,
)
    ensures
        process_failure_list(pid, absent, running, e, responsive, metrics).len() == 0 <==> ({
            &&& running == !absent
            &&& (e.running is Some ==> running == e.running->Some_0)
            &&& (e.exited is Some ==> !running == e.exited->Some_0)
            &&& e.exit_code is None
            &&& (e.responsive is Some ==> responsive == e.responsive)
            &&& metrics != Some(None::<ProcessMetricsFacts>)
            &&& (metrics matches Some(Some(m)) ==> ({
                &&& (e.max_working_set_bytes is Some ==> m.working_set_bytes is Some
                    && m.working_set_bytes->Some_0 <= e.max_working_set_bytes->Some_0)
                &&& (e.max_handle_count is Some ==> m.handle_count is Some && m.handle_count->Some_0
                    <= e.max_handle_count->Some_0)
                &&& (e.max_gdi_objects is Some ==> m.gdi_object_count is Some && m.gdi_object_count->Some_0
                    <= e.max_gdi_objects->Some_0)
                &&& (e.max_user_objects is Some ==> m.user_object_count is Some && m.user_object_count->Some_0
                    <= e.max_user_objects->Some_0)
            }))
        }),
{
}

} // verus!
