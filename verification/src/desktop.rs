//! Decisions of the dialog, browser and pointer tools, taken over what those
//! tools read of top-level windows, UI Automation elements and monitors.

use vstd::prelude::*;

use crate::checks::{contains_ci, contains_ignoring_case, regex_accepts, regex_matches};
use crate::crash::json_at;
use crate::json::{json_as_str, json_get, JsonValue, JsonView};
use crate::pattern::CompiledRegex;
use crate::requests::DialogListRequest;
use crate::text::{
    concat3, decimal, eq_ignore_ascii_case, lower_seq, owned, spec_contains, spec_decimal, str_contains, str_eq,
    strs_view, sv, to_ascii_lowercase, to_lowercase, unicode_lower,
};

verus! {

/// What the dialog tools read of a top-level window.
#[derive(Debug, Clone, PartialEq, Eq)]
pub struct DialogWindow {
    pub hwnd_hex: String,
    pub pid: u32,
    pub title: String,
    pub class_name: String,
    pub process_name: Option<String>,
    pub foreground: bool,
}

/// The window belongs to `consent.exe` (compared ignoring ASCII case): a UAC
/// consent prompt.
pub open spec fn uac_prompt(w: DialogWindow) -> bool {
    match sv(w.process_name) {
        Some(n) => lower_seq(n) == lower_seq("consent.exe"@),
        None => false,
    }
}

/// The window has the native dialog class `#32770` (ignoring ASCII case).
pub open spec fn native_dialog_class(w: DialogWindow) -> bool {
    lower_seq(w.class_name@) == lower_seq("#32770"@)
}

/// A native dialog or a UAC prompt.
pub open spec fn dialog_like(w: DialogWindow) -> bool {
    native_dialog_class(w) || uac_prompt(w)
}

/// Whether a window is a UAC consent prompt.
pub fn is_uac_prompt(window: &DialogWindow) -> (r: bool)
    ensures
        r == uac_prompt(*window),
{
    match &window.process_name {
        Some(name) => eq_ignore_ascii_case(name.as_str(), "consent.exe"),
        None => false,
    }
}

/// Whether a window looks like a dialog.
pub fn is_dialog_like(window: &DialogWindow) -> (r: bool)
    ensures
        r == dialog_like(*window),
{
    eq_ignore_ascii_case(window.class_name.as_str(), "#32770") || is_uac_prompt(window)
}

/// The kind a dialog is reported as.
pub open spec fn dialog_kind(w: DialogWindow) -> Seq<char> {
    if uac_prompt(w) {
        "uac_prompt"@
    } else if native_dialog_class(w) {
        let t = lower_seq(w.title@);
        if spec_contains(t, "open"@) || spec_contains(t, "save"@) {
            "file_dialog"@
        } else {
            "native_dialog"@
        }
    } else if w.foreground {
        "foreground_window"@
    } else {
        "dialog"@
    }
}

/// Classifies a dialog: `uac_prompt`, `file_dialog` (a native dialog whose
/// title mentions open or save), `native_dialog`, `foreground_window` or
/// `dialog`.
pub fn classify_dialog(window: &DialogWindow) -> (r: &'static str)
    ensures
        r@ == dialog_kind(*window),
{
    if is_uac_prompt(window) {
        "uac_prompt"
    } else if eq_ignore_ascii_case(window.class_name.as_str(), "#32770") {
        let title = to_ascii_lowercase(window.title.as_str());
        if str_contains(title.as_str(), "open") || str_contains(title.as_str(), "save") {
            "file_dialog"
        } else {
            "native_dialog"
        }
    } else if window.foreground {
        "foreground_window"
    } else {
        "dialog"
    }
}

/// Whether `dialogs.list` lists a window: the foreground window when it is
/// dialog-like or the request asks for it anyway; another window only when
/// the request includes background dialogs and it is dialog-like.
pub open spec fn dialog_listed(w: DialogWindow, include_non_foreground: bool, include_non_dialog_foreground: bool) -> bool {
    if w.foreground {
        dialog_like(w) || include_non_dialog_foreground
    } else {
        include_non_foreground && dialog_like(w)
    }
}

/// The indices of the windows `dialogs.list` lists, in order.
pub open spec fn listed_dialogs(ws: Seq<DialogWindow>, a: bool, b: bool) -> Seq<usize>
    decreases ws.len(),
{
    if ws.len() == 0 {
        Seq::empty()
    } else {
        let rest = listed_dialogs(ws.drop_last(), a, b);
        if dialog_listed(ws.last(), a, b) {
            rest.push((ws.len() - 1) as usize)
        } else {
            rest
        }
    }
}

/// Selects the windows `dialogs.list` reports, by index.
pub fn select_listed_dialogs(windows: &Vec<DialogWindow>, request: &DialogListRequest) -> (r: Vec<usize>)
    ensures
        r@ == listed_dialogs(windows@, request.include_non_foreground, request.include_non_dialog_foreground),
{
    let mut r: Vec<usize> = Vec::new();
    let mut i: usize = 0;
    while i < windows.len()
        invariant
            i <= windows@.len(),
            r@ == listed_dialogs(
                windows@.take(i as int),
                request.include_non_foreground,
                request.include_non_dialog_foreground,
            ),
        decreases windows.len() - i,
    {
        assert(windows@.take(i + 1).drop_last() =~= windows@.take(i as int));
        let w = &windows[i];
        let like = is_dialog_like(w);
        let listed = if w.foreground {
            like || request.include_non_dialog_foreground
        } else {
            request.include_non_foreground && like
        };
        if listed {
            r.push(i);
        }
        i += 1;
    }
    assert(windows@.take(windows@.len() as int) =~= windows@);
    r
}

/// The first foreground window, if any.
pub fn first_foreground(windows: &Vec<DialogWindow>) -> (r: Option<usize>)
    ensures
        match r {
            Some(i) => i < windows@.len() && windows@[i as int].foreground && forall|j: int|
                0 <= j < i ==> !(#[trigger] windows@[j]).foreground,
            None => forall|j: int| 0 <= j < windows@.len() ==> !(#[trigger] windows@[j]).foreground,
        },
{
    let mut i: usize = 0;
    while i < windows.len()
        invariant
            i <= windows@.len(),
            forall|j: int| 0 <= j < i ==> !(#[trigger] windows@[j]).foreground,
        decreases windows.len() - i,
    {
        if windows[i].foreground {
            return Some(i);
        }
        i += 1;
    }
    None
}

/// How many levels and elements a dialog's UI Automation scan covers: 8 and
/// 1000 unless the request says otherwise.
pub fn dialog_scan_limits(max_depth: Option<usize>, max_elements: Option<usize>) -> (r: (usize, usize))
    ensures
        r.0 == match max_depth {
            Some(d) => d,
            None => 8,
        },
        r.1 == match max_elements {
            Some(n) => n,
            None => 1000,
        },
{
    let depth = match max_depth {
        Some(d) => d,
        None => 8,
    };
    let elements = match max_elements {
        Some(n) => n,
        None => 1000,
    };
    (depth, elements)
}

/// The window the request names: same process id and the same HWND (ignoring
/// ASCII case).
pub open spec fn names_window(w: DialogWindow, hwnd: Seq<char>, pid: u32) -> bool {
    w.pid == pid && lower_seq(w.hwnd_hex@) == lower_seq(hwnd)
}

/// `i` is the first window the request names.
pub open spec fn first_named(ws: Seq<DialogWindow>, hwnd: Seq<char>, pid: u32, i: int) -> bool {
    &&& 0 <= i < ws.len()
    &&& names_window(ws[i], hwnd, pid)
    &&& forall|j: int| 0 <= j < i ==> !names_window(#[trigger] ws[j], hwnd, pid)
}

/// Why `dialogs.invoke_button` refuses a window (by index where one was found).
#[derive(Debug, Clone, Copy, PartialEq, Eq, Structural)]
pub enum DialogWindowError {
    NotFound,
    NotForeground(usize),
    NotDialog(usize),
    UacPrompt(usize),
}

impl DialogWindowError {
    /// The error code reported.
    pub fn code(&self) -> (r: &'static str)
        ensures
            r@ == match *self {
                DialogWindowError::NotFound => "dialog_not_found"@,
                DialogWindowError::NotForeground(_) => "dialog_not_foreground"@,
                DialogWindowError::NotDialog(_) => "foreground_window_not_dialog"@,
                DialogWindowError::UacPrompt(_) => "uac_prompt_not_automatable"@,
            },
    {
        match self {
            DialogWindowError::NotFound => "dialog_not_found",
            DialogWindowError::NotForeground(_) => "dialog_not_foreground",
            DialogWindowError::NotDialog(_) => "foreground_window_not_dialog",
            DialogWindowError::UacPrompt(_) => "uac_prompt_not_automatable",
        }
    }

    /// The message reported.
    pub fn message(&self) -> (r: &'static str)
        ensures
            r@ == match *self {
                DialogWindowError::NotFound => "no current top-level window matched the requested HWND and PID"@,
                DialogWindowError::NotForeground(_) => "dialogs.invoke_button only acts on the current foreground dialog"@,
                DialogWindowError::NotDialog(_) =>
                    "the requested foreground window is not recognized as a native dialog; set allow_non_dialog only for explicit diagnostics"@,
                DialogWindowError::UacPrompt(_) =>
                    "UAC consent prompts are not automated; approve or deny them manually on the secure desktop"@,
            },
    {
        match self {
            DialogWindowError::NotFound => "no current top-level window matched the requested HWND and PID",
            DialogWindowError::NotForeground(_) => "dialogs.invoke_button only acts on the current foreground dialog",
            DialogWindowError::NotDialog(_) =>
                "the requested foreground window is not recognized as a native dialog; set allow_non_dialog only for explicit diagnostics",
            DialogWindowError::UacPrompt(_) =>
                "UAC consent prompts are not automated; approve or deny them manually on the secure desktop",
        }
    }
}

/// Finds the window a `dialogs.invoke_button` request names: the first with
/// its HWND and PID, which must be the foreground window and, unless the
/// request allows any window, dialog-like.
pub fn resolve_dialog_window(windows: &Vec<DialogWindow>, hwnd: &str, pid: u32, allow_non_dialog: bool) -> (r: Result<
    usize,
    DialogWindowError,
>)
    ensures
        (r == Err::<usize, DialogWindowError>(DialogWindowError::NotFound)) <==> (forall|j: int|
            0 <= j < windows@.len() ==> !names_window(#[trigger] windows@[j], hwnd@, pid)),
        r matches Ok(i) ==> first_named(windows@, hwnd@, pid, i as int) && windows@[i as int].foreground && (
        allow_non_dialog || dialog_like(windows@[i as int])),
        r matches Err(DialogWindowError::NotForeground(i)) ==> first_named(windows@, hwnd@, pid, i as int)
            && !windows@[i as int].foreground,
        r matches Err(DialogWindowError::NotDialog(i)) ==> first_named(windows@, hwnd@, pid, i as int)
            && windows@[i as int].foreground && !allow_non_dialog && !dialog_like(windows@[i as int]),
        !(r matches Err(DialogWindowError::UacPrompt(_))),
{
    let mut i: usize = 0;
    while i < windows.len()
        invariant
            i <= windows@.len(),
            forall|j: int| 0 <= j < i ==> !names_window(#[trigger] windows@[j], hwnd@, pid),
        decreases windows.len() - i,
    {
        let w = &windows[i];
        if w.pid == pid && eq_ignore_ascii_case(w.hwnd_hex.as_str(), hwnd) {
            if !w.foreground {
                return Err(DialogWindowError::NotForeground(i));
            }
            if !allow_non_dialog && !is_dialog_like(w) {
                return Err(DialogWindowError::NotDialog(i));
            }
            return Ok(i);
        }
        i += 1;
    }
    Err(DialogWindowError::NotFound)
}

/// The window `dialogs.invoke_button` may act on: the one `resolve_dialog_window`
/// finds, refused when it is a UAC consent prompt.
pub fn dialog_for_invoke(windows: &Vec<DialogWindow>, hwnd: &str, pid: u32, allow_non_dialog: bool) -> (r: Result<
    usize,
    DialogWindowError,
>)
    ensures
        (r == Err::<usize, DialogWindowError>(DialogWindowError::NotFound)) <==> (forall|j: int|
            0 <= j < windows@.len() ==> !names_window(#[trigger] windows@[j], hwnd@, pid)),
        r matches Ok(i) ==> first_named(windows@, hwnd@, pid, i as int) && windows@[i as int].foreground && (
        allow_non_dialog || dialog_like(windows@[i as int])) && !uac_prompt(windows@[i as int]),
        r matches Err(DialogWindowError::NotForeground(i)) ==> first_named(windows@, hwnd@, pid, i as int)
            && !windows@[i as int].foreground,
        r matches Err(DialogWindowError::NotDialog(i)) ==> first_named(windows@, hwnd@, pid, i as int)
            && windows@[i as int].foreground && !allow_non_dialog && !dialog_like(windows@[i as int]),
        r matches Err(DialogWindowError::UacPrompt(i)) ==> first_named(windows@, hwnd@, pid, i as int)
            && windows@[i as int].foreground && uac_prompt(windows@[i as int]),
{
    match resolve_dialog_window(windows, hwnd, pid, allow_non_dialog) {
        Ok(i) => {
            if is_uac_prompt(&windows[i]) {
                Err(DialogWindowError::UacPrompt(i))
            } else {
                Ok(i)
            }
        },
        Err(e) => Err(e),
    }
}

/// A UAC consent prompt is dialog-like, is reported as `uac_prompt`, and is
/// listed by `dialogs.list` whenever it is the foreground window.
pub proof fn lemma_uac_prompt_is_dialog(w: DialogWindow)
    requires
        uac_prompt(w),
    ensures
        dialog_like(w),
        dialog_kind(w) == "uac_prompt"@,
        dialog_listed(w, false, false) == w.foreground,
{
}

/// A UI Automation role `dialogs.invoke_button` may invoke: `Button` or
/// `SplitButton`.
pub open spec fn button_role(role: Option<Seq<char>>) -> bool {
    role == Some("Button"@) || role == Some("SplitButton"@)
}

/// Whether an element with this role is a button.
pub fn is_button_element(role: Option<&str>) -> (r: bool)
    ensures
        r == button_role(
            match role {
                Some(s) => Some(s@),
                None => None,
            },
        ),
{
    match role {
        Some(s) => crate::text::str_eq(s, "Button") || crate::text::str_eq(s, "SplitButton"),
        None => false,
    }
}

/// What the button checks read of a UI Automation element.
#[derive(Debug, Clone, PartialEq, Eq)]
pub struct ButtonCandidate {
    pub role: Option<String>,
    pub offscreen: Option<bool>,
}

/// How a button was looked up: by element reference (found or not), by a
/// selector (with what it matched), or not at all.
#[derive(Debug, Clone, PartialEq, Eq)]
pub enum ButtonLookup {
    Reference(Option<ButtonCandidate>),
    Selector(Vec<ButtonCandidate>),
    Missing,
}

/// Why a dialog button cannot be invoked.
#[derive(Debug, Clone, Copy, PartialEq, Eq, Structural)]
pub enum ButtonTargetError {
    SelectorRequired,
    NoSelectorMatch,
    ReferenceNotFound,
    Ambiguous(usize),
    NotButton,
    Offscreen,
}

impl ButtonTargetError {
    /// The error code reported.
    pub fn code(&self) -> (r: &'static str)
        ensures
            r@ == match *self {
                ButtonTargetError::SelectorRequired => "dialog_button_selector_required"@,
                ButtonTargetError::NoSelectorMatch => "dialog_button_not_found"@,
                ButtonTargetError::ReferenceNotFound => "dialog_button_not_found"@,
                ButtonTargetError::Ambiguous(_) => "dialog_button_ambiguous"@,
                ButtonTargetError::NotButton => "dialog_target_not_button"@,
                ButtonTargetError::Offscreen => "dialog_button_offscreen"@,
            },
    {
        match self {
            ButtonTargetError::SelectorRequired => "dialog_button_selector_required",
            ButtonTargetError::NoSelectorMatch => "dialog_button_not_found",
            ButtonTargetError::ReferenceNotFound => "dialog_button_not_found",
            ButtonTargetError::Ambiguous(_) => "dialog_button_ambiguous",
            ButtonTargetError::NotButton => "dialog_target_not_button",
            ButtonTargetError::Offscreen => "dialog_button_offscreen",
        }
    }
}

/// The outcome of a button lookup, before the button checks.
pub open spec fn lookup_found(lookup: ButtonLookup) -> Result<ButtonCandidate, ButtonTargetError> {
    match lookup {
        ButtonLookup::Reference(Some(c)) => Ok(c),
        ButtonLookup::Reference(None) => Err(ButtonTargetError::ReferenceNotFound),
        ButtonLookup::Selector(ms) => if ms@.len() == 1 {
            Ok(ms@[0])
        } else if ms@.len() == 0 {
            Err(ButtonTargetError::NoSelectorMatch)
        } else {
            Err(ButtonTargetError::Ambiguous(ms@.len() as usize))
        },
        ButtonLookup::Missing => Err(ButtonTargetError::SelectorRequired),
    }
}

/// The button a lookup settles on: the referenced element, or the one element
/// a selector matched; it must be a button, and on screen unless allowed.
pub open spec fn button_target(lookup: ButtonLookup, allow_offscreen: bool) -> Result<ButtonCandidate, ButtonTargetError> {
    match lookup_found(lookup) {
        Ok(c) => if !button_role(sv(c.role)) {
            Err(ButtonTargetError::NotButton)
        } else if !allow_offscreen && c.offscreen == Some(true) {
            Err(ButtonTargetError::Offscreen)
        } else {
            Ok(c)
        },
        Err(e) => Err(e),
    }
}

/// Settles the button `dialogs.invoke_button` acts on.
pub fn resolve_button_target(lookup: ButtonLookup, allow_offscreen: bool) -> (r: Result<ButtonCandidate, ButtonTargetError>)
    ensures
        r == button_target(lookup, allow_offscreen),
{
    let ghost l = lookup;
    let found = match lookup {
        ButtonLookup::Reference(Some(c)) => c,
        ButtonLookup::Reference(None) => return Err(ButtonTargetError::ReferenceNotFound),
        ButtonLookup::Selector(mut ms) => {
            if ms.len() == 1 {
                ms.remove(0)
            } else if ms.len() == 0 {
                return Err(ButtonTargetError::NoSelectorMatch);
            } else {
                return Err(ButtonTargetError::Ambiguous(ms.len()));
            }
        },
        ButtonLookup::Missing => return Err(ButtonTargetError::SelectorRequired),
    };
    assert(lookup_found(l) == Ok::<ButtonCandidate, ButtonTargetError>(found));
    let role = match &found.role {
        Some(s) => Some(s.as_str()),
        None => None,
    };
    if !is_button_element(role) {
        return Err(ButtonTargetError::NotButton);
    }
    if !allow_offscreen && found.offscreen == Some(true) {
        return Err(ButtonTargetError::Offscreen);
    }
    Ok(found)
}

/// `needle` occurs in `hay`, both lowercased as `str::to_lowercase` does.
pub open spec fn contains_lowercased(hay: Seq<char>, needle: Seq<char>) -> bool {
    spec_contains(unicode_lower(hay), unicode_lower(needle))
}

/// Whether `hay` contains `needle`, both lowercased.
pub fn contains_lowercase(hay: &str, needle: &str) -> (r: bool)
    ensures
        r == contains_lowercased(hay@, needle@),
{
    let h = to_lowercase(hay);
    let n = to_lowercase(needle);
    str_contains(h.as_str(), n.as_str())
}

/// A window title satisfies a navigation wait: it contains the wanted text and
/// not the unwanted one (each ignoring case, when given).
pub open spec fn navigation_satisfied(title: Seq<char>, contains: Option<Seq<char>>, not_contains: Option<Seq<char>>) -> bool {
    &&& match contains {
        Some(n) => contains_lowercased(title, n),
        None => true,
    }
    &&& match not_contains {
        Some(n) => !contains_lowercased(title, n),
        None => true,
    }
}

/// Whether a window title satisfies a navigation wait.
pub fn navigation_matched(title: &str, contains: Option<&str>, not_contains: Option<&str>) -> (r: bool)
    ensures
        r == navigation_satisfied(
            title@,
            match contains {
                Some(s) => Some(s@),
                None => None,
            },
            match not_contains {
                Some(s) => Some(s@),
                None => None,
            },
        ),
{
    let contains_ok = match contains {
        Some(n) => contains_lowercase(title, n),
        None => true,
    };
    let not_contains_ok = match not_contains {
        Some(n) => !contains_lowercase(title, n),
        None => true,
    };
    contains_ok && not_contains_ok
}

/// How long `browser.wait_for_navigation` waits: 10 s unless the request says.
pub fn navigation_timeout_ms(requested: Option<u64>) -> (r: u64)
    ensures
        r == match requested {
            Some(t) => t,
            None => 10_000,
        },
{
    match requested {
        Some(t) => t,
        None => 10_000,
    }
}

/// How long `browser.wait_for_navigation` sleeps between polls: 100 ms unless
/// the request says, and never under 25 ms.
pub fn navigation_poll_interval_ms(requested: Option<u64>) -> (r: u64)
    ensures
        r >= 25,
        r == match requested {
            Some(t) => if t < 25 {
                25
            } else {
                t
            },
            None => 100,
        },
{
    let t = match requested {
        Some(t) => t,
        None => 100,
    };
    if t < 25 {
        25
    } else {
        t
    }
}

/// What a navigation wait does after one look at the window.
#[derive(Debug, Clone, Copy, PartialEq, Eq, Structural)]
pub enum NavigationStep {
    Matched,
    TimedOut,
    Wait,
}

/// The next step of a navigation wait: done when the title matched, timed out
/// once the timeout has elapsed, else another poll.
pub fn navigation_step(matched: bool, elapsed_ms: u64, timeout_ms: u64) -> (r: NavigationStep)
    ensures
        r == (if matched {
            NavigationStep::Matched
        } else if elapsed_ms >= timeout_ms {
            NavigationStep::TimedOut
        } else {
            NavigationStep::Wait
        }),
{
    if matched {
        NavigationStep::Matched
    } else if elapsed_ms >= timeout_ms {
        NavigationStep::TimedOut
    } else {
        NavigationStep::Wait
    }
}

/// The browsers a window can be identified as.
#[derive(Debug, Clone, Copy, PartialEq, Eq, Structural)]
pub enum BrowserKind {
    Chrome,
    Edge,
    Firefox,
    Unknown,
}

/// The lowercase name of a browser kind.
pub fn browser_kind_name(kind: BrowserKind) -> (r: &'static str)
    ensures
        r@ == match kind {
            BrowserKind::Chrome => "chrome"@,
            BrowserKind::Edge => "edge"@,
            BrowserKind::Firefox => "firefox"@,
            BrowserKind::Unknown => "unknown"@,
        },
{
    match kind {
        BrowserKind::Chrome => "chrome",
        BrowserKind::Edge => "edge",
        BrowserKind::Firefox => "firefox",
        BrowserKind::Unknown => "unknown",
    }
}

/// The variant name of a browser kind, as `{:?}` shows it.
pub open spec fn browser_kind_label(kind: BrowserKind) -> Seq<char> {
    match kind {
        BrowserKind::Chrome => "Chrome"@,
        BrowserKind::Edge => "Edge"@,
        BrowserKind::Firefox => "Firefox"@,
        BrowserKind::Unknown => "Unknown"@,
    }
}

fn browser_kind_debug(kind: BrowserKind) -> (r: &'static str)
    ensures
        r@ == browser_kind_label(kind),
{
    match kind {
        BrowserKind::Chrome => "Chrome",
        BrowserKind::Edge => "Edge",
        BrowserKind::Firefox => "Firefox",
        BrowserKind::Unknown => "Unknown",
    }
}

/// The failures `browser.assert` reports, in order: the wrong browser, a title
/// without the wanted text, a class name without the wanted text (each
/// ignoring case).
pub open spec fn browser_failures(
    expected: Option<BrowserKind>,
    actual: BrowserKind,
    title: Seq<char>,
    class_name: Seq<char>,
    title_contains: Option<Seq<char>>,
    class_name_contains: Option<Seq<char>>,
) -> Seq<Seq<char>> {
    let f1: Seq<Seq<char>> = match expected {
        Some(b) => if b != actual {
            seq!["expected browser "@ + browser_kind_label(b) + ", got "@ + browser_kind_label(actual)]
        } else {
            Seq::empty()
        },
        None => Seq::empty(),
    };
    let f2: Seq<Seq<char>> = match title_contains {
        Some(n) => if !contains_lowercased(title, n) {
            seq!["title did not contain "@ + n]
        } else {
            Seq::empty()
        },
        None => Seq::empty(),
    };
    let f3: Seq<Seq<char>> = match class_name_contains {
        Some(n) => if !contains_lowercased(class_name, n) {
            seq!["class name did not contain "@ + n]
        } else {
            Seq::empty()
        },
        None => Seq::empty(),
    };
    f1 + f2 + f3
}

/// Checks a browser window against `browser.assert`'s expectations.
pub fn browser_assert_failures(
    expected: Option<BrowserKind>,
    actual: BrowserKind,
    title: &str,
    class_name: &str,
    title_contains: Option<&str>,
    class_name_contains: Option<&str>,
) -> (r: Vec<String>)
    ensures
        crate::text::strs_view(r@) == browser_failures(
            expected,
            actual,
            title@,
            class_name@,
            match title_contains {
                Some(s) => Some(s@),
                None => None,
            },
            match class_name_contains {
                Some(s) => Some(s@),
                None => None,
            },
        ),
{
    let mut r: Vec<String> = Vec::new();
    if let Some(b) = expected {
        if b != actual {
            let mut m = crate::text::owned("expected browser ");
            crate::text::push_str(&mut m, browser_kind_debug(b));
            crate::text::push_str(&mut m, ", got ");
            crate::text::push_str(&mut m, browser_kind_debug(actual));
            r.push(m);
        }
    }
    let ghost r1 = crate::text::strs_view(r@);
    if let Some(n) = title_contains {
        if !contains_lowercase(title, n) {
            r.push(crate::text::concat2("title did not contain ", n));
        }
    }
    let ghost r2 = crate::text::strs_view(r@);
    if let Some(n) = class_name_contains {
        if !contains_lowercase(class_name, n) {
            r.push(crate::text::concat2("class name did not contain ", n));
        }
    }
    proof {
        let tc = match title_contains {
            Some(s) => Some(s@),
            None => None::<Seq<char>>,
        };
        let cc = match class_name_contains {
            Some(s) => Some(s@),
            None => None::<Seq<char>>,
        };
        let f = browser_failures(expected, actual, title@, class_name@, tc, cc);
        assert(crate::text::strs_view(r@) =~= f);
    }
    r
}

/// What the pointer tools read of a monitor: its rectangle in screen pixels.
#[derive(Debug, Clone, Copy, PartialEq, Eq, Structural)]
pub struct MonitorArea {
    pub x: i32,
    pub y: i32,
    pub width: i32,
    pub height: i32,
}

/// A screen point lies on a monitor (left and top edges included).
pub open spec fn on_monitor(m: MonitorArea, x: int, y: int) -> bool {
    m.x <= x < m.x + m.width && m.y <= y < m.y + m.height
}

/// The first monitor a screen point lies on, by index.
pub fn monitor_for_point(monitors: &Vec<MonitorArea>, x: i32, y: i32) -> (r: Option<usize>)
    ensures
        match r {
            Some(i) => i < monitors@.len() && on_monitor(monitors@[i as int], x as int, y as int) && forall|j: int|
                0 <= j < i ==> !on_monitor(#[trigger] monitors@[j], x as int, y as int),
            None => forall|j: int|
                0 <= j < monitors@.len() ==> !on_monitor(#[trigger] monitors@[j], x as int, y as int),
        },
{
    let mut i: usize = 0;
    while i < monitors.len()
        invariant
            i <= monitors@.len(),
            forall|j: int| 0 <= j < i ==> !on_monitor(#[trigger] monitors@[j], x as int, y as int),
        decreases monitors.len() - i,
    {
        let m = monitors[i];
        let right: i64 = m.x as i64 + m.width as i64;
        let bottom: i64 = m.y as i64 + m.height as i64;
        if x >= m.x && (x as i64) < right && y >= m.y && (y as i64) < bottom {
            return Some(i);
        }
        i += 1;
    }
    None
}

/// Whether a pointer action is refused because its point is not on the bound
/// window: by default it is, unless the request turns the check off.
pub fn pointer_preflight_rejects(fail_if_outside_bound: Option<bool>, belongs_to_bound_window: bool) -> (r: bool)
    ensures
        r == (match fail_if_outside_bound {
            Some(f) => f,
            None => true,
        } && !belongs_to_bound_window),
{
    let fail = match fail_if_outside_bound {
        Some(f) => f,
        None => true,
    };
    fail && !belongs_to_bound_window
}

/// How long `input.delay` sleeps: what was asked, at most one minute.
pub fn delay_duration_ms(requested: u64) -> (r: u64)
    ensures
        r == if requested < 60_000 {
            requested
        } else {
            60_000
        },
{
    if requested < 60_000 {
        requested
    } else {
        60_000
    }
}

/// What `assert.dialog` looks for in a dialog: an exact title, text in the
/// title, a title regex, text anywhere in the dialog, and button names.
#[derive(Debug, Clone, Default, PartialEq)]
pub struct DialogExpectations {
    pub title: Option<String>,
    pub title_contains: Option<String>,
    pub title_regex: Option<String>,
    pub text_contains: Option<String>,
    pub button_names: Vec<String>,
}

/// A listed dialog's window title (empty when it has none).
pub open spec fn dialog_title(dialog: JsonView) -> Seq<char> {
    match json_as_str(json_at(json_get(dialog, "window"@), "title"@)) {
        Some(t) => t,
        None => Seq::empty(),
    }
}

/// A listed dialog matches: its title equals the expected one, contains the
/// expected text and matches the regex (each when given), and its JSON text
/// contains the expected text and every button name (ignoring ASCII case).
pub open spec fn dialog_match(dialog: JsonView, text: Seq<char>, e: DialogExpectations, regex: Option<Seq<char>>) -> bool {
    let title = dialog_title(dialog);
    &&& match sv(e.title) {
        Some(t) => title == t,
        None => true,
    }
    &&& match sv(e.title_contains) {
        Some(n) => contains_ignoring_case(Some(title), n),
        None => true,
    }
    &&& (e.title_regex is Some ==> regex_accepts(Some(title), regex))
    &&& match sv(e.text_contains) {
        Some(n) => contains_ignoring_case(Some(text), n),
        None => true,
    }
    &&& forall|i: int| 0 <= i < e.button_names@.len() ==> contains_ignoring_case(Some(text), #[trigger] e.button_names@[i]@)
}

/// Whether a listed dialog matches `assert.dialog`'s expectations, given its
/// JSON text and the compiled title regex.
pub fn dialog_matches(dialog: &JsonValue, text: &str, expected: &DialogExpectations, title_regex: Option<&CompiledRegex>) -> (r:
    bool)
    ensures
        r == dialog_match(
            dialog@,
            text@,
            *expected,
            match title_regex {
                Some(re) => Some(re@),
                None => None,
            },
        ),
{
    let title: &str = match dialog.get("window") {
        Some(w) => match w.get("title") {
            Some(t) => match t.as_str() {
                Some(s) => s,
                None => "",
            },
            None => "",
        },
        None => "",
    };
    assert(title@ == dialog_title(dialog@)) by {
        reveal_strlit("");
    };
    if let Some(t) = &expected.title {
        if !str_eq(title, t.as_str()) {
            return false;
        }
    }
    if let Some(n) = &expected.title_contains {
        if !contains_ci(Some(title), n.as_str()) {
            return false;
        }
    }
    if expected.title_regex.is_some() && !regex_matches(Some(title), title_regex) {
        return false;
    }
    if let Some(n) = &expected.text_contains {
        if !contains_ci(Some(text), n.as_str()) {
            return false;
        }
    }
    let mut i: usize = 0;
    while i < expected.button_names.len()
        invariant
            i <= expected.button_names@.len(),
            forall|j: int| 0 <= j < i ==> contains_ignoring_case(Some(text@), #[trigger] expected.button_names@[j]@),
        decreases expected.button_names.len() - i,
    {
        if !contains_ci(Some(text), expected.button_names[i].as_str()) {
            return false;
        }
        i += 1;
    }
    true
}

/// The failures of `assert.no_dialog`: a secure desktop, and any dialog listed.
pub open spec fn no_dialog_failures(secure_active: bool, dialog_count: nat) -> Seq<Seq<char>> {
    let f1: Seq<Seq<char>> = if secure_active {
        seq!["secure desktop appears active; UAC prompts cannot be automated"@]
    } else {
        Seq::empty()
    };
    let f2: Seq<Seq<char>> = if dialog_count > 0 {
        seq!["found "@ + spec_decimal(dialog_count) + " dialog(s)"@]
    } else {
        Seq::empty()
    };
    f1 + f2
}

/// Checks that no dialog is showing.
pub fn no_dialog_attempt_failures(secure_active: bool, dialog_count: usize) -> (r: Vec<String>)
    ensures
        strs_view(r@) == no_dialog_failures(secure_active, dialog_count as nat),
{
    let mut r: Vec<String> = Vec::new();
    if secure_active {
        r.push(owned("secure desktop appears active; UAC prompts cannot be automated"));
    }
    let ghost r1 = strs_view(r@);
    if dialog_count > 0 {
        let n = decimal(dialog_count as u64);
        r.push(concat3("found ", n.as_str(), " dialog(s)"));
    }
    assert(strs_view(r@) =~= no_dialog_failures(secure_active, dialog_count as nat));
    r
}

/// The failures of `assert.dialog` for how many listed dialogs matched.
pub open spec fn dialog_presence_failures(absent: bool, match_count: nat) -> Seq<Seq<char>> {
    if absent && match_count > 0 {
        seq!["expected absent, found "@ + spec_decimal(match_count) + " matching dialog(s)"@]
    } else if !absent && match_count == 0 {
        seq!["expected matching dialog, found none"@]
    } else {
        Seq::empty()
    }
}

/// Checks how many dialogs matched against whether one is expected.
pub fn dialog_attempt_failures(absent: bool, match_count: usize) -> (r: Vec<String>)
    ensures
        strs_view(r@) == dialog_presence_failures(absent, match_count as nat),
{
    let mut r: Vec<String> = Vec::new();
    if absent {
        if match_count > 0 {
            let n = decimal(match_count as u64);
            r.push(concat3("expected absent, found ", n.as_str(), " matching dialog(s)"));
        }
    } else if match_count == 0 {
        r.push(owned("expected matching dialog, found none"));
    }
    assert(strs_view(r@) =~= dialog_presence_failures(absent, match_count as nat));
    r
}

} // verus!
