//! What the crash assertion reads of a `diagnostics.crash_report` result: which
//! providers could not answer, how many events and dumps there were, and
//! whether any of them is recent.

use vstd::prelude::*;

use crate::json::{
    array_items, json_as_bool, json_as_str, json_get, lemma_array_view, lemma_object_view, object_entries,
    JsonNumber, JsonValue, JsonView,
};
use crate::text::owned;

verus! {

/// Member `key` of a value that may be missing.
pub open spec fn json_at(v: Option<JsonView>, key: Seq<char>) -> Option<JsonView> {
    match v {
        Some(x) => json_get(x, key),
        None => None,
    }
}

/// The JSON form of an optional boolean: the boolean, or `null`.
pub open spec fn opt_bool_view(b: Option<bool>) -> JsonView {
    match b {
        Some(x) => JsonView::Bool(x),
        None => JsonView::Null,
    }
}

/// What a report says of a provider's `provider_enabled` flag.
pub open spec fn provider_enabled(report: JsonView, provider: Seq<char>) -> Option<bool> {
    json_as_bool(json_at(json_get(report, provider), "provider_enabled"@))
}

/// The diagnostic for a provider that was not enabled.
pub open spec fn unavailable_entry(report: JsonView, provider: Seq<char>) -> JsonView {
    let error = match json_at(json_get(report, provider), "error"@) {
        Some(e) => e,
        None => JsonView::Null,
    };
    JsonView::Object(
        seq![
            ("kind"@, JsonView::Str("provider_unavailable"@)),
            ("provider"@, JsonView::Str(provider)),
            ("provider_enabled"@, opt_bool_view(provider_enabled(report, provider))),
            ("error"@, error),
        ],
    )
}

/// The diagnostic for a report that is not `ok: true`.
pub open spec fn report_error_entry() -> JsonView {
    JsonView::Object(
        seq![
            ("kind"@, JsonView::Str("provider_error"@)),
            ("provider"@, JsonView::Str("diagnostics.crash_report"@)),
            ("message"@, JsonView::Str("crash_report returned ok=false or omitted ok"@)),
        ],
    )
}

/// The provider diagnostics of a report, in order: one when the report is not
/// `ok: true`, then one for each of `event_log` and `wer` whose
/// `provider_enabled` is not `true`.
pub open spec fn provider_diagnostics(report: JsonView) -> Seq<JsonView> {
    let d0: Seq<JsonView> = if json_as_bool(json_get(report, "ok"@)) != Some(true) {
        seq![report_error_entry()]
    } else {
        Seq::empty()
    };
    let d1: Seq<JsonView> = if provider_enabled(report, "event_log"@) != Some(true) {
        seq![unavailable_entry(report, "event_log"@)]
    } else {
        Seq::empty()
    };
    let d2: Seq<JsonView> = if provider_enabled(report, "wer"@) != Some(true) {
        seq![unavailable_entry(report, "wer"@)]
    } else {
        Seq::empty()
    };
    d0 + d1 + d2
}

fn object_of(es: Vec<(String, JsonValue)>) -> (r: JsonValue)
    ensures
        r@ == JsonView::Object(object_entries(es@)),
{
    proof {
        lemma_object_view(es);
    }
    JsonValue::Object(es)
}

fn opt_bool_value(b: Option<bool>) -> (r: JsonValue)
    ensures
        r@ == opt_bool_view(b),
{
    match b {
        Some(x) => JsonValue::Bool(x),
        None => JsonValue::Null,
    }
}

fn member_at<'a>(v: Option<&'a JsonValue>, key: &str) -> (r: Option<&'a JsonValue>)
    ensures
        match r {
            Some(x) => json_at(
                match v {
                    Some(y) => Some(y@),
                    None => None,
                },
                key@,
            ) == Some(x@),
            None => json_at(
                match v {
                    Some(y) => Some(y@),
                    None => None,
                },
                key@,
            ) is None,
        },
{
    match v {
        Some(x) => x.get(key),
        None => None,
    }
}

fn provider_flag(report: &JsonValue, provider: &str) -> (r: Option<bool>)
    ensures
        r == provider_enabled(report@, provider@),
{
    match member_at(report.get(provider), "provider_enabled") {
        Some(v) => v.as_bool(),
        None => None,
    }
}

fn unavailable_value(report: &JsonValue, provider: &str) -> (r: JsonValue)
    ensures
        r@ == unavailable_entry(report@, provider@),
{
    let enabled = provider_flag(report, provider);
    let error = match member_at(report.get(provider), "error") {
        Some(e) => e.clone_value(),
        None => JsonValue::Null,
    };
    assert(error@ == match json_at(json_get(report@, provider@), "error"@) {
        Some(e) => e,
        None => JsonView::Null,
    });
    let mut es: Vec<(String, JsonValue)> = Vec::new();
    es.push((owned("kind"), JsonValue::String(owned("provider_unavailable"))));
    es.push((owned("provider"), JsonValue::String(owned(provider))));
    es.push((owned("provider_enabled"), opt_bool_value(enabled)));
    let ghost ev = error@;
    es.push((owned("error"), error));
    assert(object_entries(es@) =~= seq![
        ("kind"@, JsonView::Str("provider_unavailable"@)),
        ("provider"@, JsonView::Str(provider@)),
        ("provider_enabled"@, opt_bool_view(enabled)),
        ("error"@, ev),
    ]);
    object_of(es)
}

/// Lists the providers of a crash report that could not answer.
pub fn crash_report_provider_diagnostics(report: &JsonValue) -> (r: Vec<JsonValue>)
    ensures
        array_items(r@) == provider_diagnostics(report@),
{
    let mut r: Vec<JsonValue> = Vec::new();
    let ok = match report.get("ok") {
        Some(v) => v.as_bool(),
        None => None,
    };
    if ok != Some(true) {
        let mut es: Vec<(String, JsonValue)> = Vec::new();
        es.push((owned("kind"), JsonValue::String(owned("provider_error"))));
        es.push((owned("provider"), JsonValue::String(owned("diagnostics.crash_report"))));
        es.push((owned("message"), JsonValue::String(owned("crash_report returned ok=false or omitted ok"))));
        assert(object_entries(es@) =~= seq![
            ("kind"@, JsonView::Str("provider_error"@)),
            ("provider"@, JsonView::Str("diagnostics.crash_report"@)),
            ("message"@, JsonView::Str("crash_report returned ok=false or omitted ok"@)),
        ]);
        r.push(object_of(es));
    }
    let ghost r0 = array_items(r@);
    if provider_flag(report, "event_log") != Some(true) {
        r.push(unavailable_value(report, "event_log"));
    }
    let ghost r1 = array_items(r@);
    if provider_flag(report, "wer") != Some(true) {
        r.push(unavailable_value(report, "wer"));
    }
    assert(array_items(r@) =~= provider_diagnostics(report@));
    r
}

/// The number of items of an array value; 0 for anything else.
pub open spec fn array_count(v: Option<JsonView>) -> nat {
    match v {
        Some(JsonView::Array(a)) => a.len(),
        _ => 0,
    }
}

/// The instant an RFC 3339 timestamp names, in milliseconds since the Unix
/// epoch, if the text is one.
pub uninterp spec fn rfc3339_millis(text: Seq<char>) -> Option<i64>;

/// Parses an RFC 3339 timestamp to milliseconds since the Unix epoch.
///
/// Trusted: calls chrono's `DateTime::parse_from_rfc3339` and, on success,
/// `timestamp_millis`; the result depends on the text alone (the offset is
/// part of it) and is named `rfc3339_millis`.
#[verifier::external_body]
fn parse_rfc3339_millis(text: &str) -> (r: Option<i64>)
    ensures
        r == rfc3339_millis(text@),
{
    match chrono::DateTime::parse_from_rfc3339(text) {
        Ok(time) => Some(time.timestamp_millis()),
        Err(_) => None,
    }
}

/// When an event log entry was created (its `system.time_created`), in Unix
/// milliseconds, instants before the epoch counted as 0.
pub open spec fn entry_time_ms(entry: JsonView) -> Option<u64> {
    match json_as_str(json_at(json_get(entry, "system"@), "time_created"@)) {
        Some(s) => match rfc3339_millis(s) {
            Some(t) => Some(
                if t < 0 {
                    0u64
                } else {
                    t as u64
                },
            ),
            None => None,
        },
        None => None,
    }
}

/// An event counts as recent when no marker is given, when its time is not
/// known, or when it is no earlier than the marker.
pub open spec fn entry_recent(entry: JsonView, marker_unix_ms: Option<u64>) -> bool {
    match marker_unix_ms {
        None => true,
        Some(m) => match entry_time_ms(entry) {
            Some(t) => t >= m,
            None => true,
        },
    }
}

/// Some entry of a list is recent.
pub open spec fn any_entry_recent(es: Seq<JsonView>, marker_unix_ms: Option<u64>) -> bool {
    exists|i: int| 0 <= i < es.len() && entry_recent(#[trigger] es[i], marker_unix_ms)
}

/// Some entry of an event list is recent (nothing is, when it is not a list).
pub open spec fn some_recent(entries: Option<JsonView>, marker_unix_ms: Option<u64>) -> bool {
    match entries {
        Some(JsonView::Array(es)) => any_entry_recent(es, marker_unix_ms),
        _ => false,
    }
}

/// A report has recent entries: a recent event log entry, or any WER dump.
pub open spec fn recent_entries(report: JsonView, marker_unix_ms: Option<u64>) -> bool {
    some_recent(json_at(json_get(report, "event_log"@), "entries"@), marker_unix_ms)
        || array_count(json_at(json_get(report, "wer"@), "dump_paths"@)) > 0
}

fn event_time_ms(entry: &JsonValue) -> (r: Option<u64>)
    ensures
        r == entry_time_ms(entry@),
{
    let created = match member_at(entry.get("system"), "time_created") {
        Some(v) => v.as_str(),
        None => None,
    };
    match created {
        Some(s) => match parse_rfc3339_millis(s) {
            Some(t) => Some(
                if t < 0 {
                    0u64
                } else {
                    t as u64
                },
            ),
            None => None,
        },
        None => None,
    }
}

fn any_recent(entries: &Vec<JsonValue>, marker_unix_ms: Option<u64>) -> (r: bool)
    ensures
        r == some_recent(Some(JsonView::Array(array_items(entries@))), marker_unix_ms),
{
    let ghost items = array_items(entries@);
    let mut i: usize = 0;
    while i < entries.len()
        invariant
            items == array_items(entries@),
            i <= entries@.len(),
            forall|j: int| 0 <= j < i ==> !entry_recent(#[trigger] items[j], marker_unix_ms),
        decreases entries.len() - i,
    {
        let recent = match marker_unix_ms {
            None => true,
            Some(m) => match event_time_ms(&entries[i]) {
                Some(t) => t >= m,
                None => true,
            },
        };
        assert(items.len() == entries@.len());
        assert(items[i as int] == entries@[i as int]@);
        if recent {
            assert(entry_recent(items[i as int], marker_unix_ms));
            assert(some_recent(Some(JsonView::Array(items)), marker_unix_ms));
            return true;
        }
        i += 1;
    }
    false
}

fn array_len_of(v: Option<&JsonValue>) -> (r: usize)
    ensures
        r == array_count(
            match v {
                Some(x) => Some(x@),
                None => None,
            },
        ),
{
    match v {
        Some(JsonValue::Array(items)) => {
            proof {
                lemma_array_view(*items);
            }
            items.len()
        },
        _ => 0,
    }
}

/// Whether a crash report shows recent entries.
pub fn crash_report_has_recent_entries(report: &JsonValue, marker_unix_ms: Option<u64>) -> (r: bool)
    ensures
        r == recent_entries(report@, marker_unix_ms),
{
    let ghost entries = json_at(json_get(report@, "event_log"@), "entries"@);
    let event_recent = match member_at(report.get("event_log"), "entries") {
        Some(v) => match v {
            JsonValue::Array(items) => {
                proof {
                    lemma_array_view(*items);
                }
                assert(entries == Some(JsonView::Array(array_items(items@))));
                any_recent(items, marker_unix_ms)
            },
            _ => {
                assert(!(v@ is Array));
                assert(!some_recent(entries, marker_unix_ms));
                false
            },
        },
        None => {
            assert(!some_recent(entries, marker_unix_ms));
            false
        },
    };
    assert(event_recent == some_recent(entries, marker_unix_ms));
    let wer_present = array_len_of(member_at(report.get("wer"), "dump_paths")) > 0;
    event_recent || wer_present
}

/// The summary of a crash report the crash assertion returns.
pub open spec fn report_summary(report: JsonView, marker_unix_ms: Option<u64>) -> JsonView {
    JsonView::Object(
        seq![
            ("ok"@, JsonView::Bool(json_as_bool(json_get(report, "ok"@)) == Some(true))),
            ("event_log"@, JsonView::Object(
                seq![
                    ("provider_enabled"@, opt_bool_view(provider_enabled(report, "event_log"@))),
                    ("entry_count"@, JsonView::Number(
                        JsonNumber::PosInt(array_count(json_at(json_get(report, "event_log"@), "entries"@)) as u64),
                    )),
                ],
            )),
            ("wer"@, JsonView::Object(
                seq![
                    ("provider_enabled"@, opt_bool_view(provider_enabled(report, "wer"@))),
                    ("dump_count"@, JsonView::Number(
                        JsonNumber::PosInt(array_count(json_at(json_get(report, "wer"@), "dump_paths"@)) as u64),
                    )),
                ],
            )),
            ("has_recent_entries"@, JsonView::Bool(recent_entries(report, marker_unix_ms))),
        ],
    )
}

/// Summarizes a crash report: whether it is ok, each provider's flag with its
/// event or dump count, and whether it has recent entries.
pub fn crash_report_summary(report: &JsonValue, marker_unix_ms: Option<u64>) -> (r: JsonValue)
    ensures
        r@ == report_summary(report@, marker_unix_ms),
{
    let event_count = array_len_of(member_at(report.get("event_log"), "entries"));
    let dump_count = array_len_of(member_at(report.get("wer"), "dump_paths"));
    let ok = match report.get("ok") {
        Some(v) => v.as_bool(),
        None => None,
    };
    let mut ev: Vec<(String, JsonValue)> = Vec::new();
    ev.push((owned("provider_enabled"), opt_bool_value(provider_flag(report, "event_log"))));
    ev.push((owned("entry_count"), JsonValue::Number(JsonNumber::PosInt(event_count as u64))));
    let ghost evs = object_entries(ev@);
    let event_log = object_of(ev);
    let mut wv: Vec<(String, JsonValue)> = Vec::new();
    wv.push((owned("provider_enabled"), opt_bool_value(provider_flag(report, "wer"))));
    wv.push((owned("dump_count"), JsonValue::Number(JsonNumber::PosInt(dump_count as u64))));
    let ghost wvs = object_entries(wv@);
    let wer = object_of(wv);
    let recent = crash_report_has_recent_entries(report, marker_unix_ms);
    let mut es: Vec<(String, JsonValue)> = Vec::new();
    es.push((owned("ok"), JsonValue::Bool(ok == Some(true))));
    es.push((owned("event_log"), event_log));
    es.push((owned("wer"), wer));
    es.push((owned("has_recent_entries"), JsonValue::Bool(recent)));
    assert(evs =~= seq![
        ("provider_enabled"@, opt_bool_view(provider_enabled(report@, "event_log"@))),
        ("entry_count"@, JsonView::Number(
            JsonNumber::PosInt(array_count(json_at(json_get(report@, "event_log"@), "entries"@)) as u64),
        )),
    ]);
    assert(wvs =~= seq![
        ("provider_enabled"@, opt_bool_view(provider_enabled(report@, "wer"@))),
        ("dump_count"@, JsonView::Number(
            JsonNumber::PosInt(array_count(json_at(json_get(report@, "wer"@), "dump_paths"@)) as u64),
        )),
    ]);
    assert(object_entries(es@) =~= seq![
        ("ok"@, JsonView::Bool(json_as_bool(json_get(report@, "ok"@)) == Some(true))),
        ("event_log"@, JsonView::Object(evs)),
        ("wer"@, JsonView::Object(wvs)),
        ("has_recent_entries"@, JsonView::Bool(recent_entries(report@, marker_unix_ms))),
    ]);
    object_of(es)
}

} // verus!
