//! What the server remembers about its clients and recent requests, for the
//! diagnostic dashboard: the registry of connected clients, the bounded
//! request history, and the redactor that turns tool arguments and results
//! into summaries that are safe to keep.

use vstd::prelude::*;

use crate::bounded::{keep_last, trim_front};
use crate::json::{json_as_bool, json_as_str, json_get, array_items, lemma_array_view, lemma_object_view, object_entries, JsonNumber, JsonValue, JsonView};
use crate::text::{chars_of, clone_opt_string, concat2, owned, prefix_string, push_decimal, spec_decimal, str_eq, str_less, str_lt, sv, lemma_str_lt_total, lemma_str_lt_transitive};
use vstd::relations::sorted_by;

verus! {

/// How many requests the history keeps.
pub const REQUEST_HISTORY_LIMIT: usize = 500;

/// How long a client may stay silent before it is dropped from the registry (15 minutes).
pub const CLIENT_STALE_AFTER_MS: u64 = 900000;

/// The longest string a summary keeps, in characters.
pub const MAX_SUMMARY_STRING_LEN: usize = 160;

// ---------------------------------------------------------------------------
// The redactor
// ---------------------------------------------------------------------------

/// The keys whose values a summary keeps.
pub open spec fn allowed_summary_key(k: Seq<char>) -> bool {
    ||| k == "ok"@
    ||| k == "bound_id"@
    ||| k == "pid"@
    ||| k == "parent_pid"@
    ||| k == "launch_id"@
    ||| k == "hwnd"@
    ||| k == "hwnd_hex"@
    ||| k == "display_index"@
    ||| k == "x"@
    ||| k == "y"@
    ||| k == "width"@
    ||| k == "height"@
    ||| k == "timeout_ms"@
    ||| k == "duration_ms"@
    ||| k == "elapsed_ms"@
    ||| k == "tool_name"@
    ||| k == "action_kind"@
    ||| k == "session_id"@
    ||| k == "run_id"@
    ||| k == "recording_id"@
    ||| k == "id"@
    ||| k == "kind"@
    ||| k == "status"@
    ||| k == "state"@
    ||| k == "count"@
    ||| k == "total"@
    ||| k == "matched"@
    ||| k == "passed"@
    ||| k == "exited"@
    ||| k == "exit_code"@
    ||| k == "force"@
    ||| k == "kill_tree"@
    ||| k == "error_code"@
    ||| k == "code"@
    ||| k == "transport"@
}

/// The keys whose values are never kept, not even as a count.
pub open spec fn sensitive_summary_key(k: Seq<char>) -> bool {
    ||| k == "text"@
    ||| k == "value"@
    ||| k == "secret"@
    ||| k == "secret_ref"@
    ||| k == "clipboard"@
    ||| k == "content"@
    ||| k == "contents"@
    ||| k == "stdout"@
    ||| k == "stderr"@
    ||| k == "base64"@
    ||| k == "image"@
    ||| k == "bytes"@
    ||| k == "manifest"@
    ||| k == "args"@
    ||| k == "arguments"@
    ||| k == "password"@
    ||| k == "token"@
}

/// The collection keys whose arrays a summary keeps as a `<key>_count` entry.
pub open spec fn counted_collection_key(k: Seq<char>) -> bool {
    ||| k == "windows"@
    ||| k == "processes"@
    ||| k == "candidates"@
    ||| k == "matches"@
    ||| k == "items"@
    ||| k == "results"@
    ||| k == "artifacts"@
    ||| k == "events"@
    ||| k == "entries"@
    ||| k == "tools"@
    ||| k == "notifications"@
}

/// Whether a summary keeps the value under `key`.
pub fn is_allowed_summary_key(key: &str) -> (r: bool)
    ensures
        r == allowed_summary_key(key@),
{
    str_eq(key, "ok") || str_eq(key, "bound_id") || str_eq(key, "pid") || str_eq(key, "parent_pid")
        || str_eq(key, "launch_id") || str_eq(key, "hwnd") || str_eq(key, "hwnd_hex") || str_eq(
        key,
        "display_index",
    ) || str_eq(key, "x") || str_eq(key, "y") || str_eq(key, "width") || str_eq(key, "height")
        || str_eq(key, "timeout_ms") || str_eq(key, "duration_ms") || str_eq(key, "elapsed_ms")
        || str_eq(key, "tool_name") || str_eq(key, "action_kind") || str_eq(key, "session_id")
        || str_eq(key, "run_id") || str_eq(key, "recording_id") || str_eq(key, "id") || str_eq(
        key,
        "kind",
    ) || str_eq(key, "status") || str_eq(key, "state") || str_eq(key, "count") || str_eq(
        key,
        "total",
    ) || str_eq(key, "matched") || str_eq(key, "passed") || str_eq(key, "exited") || str_eq(
        key,
        "exit_code",
    ) || str_eq(key, "force") || str_eq(key, "kill_tree") || str_eq(key, "error_code") || str_eq(
        key,
        "code",
    ) || str_eq(key, "transport")
}

/// Whether `key` names a value that must never reach a summary.
pub fn is_sensitive_key(key: &str) -> (r: bool)
    ensures
        r == sensitive_summary_key(key@),
{
    str_eq(key, "text") || str_eq(key, "value") || str_eq(key, "secret") || str_eq(key, "secret_ref")
        || str_eq(key, "clipboard") || str_eq(key, "content") || str_eq(key, "contents") || str_eq(
        key,
        "stdout",
    ) || str_eq(key, "stderr") || str_eq(key, "base64") || str_eq(key, "image") || str_eq(
        key,
        "bytes",
    ) || str_eq(key, "manifest") || str_eq(key, "args") || str_eq(key, "arguments") || str_eq(
        key,
        "password",
    ) || str_eq(key, "token")
}

fn is_counted_collection_key(key: &str) -> (r: bool)
    ensures
        r == counted_collection_key(key@),
{
    str_eq(key, "windows") || str_eq(key, "processes") || str_eq(key, "candidates") || str_eq(
        key,
        "matches",
    ) || str_eq(key, "items") || str_eq(key, "results") || str_eq(key, "artifacts") || str_eq(
        key,
        "events",
    ) || str_eq(key, "entries") || str_eq(key, "tools") || str_eq(key, "notifications")
}

/// The `<key>_count` entry name for a value that is an array under a counted,
/// non-sensitive key.
pub open spec fn count_key_of(k: Seq<char>, v: JsonView) -> Option<Seq<char>> {
    if v is Array && !sensitive_summary_key(k) && counted_collection_key(k) {
        Some(k + "_count"@)
    } else {
        None
    }
}

/// The count entry, if any, that a summary keeps for a value under a key it does not keep.
pub fn safe_collection_count_key(key: &str, value: &JsonValue) -> (r: Option<String>)
    ensures
        match r {
            Some(s) => count_key_of(key@, value@) == Some(s@),
            None => count_key_of(key@, value@) is None,
        },
{
    let is_array = match value {
        JsonValue::Array(_) => true,
        _ => false,
    };
    if !is_array || is_sensitive_key(key) {
        return None;
    }
    if is_counted_collection_key(key) {
        Some(concat2(key, "_count"))
    } else {
        None
    }
}

/// A string as a summary keeps it: unchanged up to `MAX_SUMMARY_STRING_LEN`
/// characters, else its first `MAX_SUMMARY_STRING_LEN - 1` characters and `...`.
pub open spec fn truncated_summary(s: Seq<char>) -> Seq<char> {
    if s.len() <= MAX_SUMMARY_STRING_LEN {
        s
    } else {
        s.take(MAX_SUMMARY_STRING_LEN - 1) + "..."@
    }
}

/// Truncates a string for a summary.
pub fn truncate_summary_string(value: &str) -> (r: String)
    ensures
        r@ == truncated_summary(value@),
{
    let chars = chars_of(value);
    if chars.len() <= MAX_SUMMARY_STRING_LEN {
        return owned(value);
    }
    let head = prefix_string(&chars, MAX_SUMMARY_STRING_LEN - 1);
    concat2(head.as_str(), "...")
}

/// `{"count": n}`.
pub open spec fn count_object(n: nat) -> JsonView {
    JsonView::Object(seq![("count"@, JsonView::Number(JsonNumber::PosInt(n as u64)))])
}

/// The summary of a value kept under an allowed key: objects are summarized
/// member by member, arrays become their count, strings are truncated, and
/// other scalars are kept.
pub open spec fn summarize_allowed(v: JsonView) -> JsonView
    decreases v,
{
    match v {
        JsonView::Object(es) => JsonView::Object(summarize_entries(es)),
        JsonView::Array(items) => count_object(items.len()),
        JsonView::Str(s) => JsonView::Str(truncated_summary(s)),
        _ => v,
    }
}

/// The summary of an object's members, in order: a member under an allowed key
/// is kept with its value summarized; an array under a counted key becomes a
/// `<key>_count` member; every other member is dropped.
pub open spec fn summarize_entries(es: Seq<(Seq<char>, JsonView)>) -> Seq<(Seq<char>, JsonView)>
    decreases es,
{
    if es.len() == 0 {
        Seq::empty()
    } else {
        let prev = summarize_entries(es.drop_last());
        let k = es.last().0;
        let v = es.last().1;
        proof {
            assert(decreases_to!(es => es[es.len() - 1]));
        }
        if allowed_summary_key(k) {
            prev.push((k, summarize_allowed(v)))
        } else {
            match count_key_of(k, v) {
                Some(ck) => prev.push(
                    (ck, JsonView::Number(JsonNumber::PosInt(v->Array_0.len() as u64))),
                ),
                None => prev,
            }
        }
    }
}

/// The summary of a tool's arguments or result as a whole: an object is
/// summarized member by member, an array becomes its count, a string is
/// replaced by `<redacted_scalar>`, and other scalars are kept.
pub open spec fn summarize_root(v: JsonView) -> JsonView {
    match v {
        JsonView::Object(es) => JsonView::Object(summarize_entries(es)),
        JsonView::Array(items) => count_object(items.len()),
        JsonView::Str(_) => JsonView::Str("<redacted_scalar>"@),
        _ => v,
    }
}

/// The summary kept for a request: the tool name, the summarized arguments and,
/// when there is one, the summarized result.
pub open spec fn request_summary(tool_name: Seq<char>, args: JsonView, result: Option<JsonView>) -> JsonView {
    let base = seq![("tool"@, JsonView::Str(tool_name)), ("args"@, summarize_root(args))];
    JsonView::Object(
        match result {
            Some(r) => base.push(("result"@, summarize_root(r))),
            None => base,
        },
    )
}

fn count_value(n: usize) -> (r: JsonValue)
    ensures
        r@ == count_object(n as nat),
{
    let mut es: Vec<(String, JsonValue)> = Vec::new();
    es.push((owned("count"), JsonValue::Number(JsonNumber::PosInt(n as u64))));
    proof {
        lemma_object_view(es);
        assert(object_entries(es@) =~= seq![("count"@, JsonView::Number(JsonNumber::PosInt(n as u64)))]);
    }
    JsonValue::Object(es)
}

/// Summarizes a value kept under an allowed key.
fn summarize_allowed_value(value: &JsonValue) -> (r: JsonValue)
    ensures
        r@ == summarize_allowed(value@),
    decreases value,
{
    match value {
        JsonValue::Object(entries) => {
            proof {
                lemma_object_view(*entries);
            }
            summarize_object(entries)
        },
        JsonValue::Array(items) => {
            proof {
                lemma_array_view(*items);
            }
            count_value(items.len())
        },
        JsonValue::String(s) => JsonValue::String(truncate_summary_string(s.as_str())),
        JsonValue::Null => JsonValue::Null,
        JsonValue::Bool(b) => JsonValue::Bool(*b),
        JsonValue::Number(n) => JsonValue::Number(*n),
    }
}

/// Summarizes an object's members.
fn summarize_object(entries: &Vec<(String, JsonValue)>) -> (r: JsonValue)
    ensures
        r@ == JsonView::Object(summarize_entries(object_entries(entries@))),
    decreases entries,
{
    let ghost es = object_entries(entries@);
    let mut out: Vec<(String, JsonValue)> = Vec::new();
    let mut i: usize = 0;
    while i < entries.len()
        invariant
            es == object_entries(entries@),
            i <= entries@.len(),
            object_entries(out@) == summarize_entries(es.take(i as int)),
        decreases entries.len() - i,
    {
        assert(es.take(i + 1).drop_last() =~= es.take(i as int));
        assert(es.take(i + 1).last() == es[i as int]);
        let key = &entries[i].0;
        let value = &entries[i].1;
        let ghost before = out@;
        if is_allowed_summary_key(key.as_str()) {
            proof {
                assert(decreases_to!(entries => entries@));
                assert(decreases_to!(entries@ => entries@[i as int]));
                assert(decreases_to!(entries@[i as int] => entries@[i as int].1));
            }
            let summarized = summarize_allowed_value(value);
            out.push((key.clone(), summarized));
        } else {
            match safe_collection_count_key(key.as_str(), value) {
                Some(count_key) => {
                    let n = match value {
                        JsonValue::Array(items) => {
                            proof {
                                lemma_array_view(*items);
                            }
                            items.len()
                        },
                        _ => 0,
                    };
                    out.push((count_key, JsonValue::Number(JsonNumber::PosInt(n as u64))));
                },
                None => {},
            }
        }
        assert(object_entries(out@) =~= summarize_entries(es.take(i + 1)));
        i += 1;
    }
    assert(es.take(entries@.len() as int) =~= es);
    proof {
        lemma_object_view(out);
    }
    JsonValue::Object(out)
}

fn summarize_root_value(value: &JsonValue) -> (r: JsonValue)
    ensures
        r@ == summarize_root(value@),
{
    match value {
        JsonValue::Object(entries) => {
            proof {
                lemma_object_view(*entries);
            }
            summarize_object(entries)
        },
        JsonValue::Array(items) => {
            proof {
                lemma_array_view(*items);
            }
            count_value(items.len())
        },
        JsonValue::Null => JsonValue::Null,
        JsonValue::Bool(b) => JsonValue::Bool(*b),
        JsonValue::Number(n) => JsonValue::Number(*n),
        JsonValue::String(_) => JsonValue::String(owned("<redacted_scalar>")),
    }
}

/// The summary kept for a request: `tool`, `args` and, when a result is given, `result`.
pub fn safe_summary(tool_name: &str, args: &JsonValue, result: Option<&JsonValue>) -> (r: JsonValue)
    ensures
        r@ == request_summary(
            tool_name@,
            args@,
            match result {
                Some(v) => Some(v@),
                None => None,
            },
        ),
{
    let mut summary: Vec<(String, JsonValue)> = Vec::new();
    summary.push((owned("tool"), JsonValue::String(owned(tool_name))));
    summary.push((owned("args"), summarize_root_value(args)));
    match result {
        Some(v) => {
            summary.push((owned("result"), summarize_root_value(v)));
        },
        None => {},
    }
    proof {
        lemma_object_view(summary);
        if let JsonView::Object(es) = request_summary(
            tool_name@,
            args@,
            match result {
                Some(v) => Some(v@),
                None => None,
            },
        ) {
            assert(object_entries(summary@) =~= es);
        }
    }
    JsonValue::Object(summary)
}

/// A count member's name: `<key>_count` for one of the counted collection keys.
pub open spec fn counted_summary_key(k: Seq<char>) -> bool {
    exists|c: Seq<char>| counted_collection_key(c) && k == c + "_count"@
}

/// The keys a summary may hold below its top level.
pub open spec fn whitelisted_summary_key(k: Seq<char>) -> bool {
    allowed_summary_key(k) || counted_summary_key(k)
}

/// The shape of every summary: no arrays, no string longer than
/// `MAX_SUMMARY_STRING_LEN + 2` characters, and only whitelisted keys, at every depth.
pub open spec fn summary_safe(v: JsonView) -> bool
    decreases v,
{
    match v {
        JsonView::Object(es) => summary_entries_safe(es),
        JsonView::Array(_) => false,
        JsonView::Str(s) => s.len() <= MAX_SUMMARY_STRING_LEN + 2,
        _ => true,
    }
}

/// Every member of a summarized object has a whitelisted key and a safe value.
pub open spec fn summary_entries_safe(es: Seq<(Seq<char>, JsonView)>) -> bool
    decreases es,
{
    if es.len() == 0 {
        true
    } else {
        proof {
            assert(decreases_to!(es => es[es.len() - 1]));
        }
        &&& summary_entries_safe(es.drop_last())
        &&& whitelisted_summary_key(es.last().0)
        &&& summary_safe(es.last().1)
    }
}

/// No key a summary keeps whole is a sensitive one: each differs from every
/// sensitive key in its length or in some character.
proof fn lemma_allowed_key_not_sensitive(k: Seq<char>)
    requires
        allowed_summary_key(k),
    ensures
        !sensitive_summary_key(k),
{
    reveal_strlit("text");
    assert("text"@.len() == 4);
    reveal_strlit("value");
    assert("value"@.len() == 5);
    reveal_strlit("secret");
    assert("secret"@.len() == 6);
    reveal_strlit("secret_ref");
    assert("secret_ref"@.len() == 10);
    reveal_strlit("clipboard");
    assert("clipboard"@.len() == 9);
    reveal_strlit("content");
    assert("content"@.len() == 7);
    reveal_strlit("contents");
    assert("contents"@.len() == 8);
    reveal_strlit("stdout");
    assert("stdout"@.len() == 6);
    reveal_strlit("stderr");
    assert("stderr"@.len() == 6);
    reveal_strlit("base64");
    assert("base64"@.len() == 6);
    reveal_strlit("image");
    assert("image"@.len() == 5);
    reveal_strlit("bytes");
    assert("bytes"@.len() == 5);
    reveal_strlit("manifest");
    assert("manifest"@.len() == 8);
    reveal_strlit("args");
    assert("args"@.len() == 4);
    reveal_strlit("arguments");
    assert("arguments"@.len() == 9);
    reveal_strlit("password");
    assert("password"@.len() == 8);
    reveal_strlit("token");
    assert("token"@.len() == 5);
    if k == "ok"@ {
        reveal_strlit("ok");
        assert(k.len() == 2);
    }
    if k == "bound_id"@ {
        reveal_strlit("bound_id");
        assert(k.len() == 8);
        assert(k[0] != "contents"@[0]);
        assert(k[0] != "manifest"@[0]);
        assert(k[0] != "password"@[0]);
    }
    if k == "pid"@ {
        reveal_strlit("pid");
        assert(k.len() == 3);
    }
    if k == "parent_pid"@ {
        reveal_strlit("parent_pid");
        assert(k.len() == 10);
        assert(k[0] != "secret_ref"@[0]);
    }
    if k == "launch_id"@ {
        reveal_strlit("launch_id");
        assert(k.len() == 9);
        assert(k[0] != "clipboard"@[0]);
        assert(k[0] != "arguments"@[0]);
    }
    if k == "hwnd"@ {
        reveal_strlit("hwnd");
        assert(k.len() == 4);
        assert(k[0] != "text"@[0]);
        assert(k[0] != "args"@[0]);
    }
    if k == "hwnd_hex"@ {
        reveal_strlit("hwnd_hex");
        assert(k.len() == 8);
        assert(k[0] != "contents"@[0]);
        assert(k[0] != "manifest"@[0]);
        assert(k[0] != "password"@[0]);
    }
    if k == "display_index"@ {
        reveal_strlit("display_index");
        assert(k.len() == 13);
    }
    if k == "x"@ {
        reveal_strlit("x");
        assert(k.len() == 1);
    }
    if k == "y"@ {
        reveal_strlit("y");
        assert(k.len() == 1);
    }
    if k == "width"@ {
        reveal_strlit("width");
        assert(k.len() == 5);
        assert(k[0] != "value"@[0]);
        assert(k[0] != "image"@[0]);
        assert(k[0] != "bytes"@[0]);
        assert(k[0] != "token"@[0]);
    }
    if k == "height"@ {
        reveal_strlit("height");
        assert(k.len() == 6);
        assert(k[0] != "secret"@[0]);
        assert(k[0] != "stdout"@[0]);
        assert(k[0] != "stderr"@[0]);
        assert(k[0] != "base64"@[0]);
    }
    if k == "timeout_ms"@ {
        reveal_strlit("timeout_ms");
        assert(k.len() == 10);
        assert(k[0] != "secret_ref"@[0]);
    }
    if k == "duration_ms"@ {
        reveal_strlit("duration_ms");
        assert(k.len() == 11);
    }
    if k == "elapsed_ms"@ {
        reveal_strlit("elapsed_ms");
        assert(k.len() == 10);
        assert(k[0] != "secret_ref"@[0]);
    }
    if k == "tool_name"@ {
        reveal_strlit("tool_name");
        assert(k.len() == 9);
        assert(k[0] != "clipboard"@[0]);
        assert(k[0] != "arguments"@[0]);
    }
    if k == "action_kind"@ {
        reveal_strlit("action_kind");
        assert(k.len() == 11);
    }
    if k == "session_id"@ {
        reveal_strlit("session_id");
        assert(k.len() == 10);
        assert(k[2] != "secret_ref"@[2]);
    }
    if k == "run_id"@ {
        reveal_strlit("run_id");
        assert(k.len() == 6);
        assert(k[0] != "secret"@[0]);
        assert(k[0] != "stdout"@[0]);
        assert(k[0] != "stderr"@[0]);
        assert(k[0] != "base64"@[0]);
    }
    if k == "recording_id"@ {
        reveal_strlit("recording_id");
        assert(k.len() == 12);
    }
    if k == "id"@ {
        reveal_strlit("id");
        assert(k.len() == 2);
    }
    if k == "kind"@ {
        reveal_strlit("kind");
        assert(k.len() == 4);
        assert(k[0] != "text"@[0]);
        assert(k[0] != "args"@[0]);
    }
    if k == "status"@ {
        reveal_strlit("status");
        assert(k.len() == 6);
        assert(k[1] != "secret"@[1]);
        assert(k[2] != "stdout"@[2]);
        assert(k[2] != "stderr"@[2]);
        assert(k[0] != "base64"@[0]);
    }
    if k == "state"@ {
        reveal_strlit("state");
        assert(k.len() == 5);
        assert(k[0] != "value"@[0]);
        assert(k[0] != "image"@[0]);
        assert(k[0] != "bytes"@[0]);
        assert(k[0] != "token"@[0]);
    }
    if k == "count"@ {
        reveal_strlit("count");
        assert(k.len() == 5);
        assert(k[0] != "value"@[0]);
        assert(k[0] != "image"@[0]);
        assert(k[0] != "bytes"@[0]);
        assert(k[0] != "token"@[0]);
    }
    if k == "total"@ {
        reveal_strlit("total");
        assert(k.len() == 5);
        assert(k[0] != "value"@[0]);
        assert(k[0] != "image"@[0]);
        assert(k[0] != "bytes"@[0]);
        assert(k[2] != "token"@[2]);
    }
    if k == "matched"@ {
        reveal_strlit("matched");
        assert(k.len() == 7);
        assert(k[0] != "content"@[0]);
    }
    if k == "passed"@ {
        reveal_strlit("passed");
        assert(k.len() == 6);
        assert(k[0] != "secret"@[0]);
        assert(k[0] != "stdout"@[0]);
        assert(k[0] != "stderr"@[0]);
        assert(k[0] != "base64"@[0]);
    }
    if k == "exited"@ {
        reveal_strlit("exited");
        assert(k.len() == 6);
        assert(k[0] != "secret"@[0]);
        assert(k[0] != "stdout"@[0]);
        assert(k[0] != "stderr"@[0]);
        assert(k[0] != "base64"@[0]);
    }
    if k == "exit_code"@ {
        reveal_strlit("exit_code");
        assert(k.len() == 9);
        assert(k[0] != "clipboard"@[0]);
        assert(k[0] != "arguments"@[0]);
    }
    if k == "force"@ {
        reveal_strlit("force");
        assert(k.len() == 5);
        assert(k[0] != "value"@[0]);
        assert(k[0] != "image"@[0]);
        assert(k[0] != "bytes"@[0]);
        assert(k[0] != "token"@[0]);
    }
    if k == "kill_tree"@ {
        reveal_strlit("kill_tree");
        assert(k.len() == 9);
        assert(k[0] != "clipboard"@[0]);
        assert(k[0] != "arguments"@[0]);
    }
    if k == "error_code"@ {
        reveal_strlit("error_code");
        assert(k.len() == 10);
        assert(k[0] != "secret_ref"@[0]);
    }
    if k == "code"@ {
        reveal_strlit("code");
        assert(k.len() == 4);
        assert(k[0] != "text"@[0]);
        assert(k[0] != "args"@[0]);
    }
    if k == "transport"@ {
        reveal_strlit("transport");
        assert(k.len() == 9);
        assert(k[0] != "clipboard"@[0]);
        assert(k[0] != "arguments"@[0]);
    }
}

/// No count member's name is a sensitive key: each is at least 11 characters
/// long, and no sensitive key is.
proof fn lemma_counted_key_not_sensitive(k: Seq<char>)
    requires
        counted_summary_key(k),
    ensures
        !sensitive_summary_key(k),
{
    reveal_strlit("text");
    reveal_strlit("value");
    reveal_strlit("secret");
    reveal_strlit("secret_ref");
    reveal_strlit("clipboard");
    reveal_strlit("content");
    reveal_strlit("contents");
    reveal_strlit("stdout");
    reveal_strlit("stderr");
    reveal_strlit("base64");
    reveal_strlit("image");
    reveal_strlit("bytes");
    reveal_strlit("manifest");
    reveal_strlit("args");
    reveal_strlit("arguments");
    reveal_strlit("password");
    reveal_strlit("token");
    reveal_strlit("windows");
    reveal_strlit("processes");
    reveal_strlit("candidates");
    reveal_strlit("matches");
    reveal_strlit("items");
    reveal_strlit("results");
    reveal_strlit("artifacts");
    reveal_strlit("events");
    reveal_strlit("entries");
    reveal_strlit("tools");
    reveal_strlit("notifications");
    reveal_strlit("_count");
    let c = choose|c: Seq<char>| counted_collection_key(c) && k == c + "_count"@;
    assert(k.len() >= 11);
}

/// No key a summary may hold is a sensitive one.
pub proof fn lemma_whitelisted_key_not_sensitive(k: Seq<char>)
    requires
        whitelisted_summary_key(k),
    ensures
        !sensitive_summary_key(k),
{
    if allowed_summary_key(k) {
        lemma_allowed_key_not_sensitive(k);
    } else {
        lemma_counted_key_not_sensitive(k);
    }
}

/// Summarizing a value kept under an allowed key gives a safe summary.
pub proof fn lemma_summarize_allowed_safe(v: JsonView)
    ensures
        summary_safe(summarize_allowed(v)),
    decreases v,
{
    reveal_strlit("...");
    reveal_strlit("count");
    match v {
        JsonView::Object(es) => {
            lemma_summarize_entries_safe(es);
            assert(summarize_allowed(v) == JsonView::Object(summarize_entries(es)));
        },
        JsonView::Array(items) => {
            let out = seq![("count"@, JsonView::Number(JsonNumber::PosInt(items.len() as u64)))];
            assert(out.drop_last() =~= Seq::<(Seq<char>, JsonView)>::empty());
            assert(summary_entries_safe(Seq::<(Seq<char>, JsonView)>::empty()));
            assert(allowed_summary_key(out.last().0));
            assert(whitelisted_summary_key(out.last().0));
            assert(summary_safe(out.last().1));
            assert(summary_entries_safe(out));
        },
        _ => {},
    }
}

/// Summarizing an object's members gives safe members.
pub proof fn lemma_summarize_entries_safe(es: Seq<(Seq<char>, JsonView)>)
    ensures
        summary_entries_safe(summarize_entries(es)),
    decreases es,
{
    if es.len() > 0 {
        assert(decreases_to!(es => es[es.len() - 1]));
        lemma_summarize_entries_safe(es.drop_last());
        let prev = summarize_entries(es.drop_last());
        let k = es.last().0;
        let v = es.last().1;
        if allowed_summary_key(k) {
            lemma_summarize_allowed_safe(v);
            let out = prev.push((k, summarize_allowed(v)));
            assert(out.drop_last() =~= prev);
            assert(summarize_entries(es) == out);
            assert(whitelisted_summary_key(out.last().0));
            assert(summary_entries_safe(out));
        } else if let Some(ck) = count_key_of(k, v) {
            let out = prev.push((ck, JsonView::Number(JsonNumber::PosInt(v->Array_0.len() as u64))));
            assert(out.drop_last() =~= prev);
            assert(counted_collection_key(k) && ck == k + "_count"@);
            assert(counted_summary_key(ck));
            assert(summarize_entries(es) == out);
            assert(out.last().0 == ck);
            assert(whitelisted_summary_key(out.last().0));
            assert(summary_safe(out.last().1));
            assert(summary_entries_safe(out));
        }
    }
}

/// The summary of a tool's arguments or result is safe: it holds no array, no
/// long string and no key outside the whitelist, so no sensitive key at any depth.
pub proof fn lemma_summary_is_safe(v: JsonView)
    ensures
        summary_safe(summarize_root(v)),
{
    reveal_strlit("<redacted_scalar>");
    match v {
        JsonView::Object(es) => {
            lemma_summarize_entries_safe(es);
        },
        JsonView::Array(_) => {
            lemma_summarize_allowed_safe(v);
        },
        _ => {},
    }
}

/// No object in `v`, at any depth, has a sensitive key.
pub open spec fn no_sensitive_keys(v: JsonView) -> bool
    decreases v,
{
    match v {
        JsonView::Object(es) => entries_without_sensitive_keys(es),
        JsonView::Array(items) => items_without_sensitive_keys(items),
        _ => true,
    }
}

/// No member of an object has a sensitive key, at any depth.
pub open spec fn entries_without_sensitive_keys(es: Seq<(Seq<char>, JsonView)>) -> bool
    decreases es,
{
    if es.len() == 0 {
        true
    } else {
        proof {
            assert(decreases_to!(es => es[es.len() - 1]));
        }
        &&& entries_without_sensitive_keys(es.drop_last())
        &&& !sensitive_summary_key(es.last().0)
        &&& no_sensitive_keys(es.last().1)
    }
}

/// No item of an array holds a sensitive key, at any depth.
pub open spec fn items_without_sensitive_keys(items: Seq<JsonView>) -> bool
    decreases items,
{
    if items.len() == 0 {
        true
    } else {
        proof {
            assert(decreases_to!(items => items[items.len() - 1]));
        }
        items_without_sensitive_keys(items.drop_last()) && no_sensitive_keys(items.last())
    }
}

proof fn lemma_safe_summary_has_no_sensitive_keys(v: JsonView)
    requires
        summary_safe(v),
    ensures
        no_sensitive_keys(v),
    decreases v,
{
    if let JsonView::Object(es) = v {
        lemma_safe_entries_have_no_sensitive_keys(es);
    }
}

proof fn lemma_safe_entries_have_no_sensitive_keys(es: Seq<(Seq<char>, JsonView)>)
    requires
        summary_entries_safe(es),
    ensures
        entries_without_sensitive_keys(es),
    decreases es,
{
    if es.len() > 0 {
        assert(decreases_to!(es => es[es.len() - 1]));
        lemma_safe_entries_have_no_sensitive_keys(es.drop_last());
        lemma_whitelisted_key_not_sensitive(es.last().0);
        lemma_safe_summary_has_no_sensitive_keys(es.last().1);
    }
}

/// A member under a sensitive key leaves no trace in an object's summary: the
/// summary is the same as without it, whatever its value.
pub proof fn lemma_sensitive_member_dropped(es: Seq<(Seq<char>, JsonView)>, k: Seq<char>, v: JsonView)
    requires
        sensitive_summary_key(k),
    ensures
        summarize_entries(es.push((k, v))) == summarize_entries(es),
{
    if allowed_summary_key(k) {
        lemma_allowed_key_not_sensitive(k);
    }
    let p = es.push((k, v));
    assert(p.drop_last() =~= es);
    assert(p.last() == (k, v));
    assert(count_key_of(k, v) is None);
}

/// A request's summary holds its tool name and the summaries of its arguments
/// and result, and neither of those holds a sensitive key (`token`, `password`,
/// `text`, `value`, ...) at any depth, whatever the arguments and result were.
pub proof fn lemma_request_summary_redacts(tool_name: Seq<char>, args: JsonView, result: Option<JsonView>)
    ensures
        no_sensitive_keys(summarize_root(args)),
        result matches Some(r) ==> no_sensitive_keys(summarize_root(r)),
        request_summary(tool_name, args, result) == JsonView::Object(
            match result {
                Some(r) => seq![
                    ("tool"@, JsonView::Str(tool_name)),
                    ("args"@, summarize_root(args)),
                    ("result"@, summarize_root(r)),
                ],
                None => seq![("tool"@, JsonView::Str(tool_name)), ("args"@, summarize_root(args))],
            },
        ),
{
    lemma_summary_is_safe(args);
    lemma_safe_summary_has_no_sensitive_keys(summarize_root(args));
    if let Some(r) = result {
        lemma_summary_is_safe(r);
        lemma_safe_summary_has_no_sensitive_keys(summarize_root(r));
        assert(seq![("tool"@, JsonView::Str(tool_name)), ("args"@, summarize_root(args))].push(
            ("result"@, summarize_root(r)),
        ) =~= seq![
            ("tool"@, JsonView::Str(tool_name)),
            ("args"@, summarize_root(args)),
            ("result"@, summarize_root(r)),
        ]);
    }
}

// ---------------------------------------------------------------------------
// Clients and the request history
// ---------------------------------------------------------------------------

/// A connected MCP client.
#[derive(Debug, Clone, PartialEq, Eq)]
pub struct ConnectedClient {
    pub connection_id: String,
    pub name: Option<String>,
    pub version: Option<String>,
    pub transport: String,
    pub connected_at_unix_ms: u64,
    pub last_seen_unix_ms: u64,
    pub request_count: u64,
    pub last_tool: Option<String>,
}

/// The view of a connected client.
pub struct ClientView {
    pub connection_id: Seq<char>,
    pub name: Option<Seq<char>>,
    pub version: Option<Seq<char>>,
    pub transport: Seq<char>,
    pub connected_at_unix_ms: u64,
    pub last_seen_unix_ms: u64,
    pub request_count: u64,
    pub last_tool: Option<Seq<char>>,
}

impl View for ConnectedClient {
    type V = ClientView;

    open spec fn view(&self) -> ClientView {
        ClientView {
            connection_id: self.connection_id@,
            name: sv(self.name),
            version: sv(self.version),
            transport: self.transport@,
            connected_at_unix_ms: self.connected_at_unix_ms,
            last_seen_unix_ms: self.last_seen_unix_ms,
            request_count: self.request_count,
            last_tool: sv(self.last_tool),
        }
    }
}

/// One request in the history.
#[derive(Debug, Clone, PartialEq)]
pub struct RequestHistoryEntry {
    pub id: u64,
    pub connection_id: String,
    pub tool_name: String,
    pub started_at_unix_ms: u64,
    pub duration_ms: u64,
    pub ok: bool,
    pub error_code: Option<String>,
    pub summary: JsonValue,
}

/// The view of a history entry.
pub struct HistoryEntryView {
    pub id: u64,
    pub connection_id: Seq<char>,
    pub tool_name: Seq<char>,
    pub started_at_unix_ms: u64,
    pub duration_ms: u64,
    pub ok: bool,
    pub error_code: Option<Seq<char>>,
    pub summary: JsonView,
}

impl View for RequestHistoryEntry {
    type V = HistoryEntryView;

    open spec fn view(&self) -> HistoryEntryView {
        HistoryEntryView {
            id: self.id,
            connection_id: self.connection_id@,
            tool_name: self.tool_name@,
            started_at_unix_ms: self.started_at_unix_ms,
            duration_ms: self.duration_ms,
            ok: self.ok,
            error_code: sv(self.error_code),
            summary: self.summary@,
        }
    }
}

/// What the dashboard shows: the connected clients, oldest connection first,
/// and the recent requests, oldest first.
#[derive(Debug, Clone, Default, PartialEq)]
pub struct ObservabilitySnapshot {
    pub connected_clients: Vec<ConnectedClient>,
    pub recent_requests: Vec<RequestHistoryEntry>,
}

/// A finished tool call, as the server reports it for the history.
pub struct RequestRecord<'a> {
    pub connection_id: &'a str,
    pub tool_name: &'a str,
    pub started_at_unix_ms: u64,
    pub duration_ms: u64,
    pub ok: bool,
    pub error_code: Option<String>,
    pub args: &'a JsonValue,
    pub result: Option<&'a JsonValue>,
}

/// The registry of connected clients and the request history.
pub struct ServerObservabilityState {
    connected_clients: Vec<ConnectedClient>,
    recent_requests: Vec<RequestHistoryEntry>,
    connection_counter: u64,
    request_counter: u64,
}

/// The view of the observability state.
pub struct ObservabilityView {
    pub clients: Seq<ClientView>,
    pub requests: Seq<HistoryEntryView>,
    pub connection_counter: u64,
    pub request_counter: u64,
}

/// The views of a list of clients.
pub open spec fn clients_view(cs: Seq<ConnectedClient>) -> Seq<ClientView> {
    cs.map_values(|c: ConnectedClient| c@)
}

/// The views of a list of history entries.
pub open spec fn entries_view(es: Seq<RequestHistoryEntry>) -> Seq<HistoryEntryView> {
    es.map_values(|e: RequestHistoryEntry| e@)
}

impl View for ServerObservabilityState {
    type V = ObservabilityView;

    closed spec fn view(&self) -> ObservabilityView {
        ObservabilityView {
            clients: clients_view(self.connected_clients@),
            requests: entries_view(self.recent_requests@),
            connection_counter: self.connection_counter,
            request_counter: self.request_counter,
        }
    }
}

/// No two clients share a connection ID.
pub open spec fn ids_unique(cs: Seq<ClientView>) -> bool {
    forall|i: int, j: int| 0 <= i < j < cs.len() ==> #[trigger] cs[i].connection_id != #[trigger] cs[j].connection_id
}

/// The registry holds each connection once, and the history at most `REQUEST_HISTORY_LIMIT` requests.
pub open spec fn observability_wf(s: ObservabilityView) -> bool {
    &&& ids_unique(s.clients)
    &&& s.requests.len() <= REQUEST_HISTORY_LIMIT
    &&& history_ids_increasing(s.requests, s.request_counter)
}

/// The history's request numbers increase from oldest to newest, and none is
/// above the number of requests recorded so far.
pub open spec fn history_ids_increasing(requests: Seq<HistoryEntryView>, counter: u64) -> bool {
    &&& forall|i: int, j: int| 0 <= i < j < requests.len() ==> #[trigger] requests[i].id < #[trigger] requests[j].id
    &&& forall|i: int| 0 <= i < requests.len() ==> #[trigger] requests[i].id <= counter
}

/// Whether some client has the connection ID `id`.
pub open spec fn has_id(cs: Seq<ClientView>, id: Seq<char>) -> bool {
    exists|i: int| 0 <= i < cs.len() && #[trigger] cs[i].connection_id == id
}

/// The clients that `keep` accepts, in order.
pub open spec fn retain_clients(cs: Seq<ClientView>, keep: spec_fn(ClientView) -> bool) -> Seq<ClientView>
    decreases cs.len(),
{
    if cs.len() == 0 {
        cs
    } else {
        let prev = retain_clients(cs.drop_last(), keep);
        if keep(cs.last()) {
            prev.push(cs.last())
        } else {
            prev
        }
    }
}

/// `now - last_seen`, or 0 when the client was seen after `now`.
pub open spec fn silent_for(c: ClientView, now: u64) -> int {
    if now >= c.last_seen_unix_ms {
        now - c.last_seen_unix_ms
    } else {
        0
    }
}

/// The clients seen within `CLIENT_STALE_AFTER_MS` of `now`.
pub open spec fn prune_stale(cs: Seq<ClientView>, now: u64) -> Seq<ClientView> {
    retain_clients(cs, |c: ClientView| silent_for(c, now) <= CLIENT_STALE_AFTER_MS)
}

/// The clients other than connection `id`.
pub open spec fn without_client(cs: Seq<ClientView>, id: Seq<char>) -> Seq<ClientView> {
    retain_clients(cs, |c: ClientView| c.connection_id != id)
}

/// The registry with `c` in place of any client with its connection ID.
pub open spec fn insert_client(cs: Seq<ClientView>, c: ClientView) -> Seq<ClientView> {
    without_client(cs, c.connection_id).push(c)
}

/// The connection ID given to a new connection: `stdio` for the standard-I/O
/// transport, else the transport and the next connection number.
pub open spec fn connection_id_for(transport: Seq<char>, counter: u64) -> Seq<char> {
    if transport == "stdio"@ {
        "stdio"@
    } else {
        transport + "-"@ + spec_decimal((counter + 1) as nat)
    }
}

/// A client just connected at `now`.
pub open spec fn new_client(id: Seq<char>, transport: Seq<char>, now: u64) -> ClientView {
    ClientView {
        connection_id: id,
        name: None,
        version: None,
        transport,
        connected_at_unix_ms: now,
        last_seen_unix_ms: now,
        request_count: 0,
        last_tool: None,
    }
}

/// The registry after connection `id` announced its name and version at `now`.
pub open spec fn with_client_info(
    cs: Seq<ClientView>,
    id: Seq<char>,
    name: Seq<char>,
    version: Seq<char>,
    now: u64,
) -> Seq<ClientView> {
    cs.map_values(
        |c: ClientView|
            if c.connection_id == id {
                ClientView { name: Some(name), version: Some(version), last_seen_unix_ms: now, ..c }
            } else {
                c
            },
    )
}

/// `n + 1`, saturating at the largest `u64`.
pub open spec fn sat_inc(n: u64) -> u64 {
    if n == u64::MAX {
        n
    } else {
        (n + 1) as u64
    }
}

/// The registry after connection `id` called `tool` at `now`.
pub open spec fn with_request(cs: Seq<ClientView>, id: Seq<char>, tool: Seq<char>, now: u64) -> Seq<ClientView> {
    cs.map_values(
        |c: ClientView|
            if c.connection_id == id {
                ClientView {
                    last_seen_unix_ms: now,
                    request_count: sat_inc(c.request_count),
                    last_tool: Some(tool),
                    ..c
                }
            } else {
                c
            },
    )
}

/// The order of the dashboard's client list: by connection time, then by connection ID.
pub open spec fn client_before(a: ClientView, b: ClientView) -> bool {
    a.connected_at_unix_ms < b.connected_at_unix_ms || (a.connected_at_unix_ms
        == b.connected_at_unix_ms && !str_lt(b.connection_id, a.connection_id))
}

/// Every retained client was in the list, and the retained list of a registry
/// with unique IDs has unique IDs.
pub proof fn lemma_retain_clients(cs: Seq<ClientView>, keep: spec_fn(ClientView) -> bool)
    ensures
        forall|id: Seq<char>| #[trigger] has_id(retain_clients(cs, keep), id) ==> has_id(cs, id),
        ids_unique(cs) ==> ids_unique(retain_clients(cs, keep)),
        forall|i: int| 0 <= i < retain_clients(cs, keep).len() ==> keep(#[trigger] retain_clients(cs, keep)[i]),
    decreases cs.len(),
{
    if cs.len() > 0 {
        let d = cs.drop_last();
        lemma_retain_clients(d, keep);
        let prev = retain_clients(d, keep);
        assert forall|id: Seq<char>| #[trigger] has_id(retain_clients(cs, keep), id) implies has_id(cs, id) by {
            let r = retain_clients(cs, keep);
            let i = choose|i: int| 0 <= i < r.len() && #[trigger] r[i].connection_id == id;
            if i < prev.len() {
                assert(has_id(prev, id));
                assert(has_id(d, id));
                let j = choose|j: int| 0 <= j < d.len() && #[trigger] d[j].connection_id == id;
                assert(cs[j] == d[j]);
            } else {
                assert(cs[cs.len() - 1].connection_id == id);
            }
        }
        if ids_unique(cs) {
            assert(ids_unique(d));
            if keep(cs.last()) {
                let r = prev.push(cs.last());
                assert forall|i: int, j: int| 0 <= i < j < r.len() implies #[trigger] r[i].connection_id != #[trigger] r[j].connection_id by {
                    if j == r.len() - 1 {
                        if r[i].connection_id == r[j].connection_id {
                            assert(has_id(prev, r[i].connection_id));
                            assert(has_id(d, r[i].connection_id));
                            let k = choose|k: int| 0 <= k < d.len() && #[trigger] d[k].connection_id == r[i].connection_id;
                            assert(cs[k] == d[k]);
                        }
                    } else {
                        assert(r[i] == prev[i] && r[j] == prev[j]);
                    }
                }
            }
        }
        assert forall|i: int| 0 <= i < retain_clients(cs, keep).len() implies keep(#[trigger] retain_clients(cs, keep)[i]) by {
            if i < prev.len() {
                assert(retain_clients(cs, keep)[i] == prev[i]);
            }
        }
    }
}

/// Updating the clients in place keeps their IDs unique.
pub proof fn lemma_update_keeps_ids(cs: Seq<ClientView>, f: spec_fn(ClientView) -> ClientView)
    requires
        ids_unique(cs),
        forall|c: ClientView| (#[trigger] f(c)).connection_id == c.connection_id,
    ensures
        ids_unique(cs.map_values(f)),
{
    let r = cs.map_values(f);
    assert forall|i: int, j: int| 0 <= i < j < r.len() implies #[trigger] r[i].connection_id != #[trigger] r[j].connection_id by {
        assert(f(cs[i]).connection_id == cs[i].connection_id);
        assert(f(cs[j]).connection_id == cs[j].connection_id);
    }
}

/// Putting a client in place of any with its ID keeps the IDs unique, and the
/// client is then registered.
pub proof fn lemma_insert_client(cs: Seq<ClientView>, c: ClientView)
    requires
        ids_unique(cs),
    ensures
        ids_unique(insert_client(cs, c)),
        insert_client(cs, c).last() == c,
{
    let keep = |x: ClientView| x.connection_id != c.connection_id;
    lemma_retain_clients(cs, keep);
    let w = without_client(cs, c.connection_id);
    let r = w.push(c);
    assert forall|i: int, j: int| 0 <= i < j < r.len() implies #[trigger] r[i].connection_id != #[trigger] r[j].connection_id by {
        if j == r.len() - 1 {
            assert(r[i] == w[i]);
            assert(keep(w[i]));
        } else {
            assert(r[i] == w[i] && r[j] == w[j]);
        }
    }
}

/// Of two clients, one comes first in the dashboard's order.
pub proof fn lemma_client_before_total(a: ClientView, b: ClientView)
    ensures
        client_before(a, b) || client_before(b, a),
{
    lemma_str_lt_total(a.connection_id, b.connection_id);
}

/// The dashboard's client order is transitive.
pub proof fn lemma_client_before_transitive(a: ClientView, b: ClientView, c: ClientView)
    requires
        client_before(a, b),
        client_before(b, c),
    ensures
        client_before(a, c),
{
    if a.connected_at_unix_ms == c.connected_at_unix_ms {
        assert(a.connected_at_unix_ms == b.connected_at_unix_ms);
        if str_lt(c.connection_id, a.connection_id) {
            lemma_str_lt_total(a.connection_id, b.connection_id);
            lemma_str_lt_total(b.connection_id, c.connection_id);
            if a.connection_id == b.connection_id {
                assert(!str_lt(c.connection_id, b.connection_id));
            } else if b.connection_id == c.connection_id {
                assert(!str_lt(b.connection_id, a.connection_id));
            } else {
                lemma_str_lt_transitive(c.connection_id, a.connection_id, b.connection_id);
            }
        }
    }
}

fn clone_client(c: &ConnectedClient) -> (r: ConnectedClient)
    ensures
        r@ == c@,
{
    ConnectedClient {
        connection_id: c.connection_id.clone(),
        name: clone_opt_string(&c.name),
        version: clone_opt_string(&c.version),
        transport: c.transport.clone(),
        connected_at_unix_ms: c.connected_at_unix_ms,
        last_seen_unix_ms: c.last_seen_unix_ms,
        request_count: c.request_count,
        last_tool: clone_opt_string(&c.last_tool),
    }
}

fn clone_entry(e: &RequestHistoryEntry) -> (r: RequestHistoryEntry)
    ensures
        r@ == e@,
{
    RequestHistoryEntry {
        id: e.id,
        connection_id: e.connection_id.clone(),
        tool_name: e.tool_name.clone(),
        started_at_unix_ms: e.started_at_unix_ms,
        duration_ms: e.duration_ms,
        ok: e.ok,
        error_code: clone_opt_string(&e.error_code),
        summary: e.summary.clone_value(),
    }
}

fn is_fresh(c: &ConnectedClient, now: u64) -> (r: bool)
    ensures
        r == (silent_for(c@, now) <= CLIENT_STALE_AFTER_MS),
{
    let silent = if now >= c.last_seen_unix_ms {
        now - c.last_seen_unix_ms
    } else {
        0
    };
    silent <= CLIENT_STALE_AFTER_MS
}

/// Drops the clients not seen within `CLIENT_STALE_AFTER_MS` of `now`.
fn prune_stale_clients(clients: &mut Vec<ConnectedClient>, now: u64)
    ensures
        clients_view(final(clients)@) == prune_stale(clients_view(old(clients)@), now),
{
    let ghost cs = clients_view(clients@);
    let ghost keep = |c: ClientView| silent_for(c, now) <= CLIENT_STALE_AFTER_MS;
    let mut kept: Vec<ConnectedClient> = Vec::new();
    let mut i: usize = 0;
    while i < clients.len()
        invariant
            cs == clients_view(clients@),
            keep == (|c: ClientView| silent_for(c, now) <= CLIENT_STALE_AFTER_MS),
            i <= clients@.len(),
            clients_view(kept@) == retain_clients(cs.take(i as int), keep),
        decreases clients.len() - i,
    {
        assert(cs.take(i + 1).drop_last() =~= cs.take(i as int));
        assert(cs.take(i + 1).last() == clients@[i as int]@);
        if is_fresh(&clients[i], now) {
            let c = clone_client(&clients[i]);
            let ghost before = kept@;
            kept.push(c);
            assert(clients_view(kept@) =~= clients_view(before).push(c@));
        }
        i += 1;
    }
    assert(cs.take(clients@.len() as int) =~= cs);
    *clients = kept;
}

/// Drops the client with connection ID `id`, if any.
fn remove_client(clients: &mut Vec<ConnectedClient>, id: &str)
    ensures
        clients_view(final(clients)@) == without_client(clients_view(old(clients)@), id@),
{
    let ghost cs = clients_view(clients@);
    let ghost keep = |c: ClientView| c.connection_id != id@;
    let mut kept: Vec<ConnectedClient> = Vec::new();
    let mut i: usize = 0;
    while i < clients.len()
        invariant
            cs == clients_view(clients@),
            keep == (|c: ClientView| c.connection_id != id@),
            i <= clients@.len(),
            clients_view(kept@) == retain_clients(cs.take(i as int), keep),
        decreases clients.len() - i,
    {
        assert(cs.take(i + 1).drop_last() =~= cs.take(i as int));
        assert(cs.take(i + 1).last() == clients@[i as int]@);
        if !str_eq(clients[i].connection_id.as_str(), id) {
            let c = clone_client(&clients[i]);
            let ghost before = kept@;
            kept.push(c);
            assert(clients_view(kept@) =~= clients_view(before).push(c@));
        }
        i += 1;
    }
    assert(cs.take(clients@.len() as int) =~= cs);
    *clients = kept;
}

/// The position of the client with connection ID `id`, if any.
fn find_client(clients: &Vec<ConnectedClient>, id: &str) -> (r: Option<usize>)
    ensures
        match r {
            Some(i) => i < clients@.len() && clients@[i as int].connection_id@ == id@,
            None => !has_id(clients_view(clients@), id@),
        },
{
    let mut i: usize = 0;
    while i < clients.len()
        invariant
            i <= clients@.len(),
            forall|j: int| 0 <= j < i ==> clients@[j].connection_id@ != id@,
        decreases clients.len() - i,
    {
        if str_eq(clients[i].connection_id.as_str(), id) {
            return Some(i);
        }
        i += 1;
    }
    assert forall|j: int| 0 <= j < clients_view(clients@).len() implies #[trigger] clients_view(clients@)[j].connection_id != id@ by {
        assert(clients_view(clients@)[j] == clients@[j]@);
    }
    None
}

/// Whether `a` comes no later than `b` in the dashboard's order.
fn client_le(a: &ConnectedClient, b: &ConnectedClient) -> (r: bool)
    ensures
        r == client_before(a@, b@),
{
    a.connected_at_unix_ms < b.connected_at_unix_ms || (a.connected_at_unix_ms
        == b.connected_at_unix_ms && !str_less(b.connection_id.as_str(), a.connection_id.as_str()))
}

/// The clients in the dashboard's order.
fn sort_clients(clients: &Vec<ConnectedClient>) -> (r: Vec<ConnectedClient>)
    ensures
        sorted_by(clients_view(r@), |a: ClientView, b: ClientView| client_before(a, b)),
        clients_view(r@).to_multiset() == clients_view(clients@).to_multiset(),
{
    broadcast use vstd::seq_lib::group_to_multiset_ensures;
    let ghost cs = clients_view(clients@);
    let ghost leq = |a: ClientView, b: ClientView| client_before(a, b);
    let mut out: Vec<ConnectedClient> = Vec::new();
    let mut i: usize = 0;
    while i < clients.len()
        invariant
            cs == clients_view(clients@),
            leq == (|a: ClientView, b: ClientView| client_before(a, b)),
            i <= clients@.len(),
            sorted_by(clients_view(out@), leq),
            clients_view(out@).to_multiset() == cs.take(i as int).to_multiset(),
        decreases clients.len() - i,
    {
        let c = clone_client(&clients[i]);
        let ghost ov = clients_view(out@);
        let mut p: usize = 0;
        while p < out.len() && client_le(&out[p], &c)
            invariant
                ov == clients_view(out@),
                p <= out@.len(),
                forall|k: int| 0 <= k < p ==> client_before(#[trigger] ov[k], c@),
            decreases out.len() - p,
        {
            p += 1;
        }
        out.insert(p, c);
        let ghost nv = ov.insert(p as int, c@);
        assert(clients_view(out@) =~= nv);
        assert forall|a: int, b: int| 0 <= a < b < nv.len() implies #[trigger] leq(nv[a], nv[b]) by {
            if b < p {
                assert(nv[a] == ov[a] && nv[b] == ov[b]);
                assert(leq(ov[a], ov[b]));
            } else if b == p {
                assert(nv[a] == ov[a]);
            } else if a < p {
                assert(nv[a] == ov[a] && nv[b] == ov[b - 1]);
                assert(leq(ov[a], ov[b - 1]));
            } else if a == p {
                assert(nv[b] == ov[b - 1]);
                lemma_client_before_total(ov[p as int], c@);
                if b - 1 > p {
                    assert(leq(ov[p as int], ov[b - 1]));
                    lemma_client_before_transitive(c@, ov[p as int], ov[b - 1]);
                }
            } else {
                assert(nv[a] == ov[a - 1] && nv[b] == ov[b - 1]);
                assert(leq(ov[a - 1], ov[b - 1]));
            }
        }
        assert(cs.take(i + 1) =~= cs.take(i as int).push(c@));
        proof {
            vstd::seq_lib::to_multiset_insert(ov, p as int, c@);
            vstd::seq_lib::to_multiset_build(cs.take(i as int), c@);
        }
        i += 1;
    }
    assert(cs.take(clients@.len() as int) =~= cs);
    out
}

/// The history entry recorded for a request.
pub open spec fn history_entry(id: u64, connection_id: Seq<char>, tool_name: Seq<char>, started_at_unix_ms: u64, duration_ms: u64, ok: bool, error_code: Option<Seq<char>>, summary: JsonView) -> HistoryEntryView {
    HistoryEntryView { id, connection_id, tool_name, started_at_unix_ms, duration_ms, ok, error_code, summary }
}

impl ServerObservabilityState {
    /// An empty registry and history, with both counters at zero.
    pub fn new() -> (r: ServerObservabilityState)
        ensures
            r@.clients.len() == 0,
            r@.requests.len() == 0,
            r@.connection_counter == 0,
            r@.request_counter == 0,
            observability_wf(r@),
    {
        ServerObservabilityState {
            connected_clients: Vec::new(),
            recent_requests: Vec::new(),
            connection_counter: 0,
            request_counter: 0,
        }
    }

    /// Registers a new connection at `now` and returns its ID: `stdio` for the
    /// standard-I/O transport (which replaces an earlier `stdio` client), else the
    /// transport and the next connection number. Stale clients are dropped first.
    pub fn register_connection(&mut self, transport: &str, now: u64) -> (id: String)
        requires
            observability_wf(old(self)@),
            transport@ == "stdio"@ || old(self)@.connection_counter < u64::MAX,
        ensures
            observability_wf(final(self)@),
            id@ == connection_id_for(transport@, old(self)@.connection_counter),
            final(self)@.connection_counter == if transport@ == "stdio"@ {
                old(self)@.connection_counter
            } else {
                (old(self)@.connection_counter + 1) as u64
            },
            final(self)@.clients == insert_client(
                prune_stale(old(self)@.clients, now),
                new_client(id@, transport@, now),
            ),
            final(self)@.requests == old(self)@.requests,
            final(self)@.request_counter == old(self)@.request_counter,
    {
        let ghost before = self@;
        let id = if str_eq(transport, "stdio") {
            owned("stdio")
        } else {
            self.connection_counter = self.connection_counter + 1;
            let mut id = concat2(transport, "-");
            push_decimal(&mut id, self.connection_counter);
            id
        };
        prune_stale_clients(&mut self.connected_clients, now);
        let ghost pruned = clients_view(self.connected_clients@);
        remove_client(&mut self.connected_clients, id.as_str());
        let client = ConnectedClient {
            connection_id: id.clone(),
            name: None,
            version: None,
            transport: owned(transport),
            connected_at_unix_ms: now,
            last_seen_unix_ms: now,
            request_count: 0,
            last_tool: None,
        };
        let ghost removed = self.connected_clients@;
        self.connected_clients.push(client);
        proof {
            assert(clients_view(self.connected_clients@) =~= clients_view(removed).push(client@));
            lemma_retain_clients(before.clients, |c: ClientView| silent_for(c, now) <= CLIENT_STALE_AFTER_MS);
            lemma_insert_client(pruned, client@);
        }
        id
    }

    /// Forgets connection `connection_id`.
    pub fn deregister_connection(&mut self, connection_id: &str)
        requires
            observability_wf(old(self)@),
        ensures
            observability_wf(final(self)@),
            final(self)@ == (ObservabilityView {
                clients: without_client(old(self)@.clients, connection_id@),
                ..old(self)@
            }),
    {
        let ghost before = self@;
        remove_client(&mut self.connected_clients, connection_id);
        proof {
            lemma_retain_clients(before.clients, |c: ClientView| c.connection_id != connection_id@);
        }
    }

    /// Records the name and version a client announced when it initialized, and
    /// that it was seen at `now`. Stale clients are dropped first; an unknown
    /// connection changes nothing else.
    pub fn set_client_info(&mut self, connection_id: &str, name: &str, version: &str, now: u64)
        requires
            observability_wf(old(self)@),
        ensures
            observability_wf(final(self)@),
            final(self)@ == (ObservabilityView {
                clients: with_client_info(prune_stale(old(self)@.clients, now), connection_id@, name@, version@, now),
                ..old(self)@
            }),
    {
        let ghost before = self@;
        prune_stale_clients(&mut self.connected_clients, now);
        let ghost pruned = clients_view(self.connected_clients@);
        proof {
            lemma_retain_clients(before.clients, |c: ClientView| silent_for(c, now) <= CLIENT_STALE_AFTER_MS);
        }
        let ghost f = |c: ClientView|
            if c.connection_id == connection_id@ {
                ClientView { name: Some(name@), version: Some(version@), last_seen_unix_ms: now, ..c }
            } else {
                c
            };
        match find_client(&self.connected_clients, connection_id) {
            Some(i) => {
                let old_client = clone_client(&self.connected_clients[i]);
                let updated = ConnectedClient {
                    name: Some(owned(name)),
                    version: Some(owned(version)),
                    last_seen_unix_ms: now,
                    ..old_client
                };
                let ghost prior = self.connected_clients@;
                self.connected_clients.set(i, updated);
                proof {
                    assert forall|j: int| 0 <= j < pruned.len() implies #[trigger] clients_view(self.connected_clients@)[j] == f(pruned[j]) by {
                        if j != i {
                            assert(pruned[j] == prior[j]@);
                            assert(pruned[j].connection_id != pruned[i as int].connection_id);
                        }
                    }
                    assert(clients_view(self.connected_clients@) =~= pruned.map_values(f));
                }
            },
            None => {
                proof {
                    assert forall|j: int| 0 <= j < pruned.len() implies #[trigger] f(pruned[j]) == pruned[j] by {
                        if pruned[j].connection_id == connection_id@ {
                            assert(has_id(pruned, connection_id@));
                        }
                    }
                    assert(pruned =~= pruned.map_values(f));
                }
            },
        }
        proof {
            lemma_update_keeps_ids(pruned, f);
        }
    }

    /// Records a finished request at `now`: it takes the next request number,
    /// its client (if still registered after dropping stale ones) is marked seen
    /// with one more request and this tool, and the history keeps its newest
    /// `REQUEST_HISTORY_LIMIT` entries, each with a redacted summary.
    pub fn record_request(&mut self, request: RequestRecord<'_>, now: u64)
        requires
            observability_wf(old(self)@),
            old(self)@.request_counter < u64::MAX,
        ensures
            observability_wf(final(self)@),
            final(self)@.request_counter == old(self)@.request_counter + 1,
            final(self)@.connection_counter == old(self)@.connection_counter,
            final(self)@.clients == with_request(
                prune_stale(old(self)@.clients, now),
                request.connection_id@,
                request.tool_name@,
                now,
            ),
            final(self)@.requests == keep_last(
                old(self)@.requests.push(
                    history_entry(
                        (old(self)@.request_counter + 1) as u64,
                        request.connection_id@,
                        request.tool_name@,
                        request.started_at_unix_ms,
                        request.duration_ms,
                        request.ok,
                        sv(request.error_code),
                        request_summary(
                            request.tool_name@,
                            request.args@,
                            match request.result {
                                Some(v) => Some(v@),
                                None => None,
                            },
                        ),
                    ),
                ),
                REQUEST_HISTORY_LIMIT as nat,
            ),
    {
        let ghost before = self@;
        self.request_counter = self.request_counter + 1;
        let id = self.request_counter;
        prune_stale_clients(&mut self.connected_clients, now);
        let ghost pruned = clients_view(self.connected_clients@);
        proof {
            lemma_retain_clients(before.clients, |c: ClientView| silent_for(c, now) <= CLIENT_STALE_AFTER_MS);
        }
        let ghost f = |c: ClientView|
            if c.connection_id == request.connection_id@ {
                ClientView {
                    last_seen_unix_ms: now,
                    request_count: sat_inc(c.request_count),
                    last_tool: Some(request.tool_name@),
                    ..c
                }
            } else {
                c
            };
        match find_client(&self.connected_clients, request.connection_id) {
            Some(i) => {
                let old_client = clone_client(&self.connected_clients[i]);
                let count = if old_client.request_count == u64::MAX {
                    u64::MAX
                } else {
                    old_client.request_count + 1
                };
                let updated = ConnectedClient {
                    last_seen_unix_ms: now,
                    request_count: count,
                    last_tool: Some(owned(request.tool_name)),
                    ..old_client
                };
                let ghost prior = self.connected_clients@;
                self.connected_clients.set(i, updated);
                proof {
                    assert forall|j: int| 0 <= j < pruned.len() implies #[trigger] clients_view(self.connected_clients@)[j] == f(pruned[j]) by {
                        if j != i {
                            assert(pruned[j] == prior[j]@);
                            assert(pruned[j].connection_id != pruned[i as int].connection_id);
                        }
                    }
                    assert(clients_view(self.connected_clients@) =~= pruned.map_values(f));
                }
            },
            None => {
                proof {
                    assert forall|j: int| 0 <= j < pruned.len() implies #[trigger] f(pruned[j]) == pruned[j] by {
                        if pruned[j].connection_id == request.connection_id@ {
                            assert(has_id(pruned, request.connection_id@));
                        }
                    }
                    assert(pruned =~= pruned.map_values(f));
                }
            },
        }
        proof {
            lemma_update_keeps_ids(pruned, f);
        }
        let entry = RequestHistoryEntry {
            id,
            connection_id: owned(request.connection_id),
            tool_name: owned(request.tool_name),
            started_at_unix_ms: request.started_at_unix_ms,
            duration_ms: request.duration_ms,
            ok: request.ok,
            error_code: request.error_code,
            summary: safe_summary(request.tool_name, request.args, request.result),
        };
        let ghost prior_requests = self.recent_requests@;
        self.recent_requests.push(entry);
        let ghost pushed = self.recent_requests@;
        trim_front(&mut self.recent_requests, REQUEST_HISTORY_LIMIT);
        proof {
            assert(entries_view(pushed) =~= entries_view(prior_requests).push(entry@));
            let k = pushed.len() - REQUEST_HISTORY_LIMIT;
            if pushed.len() > REQUEST_HISTORY_LIMIT {
                assert(entries_view(keep_last(pushed, REQUEST_HISTORY_LIMIT as nat)) =~= keep_last(entries_view(pushed), REQUEST_HISTORY_LIMIT as nat));
            } else {
                assert(entries_view(keep_last(pushed, REQUEST_HISTORY_LIMIT as nat)) =~= keep_last(entries_view(pushed), REQUEST_HISTORY_LIMIT as nat));
            }
            lemma_recorded_ids_increase(before.requests, before.request_counter, entry@);
        }
    }

    /// What the dashboard shows at `now`, after dropping stale clients: the
    /// clients ordered by connection time and then connection ID, and the
    /// history, oldest first.
    pub fn snapshot(&mut self, now: u64) -> (r: ObservabilitySnapshot)
        requires
            observability_wf(old(self)@),
        ensures
            observability_wf(final(self)@),
            final(self)@ == (ObservabilityView { clients: prune_stale(old(self)@.clients, now), ..old(self)@ }),
            sorted_by(clients_view(r.connected_clients@), |a: ClientView, b: ClientView| client_before(a, b)),
            clients_view(r.connected_clients@).to_multiset() == final(self)@.clients.to_multiset(),
            entries_view(r.recent_requests@) == old(self)@.requests,
    {
        let ghost before = self@;
        prune_stale_clients(&mut self.connected_clients, now);
        proof {
            lemma_retain_clients(before.clients, |c: ClientView| silent_for(c, now) <= CLIENT_STALE_AFTER_MS);
        }
        let connected_clients = sort_clients(&self.connected_clients);
        let mut recent_requests: Vec<RequestHistoryEntry> = Vec::new();
        let mut i: usize = 0;
        while i < self.recent_requests.len()
            invariant
                i <= self.recent_requests@.len(),
                entries_view(recent_requests@) == entries_view(self.recent_requests@).take(i as int),
            decreases self.recent_requests.len() - i,
        {
            let e = clone_entry(&self.recent_requests[i]);
            let ghost prior = recent_requests@;
            recent_requests.push(e);
            assert(entries_view(recent_requests@) =~= entries_view(prior).push(e@));
            assert(entries_view(self.recent_requests@).take(i + 1) =~= entries_view(self.recent_requests@).take(i as int).push(self.recent_requests@[i as int]@));
            assert(entries_view(recent_requests@) =~= entries_view(self.recent_requests@).take(i + 1));
            i += 1;
        }
        assert(entries_view(self.recent_requests@).take(self.recent_requests@.len() as int) =~= entries_view(self.recent_requests@));
        ObservabilitySnapshot { connected_clients, recent_requests }
    }
}

impl Default for ServerObservabilityState {
    fn default() -> (r: ServerObservabilityState)
        ensures
            r@.clients.len() == 0,
            r@.requests.len() == 0,
            r@.connection_counter == 0,
            r@.request_counter == 0,
            observability_wf(r@),
    {
        ServerObservabilityState::new()
    }
}

/// Recording a request into a well-formed history keeps it within
/// `REQUEST_HISTORY_LIMIT` entries with the new entry last; a history below the
/// limit only grows, and a full one loses exactly its oldest entry.
pub proof fn lemma_history_evicts_oldest(reqs: Seq<HistoryEntryView>, e: HistoryEntryView)
    requires
        reqs.len() <= REQUEST_HISTORY_LIMIT,
    ensures
        keep_last(reqs.push(e), REQUEST_HISTORY_LIMIT as nat).len() <= REQUEST_HISTORY_LIMIT,
        keep_last(reqs.push(e), REQUEST_HISTORY_LIMIT as nat).last() == e,
        reqs.len() < REQUEST_HISTORY_LIMIT ==> keep_last(reqs.push(e), REQUEST_HISTORY_LIMIT as nat) == reqs.push(e),
        reqs.len() == REQUEST_HISTORY_LIMIT ==> keep_last(reqs.push(e), REQUEST_HISTORY_LIMIT as nat) == reqs.skip(1).push(e),
{
    if reqs.len() == REQUEST_HISTORY_LIMIT {
        assert(reqs.push(e).skip(1) =~= reqs.skip(1).push(e));
    }
}

/// Request numbers keep increasing: recording a request numbered one above the
/// count so far, into a history whose numbers increase and do not exceed that
/// count, gives a history whose numbers increase, end with the new one and do
/// not exceed the new count.
pub proof fn lemma_recorded_ids_increase(reqs: Seq<HistoryEntryView>, counter: u64, e: HistoryEntryView)
    requires
        history_ids_increasing(reqs, counter),
        counter < u64::MAX,
        e.id == counter + 1,
    ensures
        history_ids_increasing(keep_last(reqs.push(e), REQUEST_HISTORY_LIMIT as nat), (counter + 1) as u64),
        forall|i: int| 0 <= i < reqs.len() ==> #[trigger] reqs[i].id < e.id,
{
    let pushed = reqs.push(e);
    assert(history_ids_increasing(pushed, (counter + 1) as u64)) by {
        assert forall|i: int, j: int| 0 <= i < j < pushed.len() implies #[trigger] pushed[i].id < #[trigger] pushed[j].id by {
            if j < reqs.len() {
                assert(pushed[i] == reqs[i] && pushed[j] == reqs[j]);
            } else {
                assert(pushed[i] == reqs[i]);
                assert(reqs[i].id <= counter);
            }
        }
        assert forall|i: int| 0 <= i < pushed.len() implies #[trigger] pushed[i].id <= counter + 1 by {
            if i < reqs.len() {
                assert(pushed[i] == reqs[i]);
            }
        }
    }
    let kept = keep_last(pushed, REQUEST_HISTORY_LIMIT as nat);
    if pushed.len() > REQUEST_HISTORY_LIMIT {
        let d = pushed.len() - REQUEST_HISTORY_LIMIT;
        assert forall|i: int, j: int| 0 <= i < j < kept.len() implies #[trigger] kept[i].id < #[trigger] kept[j].id by {
            assert(kept[i] == pushed[i + d] && kept[j] == pushed[j + d]);
        }
        assert forall|i: int| 0 <= i < kept.len() implies #[trigger] kept[i].id <= counter + 1 by {
            assert(kept[i] == pushed[i + d]);
        }
    }
}

// ---------------------------------------------------------------------------
// Reading a tool result
// ---------------------------------------------------------------------------

/// Whether a tool call succeeded: the `ok` member of its structured content
/// when that is a boolean, else not marked as an error.
pub open spec fn tool_result_ok(structured_content: Option<JsonView>, is_error: Option<bool>) -> bool {
    let ok = match structured_content {
        Some(c) => json_as_bool(json_get(c, "ok"@)),
        None => None,
    };
    match ok {
        Some(b) => b,
        None => !(is_error == Some(true)),
    }
}

/// The `error.code` string of a tool result's structured content, if any.
pub open spec fn tool_error_code(structured_content: Option<JsonView>) -> Option<Seq<char>> {
    match structured_content {
        Some(c) => match json_get(c, "error"@) {
            Some(e) => json_as_str(json_get(e, "code"@)),
            None => None,
        },
        None => None,
    }
}

/// Whether a tool call succeeded, from its structured content and error flag.
pub fn call_tool_result_ok(structured_content: Option<&JsonValue>, is_error: Option<bool>) -> (r: bool)
    ensures
        r == tool_result_ok(
            match structured_content {
                Some(c) => Some(c@),
                None => None,
            },
            is_error,
        ),
{
    if let Some(content) = structured_content {
        if let Some(value) = content.get("ok") {
            if let Some(ok) = value.as_bool() {
                return ok;
            }
        }
    }
    !match is_error {
        Some(e) => e,
        None => false,
    }
}

/// The error code a tool result's structured content reports, if any.
pub fn call_tool_error_code(structured_content: Option<&JsonValue>) -> (r: Option<String>)
    ensures
        sv(r) == tool_error_code(
            match structured_content {
                Some(c) => Some(c@),
                None => None,
            },
        ),
{
    let content = match structured_content {
        Some(c) => c,
        None => return None,
    };
    let error = match content.get("error") {
        Some(e) => e,
        None => return None,
    };
    match error.get("code") {
        Some(code) => match code.as_str() {
            Some(s) => Some(owned(s)),
            None => None,
        },
        None => None,
    }
}

// ---------------------------------------------------------------------------
// The wall clock
// ---------------------------------------------------------------------------

#[verifier::external_type_specification]
#[verifier::external_body]
pub struct ExSystemTime(std::time::SystemTime);

#[verifier::external_type_specification]
#[verifier::external_body]
pub struct ExSystemTimeError(std::time::SystemTimeError);

/// The current wall-clock time.
///
/// Trusted: calls std `SystemTime::now`. Nothing is stated of the result, which
/// depends on the machine's clock.
#[verifier::external_body]
fn system_time_now() -> std::time::SystemTime {
    std::time::SystemTime::now()
}

/// How long after the Unix epoch `t` is, or an error when `t` is before it.
///
/// Trusted: calls std `SystemTime::duration_since` with `UNIX_EPOCH`. Nothing is
/// stated of the result, which depends on the clock reading passed in.
#[verifier::external_body]
fn duration_since_unix_epoch(t: &std::time::SystemTime) -> Result<std::time::Duration, std::time::SystemTimeError> {
    t.duration_since(std::time::UNIX_EPOCH)
}

/// The whole milliseconds in a duration.
///
/// Trusted: calls std `Duration::as_millis`. Nothing is stated of the result,
/// because the library's `Duration` values come only from the clock.
#[verifier::external_body]
fn duration_as_millis(d: &std::time::Duration) -> u128 {
    d.as_millis()
}

/// Milliseconds since the Unix epoch from the clock's reading: the elapsed
/// milliseconds truncated to 64 bits, or 0 when the clock read a time before the
/// epoch (`None`).
pub fn unix_ms_from_elapsed(elapsed_ms: Option<u128>) -> (r: u64)
    ensures
        r == match elapsed_ms {
            Some(ms) => (ms % 0x1_0000_0000_0000_0000) as u64,
            None => 0,
        },
{
    match elapsed_ms {
        Some(ms) => {
            let r: u64 = #[verifier::truncate] (ms as u64);
            assert(r == (ms % 0x1_0000_0000_0000_0000) as u64) by (bit_vector)
                requires
                    r == ms as u64,
            ;
            r
        },
        None => 0,
    }
}

/// The current time in milliseconds since the Unix epoch (truncated to 64 bits),
/// or 0 when the clock reads a time before the epoch. What the clock reads is
/// not stated (any `u64` can come of it); the mapping of its reading is
/// `unix_ms_from_elapsed`.
pub fn now_unix_ms() -> u64 {
    let now = system_time_now();
    let elapsed_ms = match duration_since_unix_epoch(&now) {
        Ok(elapsed) => Some(duration_as_millis(&elapsed)),
        Err(_) => None,
    };
    unix_ms_from_elapsed(elapsed_ms)
}

} // verus!
