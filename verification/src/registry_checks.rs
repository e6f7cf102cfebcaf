//! The registry assertion: which failures a registry value gives against what
//! was expected, and the summaries it reports, with the value's data left out.

use vstd::prelude::*;

use crate::file_checks::{opt_str_view, redacted_view};
use crate::json::{lemma_array_view, lemma_object_view, array_items, object_entries, json_same, JsonNumber, JsonValue, JsonView};
use crate::text::{debug_quoted, debug_str, eq_ignore_ascii_case, lower_seq, owned, strs_view, sv, concat2};

verus! {

/// A registry value as read: its name, kind, raw type, data and warnings.
#[derive(Debug, Clone, PartialEq)]
pub struct RegistryValue {
    pub name: String,
    pub kind: String,
    pub raw_type: u32,
    pub data: JsonValue,
    pub warnings: Vec<String>,
}

/// The kind of a JSON value, by name.
pub open spec fn data_kind(v: JsonView) -> Seq<char> {
    match v {
        JsonView::Null => "null"@,
        JsonView::Bool(_) => "bool"@,
        JsonView::Number(_) => "number"@,
        JsonView::Str(_) => "string"@,
        JsonView::Array(_) => "array"@,
        JsonView::Object(_) => "object"@,
    }
}

/// The kind of a registry value's data.
pub fn registry_data_kind(data: &JsonValue) -> (r: &'static str)
    ensures
        r@ == data_kind(data@),
{
    match data {
        JsonValue::Null => "null",
        JsonValue::Bool(_) => "bool",
        JsonValue::Number(_) => "number",
        JsonValue::String(_) => "string",
        JsonValue::Array(_) => "array",
        JsonValue::Object(_) => "object",
    }
}

/// Texts as JSON strings.
pub open spec fn strs_json(ws: Seq<Seq<char>>) -> Seq<JsonView> {
    ws.map_values(|w: Seq<char>| JsonView::Str(w))
}

/// What the registry assertion reports of the value it found: its name, kinds
/// and warnings and whether it matched, never its data.
pub open spec fn value_summary(v: Option<RegistryValue>, value_match: bool) -> JsonView {
    match v {
        Some(x) => JsonView::Object(
            seq![
                ("exists"@, JsonView::Bool(true)),
                ("name"@, JsonView::Str(x.name@)),
                ("kind"@, JsonView::Str(x.kind@)),
                ("raw_type"@, JsonView::Number(JsonNumber::PosInt(x.raw_type as u64))),
                ("value_present"@, JsonView::Bool(true)),
                ("value_kind"@, JsonView::Str(data_kind(x.data@))),
                ("value_match"@, JsonView::Bool(value_match)),
                ("warnings"@, JsonView::Array(strs_json(strs_view(x.warnings@)))),
            ],
        ),
        None => JsonView::Object(
            seq![
                ("exists"@, JsonView::Bool(false)),
                ("value_present"@, JsonView::Bool(false)),
                ("value_match"@, JsonView::Bool(value_match)),
            ],
        ),
    }
}

fn strings_value(ws: &Vec<String>) -> (r: JsonValue)
    ensures
        r@ == JsonView::Array(strs_json(strs_view(ws@))),
{
    let mut items: Vec<JsonValue> = Vec::new();
    let mut i: usize = 0;
    while i < ws.len()
        invariant
            i <= ws@.len(),
            array_items(items@) == strs_json(strs_view(ws@)).take(i as int),
        decreases ws.len() - i,
    {
        let ghost before = array_items(items@);
        let c = ws[i].clone();
        assert(c@ == ws@[i as int]@);
        let item = JsonValue::String(c);
        assert(item@ == JsonView::Str(ws@[i as int]@));
        items.push(item);
        assert(array_items(items@) =~= before.push(JsonView::Str(ws@[i as int]@)));
        assert(array_items(items@) =~= strs_json(strs_view(ws@)).take(i + 1));
        i += 1;
    }
    assert(strs_json(strs_view(ws@)).take(ws@.len() as int) =~= strs_json(strs_view(ws@)));
    proof {
        lemma_array_view(items);
    }
    JsonValue::Array(items)
}

/// Summarizes the registry value found, if any.
pub fn registry_value_summary(value: Option<&RegistryValue>, value_match: bool) -> (r: JsonValue)
    ensures
        r@ == value_summary(
            match value {
                Some(v) => Some(*v),
                None => None,
            },
            value_match,
        ),
{
    let mut es: Vec<(String, JsonValue)> = Vec::new();
    match value {
        Some(v) => {
            let warnings = strings_value(&v.warnings);
            let ghost wv = warnings@;
            es.push((owned("exists"), JsonValue::Bool(true)));
            es.push((owned("name"), JsonValue::String(v.name.clone())));
            es.push((owned("kind"), JsonValue::String(v.kind.clone())));
            es.push((owned("raw_type"), JsonValue::Number(JsonNumber::PosInt(v.raw_type as u64))));
            es.push((owned("value_present"), JsonValue::Bool(true)));
            es.push((owned("value_kind"), JsonValue::String(owned(registry_data_kind(&v.data)))));
            es.push((owned("value_match"), JsonValue::Bool(value_match)));
            es.push((owned("warnings"), warnings));
            proof {
                lemma_object_view(es);
                assert(object_entries(es@) =~= seq![
                    ("exists"@, JsonView::Bool(true)),
                    ("name"@, JsonView::Str(v.name@)),
                    ("kind"@, JsonView::Str(v.kind@)),
                    ("raw_type"@, JsonView::Number(JsonNumber::PosInt(v.raw_type as u64))),
                    ("value_present"@, JsonView::Bool(true)),
                    ("value_kind"@, JsonView::Str(data_kind(v.data@))),
                    ("value_match"@, JsonView::Bool(value_match)),
                    ("warnings"@, wv),
                ]);
            }
        },
        None => {
            es.push((owned("exists"), JsonValue::Bool(false)));
            es.push((owned("value_present"), JsonValue::Bool(false)));
            es.push((owned("value_match"), JsonValue::Bool(value_match)));
            proof {
                lemma_object_view(es);
                assert(object_entries(es@) =~= seq![
                    ("exists"@, JsonView::Bool(false)),
                    ("value_present"@, JsonView::Bool(false)),
                    ("value_match"@, JsonView::Bool(value_match)),
                ]);
            }
        },
    }
    JsonValue::Object(es)
}

/// The value matches what was expected: no data was expected, or a value was
/// found whose data equals it.
pub open spec fn value_matches(expected: Option<JsonView>, actual: Option<RegistryValue>) -> bool {
    match expected {
        None => true,
        Some(e) => match actual {
            Some(a) => json_same(a.data@, e),
            None => false,
        },
    }
}

/// Whether a registry value matches the expected data.
pub fn registry_value_match(expected: Option<&JsonValue>, actual: Option<&RegistryValue>) -> (r: bool)
    ensures
        r == value_matches(
            match expected {
                Some(e) => Some(e@),
                None => None,
            },
            match actual {
                Some(a) => Some(*a),
                None => None,
            },
        ),
{
    match expected {
        None => true,
        Some(e) => match actual {
            Some(a) => a.data.json_equal(e),
            None => false,
        },
    }
}

/// The failures the registry assertion reports, in order: presence, data,
/// then kind (compared ignoring ASCII case).
pub open spec fn registry_failures(
    absent: bool,
    actual: Option<RegistryValue>,
    expected_value: Option<JsonView>,
    expected_kind: Option<Seq<char>>,
) -> Seq<Seq<char>> {
    let exists = actual is Some;
    let f0: Seq<Seq<char>> = if absent && exists {
        seq!["expected registry value absent, but it exists"@]
    } else if !absent && !exists {
        seq!["expected registry value present, but it could not be read"@]
    } else {
        Seq::empty()
    };
    let f1: Seq<Seq<char>> = match (expected_value, actual) {
        (Some(e), Some(a)) => if !json_same(a.data@, e) {
            seq!["registry value data did not equal expected JSON"@]
        } else {
            Seq::empty()
        },
        _ => Seq::empty(),
    };
    let f2: Seq<Seq<char>> = match (expected_kind, actual) {
        (Some(k), Some(a)) => if lower_seq(a.kind@) != lower_seq(k) {
            seq!["registry kind was "@ + debug_quoted(a.kind@)]
        } else {
            Seq::empty()
        },
        _ => Seq::empty(),
    };
    f0 + f1 + f2
}

/// Checks a registry value against the registry assertion's expectations.
pub fn registry_attempt_failures(
    absent: bool,
    actual: Option<&RegistryValue>,
    expected_value: Option<&JsonValue>,
    expected_kind: Option<&str>,
) -> (r: Vec<String>)
    ensures
        strs_view(r@) == registry_failures(
            absent,
            match actual {
                Some(a) => Some(*a),
                None => None,
            },
            match expected_value {
                Some(e) => Some(e@),
                None => None,
            },
            match expected_kind {
                Some(k) => Some(k@),
                None => None,
            },
        ),
{
    let mut failures: Vec<String> = Vec::new();
    let exists = actual.is_some();
    if absent {
        if exists {
            failures.push(owned("expected registry value absent, but it exists"));
        }
    } else if !exists {
        failures.push(owned("expected registry value present, but it could not be read"));
    }
    if let (Some(e), Some(a)) = (expected_value, actual) {
        if !a.data.json_equal(e) {
            failures.push(owned("registry value data did not equal expected JSON"));
        }
    }
    if let (Some(k), Some(a)) = (expected_kind, actual) {
        if !eq_ignore_ascii_case(a.kind.as_str(), k) {
            let shown = debug_str(a.kind.as_str());
            failures.push(concat2("registry kind was ", shown.as_str()));
        }
    }
    proof {
        let av = match actual {
            Some(a) => Some(*a),
            None => None::<RegistryValue>,
        };
        let ev = match expected_value {
            Some(e) => Some(e@),
            None => None::<JsonView>,
        };
        let kv = match expected_kind {
            Some(k) => Some(k@),
            None => None::<Seq<char>>,
        };
        assert(strs_view(failures@) =~= registry_failures(absent, av, ev, kv));
    }
    failures
}

/// What the registry assertion reports it expected: presence, where it
/// looked, the expected data only as `<redacted>`, and the kind.
pub open spec fn registry_expected(
    absent: bool,
    hive: JsonView,
    path: Seq<char>,
    name: Option<Seq<char>>,
    value_given: bool,
    kind: Option<Seq<char>>,
) -> JsonView {
    JsonView::Object(
        seq![
            ("expect"@, JsonView::Str(
                if absent {
                    "absent"@
                } else {
                    "present"@
                },
            )),
            ("hive"@, hive),
            ("path"@, JsonView::Str(path)),
            ("name"@, opt_str_view(name)),
            ("value"@, redacted_view(value_given)),
            ("kind"@, opt_str_view(kind)),
        ],
    )
}

fn opt_str_value(s: Option<&str>) -> (r: JsonValue)
    ensures
        r@ == opt_str_view(
            match s {
                Some(x) => Some(x@),
                None => None,
            },
        ),
{
    match s {
        Some(x) => JsonValue::String(owned(x)),
        None => JsonValue::Null,
    }
}

/// The expectations the registry assertion reports.
pub fn registry_expected_summary(
    absent: bool,
    hive: &JsonValue,
    path: &str,
    name: Option<&str>,
    value_given: bool,
    kind: Option<&str>,
) -> (r: JsonValue)
    ensures
        r@ == registry_expected(
            absent,
            hive@,
            path@,
            match name {
                Some(x) => Some(x@),
                None => None,
            },
            value_given,
            match kind {
                Some(x) => Some(x@),
                None => None,
            },
        ),
{
    let hv = hive.clone_value();
    let ghost hvv = hv@;
    let nv = opt_str_value(name);
    let ghost nvv = nv@;
    let kv = opt_str_value(kind);
    let ghost kvv = kv@;
    let mut es: Vec<(String, JsonValue)> = Vec::new();
    es.push((owned("expect"), JsonValue::String(owned(if absent { "absent" } else { "present" }))));
    es.push((owned("hive"), hv));
    es.push((owned("path"), JsonValue::String(owned(path))));
    es.push((owned("name"), nv));
    es.push((
        owned("value"),
        if value_given {
            JsonValue::String(owned(crate::checks::REDACTED))
        } else {
            JsonValue::Null
        },
    ));
    es.push((owned("kind"), kv));
    proof {
        lemma_object_view(es);
        assert(object_entries(es@) =~= seq![
            ("expect"@, JsonView::Str(
                if absent {
                    "absent"@
                } else {
                    "present"@
                },
            )),
            ("hive"@, hvv),
            ("path"@, JsonView::Str(path@)),
            ("name"@, nvv),
            ("value"@, redacted_view(value_given)),
            ("kind"@, kvv),
        ]);
    }
    JsonValue::Object(es)
}

} // verus!
