//! The library's own model of a JSON value: tool arguments and results,
//! manifest payloads and request summaries are held in it as plain values.

use vstd::prelude::*;

verus! {

/// A JSON number, as one of the three forms JSON numbers take when parsed.
#[derive(Debug, Clone, Copy, PartialEq, Eq)]
pub enum JsonNumber {
    /// A non-negative integer.
    PosInt(u64),
    /// A negative integer.
    NegInt(i64),
    /// A floating-point number, held as its IEEE-754 bit pattern.
    Float(u64),
}

/// A JSON value. An object keeps its members in order, each key once.
#[derive(Debug, PartialEq)]
pub enum JsonValue {
    Null,
    Bool(bool),
    Number(JsonNumber),
    String(String),
    Array(Vec<JsonValue>),
    Object(Vec<(String, JsonValue)>),
}

/// The mathematical view of a JSON value.
pub enum JsonView {
    Null,
    Bool(bool),
    Number(JsonNumber),
    Str(Seq<char>),
    Array(Seq<JsonView>),
    Object(Seq<(Seq<char>, JsonView)>),
}

impl JsonValue {
    /// The view of this value: strings by their characters, containers element by element.
    pub open spec fn view_of(self) -> JsonView
        decreases self,
    {
        match self {
            JsonValue::Null => JsonView::Null,
            JsonValue::Bool(b) => JsonView::Bool(b),
            JsonValue::Number(n) => JsonView::Number(n),
            JsonValue::String(s) => JsonView::Str(s@),
            JsonValue::Array(items) => JsonView::Array(
                Seq::new(
                    items@.len(),
                    |i: int|
                        if 0 <= i < items@.len() {
                            items@[i].view_of()
                        } else {
                            JsonView::Null
                        },
                ),
            ),
            JsonValue::Object(entries) => JsonView::Object(
                Seq::new(
                    entries@.len(),
                    |i: int|
                        if 0 <= i < entries@.len() {
                            (entries@[i].0@, entries@[i].1.view_of())
                        } else {
                            (Seq::empty(), JsonView::Null)
                        },
                ),
            ),
        }
    }
}

impl JsonValue {
    /// A copy of this value.
    pub fn clone_value(&self) -> (r: JsonValue)
        ensures
            r@ == self@,
        decreases self,
    {
        match self {
            JsonValue::Null => JsonValue::Null,
            JsonValue::Bool(b) => JsonValue::Bool(*b),
            JsonValue::Number(n) => JsonValue::Number(*n),
            JsonValue::String(s) => JsonValue::String(s.clone()),
            JsonValue::Array(items) => {
                let mut out: Vec<JsonValue> = Vec::new();
                let mut i: usize = 0;
                while i < items.len()
                    invariant
                        *self == JsonValue::Array(*items),
                        i <= items@.len(),
                        out@.len() == i,
                        forall|j: int| 0 <= j < i ==> (#[trigger] out@[j]).view_of() == items@[j].view_of(),
                    decreases items.len() - i,
                {
                    proof {
                        assert(decreases_to!(*self => (*self)->Array_0));
                        assert(decreases_to!((*self)->Array_0 => (*self)->Array_0@));
                        assert(decreases_to!((*self)->Array_0@ => (*self)->Array_0@[i as int]));
                    }
                    let c = items[i].clone_value();
                    out.push(c);
                    i += 1;
                }
                let r = JsonValue::Array(out);
                assert(r.view_of() == self.view_of()) by {
                    if let (JsonView::Array(a), JsonView::Array(b)) = (r.view_of(), self.view_of()) {
                        assert(a =~= b);
                    }
                }
                r
            },
            JsonValue::Object(entries) => {
                let mut out: Vec<(String, JsonValue)> = Vec::new();
                let mut i: usize = 0;
                while i < entries.len()
                    invariant
                        *self == JsonValue::Object(*entries),
                        i <= entries@.len(),
                        out@.len() == i,
                        forall|j: int|
                            0 <= j < i ==> (#[trigger] out@[j]).0@ == entries@[j].0@
                                && out@[j].1.view_of() == entries@[j].1.view_of(),
                    decreases entries.len() - i,
                {
                    proof {
                        assert(decreases_to!(*self => (*self)->Object_0));
                        assert(decreases_to!((*self)->Object_0 => (*self)->Object_0@));
                        assert(decreases_to!((*self)->Object_0@ => (*self)->Object_0@[i as int]));
                        assert(decreases_to!((*self)->Object_0@[i as int] => (*self)->Object_0@[i as int].1));
                    }
                    let k = entries[i].0.clone();
                    let v = entries[i].1.clone_value();
                    out.push((k, v));
                    i += 1;
                }
                let r = JsonValue::Object(out);
                assert(r.view_of() == self.view_of()) by {
                    if let (JsonView::Object(a), JsonView::Object(b)) = (r.view_of(), self.view_of()) {
                        assert(a =~= b);
                    }
                }
                r
            },
        }
    }
}

impl Clone for JsonValue {
    fn clone(&self) -> (r: Self)
        ensures
            r@ == self@,
    {
        self.clone_value()
    }
}

impl View for JsonValue {
    type V = JsonView;

    open spec fn view(&self) -> JsonView {
        self.view_of()
    }
}

/// The view of an optional JSON value.
pub open spec fn jv(o: Option<JsonValue>) -> Option<JsonView> {
    match o {
        Some(v) => Some(v@),
        None => None,
    }
}

/// A copy of an optional JSON value.
pub fn clone_opt_json(o: &Option<JsonValue>) -> (r: Option<JsonValue>)
    ensures
        jv(r) == jv(*o),
{
    match o {
        Some(v) => Some(v.clone_value()),
        None => None,
    }
}

/// The views of an object's members.
pub open spec fn object_entries(entries: Seq<(String, JsonValue)>) -> Seq<(Seq<char>, JsonView)> {
    Seq::new(entries.len(), |i: int| (entries[i].0@, entries[i].1@))
}

/// The views of an array's items.
pub open spec fn array_items(items: Seq<JsonValue>) -> Seq<JsonView> {
    Seq::new(items.len(), |i: int| items[i]@)
}

/// The view of an object is the object of its members' views.
pub proof fn lemma_object_view(entries: Vec<(String, JsonValue)>)
    ensures
        JsonValue::Object(entries)@ == JsonView::Object(object_entries(entries@)),
{
    if let JsonView::Object(es) = JsonValue::Object(entries)@ {
        assert(es =~= object_entries(entries@));
    }
}

/// The view of an array is the array of its items' views.
pub proof fn lemma_array_view(items: Vec<JsonValue>)
    ensures
        JsonValue::Array(items)@ == JsonView::Array(array_items(items@)),
{
    if let JsonView::Array(a) = JsonValue::Array(items)@ {
        assert(a =~= array_items(items@));
    }
}

/// The value of the first member named `key`, if any.
pub open spec fn entries_get(es: Seq<(Seq<char>, JsonView)>, key: Seq<char>) -> Option<JsonView>
    decreases es.len(),
{
    if es.len() == 0 {
        None
    } else if es[0].0 == key {
        Some(es[0].1)
    } else {
        entries_get(es.drop_first(), key)
    }
}

/// `value[key]` for an object: its member named `key`; nothing for other values.
pub open spec fn json_get(v: JsonView, key: Seq<char>) -> Option<JsonView> {
    match v {
        JsonView::Object(es) => entries_get(es, key),
        _ => None,
    }
}

/// The boolean a value holds, if it is one.
pub open spec fn json_as_bool(v: Option<JsonView>) -> Option<bool> {
    match v {
        Some(JsonView::Bool(b)) => Some(b),
        _ => None,
    }
}

/// The string a value holds, if it is one.
pub open spec fn json_as_str(v: Option<JsonView>) -> Option<Seq<char>> {
    match v {
        Some(JsonView::Str(s)) => Some(s),
        _ => None,
    }
}

impl JsonValue {
    /// The member named `key` of an object (the first one, should there be several);
    /// `None` for a value that is not an object or has no such member.
    pub fn get(&self, key: &str) -> (r: Option<&JsonValue>)
        ensures
            match r {
                Some(v) => json_get(self@, key@) == Some(v@),
                None => json_get(self@, key@) is None,
            },
    {
        match self {
            JsonValue::Object(entries) => {
                proof {
                    lemma_object_view(*entries);
                }
                let ghost es = object_entries(entries@);
                let mut i: usize = 0;
                assert(es.skip(0) =~= es);
                while i < entries.len()
                    invariant
                        es == object_entries(entries@),
                        self@ == JsonView::Object(es),
                        i <= entries@.len(),
                        entries_get(es, key@) == entries_get(es.skip(i as int), key@),
                    decreases entries.len() - i,
                {
                    assert(es.skip(i as int)[0] == es[i as int]);
                    if crate::text::str_eq(entries[i].0.as_str(), key) {
                        return Some(&entries[i].1);
                    }
                    assert(es.skip(i as int).drop_first() =~= es.skip(i + 1));
                    i += 1;
                }
                None
            },
            _ => None,
        }
    }

    /// The boolean this value holds, if it is one.
    pub fn as_bool(&self) -> (r: Option<bool>)
        ensures
            r == json_as_bool(Some(self@)),
    {
        match self {
            JsonValue::Bool(b) => Some(*b),
            _ => None,
        }
    }

    /// The string this value holds, if it is one.
    pub fn as_str(&self) -> (r: Option<&str>)
        ensures
            match r {
                Some(s) => json_as_str(Some(self@)) == Some(s@),
                None => json_as_str(Some(self@)) is None,
            },
    {
        match self {
            JsonValue::String(s) => Some(s.as_str()),
            _ => None,
        }
    }
}

/// The members of an object after `key` is set to `value`: the first member
/// with that key gets the new value in place, or a new member comes last.
pub open spec fn entries_insert(es: Seq<(Seq<char>, JsonView)>, key: Seq<char>, value: JsonView) -> Seq<(Seq<char>, JsonView)>
    decreases es.len(),
{
    if es.len() == 0 {
        seq![(key, value)]
    } else if es[0].0 == key {
        seq![(key, value)] + es.drop_first()
    } else {
        seq![es[0]] + entries_insert(es.drop_first(), key, value)
    }
}

/// Sets member `key` of an object's members to `value` (`Map::insert`).
pub fn object_insert(entries: &mut Vec<(String, JsonValue)>, key: String, value: JsonValue)
    ensures
        object_entries(final(entries)@) == entries_insert(object_entries(old(entries)@), key@, value@),
{
    let ghost es = object_entries(entries@);
    let mut i: usize = 0;
    assert(es.take(0) + entries_insert(es.skip(0), key@, value@) =~= entries_insert(es, key@, value@)) by {
        assert(es.skip(0) =~= es);
    };
    while i < entries.len()
        invariant
            es == object_entries(entries@),
            es == object_entries(old(entries)@),
            i <= entries@.len(),
            es.take(i as int) + entries_insert(es.skip(i as int), key@, value@) == entries_insert(es, key@, value@),
            forall|j: int| 0 <= j < i ==> es[j].0 != key@,
        decreases entries.len() - i,
    {
        assert(es.skip(i as int)[0] == es[i as int]);
        if crate::text::str_eq(entries[i].0.as_str(), key.as_str()) {
            let ghost rest = es.skip(i as int);
            assert(entries_insert(rest, key@, value@) == seq![(key@, value@)] + rest.drop_first());
            entries.set(i, (key, value));
            assert(object_entries(entries@) =~= es.take(i as int) + (seq![(key@, value@)] + rest.drop_first())) by {
                assert(rest.drop_first() =~= es.skip(i + 1));
            };
            return;
        }
        assert(es.skip(i as int).drop_first() =~= es.skip(i + 1));
        assert(es.take(i + 1) =~= es.take(i as int) + seq![es[i as int]]);
        i += 1;
    }
    assert(es.skip(i as int) =~= Seq::<(Seq<char>, JsonView)>::empty());
    assert(es.take(i as int) =~= es);
    let ghost before = entries@;
    entries.push((key, value));
    assert(object_entries(entries@) =~= es + seq![(key@, value@)]);
}

/// Two floating-point bit patterns are the same number: equal, or both zeros.
pub open spec fn float_bits_same(a: u64, b: u64) -> bool {
    a == b || ((a == 0 || a == 0x8000_0000_0000_0000) && (b == 0 || b == 0x8000_0000_0000_0000))
}

/// Two JSON numbers are equal as `serde_json` compares them: of the same form
/// and value, zeros of either sign counting as equal.
pub open spec fn number_same(a: JsonNumber, b: JsonNumber) -> bool {
    match (a, b) {
        (JsonNumber::Float(x), JsonNumber::Float(y)) => float_bits_same(x, y),
        _ => a == b,
    }
}

/// Two JSON values are equal: scalars by value, arrays item by item, objects
/// member by member in order (keys equal, values equal).
pub open spec fn json_same(a: JsonView, b: JsonView) -> bool
    decreases a,
{
    match a {
        JsonView::Null => b is Null,
        JsonView::Bool(x) => b matches JsonView::Bool(y) && x == y,
        JsonView::Number(x) => b matches JsonView::Number(y) && number_same(x, y),
        JsonView::Str(x) => b matches JsonView::Str(y) && x == y,
        JsonView::Array(xs) => b matches JsonView::Array(ys) && xs.len() == ys.len() && forall|i: int|
            0 <= i < xs.len() ==> json_same(#[trigger] xs[i], ys[i]),
        JsonView::Object(xs) => b matches JsonView::Object(ys) && xs.len() == ys.len() && forall|i: int|
            0 <= i < xs.len() ==> (#[trigger] xs[i]).0 == ys[i].0 && json_same(xs[i].1, ys[i].1),
    }
}

fn number_equal(a: JsonNumber, b: JsonNumber) -> (r: bool)
    ensures
        r == number_same(a, b),
{
    match (a, b) {
        (JsonNumber::PosInt(x), JsonNumber::PosInt(y)) => x == y,
        (JsonNumber::NegInt(x), JsonNumber::NegInt(y)) => x == y,
        (JsonNumber::Float(x), JsonNumber::Float(y)) => x == y || ((x == 0 || x == 0x8000_0000_0000_0000) && (y == 0
            || y == 0x8000_0000_0000_0000)),
        _ => false,
    }
}

impl JsonValue {
    /// Whether two values are equal as JSON.
    pub fn json_equal(&self, other: &JsonValue) -> (r: bool)
        ensures
            r == json_same(self@, other@),
        decreases self,
    {
        match (self, other) {
            (JsonValue::Null, JsonValue::Null) => true,
            (JsonValue::Bool(x), JsonValue::Bool(y)) => *x == *y,
            (JsonValue::Number(x), JsonValue::Number(y)) => number_equal(*x, *y),
            (JsonValue::String(x), JsonValue::String(y)) => crate::text::str_eq(x.as_str(), y.as_str()),
            (JsonValue::Array(xs), JsonValue::Array(ys)) => {
                proof {
                    lemma_array_view(*xs);
                    lemma_array_view(*ys);
                }
                if xs.len() != ys.len() {
                    return false;
                }
                let mut i: usize = 0;
                while i < xs.len()
                    invariant
                        *self == JsonValue::Array(*xs),
                        self@ == JsonView::Array(array_items(xs@)),
                        other@ == JsonView::Array(array_items(ys@)),
                        xs@.len() == ys@.len(),
                        i <= xs@.len(),
                        forall|j: int| 0 <= j < i ==> json_same(#[trigger] xs@[j]@, ys@[j]@),
                    decreases xs.len() - i,
                {
                    proof {
                        assert(decreases_to!(*self => (*self)->Array_0));
                        assert(decreases_to!((*self)->Array_0 => (*self)->Array_0@));
                        assert(decreases_to!((*self)->Array_0@ => (*self)->Array_0@[i as int]));
                    }
                    if !xs[i].json_equal(&ys[i]) {
                        assert(array_items(xs@)[i as int] == xs@[i as int]@);
                        assert(array_items(ys@)[i as int] == ys@[i as int]@);
                        assert(!json_same(array_items(xs@)[i as int], array_items(ys@)[i as int]));
                        return false;
                    }
                    i += 1;
                }
                assert forall|j: int| 0 <= j < array_items(xs@).len() implies json_same(
                    #[trigger] array_items(xs@)[j],
                    array_items(ys@)[j],
                ) by {
                    assert(json_same(xs@[j]@, ys@[j]@));
                };
                true
            },
            (JsonValue::Object(xs), JsonValue::Object(ys)) => {
                proof {
                    lemma_object_view(*xs);
                    lemma_object_view(*ys);
                }
                if xs.len() != ys.len() {
                    return false;
                }
                let mut i: usize = 0;
                while i < xs.len()
                    invariant
                        *self == JsonValue::Object(*xs),
                        self@ == JsonView::Object(object_entries(xs@)),
                        other@ == JsonView::Object(object_entries(ys@)),
                        xs@.len() == ys@.len(),
                        i <= xs@.len(),
                        forall|j: int|
                            0 <= j < i ==> (#[trigger] xs@[j]).0@ == ys@[j].0@ && json_same(xs@[j].1@, ys@[j].1@),
                    decreases xs.len() - i,
                {
                    proof {
                        assert(decreases_to!(*self => (*self)->Object_0));
                        assert(decreases_to!((*self)->Object_0 => (*self)->Object_0@));
                        assert(decreases_to!((*self)->Object_0@ => (*self)->Object_0@[i as int]));
                        assert(decreases_to!((*self)->Object_0@[i as int] => (*self)->Object_0@[i as int].1));
                    }
                    if !crate::text::str_eq(xs[i].0.as_str(), ys[i].0.as_str()) {
                        assert(object_entries(xs@)[i as int].0 == xs@[i as int].0@);
                        assert(object_entries(ys@)[i as int].0 == ys@[i as int].0@);
                        assert(object_entries(xs@)[i as int].0 != object_entries(ys@)[i as int].0);
                        return false;
                    }
                    if !xs[i].1.json_equal(&ys[i].1) {
                        assert(object_entries(xs@)[i as int].1 == xs@[i as int].1@);
                        assert(object_entries(ys@)[i as int].1 == ys@[i as int].1@);
                        assert(!json_same(object_entries(xs@)[i as int].1, object_entries(ys@)[i as int].1));
                        return false;
                    }
                    i += 1;
                }
                assert forall|j: int| 0 <= j < object_entries(xs@).len() implies (#[trigger] object_entries(
                    xs@,
                )[j]).0 == object_entries(ys@)[j].0 && json_same(object_entries(xs@)[j].1, object_entries(ys@)[j].1) by {
                    assert((xs@[j]).0@ == ys@[j].0@ && json_same(xs@[j].1@, ys@[j].1@));
                };
                true
            },
            _ => false,
        }
    }
}

/// Every JSON value equals itself.
pub proof fn lemma_json_same_reflexive(v: JsonView)
    ensures
        json_same(v, v),
    decreases v,
{
    match v {
        JsonView::Array(xs) => {
            assert forall|i: int| 0 <= i < xs.len() implies json_same(#[trigger] xs[i], xs[i]) by {
                lemma_json_same_reflexive(xs[i]);
            }
        },
        JsonView::Object(xs) => {
            assert forall|i: int| 0 <= i < xs.len() implies (#[trigger] xs[i]).0 == xs[i].0 && json_same(
                xs[i].1,
                xs[i].1,
            ) by {
                lemma_json_same_reflexive(xs[i].1);
            }
        },
        _ => {},
    }
}

/// JSON equality is symmetric.
pub proof fn lemma_json_same_symmetric(a: JsonView, b: JsonView)
    ensures
        json_same(a, b) == json_same(b, a),
    decreases a,
{
    match (a, b) {
        (JsonView::Array(xs), JsonView::Array(ys)) => {
            if xs.len() == ys.len() {
                assert forall|i: int| 0 <= i < xs.len() implies json_same(#[trigger] xs[i], ys[i]) == json_same(
                    ys[i],
                    xs[i],
                ) by {
                    lemma_json_same_symmetric(xs[i], ys[i]);
                }
                assert((forall|i: int| 0 <= i < xs.len() ==> json_same(#[trigger] xs[i], ys[i])) == (forall|i: int|
                    0 <= i < ys.len() ==> json_same(#[trigger] ys[i], xs[i])));
            }
        },
        (JsonView::Object(xs), JsonView::Object(ys)) => {
            if xs.len() == ys.len() {
                assert forall|i: int| 0 <= i < xs.len() implies json_same((#[trigger] xs[i]).1, ys[i].1) == json_same(
                    ys[i].1,
                    xs[i].1,
                ) by {
                    lemma_json_same_symmetric(xs[i].1, ys[i].1);
                }
                assert((forall|i: int|
                    0 <= i < xs.len() ==> (#[trigger] xs[i]).0 == ys[i].0 && json_same(xs[i].1, ys[i].1)) == (forall|
                    i: int,
                |
                    0 <= i < ys.len() ==> (#[trigger] ys[i]).0 == xs[i].0 && json_same(ys[i].1, xs[i].1)));
            }
        },
        _ => {},
    }
}

} // verus!
