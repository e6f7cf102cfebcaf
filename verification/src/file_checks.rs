//! The file assertion: what it reports it expects (secrets redacted), which
//! failures a file's presence, size, content and SHA-256 digest give, and the
//! digest's hexadecimal form.

use sha2::Digest;
use vstd::prelude::*;
use vstd::utf8::{decode_utf8, valid_utf8};

use crate::checks::{expect_absent, redacted_option, regex_accepts, regex_matches, AssertionExpect, REDACTED};
use crate::http::string_from_utf8;
use crate::json::{array_items, lemma_object_view, object_entries, JsonNumber, JsonValue, JsonView};
use crate::pattern::CompiledRegex;
use crate::text::{
    concat2, lower_seq, owned, push_char, push_decimal, push_str, spec_contains, spec_decimal, str_contains,
    str_eq, strs_view, sv, to_ascii_lowercase,
};

verus! {

/// The SHA-256 digest of some bytes.
pub uninterp spec fn sha256_of(bytes: Seq<u8>) -> Seq<u8>;

/// The SHA-256 digest of some bytes.
///
/// Trusted: calls sha2's `Sha256::digest`, whose 32-byte result depends on the
/// bytes alone; the contract names it `sha256_of`.
#[verifier::external_body]
fn sha256_digest(bytes: &[u8]) -> (r: Vec<u8>)
    ensures
        r@ == sha256_of(bytes@),
        r@.len() == 32,
{
    sha2::Sha256::digest(bytes).to_vec()
}

/// The lower-case hexadecimal digit for `d < 16`.
pub open spec fn hex_lower_digit(d: nat) -> char {
    if d < 10 {
        ((d + 48) as u8) as char
    } else {
        ((d - 10 + 97) as u8) as char
    }
}

/// Bytes as lower-case hexadecimal, two digits each.
pub open spec fn hex_of(bytes: Seq<u8>) -> Seq<char>
    decreases bytes.len(),
{
    if bytes.len() == 0 {
        Seq::empty()
    } else {
        hex_of(bytes.drop_last()) + seq![
            hex_lower_digit((bytes.last() / 16) as nat),
            hex_lower_digit((bytes.last() % 16) as nat),
        ]
    }
}

fn hex_char(d: u8) -> (c: char)
    requires
        d < 16,
    ensures
        c == hex_lower_digit(d as nat),
{
    if d < 10 {
        (d + 48) as char
    } else {
        (d - 10 + 97) as char
    }
}

/// Bytes as lower-case hexadecimal.
pub fn hex_string(bytes: &[u8]) -> (r: String)
    ensures
        r@ == hex_of(bytes@),
{
    let mut r = String::new();
    let mut i: usize = 0;
    while i < bytes.len()
        invariant
            i <= bytes@.len(),
            r@ == hex_of(bytes@.take(i as int)),
        decreases bytes.len() - i,
    {
        assert(bytes@.take(i + 1).drop_last() =~= bytes@.take(i as int));
        assert(bytes@.take(i + 1).last() == bytes@[i as int]);
        let b = bytes[i];
        push_char(&mut r, hex_char(b / 16));
        push_char(&mut r, hex_char(b % 16));
        i += 1;
    }
    assert(bytes@.take(bytes@.len() as int) =~= bytes@);
    r
}

/// The SHA-256 digest of some bytes in lower-case hexadecimal.
pub fn sha256_hex(bytes: &[u8]) -> (r: String)
    ensures
        r@ == hex_of(sha256_of(bytes@)),
        r@.len() == 64,
{
    let digest = sha256_digest(bytes);
    let r = hex_string(digest.as_slice());
    proof {
        lemma_hex_len(sha256_of(bytes@));
    }
    r
}

/// Hexadecimal has two digits per byte.
pub proof fn lemma_hex_len(bytes: Seq<u8>)
    ensures
        hex_of(bytes).len() == 2 * bytes.len(),
    decreases bytes.len(),
{
    if bytes.len() > 0 {
        lemma_hex_len(bytes.drop_last());
    }
}

/// What `assert.file` checks of a file.
#[derive(Debug, Clone, Default, PartialEq)]
pub struct AssertFileRequest {
    pub path: String,
    pub expect: Option<AssertionExpect>,
    pub content: Option<String>,
    pub content_contains: Option<String>,
    pub content_regex: Option<String>,
    pub size_bytes: Option<u64>,
    pub min_size_bytes: Option<u64>,
    pub max_size_bytes: Option<u64>,
    pub sha256: Option<String>,
    pub negate: bool,
    pub timeout_ms: Option<u64>,
    pub poll_interval_ms: Option<u64>,
}

/// `<redacted>` for a given value, `null` for none.
pub open spec fn redacted_view(given: bool) -> JsonView {
    if given {
        JsonView::Str(REDACTED@)
    } else {
        JsonView::Null
    }
}

/// An optional count as JSON.
pub open spec fn opt_u64_view(n: Option<u64>) -> JsonView {
    match n {
        Some(x) => JsonView::Number(JsonNumber::PosInt(x)),
        None => JsonView::Null,
    }
}

/// An optional text as JSON.
pub open spec fn opt_str_view(s: Option<Seq<char>>) -> JsonView {
    match s {
        Some(x) => JsonView::Str(x),
        None => JsonView::Null,
    }
}

/// What `assert.file` reports it expected: presence, the content predicates
/// only as `<redacted>`, the size bounds and the digest.
pub open spec fn file_expected(r: AssertFileRequest) -> JsonView {
    JsonView::Object(
        seq![
            ("expect"@, JsonView::Str(
                if r.expect == Some(AssertionExpect::Absent) {
                    "absent"@
                } else {
                    "present"@
                },
            )),
            ("content"@, redacted_view(r.content is Some)),
            ("content_contains"@, redacted_view(r.content_contains is Some)),
            ("content_regex"@, redacted_view(r.content_regex is Some)),
            ("size_bytes"@, opt_u64_view(r.size_bytes)),
            ("min_size_bytes"@, opt_u64_view(r.min_size_bytes)),
            ("max_size_bytes"@, opt_u64_view(r.max_size_bytes)),
            ("sha256"@, opt_str_view(sv(r.sha256))),
        ],
    )
}

fn redacted_value(r: Option<&'static str>) -> (v: JsonValue)
    requires
        r matches Some(s) ==> s@ == REDACTED@,
    ensures
        v@ == redacted_view(r is Some),
{
    match r {
        Some(s) => JsonValue::String(owned(s)),
        None => JsonValue::Null,
    }
}

fn opt_u64_value(n: Option<u64>) -> (v: JsonValue)
    ensures
        v@ == opt_u64_view(n),
{
    match n {
        Some(x) => JsonValue::Number(JsonNumber::PosInt(x)),
        None => JsonValue::Null,
    }
}

/// The expectations `assert.file` reports.
pub fn file_expected_summary(request: &AssertFileRequest) -> (r: JsonValue)
    ensures
        r@ == file_expected(*request),
{
    let expect = if expect_absent(request.expect) {
        "absent"
    } else {
        "present"
    };
    let sha = match &request.sha256 {
        Some(s) => JsonValue::String(s.clone()),
        None => JsonValue::Null,
    };
    let ghost shav = sha@;
    let mut es: Vec<(String, JsonValue)> = Vec::new();
    es.push((owned("expect"), JsonValue::String(owned(expect))));
    es.push((owned("content"), redacted_value(redacted_option(&request.content))));
    es.push((owned("content_contains"), redacted_value(redacted_option(&request.content_contains))));
    es.push((owned("content_regex"), redacted_value(redacted_option(&request.content_regex))));
    es.push((owned("size_bytes"), opt_u64_value(request.size_bytes)));
    es.push((owned("min_size_bytes"), opt_u64_value(request.min_size_bytes)));
    es.push((owned("max_size_bytes"), opt_u64_value(request.max_size_bytes)));
    es.push((owned("sha256"), sha));
    proof {
        lemma_object_view(es);
        assert(object_entries(es@) =~= seq![
            ("expect"@, JsonView::Str(
                if request.expect == Some(AssertionExpect::Absent) {
                    "absent"@
                } else {
                    "present"@
                },
            )),
            ("content"@, redacted_view(request.content is Some)),
            ("content_contains"@, redacted_view(request.content_contains is Some)),
            ("content_regex"@, redacted_view(request.content_regex is Some)),
            ("size_bytes"@, opt_u64_view(request.size_bytes)),
            ("min_size_bytes"@, opt_u64_view(request.min_size_bytes)),
            ("max_size_bytes"@, opt_u64_view(request.max_size_bytes)),
            ("sha256"@, shav),
        ]);
    }
    JsonValue::Object(es)
}

/// `assert.file` reads the file's bytes only when a content predicate or a
/// digest is expected.
pub open spec fn needs_bytes(r: AssertFileRequest) -> bool {
    r.content is Some || r.content_contains is Some || r.content_regex is Some || r.sha256 is Some
}

/// Whether `assert.file` reads the file's bytes.
pub fn file_needs_bytes(request: &AssertFileRequest) -> (r: bool)
    ensures
        r == needs_bytes(*request),
{
    request.content.is_some() || request.content_contains.is_some() || request.content_regex.is_some()
        || request.sha256.is_some()
}

/// What was found of a file: whether it exists, its size or why that could not
/// be read (for an existing file), and its bytes or why they could not be read
/// (for an existing file whose bytes are needed).
pub struct FileObservation {
    pub exists: bool,
    pub size: Option<Result<u64, String>>,
    pub bytes: Option<Result<Vec<u8>, String>>,
}

/// The bytes that were read, if any.
pub open spec fn read_bytes(o: FileObservation) -> Option<Seq<u8>> {
    match o.bytes {
        Some(Ok(b)) => Some(b@),
        _ => None,
    }
}

/// The file's text: its bytes, when they are valid UTF-8.
pub open spec fn file_text(o: FileObservation) -> Option<Seq<char>> {
    match read_bytes(o) {
        Some(b) => if valid_utf8(b) {
            Some(decode_utf8(b))
        } else {
            None
        },
        None => None,
    }
}

/// The failures of the presence check.
pub open spec fn presence_failures(absent: bool, exists: bool) -> Seq<Seq<char>> {
    if absent && exists {
        seq!["expected file absent, but it exists"@]
    } else if !absent && !exists {
        seq!["expected file present, but it does not exist"@]
    } else {
        Seq::empty()
    }
}

/// The failures of the size checks, against what was read of the size.
pub open spec fn size_failures(r: AssertFileRequest, size: Option<Result<u64, String>>) -> Seq<Seq<char>> {
    match size {
        Some(Ok(n)) => {
            let f1: Seq<Seq<char>> = match r.size_bytes {
                Some(e) => if n != e {
                    seq!["size_bytes was "@ + spec_decimal(n as nat) + ", expected "@ + spec_decimal(e as nat)]
                } else {
                    Seq::empty()
                },
                None => Seq::empty(),
            };
            let f2: Seq<Seq<char>> = match r.min_size_bytes {
                Some(m) => if n < m {
                    seq!["size_bytes "@ + spec_decimal(n as nat) + " was less than "@ + spec_decimal(m as nat)]
                } else {
                    Seq::empty()
                },
                None => Seq::empty(),
            };
            let f3: Seq<Seq<char>> = match r.max_size_bytes {
                Some(m) => if n > m {
                    seq!["size_bytes "@ + spec_decimal(n as nat) + " was greater than "@ + spec_decimal(m as nat)]
                } else {
                    Seq::empty()
                },
                None => Seq::empty(),
            };
            f1 + f2 + f3
        },
        Some(Err(_)) => seq!["file metadata unavailable"@],
        None => Seq::empty(),
    }
}

/// The failures of the content and digest checks.
pub open spec fn content_failures(r: AssertFileRequest, o: FileObservation, regex: Option<Seq<char>>) -> Seq<Seq<char>> {
    let text = file_text(o);
    let f0: Seq<Seq<char>> = match o.bytes {
        Some(Err(_)) => seq!["file bytes unavailable"@],
        _ => Seq::empty(),
    };
    let f1: Seq<Seq<char>> = match sv(r.content) {
        Some(e) => if text != Some(e) {
            seq!["file content did not equal expected text"@]
        } else {
            Seq::empty()
        },
        None => Seq::empty(),
    };
    let f2: Seq<Seq<char>> = match sv(r.content_contains) {
        Some(n) => if !(text matches Some(t) && spec_contains(t, n)) {
            seq!["file content did not contain expected text"@]
        } else {
            Seq::empty()
        },
        None => Seq::empty(),
    };
    let f3: Seq<Seq<char>> = if r.content_regex is Some && !regex_accepts(text, regex) {
        seq!["file content did not match regex"@]
    } else {
        Seq::empty()
    };
    let f4: Seq<Seq<char>> = match sv(r.sha256) {
        Some(e) => if !(read_bytes(o) matches Some(b) && lower_seq(hex_of(sha256_of(b))) == lower_seq(e)) {
            seq!["file sha256 did not match"@]
        } else {
            Seq::empty()
        },
        None => Seq::empty(),
    };
    f0 + f1 + f2 + f3 + f4
}

/// The failures `assert.file` reports, in order: presence, size, then
/// content and digest.
pub open spec fn file_failures(r: AssertFileRequest, o: FileObservation, regex: Option<Seq<char>>) -> Seq<Seq<char>> {
    presence_failures(r.expect == Some(AssertionExpect::Absent), o.exists) + size_failures(r, o.size)
        + content_failures(r, o, regex)
}

fn size_message(a: &str, n: u64, b: &str, m: u64) -> (r: String)
    ensures
        r@ == a@ + spec_decimal(n as nat) + b@ + spec_decimal(m as nat),
{
    let mut s = owned(a);
    push_decimal(&mut s, n);
    push_str(&mut s, b);
    push_decimal(&mut s, m);
    s
}

fn push_size_failures(r: &AssertFileRequest, size: &Option<Result<u64, String>>, failures: &mut Vec<String>)
    ensures
        strs_view(final(failures)@) == strs_view(old(failures)@) + size_failures(*r, *size),
{
    let ghost start = strs_view(failures@);
    match size {
        Some(Ok(n)) => {
            let n = *n;
            if let Some(e) = r.size_bytes {
                if n != e {
                    failures.push(size_message("size_bytes was ", n, ", expected ", e));
                }
            }
            let ghost s1 = strs_view(failures@);
            if let Some(m) = r.min_size_bytes {
                if n < m {
                    failures.push(size_message("size_bytes ", n, " was less than ", m));
                }
            }
            let ghost s2 = strs_view(failures@);
            if let Some(m) = r.max_size_bytes {
                if n > m {
                    failures.push(size_message("size_bytes ", n, " was greater than ", m));
                }
            }
            assert(strs_view(failures@) =~= start + size_failures(*r, *size));
        },
        Some(Err(_)) => {
            failures.push(owned("file metadata unavailable"));
            assert(strs_view(failures@) =~= start + size_failures(*r, *size));
        },
        None => {
            assert(strs_view(failures@) =~= start + size_failures(*r, *size));
        },
    }
}

fn push_content_failures(
    r: &AssertFileRequest,
    o: &FileObservation,
    regex: Option<&CompiledRegex>,
    failures: &mut Vec<String>,
)
    ensures
        strs_view(final(failures)@) == strs_view(old(failures)@) + content_failures(
            *r,
            *o,
            match regex {
                Some(re) => Some(re@),
                None => None,
            },
        ),
{
    let ghost start = strs_view(failures@);
    let ghost rv = match regex {
        Some(re) => Some(re@),
        None => None::<Seq<char>>,
    };
    let bytes: Option<&Vec<u8>> = match &o.bytes {
        Some(Ok(b)) => Some(b),
        _ => None,
    };
    let text: Option<String> = match bytes {
        Some(b) => string_from_utf8(b.clone()),
        None => None,
    };
    assert(sv(text) == file_text(*o));
    let text_ref: Option<&str> = match &text {
        Some(t) => Some(t.as_str()),
        None => None,
    };
    if let Some(Err(_)) = &o.bytes {
        failures.push(owned("file bytes unavailable"));
    }
    if let Some(e) = &r.content {
        let equal = match text_ref {
            Some(t) => str_eq(t, e.as_str()),
            None => false,
        };
        if !equal {
            failures.push(owned("file content did not equal expected text"));
        }
    }
    if let Some(n) = &r.content_contains {
        let found = match text_ref {
            Some(t) => str_contains(t, n.as_str()),
            None => false,
        };
        if !found {
            failures.push(owned("file content did not contain expected text"));
        }
    }
    if r.content_regex.is_some() && !regex_matches(text_ref, regex) {
        failures.push(owned("file content did not match regex"));
    }
    if let Some(e) = &r.sha256 {
        let same = match bytes {
            Some(b) => {
                let actual = to_ascii_lowercase(sha256_hex(b.as_slice()).as_str());
                let expected = to_ascii_lowercase(e.as_str());
                str_eq(actual.as_str(), expected.as_str())
            },
            None => false,
        };
        if !same {
            failures.push(owned("file sha256 did not match"));
        }
    }
    assert(strs_view(failures@) =~= start + content_failures(*r, *o, rv));
}

/// The failures `assert.file` reports for what was found of a file, given the
/// request's compiled content regex.
pub fn file_attempt_failures(request: &AssertFileRequest, observation: &FileObservation, regex: Option<&CompiledRegex>) -> (r:
    Vec<String>)
    ensures
        strs_view(r@) == file_failures(
            *request,
            *observation,
            match regex {
                Some(re) => Some(re@),
                None => None,
            },
        ),
{
    let mut failures: Vec<String> = Vec::new();
    let absent = expect_absent(request.expect);
    if absent {
        if observation.exists {
            failures.push(owned("expected file absent, but it exists"));
        }
    } else if !observation.exists {
        failures.push(owned("expected file present, but it does not exist"));
    }
    assert(strs_view(failures@) =~= presence_failures(absent, observation.exists));
    push_size_failures(request, &observation.size, &mut failures);
    push_content_failures(request, observation, regex, &mut failures);
    failures
}

} // verus!
