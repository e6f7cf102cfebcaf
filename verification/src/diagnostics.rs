//! Build and test diagnostics: which build tools `build.run` may start, how
//! their captured output is bounded and scanned for errors and warnings, and
//! the JUnit and HTML reports of a macro run.

use vstd::prelude::*;
use vstd::utf8::{decode_utf8, valid_utf8};

use crate::checks::ToolFailure;
use crate::http::split_char;
use crate::json::{
    array_items, json_as_str, json_get, lemma_array_view, lemma_object_view, object_entries,
    JsonNumber, JsonValue, JsonView,
};
use crate::text::{
    chars_of, concat2, eq_ignore_ascii_case, lower_seq, owned, push_char, push_decimal, push_str, sv,
    spec_contains, spec_decimal, str_contains, strs_view, to_ascii_lowercase,
};

verus! {

/// The build tools `build.run` may start.
pub open spec fn allowlisted_build_tool(basename: Seq<char>) -> bool {
    let b = lower_seq(basename);
    b == lower_seq("cargo"@) || b == lower_seq("dotnet"@) || b == lower_seq("msbuild"@) || b == lower_seq("cmake"@)
        || b == lower_seq("ctest"@)
}

/// Whether a program (by its base name, compared ignoring ASCII case) is an
/// allowlisted build tool: `cargo`, `dotnet`, `msbuild`, `cmake` or `ctest`.
pub fn build_tool_allowed(basename: &str) -> (r: bool)
    ensures
        r == allowlisted_build_tool(basename@),
{
    eq_ignore_ascii_case(basename, "cargo") || eq_ignore_ascii_case(basename, "dotnet") || eq_ignore_ascii_case(
        basename,
        "msbuild",
    ) || eq_ignore_ascii_case(basename, "cmake") || eq_ignore_ascii_case(basename, "ctest")
}

/// The position of the last `c` in `s`, or -1 when there is none.
pub open spec fn last_index_of(s: Seq<char>, c: char) -> int
    decreases s.len(),
{
    if s.len() == 0 {
        -1
    } else if s.last() == c {
        s.len() - 1
    } else {
        last_index_of(s.drop_last(), c)
    }
}

/// What follows the last `/` of a path (all of it when it has none).
pub open spec fn last_component(path: Seq<char>) -> Seq<char> {
    path.skip(last_index_of(path, '/') + 1)
}

/// A path whose file name is the same on every platform std supports: it holds
/// no `\`, does not start with `//`, and what follows its last `/` is a
/// non-empty name other than `.` and `..` with no `:` in it.
pub open spec fn portable_path(path: Seq<char>) -> bool {
    let name = last_component(path);
    &&& forall|i: int| 0 <= i < path.len() ==> path[i] != '\\'
    &&& !(path.len() >= 2 && path[0] == '/' && path[1] == '/')
    &&& name.len() > 0
    &&& name != "."@
    &&& name != ".."@
    &&& forall|i: int| 0 <= i < name.len() ==> name[i] != ':'
}

/// A file name's stem: what comes before its last `.`, unless that `.` is the
/// first character or there is none, when it is the whole name.
pub open spec fn file_stem_of(name: Seq<char>) -> Seq<char> {
    let k = last_index_of(name, '.');
    if k <= 0 {
        name
    } else {
        name.take(k)
    }
}

/// The file stem of a path, if it has one.
///
/// Trusted: calls std `Path::file_stem`, whose stem is the file name up to its
/// last `.` (the whole name when it has no `.` or only a leading one). Stated
/// for paths whose file name does not depend on the platform's path syntax
/// (`portable_path`); of other paths (with `\`, drive-relative, UNC, or ending
/// in a separator, `.` or `..`) nothing is stated.
#[verifier::external_body]
fn path_file_stem(path: &str) -> (r: Option<String>)
    ensures
        portable_path(path@) ==> sv(r) == Some(file_stem_of(last_component(path@))),
{
    std::path::Path::new(path).file_stem().map(|value| value.to_string_lossy().to_string())
}

/// The file name of a path, if it has one.
///
/// Trusted: calls std `Path::file_name`, the path's final component. Stated for
/// `portable_path` paths only, as for `path_file_stem`.
#[verifier::external_body]
fn path_file_name(path: &str) -> (r: Option<String>)
    ensures
        portable_path(path@) ==> sv(r) == Some(last_component(path@)),
{
    std::path::Path::new(path).file_name().map(|value| value.to_string_lossy().to_string())
}

/// A program's base name from its path's stem and file name: the stem, else
/// the file name, else the program as given.
pub fn basename_from(stem: Option<String>, file_name: Option<String>, program: &str) -> (r: String)
    ensures
        r@ == match stem {
            Some(s) => s@,
            None => match file_name {
                Some(n) => n@,
                None => program@,
            },
        },
{
    match stem {
        Some(s) => s,
        None => match file_name {
            Some(n) => n,
            None => owned(program),
        },
    }
}

/// A program's base name: its path's file stem, else its file name, else the
/// program as given. For a `portable_path` it is the stem of what follows the
/// last `/`: `C:/Tools/cargo.exe` gives `cargo`.
pub fn build_tool_basename(program: &str) -> (r: String)
    ensures
        portable_path(program@) ==> r@ == file_stem_of(last_component(program@)),
{
    let stem = path_file_stem(program);
    let name = path_file_name(program);
    basename_from(stem, name, program)
}

/// The check `build.run` makes before it starts anything: the program's base
/// name must be an allowlisted build tool, else the call is refused with
/// `build_tool_not_allowlisted`. Gives the base name when it is allowed. For a
/// `portable_path` the base name is the stem of what follows the last `/`, so
/// `C:/Tools/CARGO.EXE` is allowed and `powershell.exe` refused.
pub fn build_program_check(program: &str) -> (r: Result<String, ToolFailure>)
    ensures
        match r {
            Ok(b) => allowlisted_build_tool(b@),
            Err(f) => f.code@ == "build_tool_not_allowlisted"@
                && f.message@ == "build.run only supports direct allowlisted build tools: cargo, dotnet, msbuild, cmake, ctest"@,
        },
        portable_path(program@) ==> (r is Ok <==> allowlisted_build_tool(file_stem_of(last_component(program@)))),
        portable_path(program@) && r is Ok ==> r->Ok_0@ == file_stem_of(last_component(program@)),
{
    let basename = build_tool_basename(program);
    if build_tool_allowed(basename.as_str()) {
        Ok(basename)
    } else {
        Err(ToolFailure {
            code: "build_tool_not_allowlisted",
            message: "build.run only supports direct allowlisted build tools: cargo, dotnet, msbuild, cmake, ctest",
        })
    }
}

/// How much of a build's output is kept, in bytes (256 KiB).
pub const MAX_CAPTURED_OUTPUT: usize = 262144;

/// The text std makes of bytes, replacing each invalid UTF-8 sequence.
pub uninterp spec fn utf8_lossy(bytes: Seq<u8>) -> Seq<char>;

/// The text of some bytes, invalid UTF-8 replaced.
///
/// Trusted: calls std `String::from_utf8_lossy`, whose result depends on the
/// bytes alone and, for valid UTF-8, is the text they encode.
#[verifier::external_body]
fn text_from_utf8_lossy(bytes: &[u8]) -> (r: String)
    ensures
        r@ == utf8_lossy(bytes@),
        valid_utf8(bytes@) ==> r@ == decode_utf8(bytes@),
{
    String::from_utf8_lossy(bytes).into_owned()
}

/// Captured output: its text (of at most `MAX_CAPTURED_OUTPUT` bytes), how many
/// bytes there were in all, and whether some were cut.
#[derive(Debug, Clone, PartialEq, Eq)]
pub struct BoundedText {
    pub text: String,
    pub bytes: usize,
    pub truncated: bool,
}

/// Keeps the first `MAX_CAPTURED_OUTPUT` bytes of captured output as text.
pub fn bounded_utf8(bytes: Vec<u8>) -> (r: BoundedText)
    ensures
        r.bytes == bytes@.len(),
        r.truncated == (bytes@.len() > MAX_CAPTURED_OUTPUT),
        r.text@ == utf8_lossy(if r.truncated { bytes@.take(MAX_CAPTURED_OUTPUT as int) } else { bytes@ }),
{
    let original_len = bytes.len();
    let truncated = original_len > MAX_CAPTURED_OUTPUT;
    let mut kept = bytes;
    if truncated {
        kept.truncate(MAX_CAPTURED_OUTPUT);
    }
    let text = text_from_utf8_lossy(kept.as_slice());
    BoundedText { text, bytes: original_len, truncated }
}

/// A line without the `\r` of a `\r\n` ending.
pub open spec fn strip_cr(p: Seq<char>) -> Seq<char> {
    if p.len() > 0 && p.last() == '\r' {
        p.drop_last()
    } else {
        p
    }
}

/// The lines of a text (`str::lines`): split at `\n`, a `\r` just before a `\n`
/// dropped, and no empty line after a final `\n`.
pub open spec fn text_lines(s: Seq<char>) -> Seq<Seq<char>> {
    let pieces = split_char(s, '\n');
    let ended = pieces.drop_last().map_values(|p: Seq<char>| strip_cr(p));
    if pieces.last().len() == 0 {
        ended
    } else {
        ended.push(pieces.last())
    }
}

/// The lines of a text.
pub fn lines_of(s: &str) -> (r: Vec<String>)
    ensures
        strs_view(r@) == text_lines(s@),
{
    let chars = chars_of(s);
    let ghost cs = chars@;
    let ghost mut done: Seq<Seq<char>> = Seq::empty();
    let mut out: Vec<String> = Vec::new();
    let mut current = String::new();
    let mut i: usize = 0;
    while i < chars.len()
        invariant
            cs == chars@,
            i <= cs.len(),
            split_char(cs.take(i as int), '\n') == done.push(current@),
            strs_view(out@) == done.map_values(|p: Seq<char>| strip_cr(p)),
        decreases chars.len() - i,
    {
        assert(cs.take(i + 1).drop_last() =~= cs.take(i as int));
        assert(cs.take(i + 1).last() == chars@[i as int]);
        if chars[i] == '\n' {
            let cur = chars_of(current.as_str());
            let line = if cur.len() > 0 && cur[cur.len() - 1] == '\r' {
                crate::text::prefix_string(&cur, cur.len() - 1)
            } else {
                current
            };
            assert(line@ == strip_cr(cur@)) by {
                if cur@.len() > 0 && cur@.last() == '\r' {
                    assert(cur@.take(cur@.len() - 1) =~= cur@.drop_last());
                }
            };
            let ghost old_done = done;
            proof {
                done = done.push(cur@);
            }
            let ghost before = out@;
            out.push(line);
            assert(strs_view(out@) =~= strs_view(before).push(strip_cr(cur@)));
            assert(done.map_values(|p: Seq<char>| strip_cr(p)) =~= old_done.map_values(|p: Seq<char>| strip_cr(p)).push(
                strip_cr(cur@),
            ));
            assert(strs_view(out@) =~= done.map_values(|p: Seq<char>| strip_cr(p)));
            current = String::new();
            assert(split_char(cs.take(i + 1), '\n') =~= done.push(current@));
        } else {
            push_char(&mut current, chars[i]);
            assert(split_char(cs.take(i + 1), '\n') =~= done.push(current@));
        }
        i += 1;
    }
    assert(cs.take(cs.len() as int) =~= cs);
    let ghost pieces = done.push(current@);
    assert(pieces.drop_last() =~= done);
    if !current.as_str().is_empty() {
        let ghost before = out@;
        out.push(current);
        assert(strs_view(out@) =~= strs_view(before).push(pieces.last()));
    }
    out
}

/// `{"stream": <stream>, "line": <n>, "text": <line>}`.
pub open spec fn diagnostic_entry(stream: Seq<char>, n: nat, line: Seq<char>) -> JsonView {
    JsonView::Object(
        seq![
            ("stream"@, JsonView::Str(stream)),
            ("line"@, JsonView::Number(JsonNumber::PosInt(n as u64))),
            ("text"@, JsonView::Str(line)),
        ],
    )
}

/// The error and warning lines of a stream, in order, numbered from 1: a line
/// mentioning `error` (in any ASCII case) is an error, else one mentioning
/// `warning` is a warning.
pub open spec fn classify_lines(stream: Seq<char>, lines: Seq<Seq<char>>) -> (Seq<JsonView>, Seq<JsonView>)
    decreases lines.len(),
{
    if lines.len() == 0 {
        (Seq::empty(), Seq::empty())
    } else {
        let (errors, warnings) = classify_lines(stream, lines.drop_last());
        let line = lines.last();
        let entry = diagnostic_entry(stream, lines.len(), line);
        if spec_contains(lower_seq(line), "error"@) {
            (errors.push(entry), warnings)
        } else if spec_contains(lower_seq(line), "warning"@) {
            (errors, warnings.push(entry))
        } else {
            (errors, warnings)
        }
    }
}

/// The diagnostics of a build: `{"errors": [...], "warnings": [...]}`, the
/// standard output's lines before the standard error's.
pub open spec fn build_diagnostics(stdout: Seq<char>, stderr: Seq<char>) -> JsonView {
    let (e1, w1) = classify_lines("stdout"@, text_lines(stdout));
    let (e2, w2) = classify_lines("stderr"@, text_lines(stderr));
    JsonView::Object(seq![("errors"@, JsonView::Array(e1 + e2)), ("warnings"@, JsonView::Array(w1 + w2))])
}

fn entry_value(stream: &str, n: usize, line: &str) -> (r: JsonValue)
    ensures
        r@ == diagnostic_entry(stream@, n as nat, line@),
{
    let mut es: Vec<(String, JsonValue)> = Vec::new();
    es.push((owned("stream"), JsonValue::String(owned(stream))));
    es.push((owned("line"), JsonValue::Number(JsonNumber::PosInt(n as u64))));
    es.push((owned("text"), JsonValue::String(owned(line))));
    proof {
        lemma_object_view(es);
        assert(object_entries(es@) =~= seq![
            ("stream"@, JsonView::Str(stream@)),
            ("line"@, JsonView::Number(JsonNumber::PosInt(n as u64))),
            ("text"@, JsonView::Str(line@)),
        ]);
    }
    JsonValue::Object(es)
}

fn classify_stream(stream: &str, text: &str, errors: &mut Vec<JsonValue>, warnings: &mut Vec<JsonValue>)
    ensures
        array_items(final(errors)@) == array_items(old(errors)@) + classify_lines(stream@, text_lines(text@)).0,
        array_items(final(warnings)@) == array_items(old(warnings)@) + classify_lines(stream@, text_lines(text@)).1,
{
    let lines = lines_of(text);
    let ghost ls = strs_view(lines@);
    let ghost e0 = array_items(errors@);
    let ghost w0 = array_items(warnings@);
    let mut i: usize = 0;
    while i < lines.len()
        invariant
            ls == strs_view(lines@),
            ls == text_lines(text@),
            i <= ls.len(),
            array_items(errors@) == e0 + classify_lines(stream@, ls.take(i as int)).0,
            array_items(warnings@) == w0 + classify_lines(stream@, ls.take(i as int)).1,
        decreases lines.len() - i,
    {
        assert(ls.take(i + 1).drop_last() =~= ls.take(i as int));
        assert(ls.take(i + 1).last() == lines@[i as int]@);
        let lower = to_ascii_lowercase(lines[i].as_str());
        let ghost before_e = errors@;
        let ghost before_w = warnings@;
        if str_contains(lower.as_str(), "error") {
            errors.push(entry_value(stream, i + 1, lines[i].as_str()));
            assert(array_items(errors@) =~= array_items(before_e).push(errors@.last()@));
        } else if str_contains(lower.as_str(), "warning") {
            warnings.push(entry_value(stream, i + 1, lines[i].as_str()));
            assert(array_items(warnings@) =~= array_items(before_w).push(warnings@.last()@));
        }
        i += 1;
    }
    assert(ls.take(ls.len() as int) =~= ls);
}

/// Scans a build's output for error and warning lines.
pub fn parse_build_diagnostics(stdout: &str, stderr: &str) -> (r: JsonValue)
    ensures
        r@ == build_diagnostics(stdout@, stderr@),
{
    let mut errors: Vec<JsonValue> = Vec::new();
    let mut warnings: Vec<JsonValue> = Vec::new();
    assert(array_items(errors@) =~= Seq::<JsonView>::empty());
    assert(array_items(warnings@) =~= Seq::<JsonView>::empty());
    classify_stream("stdout", stdout, &mut errors, &mut warnings);
    classify_stream("stderr", stderr, &mut errors, &mut warnings);
    let ghost ev = array_items(errors@);
    let ghost wv = array_items(warnings@);
    proof {
        lemma_array_view(errors);
        lemma_array_view(warnings);
    }
    let mut es: Vec<(String, JsonValue)> = Vec::new();
    es.push((owned("errors"), JsonValue::Array(errors)));
    es.push((owned("warnings"), JsonValue::Array(warnings)));
    proof {
        lemma_object_view(es);
        assert(object_entries(es@) =~= seq![("errors"@, JsonView::Array(ev)), ("warnings"@, JsonView::Array(wv))]);
    }
    JsonValue::Object(es)
}

/// One character escaped for HTML text: `&`, `<`, `>` and `"` become entities.
pub open spec fn html_char(c: char) -> Seq<char> {
    if c == '&' {
        "&amp;"@
    } else if c == '<' {
        "&lt;"@
    } else if c == '>' {
        "&gt;"@
    } else if c == '"' {
        "&quot;"@
    } else {
        seq![c]
    }
}

/// One character escaped for XML text: as for HTML, and `'` too.
pub open spec fn xml_char(c: char) -> Seq<char> {
    if c == '\'' {
        "&apos;"@
    } else {
        html_char(c)
    }
}

/// A text with each character escaped by `f`.
pub open spec fn escape_with(s: Seq<char>, f: spec_fn(char) -> Seq<char>) -> Seq<char>
    decreases s.len(),
{
    if s.len() == 0 {
        Seq::empty()
    } else {
        escape_with(s.drop_last(), f) + f(s.last())
    }
}

fn escape_text(value: &str, apostrophe: bool) -> (r: String)
    ensures
        r@ == escape_with(
            value@,
            if apostrophe {
                |c: char| xml_char(c)
            } else {
                |c: char| html_char(c)
            },
        ),
{
    let ghost f = if apostrophe {
        |c: char| xml_char(c)
    } else {
        |c: char| html_char(c)
    };
    let chars = chars_of(value);
    let mut r = String::new();
    let mut i: usize = 0;
    while i < chars.len()
        invariant
            f == (if apostrophe {
                |c: char| xml_char(c)
            } else {
                |c: char| html_char(c)
            }),
            i <= chars@.len(),
            r@ == escape_with(chars@.take(i as int), f),
        decreases chars.len() - i,
    {
        assert(chars@.take(i + 1).drop_last() =~= chars@.take(i as int));
        assert(chars@.take(i + 1).last() == chars@[i as int]);
        let c = chars[i];
        if c == '&' {
            push_str(&mut r, "&amp;");
        } else if c == '<' {
            push_str(&mut r, "&lt;");
        } else if c == '>' {
            push_str(&mut r, "&gt;");
        } else if c == '"' {
            push_str(&mut r, "&quot;");
        } else if c == '\'' && apostrophe {
            push_str(&mut r, "&apos;");
        } else {
            let ghost before = r@;
            push_char(&mut r, c);
            assert(r@ == before + seq![c]);
        }
        i += 1;
    }
    assert(chars@.take(chars@.len() as int) =~= chars@);
    r
}

/// Escapes a text for HTML.
pub fn html_escape(value: &str) -> (r: String)
    ensures
        r@ == escape_with(value@, |c: char| html_char(c)),
{
    escape_text(value, false)
}

/// Escapes a text for XML.
pub fn xml_escape(value: &str) -> (r: String)
    ensures
        r@ == escape_with(value@, |c: char| xml_char(c)),
{
    escape_text(value, true)
}

/// The status a run result reports (`unknown` when it reports none).
pub open spec fn run_status(result: JsonView) -> Seq<char> {
    match json_as_str(json_get(result, "status"@)) {
        Some(s) => s,
        None => "unknown"@,
    }
}

/// The JUnit report of a run: one test case named after the run, failed unless
/// the run's status is `succeeded` (in any ASCII case).
pub open spec fn junit_text(run_id: Seq<char>, result: JsonView) -> Seq<char> {
    let status = run_status(result);
    let passed = lower_seq(status) == lower_seq("succeeded"@);
    "<?xml version=\"1.0\" encoding=\"utf-8\"?>\n<testsuite name=\"winctl\" tests=\"1\" failures=\""@ + if passed {
        "0"@
    } else {
        "1"@
    } + "\">\n  <testcase classname=\"winctl\" name=\""@ + run_id + "\">\n    "@ + if passed {
        Seq::empty()
    } else {
        "<failure message=\"run status "@ + status + "\"/>"@
    } + "\n  </testcase>\n</testsuite>\n"@
}

/// Writes the JUnit report of a run.
pub fn junit_report(run_id: &str, result: &JsonValue) -> (r: String)
    ensures
        r@ == junit_text(run_id@, result@),
{
    let status = match result.get("status") {
        Some(v) => match v.as_str() {
            Some(s) => s,
            None => "unknown",
        },
        None => "unknown",
    };
    let passed = eq_ignore_ascii_case(status, "succeeded");
    let mut r = owned("<?xml version=\"1.0\" encoding=\"utf-8\"?>\n<testsuite name=\"winctl\" tests=\"1\" failures=\"");
    push_str(&mut r, if passed { "0" } else { "1" });
    push_str(&mut r, "\">\n  <testcase classname=\"winctl\" name=\"");
    push_str(&mut r, run_id);
    push_str(&mut r, "\">\n    ");
    if !passed {
        push_str(&mut r, "<failure message=\"run status ");
        push_str(&mut r, status);
        push_str(&mut r, "\"/>");
    }
    push_str(&mut r, "\n  </testcase>\n</testsuite>\n");
    r
}

/// The HTML report of a run, around its result rendered as pretty JSON.
pub open spec fn html_text(run_id: Seq<char>, result_json: Seq<char>) -> Seq<char> {
    "<!doctype html>\n<html lang=\"en\">\n<head><meta charset=\"utf-8\"><title>winctl report "@ + run_id
        + "</title></head>\n<body><h1>winctl report "@ + run_id + "</h1><pre>"@ + escape_with(
        result_json,
        |c: char| html_char(c),
    ) + "</pre></body>\n</html>\n"@
}

/// Writes the HTML report of a run, given its result rendered as pretty JSON.
pub fn html_report(run_id: &str, result_json: &str) -> (r: String)
    ensures
        r@ == html_text(run_id@, result_json@),
{
    let mut r = owned("<!doctype html>\n<html lang=\"en\">\n<head><meta charset=\"utf-8\"><title>winctl report ");
    push_str(&mut r, run_id);
    push_str(&mut r, "</title></head>\n<body><h1>winctl report ");
    push_str(&mut r, run_id);
    push_str(&mut r, "</h1><pre>");
    push_str(&mut r, html_escape(result_json).as_str());
    push_str(&mut r, "</pre></body>\n</html>\n");
    r
}

/// A report format of `test.report_export`.
#[derive(Debug, Clone, Copy, PartialEq, Eq, Structural)]
pub enum ReportFormat {
    Json,
    Junit,
    Html,
}

/// The report format a name selects (`json` by default; `junit` and `xml` both
/// select JUnit), compared ignoring ASCII case.
pub open spec fn report_format_named(name: Option<Seq<char>>) -> Option<ReportFormat> {
    let n = match name {
        Some(s) => lower_seq(s),
        None => "json"@,
    };
    if n == "json"@ {
        Some(ReportFormat::Json)
    } else if n == "junit"@ || n == "xml"@ {
        Some(ReportFormat::Junit)
    } else if n == "html"@ {
        Some(ReportFormat::Html)
    } else {
        None
    }
}

/// Selects the report format; `None` for an unsupported one.
pub fn report_format(name: Option<&str>) -> (r: Option<ReportFormat>)
    ensures
        r == report_format_named(
            match name {
                Some(s) => Some(s@),
                None => None,
            },
        ),
{
    let n = match name {
        Some(s) => to_ascii_lowercase(s),
        None => owned("json"),
    };
    if crate::text::str_eq(n.as_str(), "json") {
        Some(ReportFormat::Json)
    } else if crate::text::str_eq(n.as_str(), "junit") || crate::text::str_eq(n.as_str(), "xml") {
        Some(ReportFormat::Junit)
    } else if crate::text::str_eq(n.as_str(), "html") {
        Some(ReportFormat::Html)
    } else {
        None
    }
}

/// The file extension of a report format.
pub fn report_extension(format: ReportFormat) -> (r: &'static str)
    ensures
        r@ == match format {
            ReportFormat::Json => "json"@,
            ReportFormat::Junit => "xml"@,
            ReportFormat::Html => "html"@,
        },
{
    match format {
        ReportFormat::Json => "json",
        ReportFormat::Junit => "xml",
        ReportFormat::Html => "html",
    }
}

/// How a build run ended: it is ok when the process succeeded within the
/// timeout, and the timeout counts as exceeded only when one was given and the
/// run took longer.
pub fn build_run_outcome(success: bool, elapsed_ms: u64, timeout_ms: Option<u64>) -> (r: (bool, bool))
    ensures
        r.1 == (timeout_ms matches Some(t) && elapsed_ms > t),
        r.0 == (success && !r.1),
{
    let exceeded = match timeout_ms {
        Some(t) => elapsed_ms > t,
        None => false,
    };
    (success && !exceeded, exceeded)
}

/// The file a run report is written to when no path is given:
/// `<run>-report.<extension>`.
pub fn report_file_name(run_id: &str, format: ReportFormat) -> (r: String)
    ensures
        r@ == run_id@ + "-report."@ + match format {
            ReportFormat::Json => "json"@,
            ReportFormat::Junit => "xml"@,
            ReportFormat::Html => "html"@,
        },
{
    let mut r = owned(run_id);
    push_str(&mut r, "-report.");
    push_str(&mut r, report_extension(format));
    r
}

} // verus!
