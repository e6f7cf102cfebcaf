//! Who may use the HTTP transport: the bearer-token check on each request
//! (an `Authorization` header, or a `token` query parameter where allowed),
//! the percent-decoding of query components, and the rule that a server
//! listening beyond loopback must have a token.

use vstd::prelude::*;
use vstd::utf8::{decode_utf8, valid_utf8};

use crate::text::{chars_of, concat2, concat3, lower_seq, owned, prefix_string, str_eq, substring_chars, to_ascii_lowercase};

verus! {

/// The value of an ASCII hexadecimal digit.
pub open spec fn hex_digit(b: u8) -> Option<u8> {
    if 48 <= b <= 57 {
        Some((b - 48) as u8)
    } else if 97 <= b <= 102 {
        Some((b - 97 + 10) as u8)
    } else if 65 <= b <= 70 {
        Some((b - 65 + 10) as u8)
    } else {
        None
    }
}

/// The value of a hexadecimal digit byte (`0`-`9`, `a`-`f`, `A`-`F`).
pub fn hex_value(byte: u8) -> (r: Option<u8>)
    ensures
        r == hex_digit(byte),
{
    if 48 <= byte && byte <= 57 {
        Some(byte - 48)
    } else if 97 <= byte && byte <= 102 {
        Some(byte - 97 + 10)
    } else if 65 <= byte && byte <= 70 {
        Some(byte - 65 + 10)
    } else {
        None
    }
}

/// Percent-decoding of bytes: `+` is a space, `%` and two hex digits is the byte
/// they spell, any other byte stands for itself. A `%` not followed by two hex
/// digits makes the whole component undecodable.
pub open spec fn percent_decode_bytes(b: Seq<u8>) -> Option<Seq<u8>>
    decreases b.len(),
{
    if b.len() == 0 {
        Some(Seq::empty())
    } else if b[0] == 43 {
        match percent_decode_bytes(b.drop_first()) {
            Some(rest) => Some(seq![32u8] + rest),
            None => None,
        }
    } else if b[0] == 37 {
        if b.len() < 3 {
            None
        } else {
            match (hex_digit(b[1]), hex_digit(b[2]), percent_decode_bytes(b.skip(3))) {
                (Some(h), Some(l), Some(rest)) => Some(seq![(h * 16 + l) as u8] + rest),
                _ => None,
            }
        }
    } else {
        match percent_decode_bytes(b.drop_first()) {
            Some(rest) => Some(seq![b[0]] + rest),
            None => None,
        }
    }
}

/// A query component decoded: its UTF-8 bytes percent-decoded, when that
/// succeeds and gives valid UTF-8.
pub open spec fn percent_decoded(s: Seq<char>) -> Option<Seq<char>> {
    match percent_decode_bytes(vstd::utf8::encode_utf8(s)) {
        Some(b) => if valid_utf8(b) {
            Some(decode_utf8(b))
        } else {
            None
        },
        None => None,
    }
}

/// The string whose UTF-8 encoding is `bytes`, if they are valid UTF-8.
///
/// Trusted: calls std `String::from_utf8`, which succeeds exactly on valid
/// UTF-8 and then holds the characters the bytes encode.
#[verifier::external_body]
pub(crate) fn string_from_utf8(bytes: Vec<u8>) -> (r: Option<String>)
    ensures
        r is Some <==> valid_utf8(bytes@),
        r matches Some(s) ==> s@ == decode_utf8(bytes@),
{
    String::from_utf8(bytes).ok()
}

/// Decodes one percent-encoded query component; `None` when it is malformed
/// or does not decode to UTF-8.
pub fn percent_decode_query_component(component: &str) -> (r: Option<String>)
    ensures
        match r {
            Some(s) => percent_decoded(component@) == Some(s@),
            None => percent_decoded(component@) is None,
        },
{
    let bytes = component.as_bytes();
    let ghost b = bytes@;
    let mut decoded: Vec<u8> = Vec::new();
    let mut index: usize = 0;
    assert(b.skip(0) =~= b);
    proof {
        match percent_decode_bytes(b) {
            Some(rest) => {
                assert(decoded@ + rest =~= rest);
            },
            None => {},
        }
    }
    while index < bytes.len()
        invariant
            b == bytes@,
            b == vstd::utf8::encode_utf8(component@),
            index <= b.len(),
            percent_decode_bytes(b) == match percent_decode_bytes(b.skip(index as int)) {
                Some(rest) => Some(decoded@ + rest),
                None => None,
            },
        decreases b.len() - index,
    {
        let ghost t = b.skip(index as int);
        assert(t[0] == b[index as int]);
        let byte = bytes[index];
        if byte == 43 {
            assert(t.drop_first() =~= b.skip(index + 1));
            decoded.push(32);
            index += 1;
            proof {
                match percent_decode_bytes(b.skip(index as int)) {
                    Some(rest) => {
                        assert(decoded@ + rest =~= decoded@.drop_last() + (seq![32u8] + rest));
                    },
                    None => {},
                }
            }
        } else if byte == 37 {
            if bytes.len() - index <= 2 {
                assert(percent_decode_bytes(t) is None);
                return None;
            }
            assert(t[1] == b[index + 1] && t[2] == b[index + 2]);
            let high = match hex_value(bytes[index + 1]) {
                Some(h) => h,
                None => {
                    assert(percent_decode_bytes(t) is None);
                    return None;
                },
            };
            let low = match hex_value(bytes[index + 2]) {
                Some(l) => l,
                None => {
                    assert(percent_decode_bytes(t) is None);
                    return None;
                },
            };
            assert(t.skip(3) =~= b.skip(index + 3));
            assert(high < 16 && low < 16);
            let v: u8 = high * 16 + low;
            decoded.push(v);
            index += 3;
            proof {
                match percent_decode_bytes(b.skip(index as int)) {
                    Some(rest) => {
                        assert(decoded@ + rest =~= decoded@.drop_last() + (seq![v] + rest));
                    },
                    None => {},
                }
            }
        } else {
            assert(t.drop_first() =~= b.skip(index + 1));
            decoded.push(byte);
            index += 1;
            proof {
                match percent_decode_bytes(b.skip(index as int)) {
                    Some(rest) => {
                        assert(decoded@ + rest =~= decoded@.drop_last() + (seq![byte] + rest));
                    },
                    None => {},
                }
            }
        }
    }
    assert(decoded@ + Seq::<u8>::empty() =~= decoded@);
    string_from_utf8(decoded)
}

/// The pieces of `s` between occurrences of `sep` (`str::split` with a
/// character): always at least one piece, and an empty piece where two
/// separators meet or `s` starts or ends with one.
pub open spec fn split_char(s: Seq<char>, sep: char) -> Seq<Seq<char>>
    decreases s.len(),
{
    if s.len() == 0 {
        seq![Seq::empty()]
    } else {
        let p = split_char(s.drop_last(), sep);
        if s.last() == sep {
            p.push(Seq::empty())
        } else {
            p.update(p.len() - 1, p.last().push(s.last()))
        }
    }
}

/// `k` is the position of the first `c` in `p`.
pub open spec fn first_at(p: Seq<char>, c: char, k: int) -> bool {
    &&& 0 <= k < p.len()
    &&& p[k] == c
    &&& forall|j: int| 0 <= j < k ==> p[j] != c
}

/// `str::split_once` with a character, or the whole of `p` and nothing when
/// `c` does not occur: the parts before and after the first `c`.
pub open spec fn split_once_or_whole(p: Seq<char>, c: char) -> (Seq<char>, Seq<char>) {
    if exists|k: int| first_at(p, c, k) {
        let k = choose|k: int| first_at(p, c, k);
        (p.take(k), p.skip(k + 1))
    } else {
        (p, Seq::empty())
    }
}

/// A query parameter that carries the required token: its name decodes to
/// `token` and its value to the token.
pub open spec fn token_param(pair: Seq<char>, token: Seq<char>) -> bool {
    let (name, value) = split_once_or_whole(pair, '=');
    percent_decoded(name) == Some("token"@) && percent_decoded(value) == Some(token)
}

/// One of the parameters carries the token.
pub open spec fn some_param_carries_token(params: Seq<Seq<char>>, token: Seq<char>) -> bool {
    exists|i: int| 0 <= i < params.len() && token_param(#[trigger] params[i], token)
}

/// A query string carries the token in one of its `&`-separated parameters.
pub open spec fn query_carries_token(query: Option<Seq<char>>, token: Seq<char>) -> bool {
    match query {
        Some(q) => some_param_carries_token(split_char(q, '&'), token),
        None => false,
    }
}

/// Whether one `name=value` query parameter carries the token.
fn pair_carries_token(pair: &Vec<char>, token: &str) -> (r: bool)
    ensures
        r == token_param(pair@, token@),
{
    let mut k: usize = 0;
    while k < pair.len() && pair[k] != '='
        invariant
            k <= pair@.len(),
            forall|j: int| 0 <= j < k ==> pair@[j] != '=',
        decreases pair.len() - k,
    {
        k += 1;
    }
    let (name, value) = if k < pair.len() {
        assert(first_at(pair@, '=', k as int));
        assert forall|k2: int| first_at(pair@, '=', k2) implies k2 == k by {
            if k2 < k {
                assert(pair@[k2] != '=');
            } else if k2 > k {
                assert(pair@[k as int] != '=');
            }
        }
        (prefix_string(pair, k), substring_chars(pair, k + 1, pair.len()))
    } else {
        assert(!exists|k2: int| first_at(pair@, '=', k2));
        assert(pair@.take(pair@.len() as int) =~= pair@);
        (prefix_string(pair, pair.len()), String::new())
    };
    assert(pair@.skip(k + 1) =~= pair@.subrange(k + 1, pair@.len() as int)) by {
        if k < pair@.len() {
        }
    };
    let name_ok = match percent_decode_query_component(name.as_str()) {
        Some(n) => str_eq(n.as_str(), "token"),
        None => false,
    };
    if !name_ok {
        return false;
    }
    match percent_decode_query_component(value.as_str()) {
        Some(v) => str_eq(v.as_str(), token),
        None => false,
    }
}

/// Whether a query string carries `required_token` as its `token` parameter
/// (names and values percent-decoded).
pub fn query_token_authorized(query: Option<&str>, required_token: &str) -> (r: bool)
    ensures
        r == query_carries_token(
            match query {
                Some(q) => Some(q@),
                None => None,
            },
            required_token@,
        ),
{
    let q = match query {
        Some(q) => q,
        None => return false,
    };
    let chars = chars_of(q);
    let ghost s = chars@;
    let ghost mut done: Seq<Seq<char>> = Seq::empty();
    let mut current: Vec<char> = Vec::new();
    let mut found = false;
    let mut i: usize = 0;
    while i < chars.len()
        invariant
            s == chars@,
            i <= s.len(),
            split_char(s.take(i as int), '&') == done.push(current@),
            found == exists|j: int| 0 <= j < done.len() && token_param(#[trigger] done[j], required_token@),
        decreases chars.len() - i,
    {
        assert(s.take(i + 1).drop_last() =~= s.take(i as int));
        assert(s.take(i + 1).last() == chars@[i as int]);
        if chars[i] == '&' {
            let hit = pair_carries_token(&current, required_token);
            let ghost old_done = done;
            let ghost found_before = found;
            proof {
                done = done.push(current@);
            }
            found = found || hit;
            current = Vec::new();
            assert(split_char(s.take(i + 1), '&') =~= done.push(current@));
            assert(found == exists|j: int| 0 <= j < done.len() && token_param(#[trigger] done[j], required_token@)) by {
                if hit {
                    assert(token_param(done[done.len() - 1], required_token@));
                }
                if found_before {
                    let j = choose|j: int| 0 <= j < old_done.len() && token_param(#[trigger] old_done[j], required_token@);
                    assert(done[j] == old_done[j]);
                }
                if exists|j: int| 0 <= j < done.len() && token_param(#[trigger] done[j], required_token@) {
                    let j = choose|j: int| 0 <= j < done.len() && token_param(#[trigger] done[j], required_token@);
                    if j < old_done.len() {
                        assert(old_done[j] == done[j]);
                    }
                }
            };
        } else {
            let ghost before = current@;
            current.push(chars[i]);
            assert(split_char(s.take(i + 1), '&') =~= done.push(current@));
        }
        i += 1;
    }
    assert(s.take(s.len() as int) =~= s);
    let last = pair_carries_token(&current, required_token);
    let r = found || last;
    let ghost pieces = done.push(current@);
    assert(split_char(q@, '&') == pieces);
    assert(r == exists|j: int| 0 <= j < pieces.len() && token_param(#[trigger] pieces[j], required_token@)) by {
        if last {
            assert(token_param(pieces[pieces.len() - 1], required_token@));
        }
        if found {
            let j = choose|j: int| 0 <= j < done.len() && token_param(#[trigger] done[j], required_token@);
            assert(pieces[j] == done[j]);
        }
        if exists|j: int| 0 <= j < pieces.len() && token_param(#[trigger] pieces[j], required_token@) {
            let j = choose|j: int| 0 <= j < pieces.len() && token_param(#[trigger] pieces[j], required_token@);
            if j < done.len() {
                assert(pieces[j] == done[j]);
            }
        }
    };
    assert(r == some_param_carries_token(pieces, required_token@));
    r
}

/// Whether an HTTP request may use the server: its `Authorization` header is
/// `Bearer <token>`, or, where allowed, its query carries the token.
pub fn http_request_authorized(
    authorization: Option<&str>,
    query: Option<&str>,
    required_token: &str,
    allow_query_token: bool,
) -> (r: bool)
    ensures
        r == ((authorization matches Some(h) && h@ == "Bearer "@ + required_token@) || (allow_query_token
            && query_carries_token(
            match query {
                Some(q) => Some(q@),
                None => None,
            },
            required_token@,
        ))),
{
    let header_ok = match authorization {
        Some(h) => {
            let expected = concat2("Bearer ", required_token);
            str_eq(h, expected.as_str())
        },
        None => false,
    };
    if header_ok {
        return true;
    }
    allow_query_token && query_token_authorized(query, required_token)
}

/// Why an HTTP configuration was refused.
#[derive(Debug, Clone, PartialEq, Eq)]
pub enum HttpConfigError {
    /// The server would listen beyond loopback without a token; holds the address.
    NonLoopbackWithoutToken(String),
}

impl HttpConfigError {
    /// The message the server reports.
    pub fn message(&self) -> (r: String)
        ensures
            match self {
                HttpConfigError::NonLoopbackWithoutToken(listen) => r@ == "HTTP listen address "@ + listen@
                    + " is not loopback; provide --auth-token before exposing MCP tools"@,
            },
    {
        match self {
            HttpConfigError::NonLoopbackWithoutToken(listen) => concat3(
                "HTTP listen address ",
                listen.as_str(),
                " is not loopback; provide --auth-token before exposing MCP tools",
            ),
        }
    }
}

/// A server that listens beyond loopback must have a non-empty token.
/// `listen` is the address as displayed and `listen_is_loopback` whether its IP is a loopback one.
pub fn validate_http_config(listen: &str, listen_is_loopback: bool, auth_token: Option<&str>) -> (r: Result<(), HttpConfigError>)
    ensures
        r is Err <==> (!listen_is_loopback && !(auth_token matches Some(t) && t@.len() > 0)),
        r matches Err(HttpConfigError::NonLoopbackWithoutToken(l)) ==> l@ == listen@,
{
    let has_token = match auth_token {
        Some(t) => !t.is_empty(),
        None => false,
    };
    if !listen_is_loopback && !has_token {
        return Err(HttpConfigError::NonLoopbackWithoutToken(owned(listen)));
    }
    Ok(())
}

/// The content type served for a capture file, by its extension (compared without case).
pub open spec fn capture_content_type(extension: Option<Seq<char>>) -> Seq<char> {
    match extension {
        Some(e) => if lower_seq(e) == "gif"@ {
            "image/gif"@
        } else if lower_seq(e) == "jpg"@ || lower_seq(e) == "jpeg"@ {
            "image/jpeg"@
        } else if lower_seq(e) == "webp"@ {
            "image/webp"@
        } else {
            "image/png"@
        },
        None => "image/png"@,
    }
}

/// The content type for a capture file with the given extension.
pub fn capture_file_content_type(extension: Option<&str>) -> (r: &'static str)
    ensures
        r@ == capture_content_type(
            match extension {
                Some(e) => Some(e@),
                None => None,
            },
        ),
{
    match extension {
        Some(e) => {
            let lower = to_ascii_lowercase(e);
            if str_eq(lower.as_str(), "gif") {
                "image/gif"
            } else if str_eq(lower.as_str(), "jpg") || str_eq(lower.as_str(), "jpeg") {
                "image/jpeg"
            } else if str_eq(lower.as_str(), "webp") {
                "image/webp"
            } else {
                "image/png"
            }
        },
        None => "image/png",
    }
}

/// Bytes holding no `%` and no `+` decode to themselves.
pub proof fn lemma_plain_bytes_decode_to_themselves(b: Seq<u8>)
    requires
        forall|i: int| 0 <= i < b.len() ==> b[i] != 37 && b[i] != 43,
    ensures
        percent_decode_bytes(b) == Some(b),
    decreases b.len(),
{
    if b.len() > 0 {
        lemma_plain_bytes_decode_to_themselves(b.drop_first());
        assert(seq![b[0]] + b.drop_first() =~= b);
    }
}

/// What follows the last `.` of a path (all of it when it has none).
pub open spec fn after_last_dot(s: Seq<char>) -> Seq<char>
    decreases s.len(),
{
    if s.len() == 0 {
        Seq::empty()
    } else if s.last() == '.' {
        Seq::empty()
    } else {
        after_last_dot(s.drop_last()).push(s.last())
    }
}

/// The content type the dashboard serves an asset with, by what follows the
/// last `.` of its path.
pub open spec fn asset_content_type(path: Seq<char>) -> Seq<char> {
    let e = after_last_dot(path);
    if e == "js"@ || e == "mjs"@ {
        "text/javascript; charset=utf-8"@
    } else if e == "css"@ {
        "text/css; charset=utf-8"@
    } else if e == "svg"@ {
        "image/svg+xml"@
    } else if e == "json"@ {
        "application/json"@
    } else if e == "woff2"@ {
        "font/woff2"@
    } else if e == "woff"@ {
        "font/woff"@
    } else if e == "ttf"@ {
        "font/ttf"@
    } else if e == "png"@ {
        "image/png"@
    } else {
        "application/octet-stream"@
    }
}

/// The content type for a dashboard asset.
pub fn dashboard_asset_content_type(path: &str) -> (r: &'static str)
    ensures
        r@ == asset_content_type(path@),
{
    let chars = crate::text::chars_of(path);
    let mut ext = String::new();
    let mut i: usize = 0;
    while i < chars.len()
        invariant
            i <= chars@.len(),
            ext@ == after_last_dot(chars@.take(i as int)),
        decreases chars.len() - i,
    {
        assert(chars@.take(i + 1).drop_last() =~= chars@.take(i as int));
        assert(chars@.take(i + 1).last() == chars@[i as int]);
        if chars[i] == '.' {
            ext = String::new();
        } else {
            crate::text::push_char(&mut ext, chars[i]);
        }
        i += 1;
    }
    assert(chars@.take(chars@.len() as int) =~= chars@);
    let e = ext.as_str();
    if str_eq(e, "js") || str_eq(e, "mjs") {
        "text/javascript; charset=utf-8"
    } else if str_eq(e, "css") {
        "text/css; charset=utf-8"
    } else if str_eq(e, "svg") {
        "image/svg+xml"
    } else if str_eq(e, "json") {
        "application/json"
    } else if str_eq(e, "woff2") {
        "font/woff2"
    } else if str_eq(e, "woff") {
        "font/woff"
    } else if str_eq(e, "ttf") {
        "font/ttf"
    } else if str_eq(e, "png") {
        "image/png"
    } else {
        "application/octet-stream"
    }
}

} // verus!
