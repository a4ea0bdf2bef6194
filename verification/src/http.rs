//! The pure half of the HTTP/1.0 GET primitive: URL, status line and
//! authentication-redirect parsing, and the read policy.

use vstd::prelude::*;
use vstd::slice::slice_subrange;

use vstd::utf8::{decode_utf8, valid_utf8};

use crate::crypto::{lower_char, lower_text};
use crate::portal::{spec_trim, trim};
use crate::text::{
    ascii_ws, chars_of, contains_sub, find_char, has_substr, is_ascii_ws, push_char, push_str,
    rfind_char, spec_find, spec_parse_unsigned, spec_rfind, starts_with, string_of,
    parse_unsigned,
};

verus! {

/// Parsed target of `http://host[:port][/path]`.
#[derive(Debug, PartialEq, Eq)]
pub struct Target {
    /// Host without the port.
    pub host: String,
    /// Port (80 when absent).
    pub port: u16,
    /// Request path ("/" when absent).
    pub path: String,
    /// Host header as written: `host[:port]`.
    pub host_header: String,
}

/// Outcome of a GET.
#[derive(Debug, Clone)]
pub struct Response {
    pub status: u16,
    pub location_lower: String,
    pub body: String,
}

/// The scheme prefix `http://`.
pub open spec fn http_prefix() -> Seq<char> {
    seq!['h', 't', 't', 'p', ':', '/', '/']
}

/// Host, port, path and host header of a URL; only `http://` is accepted,
/// the host may be a name or an IPv4 literal.
pub open spec fn spec_parse_url(url: Seq<char>) -> Option<(Seq<char>, u16, Seq<char>, Seq<char>)> {
    if !http_prefix().is_prefix_of(url) {
        None
    } else {
        let rest = url.skip(7);
        let hostport = match spec_find(rest, '/') {
            Some(i) => rest.take(i),
            None => rest,
        };
        let path = match spec_find(rest, '/') {
            Some(i) => rest.skip(i),
            None => seq!['/'],
        };
        if hostport.len() == 0 {
            None
        } else {
            match spec_rfind(hostport, ':') {
                Some(j) => match spec_parse_unsigned(hostport.skip(j + 1), 65535) {
                    Some(p) => if j == 0 {
                        None
                    } else {
                        Some((hostport.take(j), p as u16, path, hostport))
                    },
                    None => None,
                },
                None => Some((hostport, 80u16, path, hostport)),
            }
        }
    }
}

/// Parses `http://host[:port][/path]`.
pub fn parse_url(url: &str) -> (r: Option<Target>)
    ensures
        match r {
            None => spec_parse_url(url@) is None,
            Some(t) => spec_parse_url(url@) == Some((t.host@, t.port, t.path@, t.host_header@)),
        },
{
    let cs = chars_of(url);
    let prefix = ['h', 't', 't', 'p', ':', '/', '/'];
    assert(prefix@ =~= http_prefix());
    if !starts_with(cs.as_slice(), prefix.as_slice()) {
        return None;
    }
    let rest = slice_subrange(cs.as_slice(), 7, cs.len());
    assert(rest@ =~= url@.skip(7));
    let (hostport, path) = match find_char(rest, '/') {
        Some(i) => {
            let hp = slice_subrange(rest, 0, i);
            let p = slice_subrange(rest, i, rest.len());
            assert(hp@ =~= rest@.take(i as int));
            assert(p@ =~= rest@.skip(i as int));
            (hp, string_of(p))
        },
        None => {
            let mut p = String::new();
            crate::text::push_char(&mut p, '/');
            assert(p@ =~= seq!['/']);
            (rest, p)
        },
    };
    if hostport.len() == 0 {
        return None;
    }
    match rfind_char(hostport, ':') {
        Some(j) => {
            let port_cs = slice_subrange(hostport, j + 1, hostport.len());
            assert(port_cs@ =~= hostport@.skip(j + 1));
            let port = match parse_unsigned(port_cs, 65535) {
                Some(p) => p as u16,
                None => {
                    return None;
                },
            };
            if j == 0 {
                return None;
            }
            let host = slice_subrange(hostport, 0, j);
            assert(host@ =~= hostport@.take(j as int));
            Some(
                Target {
                    host: string_of(host),
                    port,
                    path,
                    host_header: string_of(hostport),
                },
            )
        },
        None => Some(
            Target { host: string_of(hostport), port: 80, path, host_header: string_of(hostport) },
        ),
    }
}

/// Index just past the ASCII whitespace starting at `i`.
pub open spec fn skip_ws(s: Seq<char>, i: int) -> int
    decreases s.len() - i,
{
    if 0 <= i < s.len() && is_ascii_ws(s[i]) {
        skip_ws(s, i + 1)
    } else {
        i
    }
}

/// Index just past the non-whitespace run starting at `i`.
pub open spec fn take_tok(s: Seq<char>, i: int) -> int
    decreases s.len() - i,
{
    if 0 <= i < s.len() && !is_ascii_ws(s[i]) {
        take_tok(s, i + 1)
    } else {
        i
    }
}

/// Skips ASCII whitespace from `i`.
pub fn skip_ws_at(s: &[char], i: usize) -> (r: usize)
    requires
        i <= s@.len(),
    ensures
        r as int == skip_ws(s@, i as int),
        i <= r <= s@.len(),
{
    let mut j = i;
    while j < s.len() && ascii_ws(s[j])
        invariant
            i <= j <= s@.len(),
            skip_ws(s@, j as int) == skip_ws(s@, i as int),
        decreases s.len() - j,
    {
        j = j + 1;
    }
    j
}

/// Skips a non-whitespace run from `i`.
pub fn take_tok_at(s: &[char], i: usize) -> (r: usize)
    requires
        i <= s@.len(),
    ensures
        r as int == take_tok(s@, i as int),
        i <= r <= s@.len(),
{
    let mut j = i;
    while j < s.len() && !ascii_ws(s[j])
        invariant
            i <= j <= s@.len(),
            take_tok(s@, j as int) == take_tok(s@, i as int),
        decreases s.len() - j,
    {
        j = j + 1;
    }
    j
}

/// The prefix `HTTP/`.
pub open spec fn http_version_prefix() -> Seq<char> {
    seq!['H', 'T', 'T', 'P', '/']
}

/// Status code of a status line: the first whitespace-separated token must
/// start with `HTTP/`, the second is the code.
pub open spec fn spec_parse_status_code(line: Seq<char>) -> Option<u16> {
    let a = skip_ws(line, 0);
    let b = take_tok(line, a);
    let c = skip_ws(line, b);
    let d = take_tok(line, c);
    if a == b || !http_version_prefix().is_prefix_of(line.subrange(a, b)) || c == d {
        None
    } else {
        match spec_parse_unsigned(line.subrange(c, d), 65535) {
            Some(v) => Some(v as u16),
            None => None,
        }
    }
}

/// Lenient status line parsing: `HTTP/1.0 302 Found`, `HTTP/1.1 200 OK`, `HTTP/2 200`.
pub fn parse_status_code(status_line: &str) -> (r: Option<u16>)
    ensures
        r == spec_parse_status_code(status_line@),
{
    let cs = chars_of(status_line);
    let s = cs.as_slice();
    let a = skip_ws_at(s, 0);
    let b = take_tok_at(s, a);
    let c = skip_ws_at(s, b);
    let d = take_tok_at(s, c);
    if a == b {
        return None;
    }
    let version = slice_subrange(s, a, b);
    let prefix = ['H', 'T', 'T', 'P', '/'];
    assert(prefix@ =~= http_version_prefix());
    if !starts_with(version, prefix.as_slice()) {
        return None;
    }
    if c == d {
        return None;
    }
    match parse_unsigned(slice_subrange(s, c, d), 65535) {
        Some(v) => Some(v as u16),
        None => None,
    }
}

/// Whether a lower-cased `Location` points at the authentication page.
pub open spec fn spec_is_auth_redirect(location_lower: Seq<char>) -> bool {
    ||| contains_sub(location_lower, seq!['w', 'l', 'a', 'n', 'a', 'c', 'i', 'p'])
    ||| contains_sub(location_lower, seq!['n', 'e', 'x', 't', 'u', 'r', 'l'])
    ||| contains_sub(location_lower, seq!['p', 'o', 'r', 't', 'a', 'l'])
}

/// Whether a lower-cased `Location` points at the authentication page
/// (`wlanacip`, `nexturl` or `portal`).
pub fn is_auth_redirect(location_lower: &str) -> (r: bool)
    ensures
        r == spec_is_auth_redirect(location_lower@),
{
    let cs = chars_of(location_lower);
    let k1 = ['w', 'l', 'a', 'n', 'a', 'c', 'i', 'p'];
    let k2 = ['n', 'e', 'x', 't', 'u', 'r', 'l'];
    let k3 = ['p', 'o', 'r', 't', 'a', 'l'];
    assert(k1@ =~= seq!['w', 'l', 'a', 'n', 'a', 'c', 'i', 'p']);
    assert(k2@ =~= seq!['n', 'e', 'x', 't', 'u', 'r', 'l']);
    assert(k3@ =~= seq!['p', 'o', 'r', 't', 'a', 'l']);
    has_substr(cs.as_slice(), k1.as_slice()) || has_substr(cs.as_slice(), k2.as_slice())
        || has_substr(cs.as_slice(), k3.as_slice())
}

/// What to make of a read error: `Complete` fails on any, `AcceptPartial`
/// keeps the bytes already received.
#[derive(Debug, Clone, Copy, PartialEq, Eq, Structural)]
pub enum ReadPolicy {
    Complete,
    AcceptPartial,
}

/// `read_ok`: the read reached EOF; `got_bytes`: the buffer holds data.
pub fn read_acceptable(policy: ReadPolicy, read_ok: bool, got_bytes: bool) -> (r: bool)
    ensures
        r == (read_ok || (policy == ReadPolicy::AcceptPartial && got_bytes)),
{
    read_ok || (policy == ReadPolicy::AcceptPartial && got_bytes)
}

/// The GET request for a target: HTTP/1.0, the host header as written in
/// the URL, the user agent, and `Connection: close`.
pub open spec fn spec_request_text(path: Seq<char>, host_header: Seq<char>, user_agent: Seq<char>) -> Seq<char> {
    "GET "@ + path + " HTTP/1.0\r\nHost: "@ + host_header + "\r\nUser-Agent: "@ + user_agent
        + "\r\nConnection: close\r\n\r\n"@
}

/// Writes the request text for a target.
pub fn request_text(target: &Target, user_agent: &str) -> (r: String)
    ensures
        r@ == spec_request_text(target.path@, target.host_header@, user_agent@),
{
    let mut r = String::from_str("GET ");
    push_str(&mut r, target.path.as_str());
    push_str(&mut r, " HTTP/1.0\r\nHost: ");
    push_str(&mut r, target.host_header.as_str());
    push_str(&mut r, "\r\nUser-Agent: ");
    push_str(&mut r, user_agent);
    push_str(&mut r, "\r\nConnection: close\r\n\r\n");
    r
}

/// Text of received bytes with invalid UTF-8 replaced, as
/// `String::from_utf8_lossy` makes it.
pub uninterp spec fn utf8_lossy(bytes: Seq<u8>) -> Seq<char>;

/// Calls `String::from_utf8_lossy` (std). Claims that the text is a
/// function of the bytes, and is their decoding when they are valid UTF-8
/// (then std hands the text back unchanged).
#[verifier::external_body]
pub(crate) fn lossy_text(bytes: &[u8]) -> (r: String)
    ensures
        r@ == utf8_lossy(bytes@),
        valid_utf8(bytes@) ==> r@ == decode_utf8(bytes@),
{
    String::from_utf8_lossy(bytes).into_owned()
}

/// A line break `\r\n` at `i`.
pub open spec fn crlf_at(s: Seq<char>, i: int) -> bool {
    0 <= i && i + 1 < s.len() && s[i] == '\r' && s[i + 1] == '\n'
}

/// The first line break at or after `p`.
pub open spec fn first_crlf_from(s: Seq<char>, p: int) -> Option<int>
    decreases s.len() - p,
{
    if p < 0 || p + 1 >= s.len() {
        None
    } else if crlf_at(s, p) {
        Some(p)
    } else {
        first_crlf_from(s, p + 1)
    }
}

/// An empty line `\r\n\r\n` at `i`.
pub open spec fn blank_line_at(s: Seq<char>, i: int) -> bool {
    crlf_at(s, i) && crlf_at(s, i + 2)
}

/// The first empty line at or after `p`.
pub open spec fn first_blank_line_from(s: Seq<char>, p: int) -> Option<int>
    decreases s.len() - p,
{
    if p < 0 || p + 3 >= s.len() {
        None
    } else if blank_line_at(s, p) {
        Some(p)
    } else {
        first_blank_line_from(s, p + 1)
    }
}

pub proof fn lemma_first_crlf_from(s: Seq<char>, p: int)
    ensures
        first_crlf_from(s, p) matches Some(i) ==> p <= i && crlf_at(s, i),
    decreases s.len() - p,
{
    if !(p < 0 || p + 1 >= s.len()) && !crlf_at(s, p) {
        lemma_first_crlf_from(s, p + 1);
    }
}

proof fn lemma_first_blank_line_from(s: Seq<char>, p: int)
    ensures
        first_blank_line_from(s, p) matches Some(i) ==> p <= i && i + 4 <= s.len(),
    decreases s.len() - p,
{
    if !(p < 0 || p + 3 >= s.len()) && !blank_line_at(s, p) {
        lemma_first_blank_line_from(s, p + 1);
    }
}

/// The ASCII-case-insensitive header name `location`.
pub open spec fn is_location_key(k: Seq<char>) -> bool {
    k.len() == 8 && lower_text(k) == "location"@
}

/// Value of a `Location` header line: the text after the first `:`, trimmed
/// and ASCII-lower-cased, when the name before it, trimmed, is `location`.
pub open spec fn spec_location_value(line: Seq<char>) -> Option<Seq<char>> {
    match spec_find(line, ':') {
        None => None,
        Some(c) => if is_location_key(spec_trim(line.take(c))) {
            Some(lower_text(spec_trim(line.skip(c + 1))))
        } else {
            None
        },
    }
}

/// The `Location` value among the header lines that start at `p`, up to
/// the first empty line; empty when there is none.
pub open spec fn spec_location_from(s: Seq<char>, p: int) -> Seq<char>
    decreases s.len() - p,
{
    if p < 0 || p > s.len() {
        Seq::empty()
    } else {
        let e = match first_crlf_from(s, p) {
            Some(i) => i,
            None => s.len() as int,
        };
        if e <= p {
            Seq::empty()
        } else {
            match spec_location_value(s.subrange(p, e)) {
                Some(v) => v,
                None => match first_crlf_from(s, p) {
                    Some(i) => {
                        proof {
                            lemma_first_crlf_from(s, p);
                        }
                        spec_location_from(s, i + 2)
                    },
                    None => Seq::empty(),
                },
            }
        }
    }
}

/// A response as its status, lower-cased `Location` (empty when absent)
/// and body (after the first empty line; empty when there is none); `None`
/// when the first line is no status line.
pub open spec fn spec_parse_response(s: Seq<char>) -> Option<(u16, Seq<char>, Seq<char>)> {
    let status_line = match first_crlf_from(s, 0) {
        Some(i) => s.take(i),
        None => s,
    };
    let location = match first_crlf_from(s, 0) {
        Some(i) => spec_location_from(s, i + 2),
        None => Seq::empty(),
    };
    let body = match first_blank_line_from(s, 0) {
        Some(i) => s.skip(i + 4),
        None => Seq::empty(),
    };
    match spec_parse_status_code(status_line) {
        None => None,
        Some(st) => Some((st, location, body)),
    }
}

pub(crate) fn crlf_from(s: &[char], p: usize) -> (r: Option<usize>)
    requires
        p <= s@.len(),
    ensures
        match r {
            Some(i) => first_crlf_from(s@, p as int) == Some(i as int),
            None => first_crlf_from(s@, p as int) is None,
        },
{
    let mut j = p;
    while s.len() - j > 1
        invariant
            p <= j <= s@.len(),
            first_crlf_from(s@, j as int) == first_crlf_from(s@, p as int),
        decreases s.len() - j,
    {
        if s[j] == '\r' && s[j + 1] == '\n' {
            return Some(j);
        }
        j = j + 1;
    }
    None
}

fn blank_line_from(s: &[char], p: usize) -> (r: Option<usize>)
    requires
        p <= s@.len(),
    ensures
        match r {
            Some(i) => first_blank_line_from(s@, p as int) == Some(i as int),
            None => first_blank_line_from(s@, p as int) is None,
        },
{
    let mut j = p;
    while s.len() - j > 3
        invariant
            p <= j <= s@.len(),
            first_blank_line_from(s@, j as int) == first_blank_line_from(s@, p as int),
        decreases s.len() - j,
    {
        if s[j] == '\r' && s[j + 1] == '\n' && s[j + 2] == '\r' && s[j + 3] == '\n' {
            return Some(j);
        }
        j = j + 1;
    }
    None
}

fn lower_ascii(s: &str) -> (r: String)
    ensures
        r@ == lower_text(s@),
{
    let cs = chars_of(s);
    let mut out = String::new();
    let mut i: usize = 0;
    while i < cs.len()
        invariant
            i <= cs@.len(),
            cs@ == s@,
            out@ == lower_text(s@.take(i as int)),
        decreases cs.len() - i,
    {
        push_char(&mut out, lower_char(cs[i]));
        assert(lower_text(s@.take(i + 1)) =~= lower_text(s@.take(i as int)).push(
            crate::crypto::ascii_lower(cs@[i as int]),
        ));
        i = i + 1;
    }
    assert(s@.take(cs@.len() as int) =~= s@);
    out
}

fn location_value(line: &[char]) -> (r: Option<String>)
    ensures
        match r {
            Some(v) => spec_location_value(line@) == Some(v@),
            None => spec_location_value(line@) is None,
        },
{
    match find_char(line, ':') {
        None => None,
        Some(c) => {
            let n = line.len();
            assert(c < n);
            let key = string_of(slice_subrange(line, 0, c));
            let key_trim = trim(key.as_str());
            let lower_key = lower_ascii(key_trim);
            assert(line@.subrange(0, c as int) =~= line@.take(c as int));
            if key_trim.unicode_len() == 8 && crate::text::text_eq(lower_key.as_str(), "location") {
                let value = string_of(slice_subrange(line, c + 1, n));
                assert(line@.subrange(c + 1, line@.len() as int) =~= line@.skip(c + 1));
                let v = trim(value.as_str());
                Some(lower_ascii(v))
            } else {
                None
            }
        },
    }
}

fn location_from(s: &[char], p0: usize) -> (r: String)
    requires
        p0 <= s@.len(),
    ensures
        r@ == spec_location_from(s@, p0 as int),
{
    let n = s.len();
    let mut p = p0;
    loop
        invariant
            n == s@.len(),
            p <= s@.len(),
            spec_location_from(s@, p as int) == spec_location_from(s@, p0 as int),
        decreases s@.len() - p,
    {
        let next = crlf_from(s, p);
        let e = match next {
            Some(i) => i,
            None => s.len(),
        };
        proof {
            lemma_first_crlf_from(s@, p as int);
        }
        if e <= p {
            return String::new();
        }
        match location_value(slice_subrange(s, p, e)) {
            Some(v) => {
                return v;
            },
            None => match next {
                Some(i) => {
                    p = i + 2;
                },
                None => {
                    return String::new();
                },
            },
        }
    }
}

/// What follows the first empty line (empty when there is none).
pub(crate) fn body_after_blank_line(s: &[char]) -> (r: String)
    ensures
        r@ == match first_blank_line_from(s@, 0) {
            Some(i) => s@.skip(i + 4),
            None => Seq::empty(),
        },
{
    let n = s.len();
    match blank_line_from(s, 0) {
        Some(i) => {
            proof {
                lemma_first_blank_line_from(s@, 0);
            }
            assert(s@.subrange(i + 4, s@.len() as int) =~= s@.skip(i + 4));
            string_of(slice_subrange(s, i + 4, n))
        },
        None => String::new(),
    }
}

/// Parses the text of a response.
pub fn parse_response_text(text: &str) -> (r: Option<Response>)
    ensures
        match r {
            None => spec_parse_response(text@) is None,
            Some(x) => spec_parse_response(text@) == Some((x.status, x.location_lower@, x.body@)),
        },
{
    let cs = chars_of(text);
    let s = cs.as_slice();
    let first = crlf_from(s, 0);
    proof {
        lemma_first_crlf_from(s@, 0);
    }
    let status_line = match first {
        Some(i) => {
            assert(s@.subrange(0, i as int) =~= s@.take(i as int));
            string_of(slice_subrange(s, 0, i))
        },
        None => String::from_str(text),
    };
    let status = match parse_status_code(status_line.as_str()) {
        None => {
            return None;
        },
        Some(st) => st,
    };
    let location_lower = match first {
        Some(i) => {
            proof {
                lemma_first_crlf_from(s@, 0);
            }
            location_from(s, i + 2)
        },
        None => String::new(),
    };
    let body = body_after_blank_line(s);
    Some(Response { status, location_lower, body })
}

/// Parses the bytes of a response as `get` reads them: lossy UTF-8 text,
/// then `parse_response_text`.
pub fn parse_response(bytes: &[u8]) -> (r: Option<Response>)
    ensures
        match r {
            None => spec_parse_response(utf8_lossy(bytes@)) is None,
            Some(x) => spec_parse_response(utf8_lossy(bytes@)) == Some(
                (x.status, x.location_lower@, x.body@),
            ),
        },
{
    let text = lossy_text(bytes);
    parse_response_text(text.as_str())
}

} // verus!
