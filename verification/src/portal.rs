//! eportal authentication: login URL building (percent-encoding) and
//! JSONP reply classification.

use vstd::prelude::*;
use vstd::string::{StrSliceExecFns, StringSliceAdditionalSpecFns};

use crate::http::{skip_ws, take_tok};
use crate::text::{text_eq, 
    chars_of, decimal, find_char, parse_unsigned, push_char, rfind_char, spec_decimal, spec_find,
    spec_parse_unsigned, spec_rfind,
};

verus! {

/// RFC 3986 unreserved byte.
pub open spec fn is_unreserved(b: u8) -> bool {
    (0x41 <= b <= 0x5a) || (0x61 <= b <= 0x7a) || (0x30 <= b <= 0x39) || b == 0x2d || b == 0x2e
        || b == 0x5f || b == 0x7e
}

/// Upper-case hex digit of `d < 16`.
pub open spec fn hex_upper(d: u8) -> char {
    if d < 10 {
        (('0' as u32) + d) as char
    } else {
        (('A' as u32) + d - 10) as char
    }
}

/// Encoding of one byte: itself when unreserved, else `%XX` (upper-case hex).
pub open spec fn encode_byte(b: u8) -> Seq<char> {
    if is_unreserved(b) {
        seq![b as char]
    } else {
        seq!['%', hex_upper(b / 16), hex_upper(b % 16)]
    }
}

/// Percent-encoding of a byte string.
pub open spec fn spec_urlencode(bytes: Seq<u8>) -> Seq<char>
    decreases bytes.len(),
{
    if bytes.len() == 0 {
        Seq::empty()
    } else {
        spec_urlencode(bytes.drop_last()) + encode_byte(bytes.last())
    }
}

fn hex_digit(d: u8) -> (r: char)
    requires
        d < 16,
    ensures
        r == hex_upper(d),
{
    if d < 10 {
        (('0' as u8) + d) as char
    } else {
        (('A' as u8) + d - 10) as char
    }
}

/// Percent-encodes the UTF-8 bytes of a string: every byte that is not
/// RFC 3986 unreserved becomes `%XX` (upper-case hex).
pub fn urlencode(s: &str) -> (r: String)
    ensures
        r@ == spec_urlencode(s.spec_bytes()),
{
    let bytes = s.as_bytes();
    let mut out = String::new();
    let mut i: usize = 0;
    while i < bytes.len()
        invariant
            i <= bytes@.len(),
            bytes@ == s.spec_bytes(),
            out@ == spec_urlencode(bytes@.take(i as int)),
        decreases bytes.len() - i,
    {
        let b = bytes[i];
        assert(bytes@.take(i + 1).drop_last() =~= bytes@.take(i as int));
        if (0x41 <= b && b <= 0x5a) || (0x61 <= b && b <= 0x7a) || (0x30 <= b && b <= 0x39) || b
            == 0x2d || b == 0x2e || b == 0x5f || b == 0x7e {
            push_char(&mut out, b as char);
        } else {
            push_char(&mut out, '%');
            push_char(&mut out, hex_digit(b / 16));
            push_char(&mut out, hex_digit(b % 16));
        }
        assert(out@ =~= spec_urlencode(bytes@.take(i + 1)));
        i = i + 1;
    }
    assert(bytes@.take(bytes@.len() as int) =~= bytes@);
    out
}

/// Dotted-decimal text of an IPv4 address.
pub open spec fn spec_ipv4_text(ip: Seq<u8>) -> Seq<char> {
    spec_decimal(ip[0] as nat) + seq!['.'] + spec_decimal(ip[1] as nat) + seq!['.'] + spec_decimal(
        ip[2] as nat,
    ) + seq!['.'] + spec_decimal(ip[3] as nat)
}

/// Dotted-decimal text of an IPv4 address.
pub fn ipv4_text(ip: [u8; 4]) -> (r: String)
    ensures
        r@ == spec_ipv4_text(ip@),
{
    let mut out = decimal(ip[0] as u64);
    push_char(&mut out, '.');
    out.append(decimal(ip[1] as u64).as_str());
    push_char(&mut out, '.');
    out.append(decimal(ip[2] as u64).as_str());
    push_char(&mut out, '.');
    out.append(decimal(ip[3] as u64).as_str());
    assert(out@ =~= spec_ipv4_text(ip@));
    out
}

/// The eportal login URL: the proven parameter set (all-zero MAC).
pub open spec fn spec_login_url(
    base: Seq<char>,
    user: Seq<char>,
    pass: Seq<char>,
    ip: Seq<u8>,
    ac_ip: Seq<char>,
    enc_user: Seq<char>,
    enc_pass: Seq<char>,
    enc_ac: Seq<char>,
) -> Seq<char> {
    base + "?callback=dr1004&login_method=1&user_account="@ + enc_user + "&user_password="@
        + enc_pass + "&wlan_user_ip="@ + spec_ipv4_text(ip)
        + "&wlan_user_ipv6=&wlan_user_mac=000000000000&wlan_ac_ip="@ + enc_ac
        + "&wlan_ac_name=&jsVersion=4.1.3&terminal_type=2&lang=zh-cn&v=2041"@
}

/// Builds the eportal login GET URL; account, password and AC address are
/// percent-encoded.
pub fn build_login_url(base: &str, user: &str, pass: &str, ip: [u8; 4], ac_ip: &str) -> (r:
    String)
    ensures
        r@ == spec_login_url(
            base@,
            user@,
            pass@,
            ip@,
            ac_ip@,
            spec_urlencode(user.spec_bytes()),
            spec_urlencode(pass.spec_bytes()),
            spec_urlencode(ac_ip.spec_bytes()),
        ),
{
    let mut out = String::from_str(base);
    out.append("?callback=dr1004&login_method=1&user_account=");
    out.append(urlencode(user).as_str());
    out.append("&user_password=");
    out.append(urlencode(pass).as_str());
    out.append("&wlan_user_ip=");
    out.append(ipv4_text(ip).as_str());
    out.append("&wlan_user_ipv6=&wlan_user_mac=000000000000&wlan_ac_ip=");
    out.append(urlencode(ac_ip).as_str());
    out.append("&wlan_ac_name=&jsVersion=4.1.3&terminal_type=2&lang=zh-cn&v=2041");
    out
}

/// The URL with its query masked (it carries the password).
pub open spec fn spec_redact_query(url: Seq<char>) -> Seq<char> {
    match spec_find(url, '?') {
        Some(i) => url.take(i) + "?***"@,
        None => url,
    }
}

/// Masks the query for logs and events.
pub fn redact_query(url: &str) -> (r: String)
    ensures
        r@ == spec_redact_query(url@),
{
    let cs = chars_of(url);
    match find_char(cs.as_slice(), '?') {
        Some(i) => {
            let mut out = String::from_str(url.substring_char(0, i));
            out.append("?***");
            out
        },
        None => String::from_str(url),
    }
}

/// Whitespace as `char::is_whitespace` defines it (Unicode `White_Space`).
pub open spec fn is_unicode_ws(c: char) -> bool {
    let v = c as u32;
    (0x09 <= v <= 0x0d) || v == 0x20 || v == 0x85 || v == 0xa0 || v == 0x1680 || (0x2000 <= v
        <= 0x200a) || v == 0x2028 || v == 0x2029 || v == 0x202f || v == 0x205f || v == 0x3000
}

pub fn unicode_ws(c: char) -> (r: bool)
    ensures
        r == is_unicode_ws(c),
{
    let v = c as u32;
    (0x09 <= v && v <= 0x0d) || v == 0x20 || v == 0x85 || v == 0xa0 || v == 0x1680 || (0x2000
        <= v && v <= 0x200a) || v == 0x2028 || v == 0x2029 || v == 0x202f || v == 0x205f || v
        == 0x3000
}

/// `a..b` is `s` without its leading and trailing whitespace.
pub open spec fn is_trim(s: Seq<char>, a: int, b: int) -> bool {
    &&& 0 <= a <= b <= s.len()
    &&& forall|i: int| 0 <= i < a ==> is_unicode_ws(#[trigger] s[i])
    &&& forall|i: int| b <= i < s.len() ==> is_unicode_ws(#[trigger] s[i])
    &&& a < b ==> !is_unicode_ws(s[a]) && !is_unicode_ws(s[b - 1])
}

/// Text inside `callback(...)` (first `(` to last `)`), else the trimmed body.
pub open spec fn spec_extract_json(body: Seq<char>, trimmed: Seq<char>) -> bool {
    match (spec_find(body, '('), spec_rfind(body, ')')) {
        (Some(a), Some(b)) if a < b => trimmed == body.subrange(a + 1, b),
        _ => exists|a: int, b: int| is_trim(body, a, b) && trimmed == body.subrange(a, b),
    }
}

/// Takes the content of `callback(...)`; without parentheses the body is
/// bare JSON and is only trimmed.
pub fn extract_json(body: &str) -> (r: &str)
    ensures
        spec_extract_json(body@, r@),
{
    let cs = chars_of(body);
    let open = find_char(cs.as_slice(), '(');
    let close = rfind_char(cs.as_slice(), ')');
    match (open, close) {
        (Some(a), Some(b)) => {
            if a < b {
                return body.substring_char(a + 1, b);
            }
        },
        _ => {},
    }
    trim(body)
}

/// The text without its leading whitespace.
pub open spec fn trim_start(s: Seq<char>) -> Seq<char>
    decreases s.len(),
{
    if s.len() > 0 && is_unicode_ws(s[0]) {
        trim_start(s.drop_first())
    } else {
        s
    }
}

/// The text without its trailing whitespace.
pub open spec fn trim_end(s: Seq<char>) -> Seq<char>
    decreases s.len(),
{
    if s.len() > 0 && is_unicode_ws(s.last()) {
        trim_end(s.drop_last())
    } else {
        s
    }
}

/// The text without leading and trailing whitespace.
pub open spec fn spec_trim(s: Seq<char>) -> Seq<char> {
    trim_end(trim_start(s))
}

proof fn lemma_trim_start(s: Seq<char>, a: int)
    requires
        0 <= a <= s.len(),
        forall|i: int| 0 <= i < a ==> is_unicode_ws(#[trigger] s[i]),
        a == s.len() || !is_unicode_ws(s[a]),
    ensures
        trim_start(s) == s.skip(a),
    decreases a,
{
    if a > 0 {
        assert(s.drop_first().skip(a - 1) =~= s.skip(a));
        assert forall|i: int| 0 <= i < a - 1 implies is_unicode_ws(#[trigger] s.drop_first()[i]) by {
            assert(s.drop_first()[i] == s[i + 1]);
        }
        lemma_trim_start(s.drop_first(), a - 1);
    } else {
        assert(s.skip(0) =~= s);
    }
}

proof fn lemma_trim_end(s: Seq<char>, b: int)
    requires
        0 <= b <= s.len(),
        forall|i: int| b <= i < s.len() ==> is_unicode_ws(#[trigger] s[i]),
        b == 0 || !is_unicode_ws(s[b - 1]),
    ensures
        trim_end(s) == s.take(b),
    decreases s.len(),
{
    if s.len() > b {
        assert(s.drop_last().take(b) =~= s.take(b));
        lemma_trim_end(s.drop_last(), b);
    } else {
        assert(s.take(b) =~= s);
    }
}

/// `is_trim` bounds cut out exactly the trimmed text.
proof fn lemma_trim(s: Seq<char>, a: int, b: int)
    requires
        is_trim(s, a, b),
        a == b ==> forall|i: int| 0 <= i < s.len() ==> is_unicode_ws(#[trigger] s[i]),
    ensures
        spec_trim(s) == s.subrange(a, b),
{
    if a < b {
        lemma_trim_start(s, a);
        let t = s.skip(a);
        assert forall|i: int| b - a <= i < t.len() implies is_unicode_ws(#[trigger] t[i]) by {
            assert(t[i] == s[i + a]);
        }
        lemma_trim_end(t, b - a);
        assert(t.take(b - a) =~= s.subrange(a, b));
    } else {
        lemma_trim_start(s, s.len() as int);
        assert(s.skip(s.len() as int) =~= Seq::<char>::empty());
        assert(s.subrange(a, b) =~= Seq::<char>::empty());
    }
}

/// The text without leading and trailing whitespace (`str::trim`).
pub fn trim(s: &str) -> (r: &str)
    ensures
        exists|a: int, b: int| is_trim(s@, a, b) && r@ == s@.subrange(a, b),
        r@ == spec_trim(s@),
{
    let cs = chars_of(s);
    let mut a: usize = 0;
    while a < cs.len() && unicode_ws(cs[a])
        invariant
            a <= cs@.len(),
            cs@ == s@,
            forall|i: int| 0 <= i < a ==> is_unicode_ws(#[trigger] cs@[i]),
        decreases cs.len() - a,
    {
        a = a + 1;
    }
    let mut b: usize = cs.len();
    while b > a && unicode_ws(cs[b - 1])
        invariant
            a <= b <= cs@.len(),
            cs@ == s@,
            forall|i: int| b <= i < cs@.len() ==> is_unicode_ws(#[trigger] cs@[i]),
        decreases b,
    {
        b = b - 1;
    }
    let r = s.substring_char(a, b);
    assert(is_trim(s@, a as int, b as int));
    proof {
        if a == b {
            assert forall|i: int| 0 <= i < s@.len() implies is_unicode_ws(#[trigger] s@[i]) by {
                if i >= a {
                    assert(cs@[i] == s@[i]);
                }
            }
        }
        lemma_trim(s@, a as int, b as int);
    }
    r
}

/// A top-level JSON member: `(true, s)` for a string `s`, `(false, t)` for
/// any other value whose JSON text is `t`.
pub open spec fn member_view(m: Option<JsonScalar>) -> Option<(bool, Seq<char>)> {
    match m {
        None => None,
        Some(JsonScalar::Str(s)) => Some((true, s@)),
        Some(JsonScalar::Text(t)) => Some((false, t@)),
    }
}

/// A JSON member value: a string, or the JSON text of any other value.
#[derive(Debug, Clone)]
pub enum JsonScalar {
    Str(String),
    Text(String),
}

/// Member `key` of the JSON object in `text`, as `serde_json` reads it:
/// `None` when the text is not JSON or has no such member.
pub uninterp spec fn json_member(text: Seq<char>, key: Seq<char>) -> Option<(bool, Seq<char>)>;

/// Calls `serde_json::from_str::<Value>` and reads the member `key` of the
/// result. Claims only that the outcome is a function of the text and the
/// key (`json_member`); a string member comes back as its content, any
/// other value as its JSON text (`Value::to_string`).
#[verifier::external_body]
fn member_of(text: &str, key: &str) -> (r: Option<JsonScalar>)
    ensures
        member_view(r) == json_member(text@, key@),
{
    let v: serde_json::Value = serde_json::from_str(text).ok()?;
    match v.get(key)? {
        serde_json::Value::String(s) => Some(JsonScalar::Str(s.clone())),
        other => Some(JsonScalar::Text(other.to_string())),
    }
}

/// Portal login outcome.
#[derive(Debug, Clone, PartialEq, Eq)]
pub enum PortalResult {
    Success,
    /// The server says this IP is already online: the session exists, use it.
    AlreadyOnline,
    Failure(String),
    Malformed,
}

/// Abstract portal outcome.
pub enum PortalResultView {
    Success,
    AlreadyOnline,
    Failure(Seq<char>),
    Malformed,
}

/// Abstract view of a portal outcome.
pub open spec fn portal_view(r: PortalResult) -> PortalResultView {
    match r {
        PortalResult::Success => PortalResultView::Success,
        PortalResult::AlreadyOnline => PortalResultView::AlreadyOnline,
        PortalResult::Failure(m) => PortalResultView::Failure(m@),
        PortalResult::Malformed => PortalResultView::Malformed,
    }
}

/// `ret_code` as a number: a JSON number or a numeric string.
pub open spec fn spec_ret_code(m: Option<(bool, Seq<char>)>) -> Option<nat> {
    match m {
        None => None,
        Some((_, t)) => spec_parse_unsigned(t, u64::MAX as nat),
    }
}

/// Classification of a reply from its `result`, `ret_code` and `msg`
/// members: result `1` is success; result `0` with ret_code `2` is
/// already online; any other result is a failure carrying `msg` (or
/// "no msg"); no result is malformed.
pub open spec fn spec_classify(
    result: Option<(bool, Seq<char>)>,
    ret_code: Option<(bool, Seq<char>)>,
    msg: Option<(bool, Seq<char>)>,
) -> PortalResultView {
    match result {
        None => PortalResultView::Malformed,
        Some((_, r)) => if r == "1"@ {
            PortalResultView::Success
        } else if r == "0"@ && spec_ret_code(ret_code) == Some(2nat) {
            PortalResultView::AlreadyOnline
        } else {
            match msg {
                Some((true, m)) => PortalResultView::Failure(m),
                _ => PortalResultView::Failure("no msg"@),
            }
        },
    }
}

fn text_of(m: &JsonScalar) -> (r: &str)
    ensures
        match m {
            JsonScalar::Str(s) => r@ == s@,
            JsonScalar::Text(t) => r@ == t@,
        },
{
    match m {
        JsonScalar::Str(s) => s.as_str(),
        JsonScalar::Text(t) => t.as_str(),
    }
}

/// Classifies a reply from its members.
pub fn classify_portal_reply(
    result: Option<JsonScalar>,
    ret_code: Option<JsonScalar>,
    msg: Option<JsonScalar>,
) -> (r: PortalResult)
    ensures
        portal_view(r) == spec_classify(member_view(result), member_view(ret_code), member_view(msg)),
{
    let r = match &result {
        None => {
            return PortalResult::Malformed;
        },
        Some(r) => text_of(r),
    };
    if text_eq(r, "1") {
        return PortalResult::Success;
    }
    if text_eq(r, "0") {
        let code = match &ret_code {
            None => None,
            Some(c) => {
                let cs = chars_of(text_of(c));
                parse_unsigned(cs.as_slice(), u64::MAX)
            },
        };
        if code == Some(2u64) {
            return PortalResult::AlreadyOnline;
        }
    }
    match msg {
        Some(JsonScalar::Str(m)) => PortalResult::Failure(m),
        _ => PortalResult::Failure(String::from_str("no msg")),
    }
}

/// Parses a JSONP (`dr1004({...})`) or bare JSON reply.
pub fn parse_portal_reply(body: &str) -> (r: PortalResult)
    ensures
        exists|inner: Seq<char>|
            spec_extract_json(body@, inner) && portal_view(r) == spec_classify(
                json_member(inner, "result"@),
                json_member(inner, "ret_code"@),
                json_member(inner, "msg"@),
            ),
{
    let inner = extract_json(body);
    let result = member_of(inner, "result");
    let ret_code = member_of(inner, "ret_code");
    let msg = member_of(inner, "msg");
    classify_portal_reply(result, ret_code, msg)
}

/// Status code of a response line: the second whitespace-separated token.
pub open spec fn spec_parse_status(line: Seq<char>) -> Option<u16> {
    let a = skip_ws(line, 0);
    let b = take_tok(line, a);
    let c = skip_ws(line, b);
    let d = take_tok(line, c);
    if a == b || c == d {
        None
    } else {
        match spec_parse_unsigned(line.subrange(c, d), 65535) {
            Some(v) => Some(v as u16),
            None => None,
        }
    }
}

/// Status code of the portal's response line.
pub fn parse_status(line: &str) -> (r: Option<u16>)
    ensures
        r == spec_parse_status(line@),
{
    let cs = chars_of(line);
    let s = cs.as_slice();
    let a = crate::http::skip_ws_at(s, 0);
    let b = crate::http::take_tok_at(s, a);
    let c = crate::http::skip_ws_at(s, b);
    let d = crate::http::take_tok_at(s, c);
    if a == b || c == d {
        return None;
    }
    match parse_unsigned(vstd::slice::slice_subrange(s, c, d), 65535) {
        Some(v) => Some(v as u16),
        None => None,
    }
}

/// The verdict line that `wireless test` prints for a login attempt
/// (`None`: no reply came back).
pub open spec fn spec_result_line(r: Option<PortalResultView>) -> Seq<char> {
    match r {
        Some(PortalResultView::Success) => "RESULT: SUCCESS"@,
        Some(PortalResultView::AlreadyOnline) => "RESULT: SUCCESS (already online)"@,
        Some(PortalResultView::Failure(m)) => "RESULT: FAILURE ("@ + m + ")"@,
        Some(PortalResultView::Malformed) => "RESULT: MALFORMED (check wlan_ac_ip / portal_url)"@,
        None => "RESULT: NO REPLY (route/TUN interference?)"@,
    }
}

/// Renders the verdict line of a login attempt.
pub fn result_line(r: Option<&PortalResult>) -> (s: String)
    ensures
        s@ == spec_result_line(
            match r {
                Some(x) => Some(portal_view(*x)),
                None => None,
            },
        ),
{
    match r {
        Some(PortalResult::Success) => String::from_str("RESULT: SUCCESS"),
        Some(PortalResult::AlreadyOnline) => String::from_str("RESULT: SUCCESS (already online)"),
        Some(PortalResult::Failure(m)) => {
            let mut s = String::from_str("RESULT: FAILURE (");
            crate::text::push_str(&mut s, m.as_str());
            push_char(&mut s, ')');
            proof {
                reveal_strlit(")");
                assert(s@ =~= "RESULT: FAILURE ("@ + m@ + ")"@);
            }
            s
        },
        Some(PortalResult::Malformed) => String::from_str(
            "RESULT: MALFORMED (check wlan_ac_ip / portal_url)",
        ),
        None => String::from_str("RESULT: NO REPLY (route/TUN interference?)"),
    }
}

/// User agent of portal requests (the one the login endpoint counts devices by).
pub const PORTAL_UA: &'static str = "python-requests/2.31.0";

/// Host (with the port, if any) and path of a portal URL; only `http://`.
pub open spec fn spec_portal_target(url: Seq<char>) -> Option<(Seq<char>, Seq<char>)> {
    if !crate::http::http_prefix().is_prefix_of(url) {
        None
    } else {
        let rest = url.skip(7);
        match spec_find(rest, '/') {
            Some(i) => Some((rest.take(i), rest.skip(i))),
            None => Some((rest, seq!['/'])),
        }
    }
}

/// The login request for a portal URL (`None` unless it is `http://`).
pub fn portal_request_text(url: &str) -> (r: Option<String>)
    ensures
        match spec_portal_target(url@) {
            None => r is None,
            Some((host, path)) => r matches Some(t) && t@ == crate::http::spec_request_text(
                path,
                host,
                PORTAL_UA@,
            ),
        },
{
    let cs = chars_of(url);
    let prefix = ['h', 't', 't', 'p', ':', '/', '/'];
    assert(prefix@ =~= crate::http::http_prefix());
    if !crate::text::starts_with(cs.as_slice(), prefix.as_slice()) {
        return None;
    }
    let rest = vstd::slice::slice_subrange(cs.as_slice(), 7, cs.len());
    assert(rest@ =~= url@.skip(7));
    let (host, path) = match find_char(rest, '/') {
        Some(i) => {
            assert(rest@.subrange(0, i as int) =~= rest@.take(i as int));
            assert(rest@.subrange(i as int, rest@.len() as int) =~= rest@.skip(i as int));
            (
                crate::text::string_of(vstd::slice::slice_subrange(rest, 0, i)),
                crate::text::string_of(vstd::slice::slice_subrange(rest, i, rest.len())),
            )
        },
        None => (crate::text::string_of(rest), String::from_str("/")),
    };
    proof {
        reveal_strlit("/");
    }
    let target = crate::http::Target { host: String::new(), port: 80, path, host_header: host };
    Some(crate::http::request_text(&target, PORTAL_UA))
}

/// Status and body of a portal response text: the status is the second
/// token of the first line, the body what follows the first empty line.
pub open spec fn spec_portal_response(s: Seq<char>) -> Option<(u16, Seq<char>)> {
    let line = match crate::http::first_crlf_from(s, 0) {
        Some(i) => s.take(i),
        None => s,
    };
    let body = match crate::http::first_blank_line_from(s, 0) {
        Some(i) => s.skip(i + 4),
        None => Seq::empty(),
    };
    match spec_parse_status(line) {
        None => None,
        Some(st) => Some((st, body)),
    }
}

/// Parses the text of a portal response.
pub fn parse_portal_response_text(text: &str) -> (r: Option<(u16, String)>)
    ensures
        match r {
            None => spec_portal_response(text@) is None,
            Some((st, body)) => spec_portal_response(text@) == Some((st, body@)),
        },
{
    let cs = chars_of(text);
    let s = cs.as_slice();
    let first = crate::http::crlf_from(s, 0);
    proof {
        crate::http::lemma_first_crlf_from(s@, 0);
    }
    let line = match first {
        Some(i) => {
            assert(s@.subrange(0, i as int) =~= s@.take(i as int));
            crate::text::string_of(vstd::slice::slice_subrange(s, 0, i))
        },
        None => String::from_str(text),
    };
    let status = match parse_status(line.as_str()) {
        None => {
            return None;
        },
        Some(st) => st,
    };
    let body = crate::http::body_after_blank_line(s);
    Some((status, body))
}

/// Parses the bytes of a portal response (lossy UTF-8 text first).
pub fn parse_portal_response(bytes: &[u8]) -> (r: Option<(u16, String)>)
    ensures
        match r {
            None => spec_portal_response(crate::http::utf8_lossy(bytes@)) is None,
            Some((st, body)) => spec_portal_response(crate::http::utf8_lossy(bytes@)) == Some(
                (st, body@),
            ),
        },
{
    let text = crate::http::lossy_text(bytes);
    parse_portal_response_text(text.as_str())
}


/// Login tries of the field test (a bound-source SYN is sometimes dropped).
pub const TEST_LOGIN_ATTEMPTS: u32 = 3;

/// Pause between two login tries of the field test (ms).
pub const TEST_RETRY_PAUSE_MS: u64 = 2_000;

/// What the field test does after login try number `attempt` (from 1).
#[derive(Debug, Clone, Copy, PartialEq, Eq, Structural)]
pub enum TestLoginStep {
    /// A reply came: show it.
    Show,
    /// No reply: pause this long, then try again.
    Retry(u64),
    /// No reply after the last try.
    GiveUp,
}

/// After try `attempt` (1-based): a reply is shown; without one the test
/// tries again after the pause, three tries in all.
pub fn test_login_next(attempt: u32, got_reply: bool) -> (r: TestLoginStep)
    ensures
        got_reply ==> r == TestLoginStep::Show,
        !got_reply && attempt < TEST_LOGIN_ATTEMPTS ==> r == TestLoginStep::Retry(TEST_RETRY_PAUSE_MS),
        !got_reply && attempt >= TEST_LOGIN_ATTEMPTS ==> r == TestLoginStep::GiveUp,
{
    if got_reply {
        TestLoginStep::Show
    } else if attempt < TEST_LOGIN_ATTEMPTS {
        TestLoginStep::Retry(TEST_RETRY_PAUSE_MS)
    } else {
        TestLoginStep::GiveUp
    }
}

/// The line shown when login try `attempt` got no reply:
/// `"No reply (attempt <n>/3), retrying ..."`.
pub fn no_reply_line(attempt: u32) -> (r: String)
    ensures
        r@ == "No reply (attempt "@ + crate::text::spec_decimal(attempt as nat) + "/3), retrying ..."@,
{
    let mut s = String::from_str("No reply (attempt ");
    let d = crate::text::decimal(attempt as u64);
    crate::text::push_str(&mut s, d.as_str());
    crate::text::push_str(&mut s, "/3), retrying ...");
    s
}

} // verus!
