//! Two-level drop detection: gateway ICMP for the link, HTTP for being
//! kicked by the server. The verdict logic and target parsing live here;
//! the probes themselves are run by the service shell.

use vstd::prelude::*;
use vstd::slice::slice_subrange;

use crate::http::{parse_url, spec_parse_url};
use crate::text::{
    chars_of, decimal, digits_value, find_char, is_digit, push_char, spec_decimal, spec_find,
};

verus! {

/// Conclusion of one probe; the watchdog decides whether to redial.
#[derive(Debug, Clone, Copy, PartialEq, Eq, Structural)]
pub enum ProbeVerdict {
    Alive,
    LinkDown,
    Kicked,
}

/// Probe settings.
#[derive(Debug, Clone)]
pub struct ProbeCfg {
    pub interval_ms: u64,
    pub http_url: String,
}

/// HTTP recheck: a redirect to the authentication page means kicked;
/// anything else (200, other redirects) means still alive.
pub fn verdict_from_http(saw_redirect: bool, nexturl_is_auth: bool) -> (r: ProbeVerdict)
    ensures
        r == (if saw_redirect && nexturl_is_auth {
            ProbeVerdict::Kicked
        } else {
            ProbeVerdict::Alive
        }),
{
    if saw_redirect && nexturl_is_auth {
        ProbeVerdict::Kicked
    } else {
        ProbeVerdict::Alive
    }
}

/// Combined verdict of the two probes (`None` = not run or inconclusive).
pub open spec fn spec_combine(icmp_ok: Option<bool>, http: Option<ProbeVerdict>) -> ProbeVerdict {
    if http == Some(ProbeVerdict::Kicked) {
        ProbeVerdict::Kicked
    } else if icmp_ok == Some(true) {
        ProbeVerdict::Alive
    } else if http == Some(ProbeVerdict::Alive) {
        ProbeVerdict::Alive
    } else {
        ProbeVerdict::LinkDown
    }
}

/// Combines the probes: an HTTP redirect to the authentication page means
/// kicked whatever ICMP says; a reachable gateway or a live HTTP exit means
/// alive; otherwise the link is down.
pub fn combine(icmp_ok: Option<bool>, http: Option<ProbeVerdict>) -> (r: ProbeVerdict)
    ensures
        r == spec_combine(icmp_ok, http),
{
    match (icmp_ok, http) {
        (_, Some(ProbeVerdict::Kicked)) => ProbeVerdict::Kicked,
        (Some(true), _) => ProbeVerdict::Alive,
        (_, Some(ProbeVerdict::Alive)) => ProbeVerdict::Alive,
        _ => ProbeVerdict::LinkDown,
    }
}

/// A dotted-decimal octet as `Ipv4Addr::from_str` accepts it: one to three
/// digits, no leading zero unless it is the only digit, at most 255.
pub open spec fn octet_ok(t: Seq<char>) -> bool {
    &&& 1 <= t.len() <= 3
    &&& forall|i: int| 0 <= i < t.len() ==> is_digit(#[trigger] t[i])
    &&& (t.len() == 1 || t[0] != '0')
    &&& digits_value(t) <= 255
}

/// Four octets separated by single dots, as `Ipv4Addr::from_str` accepts them.
pub open spec fn spec_parse_ipv4(s: Seq<char>) -> Option<Seq<u8>> {
    match spec_find(s, '.') {
        None => None,
        Some(i) => {
            let s1 = s.skip(i + 1);
            match spec_find(s1, '.') {
                None => None,
                Some(j) => {
                    let s2 = s1.skip(j + 1);
                    match spec_find(s2, '.') {
                        None => None,
                        Some(k) => {
                            let s3 = s2.skip(k + 1);
                            if octet_ok(s.take(i)) && octet_ok(s1.take(j)) && octet_ok(
                                s2.take(k),
                            ) && octet_ok(s3) {
                                Some(
                                    seq![
                                        digits_value(s.take(i)) as u8,
                                        digits_value(s1.take(j)) as u8,
                                        digits_value(s2.take(k)) as u8,
                                        digits_value(s3) as u8,
                                    ],
                                )
                            } else {
                                None
                            }
                        },
                    }
                },
            }
        },
    }
}

/// Parses one octet.
fn parse_octet(t: &[char]) -> (r: Option<u8>)
    ensures
        r is Some <==> octet_ok(t@),
        r matches Some(v) ==> v == digits_value(t@),
{
    if t.len() < 1 || t.len() > 3 {
        return None;
    }
    if t.len() > 1 && t[0] == '0' {
        return None;
    }
    let mut v: u32 = 0;
    let mut i: usize = 0;
    while i < t.len()
        invariant
            i <= t@.len() <= 3,
            forall|j: int| 0 <= j < i ==> is_digit(t@[j]),
            v as nat == digits_value(t@.take(i as int)),
            v <= (if i == 0 {
                0int
            } else if i == 1 {
                9int
            } else if i == 2 {
                99int
            } else {
                999int
            }),
        decreases t.len() - i,
    {
        let c = t[i];
        if !('0' <= c && c <= '9') {
            return None;
        }
        assert(t@.take(i + 1).drop_last() =~= t@.take(i as int));
        assert(v * 10 + 9 < 10000);
        v = v * 10 + ((c as u32) - ('0' as u32));
        i = i + 1;
    }
    assert(t@.take(t@.len() as int) =~= t@);
    if v > 255 {
        return None;
    }
    Some(v as u8)
}

/// Parses a dotted-decimal IPv4 address.
pub fn parse_ipv4(s: &[char]) -> (r: Option<[u8; 4]>)
    ensures
        match r {
            None => spec_parse_ipv4(s@) is None,
            Some(a) => spec_parse_ipv4(s@) == Some(a@),
        },
{
    let i = match find_char(s, '.') {
        None => {
            return None;
        },
        Some(i) => i,
    };
    assert(i < s.len());
    let s1 = slice_subrange(s, i + 1, s.len());
    assert(s1@ =~= s@.skip(i + 1));
    let j = match find_char(s1, '.') {
        None => {
            return None;
        },
        Some(j) => j,
    };
    let s2 = slice_subrange(s1, j + 1, s1.len());
    assert(s2@ =~= s1@.skip(j + 1));
    let k = match find_char(s2, '.') {
        None => {
            return None;
        },
        Some(k) => k,
    };
    let s3 = slice_subrange(s2, k + 1, s2.len());
    assert(s3@ =~= s2@.skip(k + 1));
    let t0 = slice_subrange(s, 0, i);
    let t1 = slice_subrange(s1, 0, j);
    let t2 = slice_subrange(s2, 0, k);
    assert(t0@ =~= s@.take(i as int));
    assert(t1@ =~= s1@.take(j as int));
    assert(t2@ =~= s2@.take(k as int));
    let a = parse_octet(t0);
    let b = parse_octet(t1);
    let c = parse_octet(t2);
    let d = parse_octet(s3);
    match (a, b, c, d) {
        (Some(a), Some(b), Some(c), Some(d)) => {
            let r = [a, b, c, d];
            assert(r@ =~= spec_parse_ipv4(s@)->0);
            Some(r)
        },
        _ => None,
    }
}

/// IPv4 address and `host:port` of a probe target: `http://` plus an IPv4
/// literal, with optional port and path.
pub open spec fn spec_parse_http_probe_target(url: Seq<char>) -> Option<(Seq<u8>, Seq<char>)> {
    match spec_parse_url(url) {
        None => None,
        Some((host, port, _path, _hh)) => match spec_parse_ipv4(host) {
            None => None,
            Some(ip) => Some((ip, host + seq![':'] + spec_decimal(port as nat))),
        },
    }
}

/// Parses an HTTP probe target; only `http://` plus an IPv4 literal
/// (optional port and path) is accepted. Returns the address and `host:port`.
pub fn parse_http_probe_target(url: &str) -> (r: Option<([u8; 4], String)>)
    ensures
        match r {
            None => spec_parse_http_probe_target(url@) is None,
            Some((ip, hp)) => spec_parse_http_probe_target(url@) == Some((ip@, hp@)),
        },
{
    let t = match parse_url(url) {
        None => {
            return None;
        },
        Some(t) => t,
    };
    let host = chars_of(t.host.as_str());
    let ip = match parse_ipv4(host.as_slice()) {
        None => {
            return None;
        },
        Some(ip) => ip,
    };
    let mut hp = t.host;
    push_char(&mut hp, ':');
    let port = decimal(t.port as u64);
    hp.append(port.as_str());
    Some((ip, hp))
}

/// Public address pinged when the session has no usable gateway.
pub const PUBLIC_PROBE: [u8; 4] = [223, 5, 5, 5];

/// Target of the ICMP probe: the gateway, or the public address when
/// there is none or it is `0.0.0.0` (as on a PPPoE session).
pub open spec fn spec_icmp_target(gateway: Option<[u8; 4]>) -> [u8; 4] {
    match gateway {
        Some(g) if !(g[0] == 0 && g[1] == 0 && g[2] == 0 && g[3] == 0) => g,
        _ => PUBLIC_PROBE,
    }
}

/// Chooses the ICMP probe target.
pub fn icmp_target(gateway: Option<[u8; 4]>) -> (r: [u8; 4])
    ensures
        r == spec_icmp_target(gateway),
{
    match gateway {
        Some(g) => if g[0] == 0 && g[1] == 0 && g[2] == 0 && g[3] == 0 {
            PUBLIC_PROBE
        } else {
            g
        },
        None => PUBLIC_PROBE,
    }
}

/// Verdict of the HTTP recheck from its reply (status code and lower-cased
/// `Location`): a 302 to the authentication page is kicked, any other
/// reply alive; no reply is inconclusive.
pub open spec fn spec_http_verdict(reply: Option<(u16, Seq<char>)>) -> Option<ProbeVerdict> {
    match reply {
        None => None,
        Some((status, location)) => Some(
            if status == 302 && crate::http::spec_is_auth_redirect(location) {
                ProbeVerdict::Kicked
            } else {
                ProbeVerdict::Alive
            },
        ),
    }
}

/// Classifies the reply of the HTTP recheck.
pub fn http_verdict(reply: Option<(u16, &str)>) -> (r: Option<ProbeVerdict>)
    ensures
        r == spec_http_verdict(
            match reply {
                Some((st, loc)) => Some((st, loc@)),
                None => None,
            },
        ),
{
    match reply {
        None => None,
        Some((status, location)) => Some(
            verdict_from_http(status == 302, crate::http::is_auth_redirect(location)),
        ),
    }
}

/// One two-level probe from its outcomes: whether the ICMP target answered,
/// and the HTTP reply if one came.
pub fn probe_verdict(icmp_ok: bool, reply: Option<(u16, &str)>) -> (r: ProbeVerdict)
    ensures
        r == spec_combine(
            Some(icmp_ok),
            spec_http_verdict(
                match reply {
                    Some((st, loc)) => Some((st, loc@)),
                    None => None,
                },
            ),
        ),
{
    combine(Some(icmp_ok), http_verdict(reply))
}

} // verus!
