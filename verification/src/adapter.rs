//! Adapter classification: virtual adapters (TUN/TAP/VPN/VM) are never
//! used for dialing or probing; the wired link state is decided here from
//! the adapter list that the shell samples.

use vstd::prelude::*;

use crate::protocol::result_view;
use crate::text::{chars_of, contains_sub, has_substr};

verus! {

/// Lower-case form of a string, as `str::to_lowercase` computes it.
pub uninterp spec fn lowercase(s: Seq<char>) -> Seq<char>;

/// Calls `str::to_lowercase` (std). Claims only that the result is the
/// lower-case form of the argument, a function of the argument alone
/// (Unicode case tables; no locale).
#[verifier::external_body]
pub(crate) fn to_lowercase(s: &str) -> (r: String)
    ensures
        r@ == lowercase(s@),
{
    s.to_lowercase()
}

/// Keywords that mark a virtual adapter.
pub open spec fn virtual_keywords() -> Seq<Seq<char>> {
    seq![
        "wintun"@,
        "tun"@,
        "tap"@,
        "tailscale"@,
        "clash"@,
        "wireguard"@,
        "hyper-v"@,
        "vmware"@,
        "virtualbox"@,
        "vethernet"@,
        "loopback"@,
        "wan miniport"@,
    ]
}

/// A lower-cased name or description is virtual when it contains a keyword.
pub open spec fn spec_is_virtual_lower(lower: Seq<char>) -> bool {
    exists|i: int| 0 <= i < virtual_keywords().len() && contains_sub(lower, #[trigger] virtual_keywords()[i])
}

/// Whether an already lower-cased adapter name or description is virtual.
pub fn is_virtual_lower(lower: &str) -> (r: bool)
    ensures
        r == spec_is_virtual_lower(lower@),
{
    let kws: [&str; 12] = [
        "wintun",
        "tun",
        "tap",
        "tailscale",
        "clash",
        "wireguard",
        "hyper-v",
        "vmware",
        "virtualbox",
        "vethernet",
        "loopback",
        "wan miniport",
    ];
    assert(forall|i: int| 0 <= i < 12 ==> kws@[i]@ == #[trigger] virtual_keywords()[i]);
    let cs = chars_of(lower);
    let mut i: usize = 0;
    while i < 12
        invariant
            i <= 12,
            cs@ == lower@,
            forall|i: int| 0 <= i < 12 ==> kws@[i]@ == #[trigger] virtual_keywords()[i],
            forall|j: int| 0 <= j < i ==> !contains_sub(lower@, #[trigger] virtual_keywords()[j]),
        decreases 12 - i,
    {
        let k = chars_of(kws[i]);
        if has_substr(cs.as_slice(), k.as_slice()) {
            assert(contains_sub(lower@, virtual_keywords()[i as int]));
            return true;
        }
        i = i + 1;
    }
    false
}

/// Whether an adapter name or description is virtual (case-insensitive).
pub fn is_virtual(name_or_desc: &str) -> (r: bool)
    ensures
        r == spec_is_virtual_lower(lowercase(name_or_desc@)),
{
    let lower = to_lowercase(name_or_desc);
    is_virtual_lower(lower.as_str())
}

/// One Ethernet adapter as sampled by the shell.
#[derive(Debug, Clone)]
pub struct EthAdapter {
    pub name: String,
    pub desc: String,
    pub oper_up: bool,
}

/// An adapter counts as physical when neither its name nor its description is virtual.
pub open spec fn is_physical(a: EthAdapter) -> bool {
    !spec_is_virtual_lower(lowercase(a.name@)) && !spec_is_virtual_lower(lowercase(a.desc@))
}

/// Wired link state: `None` when there is no physical Ethernet adapter
/// (dialing must not be blocked on it); `Some(false)` when all of them are
/// down (cable pulled); `Some(true)` when at least one is up, before DHCP
/// too.
pub open spec fn spec_ethernet_link_up(adapters: Seq<EthAdapter>) -> Option<bool> {
    if exists|i: int| 0 <= i < adapters.len() && is_physical(#[trigger] adapters[i]) {
        Some(
            exists|i: int|
                0 <= i < adapters.len() && is_physical(#[trigger] adapters[i]) && adapters[i].oper_up,
        )
    } else {
        None
    }
}

/// Wired link state of the sampled Ethernet adapters.
pub fn ethernet_link_up(adapters: &[EthAdapter]) -> (r: Option<bool>)
    ensures
        r == spec_ethernet_link_up(adapters@),
{
    let mut found = false;
    let mut up = false;
    let mut i: usize = 0;
    while i < adapters.len()
        invariant
            i <= adapters@.len(),
            found == exists|j: int| 0 <= j < i && is_physical(#[trigger] adapters@[j]),
            up == exists|j: int| 0 <= j < i && is_physical(#[trigger] adapters@[j]) && adapters@[j].oper_up,
        decreases adapters.len() - i,
    {
        let a = &adapters[i];
        if !is_virtual(a.name.as_str()) && !is_virtual(a.desc.as_str()) {
            found = true;
            if a.oper_up {
                up = true;
            }
        }
        i = i + 1;
    }
    if found {
        Some(up)
    } else {
        None
    }
}

/// Interface type of an adapter, as far as the client cares.
#[derive(Debug, Clone, Copy, PartialEq, Eq, Structural)]
pub enum IfKind {
    Ethernet,
    Wlan,
    Ppp,
    Other,
}

/// One adapter of the system's adapter list, as sampled by the shell.
#[derive(Debug, Clone)]
pub struct RawAdapter {
    /// FriendlyName.
    pub name: String,
    /// Description.
    pub desc: String,
    pub kind: IfKind,
    pub oper_up: bool,
    /// First unicast IPv4 address.
    pub ipv4: Option<[u8; 4]>,
    /// First IPv4 gateway.
    pub gateway: Option<[u8; 4]>,
    pub ifindex: u32,
    /// Whether DNS servers are configured on it.
    pub has_dns: bool,
}

/// A usable network exit: adapter name, IPv4, gateway and interface index.
#[derive(Debug, Clone, PartialEq, Eq)]
pub struct AdapterInfo {
    pub name: String,
    pub ipv4: [u8; 4],
    pub gateway: Option<[u8; 4]>,
    pub ifindex: u32,
}

/// The exit an adapter offers, when it has an IPv4 address.
pub open spec fn info_of(a: RawAdapter) -> (Seq<char>, [u8; 4], Option<[u8; 4]>, u32) {
    (a.name@, a.ipv4->0, a.gateway, a.ifindex)
}

/// An up, non-virtual adapter of the kind with an IPv4 address.
pub open spec fn is_candidate(a: RawAdapter, kind: IfKind) -> bool {
    &&& a.kind == kind
    &&& a.oper_up
    &&& a.ipv4 is Some
    &&& !spec_is_virtual_lower(lowercase(a.name@))
    &&& !spec_is_virtual_lower(lowercase(a.desc@))
}

/// The first candidate from `from` on (with a gateway, when `need_gw`).
pub open spec fn first_candidate(list: Seq<RawAdapter>, kind: IfKind, need_gw: bool, from: int) -> Option<int>
    decreases list.len() - from,
{
    if from < 0 || from >= list.len() {
        None
    } else if is_candidate(list[from], kind) && (!need_gw || list[from].gateway is Some) {
        Some(from)
    } else {
        first_candidate(list, kind, need_gw, from + 1)
    }
}

/// The adapter chosen for a kind: the first candidate with a gateway, else
/// the first candidate.
pub open spec fn spec_pick(list: Seq<RawAdapter>, kind: IfKind) -> Option<int> {
    match first_candidate(list, kind, true, 0) {
        Some(i) => Some(i),
        None => first_candidate(list, kind, false, 0),
    }
}

proof fn lemma_first_candidate(list: Seq<RawAdapter>, kind: IfKind, need_gw: bool, from: int)
    ensures
        first_candidate(list, kind, need_gw, from) matches Some(i) ==> from <= i < list.len()
            && is_candidate(list[i], kind),
    decreases list.len() - from,
{
    if !(from < 0 || from >= list.len()) && !(is_candidate(list[from], kind) && (!need_gw
        || list[from].gateway is Some)) {
        lemma_first_candidate(list, kind, need_gw, from + 1);
    }
}

fn first_candidate_at(list: &[RawAdapter], kind: IfKind, need_gw: bool) -> (r: Option<usize>)
    ensures
        match r {
            Some(i) => first_candidate(list@, kind, need_gw, 0) == Some(i as int),
            None => first_candidate(list@, kind, need_gw, 0) is None,
        },
{
    let mut j: usize = 0;
    while j < list.len()
        invariant
            j <= list@.len(),
            first_candidate(list@, kind, need_gw, j as int) == first_candidate(list@, kind, need_gw, 0),
        decreases list.len() - j,
    {
        let a = &list[j];
        if a.kind == kind && a.oper_up && a.ipv4.is_some() && !is_virtual(a.name.as_str())
            && !is_virtual(a.desc.as_str()) && (!need_gw || a.gateway.is_some()) {
            return Some(j);
        }
        j = j + 1;
    }
    None
}

fn info_at(list: &[RawAdapter], i: usize) -> (r: AdapterInfo)
    requires
        i < list@.len(),
        list@[i as int].ipv4 is Some,
    ensures
        (r.name@, r.ipv4, r.gateway, r.ifindex) == info_of(list@[i as int]),
{
    let a = &list[i];
    let ip = match a.ipv4 {
        Some(ip) => ip,
        None => [0u8; 4],
    };
    AdapterInfo { name: a.name.clone(), ipv4: ip, gateway: a.gateway, ifindex: a.ifindex }
}

/// The adapter of a kind: up, not virtual, with IPv4; one with a gateway
/// is preferred, otherwise the list order decides.
pub fn pick_adapter(list: &[RawAdapter], kind: IfKind) -> (r: Option<AdapterInfo>)
    ensures
        match spec_pick(list@, kind) {
            None => r is None,
            Some(i) => r matches Some(a) && (a.name@, a.ipv4, a.gateway, a.ifindex) == info_of(
                list@[i],
            ),
        },
{
    proof {
        lemma_first_candidate(list@, kind, true, 0);
        lemma_first_candidate(list@, kind, false, 0);
    }
    match first_candidate_at(list, kind, true) {
        Some(i) => Some(info_at(list, i)),
        None => match first_candidate_at(list, kind, false) {
            Some(i) => Some(info_at(list, i)),
            None => None,
        },
    }
}

/// The physical Ethernet adapter a dial binds to.
pub fn physical_adapter(list: &[RawAdapter]) -> (r: Option<AdapterInfo>)
    ensures
        match spec_pick(list@, IfKind::Ethernet) {
            None => r is None,
            Some(i) => r matches Some(a) && (a.name@, a.ipv4, a.gateway, a.ifindex) == info_of(
                list@[i],
            ),
        },
{
    pick_adapter(list, IfKind::Ethernet)
}

/// The WLAN adapter of the wireless takeover.
pub fn wlan_adapter(list: &[RawAdapter]) -> (r: Option<AdapterInfo>)
    ensures
        match spec_pick(list@, IfKind::Wlan) {
            None => r is None,
            Some(i) => r matches Some(a) && (a.name@, a.ipv4, a.gateway, a.ifindex) == info_of(
                list@[i],
            ),
        },
{
    pick_adapter(list, IfKind::Wlan)
}

/// The first PPP adapter with an IPv4 address, from `from` on.
pub open spec fn first_ppp(list: Seq<RawAdapter>, from: int) -> Option<int>
    decreases list.len() - from,
{
    if from < 0 || from >= list.len() {
        None
    } else if list[from].kind == IfKind::Ppp && list[from].ipv4 is Some {
        Some(from)
    } else {
        first_ppp(list, from + 1)
    }
}

proof fn lemma_first_ppp(list: Seq<RawAdapter>, from: int)
    ensures
        first_ppp(list, from) matches Some(i) ==> from <= i < list.len() && list[i].ipv4 is Some,
    decreases list.len() - from,
{
    if !(from < 0 || from >= list.len()) && !(list[from].kind == IfKind::Ppp && list[from].ipv4 is Some) {
        lemma_first_ppp(list, from + 1);
    }
}

/// The PPPoE session adapter (the first PPP adapter with IPv4).
pub fn ppp_adapter(list: &[RawAdapter]) -> (r: Option<AdapterInfo>)
    ensures
        match first_ppp(list@, 0) {
            None => r is None,
            Some(i) => r matches Some(a) && (a.name@, a.ipv4, a.gateway, a.ifindex) == info_of(
                list@[i],
            ),
        },
{
    proof {
        lemma_first_ppp(list@, 0);
    }
    let mut j: usize = 0;
    while j < list.len()
        invariant
            j <= list@.len(),
            first_ppp(list@, j as int) == first_ppp(list@, 0),
        decreases list.len() - j,
    {
        if list[j].kind == IfKind::Ppp && list[j].ipv4.is_some() {
            return Some(info_at(list, j));
        }
        j = j + 1;
    }
    None
}

/// IPv4 address of the PPPoE session adapter.
pub fn ppp_adapter_ip(list: &[RawAdapter]) -> (r: Option<[u8; 4]>)
    ensures
        match first_ppp(list@, 0) {
            None => r is None,
            Some(i) => r == list@[i].ipv4,
        },
{
    proof {
        lemma_first_ppp(list@, 0);
    }
    match ppp_adapter(list) {
        Some(a) => Some(a.ipv4),
        None => None,
    }
}

/// Whether an up adapter other than PPP carries DNS servers (then the PPP
/// adapter's DNS can be detached).
pub fn other_adapter_has_dns(list: &[RawAdapter]) -> (r: bool)
    ensures
        r == exists|i: int|
            0 <= i < list@.len() && (#[trigger] list@[i]).kind != IfKind::Ppp && list@[i].oper_up
                && list@[i].has_dns,
{
    let mut j: usize = 0;
    while j < list.len()
        invariant
            j <= list@.len(),
            forall|i: int|
                0 <= i < j ==> !((#[trigger] list@[i]).kind != IfKind::Ppp && list@[i].oper_up
                    && list@[i].has_dns),
        decreases list.len() - j,
    {
        if list[j].kind != IfKind::Ppp && list[j].oper_up && list[j].has_dns {
            return true;
        }
        j = j + 1;
    }
    false
}

/// Why no adapter can be probed.
#[derive(Debug, Clone, PartialEq, Eq)]
pub enum ProbeAdapterError {
    /// No usable physical Ethernet adapter.
    NoPhysical,
    /// The configured interface is not the physical adapter found.
    InterfaceMismatch { configured: String, actual: String },
}

/// The adapter a probe binds to: the PPPoE session when there is one (the
/// campus network isolates the DHCP side from the PPP side), else the
/// physical adapter; a configured interface name must match.
pub open spec fn spec_probe_adapter(interface: Seq<char>, list: Seq<RawAdapter>) -> Result<int, Option<Seq<char>>> {
    match first_ppp(list, 0) {
        Some(i) if interface.len() == 0 || list[i].name@ == interface => Ok(i),
        _ => match spec_pick(list, IfKind::Ethernet) {
            None => Err(None),
            Some(i) => if interface.len() == 0 || list[i].name@ == interface {
                Ok(i)
            } else {
                Err(Some(list[i].name@))
            },
        },
    }
}

/// Resolves the probe adapter for a configured interface name (empty:
/// automatic).
pub fn probe_adapter(interface: &str, list: &[RawAdapter]) -> (r: Result<AdapterInfo, ProbeAdapterError>)
    ensures
        match spec_probe_adapter(interface@, list@) {
            Ok(i) => r matches Ok(a) && (a.name@, a.ipv4, a.gateway, a.ifindex) == info_of(list@[i]),
            Err(None) => r == Err::<AdapterInfo, ProbeAdapterError>(ProbeAdapterError::NoPhysical),
            Err(Some(actual)) => r matches Err(ProbeAdapterError::InterfaceMismatch { configured, actual: act })
                && configured@ == interface@ && act@ == actual,
        },
{
    let auto = interface.unicode_len() == 0;
    match ppp_adapter(list) {
        Some(a) => {
            if auto || crate::text::text_eq(a.name.as_str(), interface) {
                return Ok(a);
            }
        },
        None => {},
    }
    match physical_adapter(list) {
        None => Err(ProbeAdapterError::NoPhysical),
        Some(a) => if auto || crate::text::text_eq(a.name.as_str(), interface) {
            Ok(a)
        } else {
            Err(
                ProbeAdapterError::InterfaceMismatch {
                    configured: String::from_str(interface),
                    actual: a.name,
                },
            )
        },
    }
}

/// Name resolutions tried after detaching the PPP adapter's DNS.
pub const DNS_CHECK_ATTEMPTS: u32 = 4;

/// Pause before each later resolution try, in milliseconds.
pub const DNS_CHECK_PAUSE_MS: u64 = 1200;

/// How detaching the PPP adapter's DNS ended.
#[derive(Debug, Clone, Copy, PartialEq, Eq, Structural)]
pub enum DetachOutcome {
    /// No other up adapter carries DNS: the PPP DNS is left alone.
    NoOtherDns,
    /// Clearing failed: the DNS from RAS stays.
    ClearFailed,
    /// Names resolve through the physical adapter; whether AAAA answers come.
    Detached { aaaa: bool },
    /// Names still do not resolve; left as is (the next dial restores the DNS).
    StillFailing,
}

/// Next step of detaching the PPP adapter's DNS.
#[derive(Debug, Clone, Copy, PartialEq, Eq, Structural)]
pub enum DetachStep {
    /// Clear the PPP adapter's IPv4 DNS servers (`netsh`).
    ClearDns,
    /// Wait, then try to resolve the check name.
    Resolve { pause_ms: u64 },
    /// Ask whether the check name has AAAA records.
    CheckAaaa,
    Finished(DetachOutcome),
}

/// Detaching the PPP adapter's DNS after a dial: only when another adapter
/// serves DNS; afterwards resolution is only observed (writing it back would
/// renegotiate the PPP session).
pub struct DnsDetach {
    tries: u32,
}

impl DnsDetach {
    /// Resolution tries made so far.
    pub closed spec fn tries(&self) -> u32 {
        self.tries
    }

    /// Starts from whether another up adapter carries DNS.
    pub fn start(other_has_dns: bool) -> (r: (Self, DetachStep))
        ensures
            r.0.tries() == 0,
            r.1 == if other_has_dns {
                DetachStep::ClearDns
            } else {
                DetachStep::Finished(DetachOutcome::NoOtherDns)
            },
    {
        let step = if other_has_dns {
            DetachStep::ClearDns
        } else {
            DetachStep::Finished(DetachOutcome::NoOtherDns)
        };
        (DnsDetach { tries: 0 }, step)
    }

    /// The clearing finished: a failure ends it; otherwise the first
    /// resolution is tried at once.
    pub fn on_cleared(&mut self, ok: bool) -> (r: DetachStep)
        ensures
            final(self).tries() == old(self).tries(),
            r == if ok {
                DetachStep::Resolve { pause_ms: 0 }
            } else {
                DetachStep::Finished(DetachOutcome::ClearFailed)
            },
    {
        if ok {
            DetachStep::Resolve { pause_ms: 0 }
        } else {
            DetachStep::Finished(DetachOutcome::ClearFailed)
        }
    }

    /// A resolution try came back: success goes on to the AAAA check; a
    /// failure tries again after the pause, four tries in all.
    pub fn on_resolved(&mut self, resolves: bool) -> (r: DetachStep)
        ensures
            final(self).tries() == if old(self).tries() < DNS_CHECK_ATTEMPTS {
                old(self).tries() + 1
            } else {
                old(self).tries() as int
            },
            resolves ==> r == DetachStep::CheckAaaa,
            !resolves && final(self).tries() < DNS_CHECK_ATTEMPTS ==> r == (DetachStep::Resolve {
                pause_ms: DNS_CHECK_PAUSE_MS,
            }),
            !resolves && final(self).tries() >= DNS_CHECK_ATTEMPTS ==> r == DetachStep::Finished(
                DetachOutcome::StillFailing,
            ),
    {
        if self.tries < DNS_CHECK_ATTEMPTS {
            self.tries = self.tries + 1;
        }
        if resolves {
            DetachStep::CheckAaaa
        } else if self.tries < DNS_CHECK_ATTEMPTS {
            DetachStep::Resolve { pause_ms: DNS_CHECK_PAUSE_MS }
        } else {
            DetachStep::Finished(DetachOutcome::StillFailing)
        }
    }

    /// The AAAA check came back: detached.
    pub fn on_aaaa(&mut self, aaaa: bool) -> (r: DetachStep)
        ensures
            final(self).tries() == old(self).tries(),
            r == DetachStep::Finished(DetachOutcome::Detached { aaaa }),
    {
        DetachStep::Finished(DetachOutcome::Detached { aaaa })
    }
}

/// Host whose resolution checks the DNS after the detach.
pub const DNS_CHECK_HOST: &'static str = "www.baidu.com";

/// A call made on the system work of the DNS detach, with its arguments
/// and its answer.
pub enum DnsCall {
    OtherAdapterHasDns(bool),
    ClearPppDns(Seq<char>, Result<(), Seq<char>>),
    Resolves(Seq<char>, bool),
    HasAaaa(Seq<char>, bool),
    Pause(u64),
}

/// The system work of the DNS detach.
pub trait PppDns {
    /// The calls made on this work so far, oldest first. Work that keeps no
    /// record of them leaves this empty, and then does not meet the
    /// contracts below; `detach_ppp_dns` speaks of this record.
    closed spec fn calls(&self) -> Seq<DnsCall> {
        Seq::empty()
    }

    /// Whether another up adapter carries DNS servers.
    fn other_adapter_has_dns(&mut self) -> (r: bool)
        ensures
            final(self).calls() == old(self).calls().push(DnsCall::OtherAdapterHasDns(r)),
    ;

    /// Clears the IPv4 DNS servers of the PPP interface named `entry`.
    fn clear_ppp_dns(&mut self, entry: &str) -> (r: Result<(), String>)
        ensures
            final(self).calls() == old(self).calls().push(DnsCall::ClearPppDns(entry@, result_view(r))),
    ;

    /// Whether the host resolves.
    fn resolves(&mut self, host: &str) -> (r: bool)
        ensures
            final(self).calls() == old(self).calls().push(DnsCall::Resolves(host@, r)),
    ;

    /// Whether the host has AAAA records reachable to applications.
    fn has_aaaa(&mut self, host: &str) -> (r: bool)
        ensures
            final(self).calls() == old(self).calls().push(DnsCall::HasAaaa(host@, r)),
    ;

    /// Sleeps.
    fn pause(&mut self, ms: u64)
        ensures
            final(self).calls() == old(self).calls().push(DnsCall::Pause(ms)),
    ;
}

/// `k` failed resolutions of `host`, each but the first after the pause.
pub open spec fn failed_tries(host: Seq<char>, k: nat) -> Seq<DnsCall>
    decreases k,
{
    if k == 0 {
        Seq::empty()
    } else {
        failed_tries(host, (k - 1) as nat) + (if k > 1 {
            seq![DnsCall::Pause(DNS_CHECK_PAUSE_MS)]
        } else {
            Seq::empty()
        }) + seq![DnsCall::Resolves(host, false)]
    }
}

/// The calls of a detach of `entry` that ended with `outcome`, where the
/// clearing returned `clear` and `k` resolutions failed before one
/// succeeded (for `Detached`): the question for other DNS; then the
/// clearing; then the resolutions, each but the first after the pause, the
/// last failing one the fourth (`StillFailing`) or followed by a
/// successful one and the AAAA check (`Detached`).
pub open spec fn detach_calls(entry: Seq<char>, host: Seq<char>, clear: Result<(), Seq<char>>, k: nat, outcome: DetachOutcome) -> Seq<DnsCall> {
    let head = seq![DnsCall::OtherAdapterHasDns(true), DnsCall::ClearPppDns(entry, clear)];
    match outcome {
        DetachOutcome::NoOtherDns => seq![DnsCall::OtherAdapterHasDns(false)],
        DetachOutcome::ClearFailed => head,
        DetachOutcome::StillFailing => head + failed_tries(host, DNS_CHECK_ATTEMPTS as nat),
        DetachOutcome::Detached { aaaa } => head + failed_tries(host, k) + (if k > 0 {
            seq![DnsCall::Pause(DNS_CHECK_PAUSE_MS)]
        } else {
            Seq::empty()
        }) + seq![DnsCall::Resolves(host, true), DnsCall::HasAaaa(host, aaaa)],
    }
}

/// Steps left at most before the detach finishes.
pub open spec fn detach_rank(step: DetachStep, tries: u32) -> int {
    match step {
        DetachStep::Finished(_) => 0,
        DetachStep::CheckAaaa => 1,
        DetachStep::Resolve { .. } => 2 + DNS_CHECK_ATTEMPTS - tries,
        DetachStep::ClearDns => 2 + DNS_CHECK_ATTEMPTS + 1,
    }
}

/// Detaches the PPP adapter's DNS after a dial, driving `DnsDetach` with
/// the system work. The calls made on the work are `detach_calls` of the
/// outcome: clearing is tried only when another adapter carries DNS, and
/// fails exactly when the outcome is `ClearFailed`; at most four
/// resolutions are tried.
pub fn detach_ppp_dns<D: PppDns>(d: &mut D, entry: &str) -> (r: DetachOutcome)
    ensures
        exists|clear: Result<(), Seq<char>>, k: nat|
            {
                &&& k < DNS_CHECK_ATTEMPTS
                &&& (r is ClearFailed <==> clear is Err)
                &&& final(d).calls() == old(d).calls() + #[trigger] detach_calls(
                    entry@,
                    DNS_CHECK_HOST@,
                    clear,
                    k,
                    r,
                )
            },
{
    let ghost c0 = d.calls();
    let ghost host = DNS_CHECK_HOST@;
    let other = d.other_adapter_has_dns();
    let (mut m, mut step) = DnsDetach::start(other);
    let ghost mut clear: Result<(), Seq<char>> = Ok(());
    let ghost head = seq![DnsCall::OtherAdapterHasDns(true), DnsCall::ClearPppDns(entry@, Ok(()))];
    if !other {
        assert(d.calls() =~= c0 + detach_calls(entry@, host, clear, 0, DetachOutcome::NoOtherDns));
        return DetachOutcome::NoOtherDns;
    }
    loop
        invariant
            m.tries() <= DNS_CHECK_ATTEMPTS,
            host == DNS_CHECK_HOST@,
            c0 == old(d).calls(),
            head == seq![DnsCall::OtherAdapterHasDns(true), DnsCall::ClearPppDns(entry@, Ok(()))],
            (step is Resolve || step is CheckAaaa) ==> clear == Ok::<(), Seq<char>>(()),
            step is ClearDns ==> m.tries() == 0 && d.calls() == c0.push(DnsCall::OtherAdapterHasDns(true)),
            step matches DetachStep::Resolve { pause_ms } ==> {
                &&& m.tries() < DNS_CHECK_ATTEMPTS
                &&& pause_ms == if m.tries() > 0 {
                    DNS_CHECK_PAUSE_MS
                } else {
                    0
                }
                &&& d.calls() == c0 + head + failed_tries(host, m.tries() as nat)
            },
            step is CheckAaaa ==> {
                &&& 0 < m.tries()
                &&& d.calls() == c0 + head + failed_tries(host, (m.tries() - 1) as nat) + (if m.tries() > 1 {
                    seq![DnsCall::Pause(DNS_CHECK_PAUSE_MS)]
                } else {
                    Seq::empty()
                }) + seq![DnsCall::Resolves(host, true)]
            },
            step matches DetachStep::Finished(o) ==> {
                &&& !(o is NoOtherDns)
                &&& (o is ClearFailed <==> clear is Err)
                &&& (o is Detached ==> 0 < m.tries())
                &&& d.calls() == c0 + detach_calls(
                    entry@,
                    host,
                    clear,
                    if o is Detached {
                        (m.tries() - 1) as nat
                    } else {
                        0
                    },
                    o,
                )
            },
        decreases detach_rank(step, m.tries()),
    {
        let ghost before = d.calls();
        let ghost t0 = m.tries();
        step = match step {
            DetachStep::Finished(outcome) => {
                let ghost k: nat = if outcome is Detached {
                    (m.tries() - 1) as nat
                } else {
                    0
                };
                assert(d.calls() == c0 + detach_calls(entry@, DNS_CHECK_HOST@, clear, k, outcome));
                assert(k < DNS_CHECK_ATTEMPTS);
                return outcome;
            },
            DetachStep::ClearDns => {
                let res = d.clear_ppp_dns(entry);
                proof {
                    clear = result_view(res);
                }
                let ok = res.is_ok();
                let next = m.on_cleared(ok);
                assert(failed_tries(host, 0) =~= Seq::<DnsCall>::empty());
                assert(d.calls() =~= c0 + detach_calls(entry@, host, clear, 0, DetachOutcome::ClearFailed));
                if ok {
                    assert(d.calls() =~= c0 + head + failed_tries(host, 0));
                }
                next
            },
            DetachStep::Resolve { pause_ms } => {
                if pause_ms > 0 {
                    d.pause(pause_ms);
                }
                let ok = d.resolves(DNS_CHECK_HOST);
                let next = m.on_resolved(ok);
                if ok {
                    assert(d.calls() =~= c0 + head + failed_tries(host, t0 as nat) + (if t0 > 0 {
                        seq![DnsCall::Pause(DNS_CHECK_PAUSE_MS)]
                    } else {
                        Seq::empty()
                    }) + seq![DnsCall::Resolves(host, true)]);
                } else {
                    assert(d.calls() =~= c0 + head + failed_tries(host, (t0 + 1) as nat));
                    assert(c0 + head + failed_tries(host, (t0 + 1) as nat) =~= c0 + (head + failed_tries(
                        host,
                        (t0 + 1) as nat,
                    )));
                }
                next
            },
            DetachStep::CheckAaaa => {
                let aaaa = d.has_aaaa(DNS_CHECK_HOST);
                let next = m.on_aaaa(aaaa);
                assert(d.calls() =~= c0 + detach_calls(
                    entry@,
                    host,
                    clear,
                    (t0 - 1) as nat,
                    DetachOutcome::Detached { aaaa },
                ));
                next
            },
        };
    }
}

} // verus!
