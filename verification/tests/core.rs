use gdut_net::adapter::{
    ethernet_link_up, is_virtual, other_adapter_has_dns, physical_adapter, ppp_adapter, ppp_adapter_ip, probe_adapter,
    wlan_adapter, AdapterInfo, DetachOutcome, DetachStep, DnsDetach, EthAdapter, IfKind,
    ProbeAdapterError, RawAdapter, DNS_CHECK_PAUSE_MS,
};
use gdut_net::backoff::Backoff;
use gdut_net::home_mode::{tray_should_exit, START_AUTO, START_DEMAND, START_DISABLED};
use gdut_net::probe::{combine, parse_http_probe_target, verdict_from_http, ProbeVerdict};
use gdut_net::ras::{classify, ErrKind};

const SEC: u64 = 1000;

#[test]
fn flags_known_virtual_adapters() {
    for name in [
        "wintun",
        "Tailscale",
        "Clash TUN",
        "TAP-Windows Adapter",
        "Hyper-V Virtual Ethernet",
        "VMware Virtual Ethernet",
        "VirtualBox Host-Only",
    ] {
        assert!(is_virtual(name), "{name} should be flagged as virtual");
    }
}

#[test]
fn physical_names_pass() {
    for name in [
        "Realtek Gaming GbE",
        "Intel(R) Ethernet Connection",
        "Ethernet",
    ] {
        assert!(!is_virtual(name), "{name} should not be flagged as virtual");
    }
}

#[test]
fn doubles_then_caps() {
    let mut b = Backoff::new(1 * SEC, 300 * SEC);
    assert_eq!(b.next_delay(), 1 * SEC);
    assert_eq!(b.next_delay(), 2 * SEC);
    assert_eq!(b.next_delay(), 4 * SEC);
    let mut last = 0;
    for _ in 0..20 {
        last = b.next_delay();
    }
    assert_eq!(last, 300 * SEC);
}

#[test]
fn reset_restarts() {
    let mut b = Backoff::new(1 * SEC, 300 * SEC);
    b.next_delay();
    b.reset();
    assert_eq!(b.next_delay(), 1 * SEC);
}

#[test]
fn home_mode_is_manual_or_disabled_and_not_running() {
    assert!(tray_should_exit(START_DEMAND, false));
    assert!(tray_should_exit(START_DISABLED, false));
}

#[test]
fn auto_start_or_running_service_keeps_the_tray() {
    assert!(
        !tray_should_exit(START_AUTO, false),
        "auto + stopped is a fault worth showing"
    );
    assert!(!tray_should_exit(START_AUTO, true));
    assert!(
        !tray_should_exit(START_DEMAND, true),
        "hand-started service keeps the tray"
    );
    assert!(!tray_should_exit(0, false), "boot start");
    assert!(!tray_should_exit(1, false), "system start");
}

#[test]
fn redirect_to_auth_page_means_kicked() {
    assert_eq!(verdict_from_http(true, true), ProbeVerdict::Kicked);
    assert_eq!(verdict_from_http(true, false), ProbeVerdict::Alive);
    assert_eq!(verdict_from_http(false, false), ProbeVerdict::Alive);
}

#[test]
fn icmp_down_http_alive_is_alive() {
    assert_eq!(
        combine(Some(false), Some(ProbeVerdict::Alive)),
        ProbeVerdict::Alive
    );
}

#[test]
fn icmp_down_http_fail_is_link_down() {
    assert_eq!(combine(Some(false), None), ProbeVerdict::LinkDown);
    assert_eq!(combine(None, None), ProbeVerdict::LinkDown);
}

#[test]
fn http_auth_redirect_is_kicked_regardless_of_icmp() {
    assert_eq!(
        combine(Some(true), Some(ProbeVerdict::Kicked)),
        ProbeVerdict::Kicked
    );
    assert_eq!(
        combine(Some(false), Some(ProbeVerdict::Kicked)),
        ProbeVerdict::Kicked
    );
    assert_eq!(
        combine(None, Some(ProbeVerdict::Kicked)),
        ProbeVerdict::Kicked
    );
}

#[test]
fn icmp_ok_means_alive_unless_kicked() {
    assert_eq!(
        combine(Some(true), Some(ProbeVerdict::Alive)),
        ProbeVerdict::Alive
    );
    assert_eq!(combine(Some(true), None), ProbeVerdict::Alive);
    assert_eq!(
        combine(None, Some(ProbeVerdict::Alive)),
        ProbeVerdict::Alive
    );
}

#[test]
fn parse_http_probe_target_accepts_ipv4_literal() {
    let (ip, hostport) = parse_http_probe_target("http://9.9.9.9").unwrap();
    assert_eq!(ip, [9, 9, 9, 9]);
    assert_eq!(hostport, "9.9.9.9:80");
    let (ip, hostport) = parse_http_probe_target("http://192.168.1.1:8080/portal").unwrap();
    assert_eq!(ip, [192, 168, 1, 1]);
    assert_eq!(hostport, "192.168.1.1:8080");
}

#[test]
fn parse_http_probe_target_rejects_non_ipv4() {
    assert!(parse_http_probe_target("http://example.com").is_none());
    assert!(parse_http_probe_target("https://9.9.9.9").is_none());
    assert!(parse_http_probe_target("").is_none());
    assert!(parse_http_probe_target("http://9.9.9.9:99999").is_none());
    assert!(parse_http_probe_target("http://[::1]/").is_none());
}

#[test]
fn classify_691_as_auth_others_transient() {
    assert_eq!(classify(691), ErrKind::Auth);
    assert_eq!(classify(651), ErrKind::Transient);
    assert_eq!(classify(678), ErrKind::Transient);
    assert_eq!(classify(619), ErrKind::Transient);
    assert_eq!(classify(99999), ErrKind::Transient);
}

#[test]
fn backoff_delays_never_leave_their_bounds() {
    let mut b = Backoff::new(5 * SEC, 60 * SEC);
    let mut prev = 0;
    for _ in 0..40 {
        let d = b.next_delay();
        assert!(d >= 5 * SEC && d <= 60 * SEC);
        assert!(d >= prev);
        prev = d;
    }
}

#[test]
fn virtual_keywords_match_in_any_case() {
    assert!(is_virtual("WINTUN Userspace Tunnel"));
    assert!(is_virtual("vmware network adapter vmnet8"));
    assert!(!is_virtual("Killer E2600 Gigabit"));
}

#[test]
fn link_state_over_physical_ethernet_only() {
    let up = EthAdapter {
        name: "Ethernet".to_string(),
        desc: "Intel(R) Ethernet Connection".to_string(),
        oper_up: true,
    };
    let down = EthAdapter {
        name: "Ethernet 2".to_string(),
        desc: "Realtek PCIe GbE".to_string(),
        oper_up: false,
    };
    let virt = EthAdapter {
        name: "vEthernet".to_string(),
        desc: "Hyper-V Virtual Ethernet Adapter".to_string(),
        oper_up: false,
    };
    assert_eq!(ethernet_link_up(&[]), None);
    assert_eq!(ethernet_link_up(&[virt.clone()]), None);
    assert_eq!(ethernet_link_up(&[up.clone(), virt.clone()]), Some(true));
    assert_eq!(ethernet_link_up(&[down.clone(), virt.clone()]), Some(false));
    assert_eq!(ethernet_link_up(&[up, down, virt]), Some(true));
}

fn raw(name: &str, kind: IfKind, up: bool, ip: Option<[u8; 4]>, gw: Option<[u8; 4]>, idx: u32) -> RawAdapter {
    RawAdapter {
        name: name.to_string(),
        desc: "Realtek PCIe GbE".to_string(),
        kind,
        oper_up: up,
        ipv4: ip,
        gateway: gw,
        ifindex: idx,
        has_dns: false,
    }
}

#[test]
fn adapter_selection_prefers_a_gateway() {
    let mut vpn = raw("Tailscale", IfKind::Ethernet, true, Some([100, 64, 0, 1]), Some([100, 64, 0, 0]), 1);
    vpn.desc = "Tailscale Tunnel".to_string();
    let list = vec![
        vpn,
        raw("Ethernet 2", IfKind::Ethernet, true, Some([169, 254, 1, 1]), None, 2),
        raw("Ethernet", IfKind::Ethernet, true, Some([10, 30, 1, 2]), Some([10, 30, 0, 1]), 3),
        raw("Ethernet 3", IfKind::Ethernet, false, Some([10, 31, 1, 2]), Some([10, 31, 0, 1]), 4),
        raw("gdut", IfKind::Ppp, true, Some([10, 40, 1, 2]), None, 5),
        raw("WLAN", IfKind::Wlan, true, Some([172, 16, 1, 2]), Some([172, 16, 0, 1]), 6),
    ];
    assert_eq!(
        physical_adapter(&list),
        Some(AdapterInfo { name: "Ethernet".to_string(), ipv4: [10, 30, 1, 2], gateway: Some([10, 30, 0, 1]), ifindex: 3 })
    );
    assert_eq!(physical_adapter(&list[..2]).unwrap().name, "Ethernet 2");
    assert_eq!(wlan_adapter(&list).unwrap().ifindex, 6);
    assert_eq!(ppp_adapter(&list).unwrap().ipv4, [10, 40, 1, 2]);
    assert_eq!(ppp_adapter(&list[..4]), None);
    assert_eq!(ppp_adapter_ip(&list), Some([10, 40, 1, 2]));
    assert_eq!(ppp_adapter_ip(&list[..4]), None);
    assert!(!other_adapter_has_dns(&list));
    let mut dns = list.clone();
    dns[5].has_dns = true;
    assert!(other_adapter_has_dns(&dns));
}

#[test]
fn probe_binds_the_session_then_the_physical_adapter() {
    let list = vec![
        raw("Ethernet", IfKind::Ethernet, true, Some([10, 30, 1, 2]), Some([10, 30, 0, 1]), 3),
        raw("gdut", IfKind::Ppp, true, Some([10, 40, 1, 2]), None, 5),
    ];
    assert_eq!(probe_adapter("", &list).unwrap().name, "gdut");
    assert_eq!(probe_adapter("Ethernet", &list).unwrap().name, "Ethernet");
    assert_eq!(
        probe_adapter("Ethernet 9", &list),
        Err(ProbeAdapterError::InterfaceMismatch { configured: "Ethernet 9".to_string(), actual: "Ethernet".to_string() })
    );
    assert_eq!(probe_adapter("", &list[1..]).unwrap().name, "gdut");
    assert_eq!(probe_adapter("x", &list[1..]), Err(ProbeAdapterError::NoPhysical));
}

#[test]
fn ppp_dns_detach_tries_four_resolutions() {
    let (_, step) = DnsDetach::start(false);
    assert_eq!(step, DetachStep::Finished(DetachOutcome::NoOtherDns));
    let (mut d, step) = DnsDetach::start(true);
    assert_eq!(step, DetachStep::ClearDns);
    assert_eq!(d.on_cleared(false), DetachStep::Finished(DetachOutcome::ClearFailed));
    assert_eq!(d.on_cleared(true), DetachStep::Resolve { pause_ms: 0 });
    assert_eq!(d.on_resolved(false), DetachStep::Resolve { pause_ms: DNS_CHECK_PAUSE_MS });
    assert_eq!(d.on_resolved(false), DetachStep::Resolve { pause_ms: 1200 });
    assert_eq!(d.on_resolved(false), DetachStep::Resolve { pause_ms: 1200 });
    assert_eq!(d.on_resolved(false), DetachStep::Finished(DetachOutcome::StillFailing));
    let (mut d, _) = DnsDetach::start(true);
    d.on_cleared(true);
    assert_eq!(d.on_resolved(false), DetachStep::Resolve { pause_ms: 1200 });
    assert_eq!(d.on_resolved(true), DetachStep::CheckAaaa);
    assert_eq!(d.on_aaaa(false), DetachStep::Finished(DetachOutcome::Detached { aaaa: false }));
}

struct FakeDns {
    other: bool,
    resolve_after: u32,
    resolves_seen: u32,
    pauses: Vec<u64>,
}

impl gdut_net::adapter::PppDns for FakeDns {
    fn other_adapter_has_dns(&mut self) -> bool {
        self.other
    }

    fn clear_ppp_dns(&mut self, entry: &str) -> Result<(), String> {
        assert_eq!(entry, "gdut");
        Ok(())
    }

    fn resolves(&mut self, host: &str) -> bool {
        assert_eq!(host, "www.baidu.com");
        self.resolves_seen += 1;
        self.resolves_seen > self.resolve_after
    }

    fn has_aaaa(&mut self, _host: &str) -> bool {
        true
    }

    fn pause(&mut self, ms: u64) {
        self.pauses.push(ms);
    }
}

#[test]
fn ppp_dns_detach_runs_against_the_system() {
    let mut d = FakeDns { other: true, resolve_after: 2, resolves_seen: 0, pauses: vec![] };
    assert_eq!(gdut_net::adapter::detach_ppp_dns(&mut d, "gdut"), DetachOutcome::Detached { aaaa: true });
    assert_eq!(d.pauses, vec![1200, 1200]);
    let mut d = FakeDns { other: true, resolve_after: 10, resolves_seen: 0, pauses: vec![] };
    assert_eq!(gdut_net::adapter::detach_ppp_dns(&mut d, "gdut"), DetachOutcome::StillFailing);
    assert_eq!(d.resolves_seen, 4);
    let mut d = FakeDns { other: false, resolve_after: 0, resolves_seen: 0, pauses: vec![] };
    assert_eq!(gdut_net::adapter::detach_ppp_dns(&mut d, "gdut"), DetachOutcome::NoOtherDns);
    assert_eq!(d.resolves_seen, 0);
}
