use std::cell::Cell;

use gdut_net::probe::{http_verdict, icmp_target, probe_verdict, ProbeVerdict, PUBLIC_PROBE};
use gdut_net::protocol::SessionStatus;
use gdut_net::ras::ErrKind;
use gdut_net::supervisor::Clock;
use gdut_net::watchdog::{DialError, Dialer, Prober, Watchdog, WatchdogCfg};

struct FakeDialer {
    results: Vec<Result<(), DialError>>,
    connected: bool,
    dials: u32,
    hangups: u32,
}

impl FakeDialer {
    fn new(results: Vec<Result<(), DialError>>) -> Self {
        FakeDialer { results, connected: false, dials: 0, hangups: 0 }
    }
}

impl Dialer for FakeDialer {
    fn dial(&mut self) -> Result<(), DialError> {
        self.dials += 1;
        let r = if self.results.is_empty() { Ok(()) } else { self.results.remove(0) };
        self.connected = r.is_ok();
        r
    }

    fn hangup(&mut self) {
        self.hangups += 1;
        self.connected = false;
    }

    fn is_connected(&mut self) -> bool {
        self.connected
    }
}

struct FakeProber {
    verdicts: Vec<ProbeVerdict>,
}

impl Prober for FakeProber {
    fn probe(&mut self) -> ProbeVerdict {
        if self.verdicts.is_empty() {
            ProbeVerdict::Alive
        } else {
            self.verdicts.remove(0)
        }
    }
}

struct FixedClock {
    wall: Cell<u64>,
}

impl Clock for FixedClock {
    fn now_ms(&self) -> u64 {
        0
    }

    fn wall_secs(&self) -> u64 {
        self.wall.get()
    }
}

fn cfg() -> WatchdogCfg {
    WatchdogCfg {
        redial_min_ms: 1_000,
        redial_max_ms: 8_000,
        probe_interval_ms: 30_000,
        auth_fail_delay_ms: 600_000,
    }
}

fn transient(code: u32) -> DialError {
    DialError { kind: ErrKind::Transient, code, msg: "busy".to_string() }
}

#[test]
fn run_once_dials_when_idle_and_connects() {
    let mut wd = Watchdog::new(cfg());
    let mut d = FakeDialer::new(vec![Ok(())]);
    let mut p = FakeProber { verdicts: vec![] };
    let clock = FixedClock { wall: Cell::new(1_700_000_000) };
    let wait = wd.run_once(&mut d, &mut p, &clock);
    assert_eq!(wait, 30_000);
    assert_eq!(d.dials, 1);
    assert_eq!(d.hangups, 0);
    assert_eq!(wd.dial_calls(), 1);
    let s = wd.snapshot();
    assert_eq!(s.status, SessionStatus::Connected);
    assert_eq!(s.since_unix, Some(1_700_000_000));
}

#[test]
fn run_once_backs_off_after_transient_failures() {
    let mut wd = Watchdog::new(cfg());
    let mut d = FakeDialer::new(vec![Err(transient(651)), Err(transient(651)), Err(transient(651))]);
    let mut p = FakeProber { verdicts: vec![] };
    let clock = FixedClock { wall: Cell::new(5) };
    assert_eq!(wd.run_once(&mut d, &mut p, &clock), 1_000);
    assert_eq!(wd.run_once(&mut d, &mut p, &clock), 2_000);
    assert_eq!(wd.run_once(&mut d, &mut p, &clock), 4_000);
    let s = wd.snapshot();
    assert_eq!(s.status, SessionStatus::Backoff);
    assert_eq!(s.redial_attempts, 3);
    assert_eq!(s.last_drop_reason.as_deref(), Some("拨号失败 651: busy"));
}

#[test]
fn run_once_waits_long_after_auth_failure() {
    let mut wd = Watchdog::new(cfg());
    let err = DialError { kind: ErrKind::Auth, code: 691, msg: "denied".to_string() };
    let mut d = FakeDialer::new(vec![Err(err)]);
    let mut p = FakeProber { verdicts: vec![] };
    let clock = FixedClock { wall: Cell::new(5) };
    assert_eq!(wd.run_once(&mut d, &mut p, &clock), 600_000);
    let s = wd.snapshot();
    assert_eq!(s.status, SessionStatus::AuthFail);
    assert_eq!(s.last_drop_reason.as_deref(), Some("认证失败 691: denied"));
}

#[test]
fn run_once_probes_and_redials_after_two_bad_verdicts() {
    let mut wd = Watchdog::new(cfg());
    let mut d = FakeDialer::new(vec![Ok(()), Ok(())]);
    let mut p = FakeProber { verdicts: vec![ProbeVerdict::Alive, ProbeVerdict::Kicked, ProbeVerdict::Kicked] };
    let clock = FixedClock { wall: Cell::new(100) };
    assert_eq!(wd.run_once(&mut d, &mut p, &clock), 30_000);
    assert_eq!(wd.run_once(&mut d, &mut p, &clock), 30_000);
    assert_eq!(wd.run_once(&mut d, &mut p, &clock), 7_500);
    assert_eq!(d.dials, 1);
    clock.wall.set(200);
    assert_eq!(wd.run_once(&mut d, &mut p, &clock), 30_000);
    assert_eq!(d.dials, 2);
    assert_eq!(d.hangups, 1);
    let s = wd.snapshot();
    assert_eq!(s.status, SessionStatus::Connected);
    assert_eq!(s.since_unix, Some(200));
    assert_eq!(s.last_drop_reason.as_deref(), Some("探测连续 2 次异常（Kicked）"));
}

#[test]
fn run_once_redials_when_ras_lost_the_session() {
    let mut wd = Watchdog::new(cfg());
    let mut d = FakeDialer::new(vec![Ok(()), Ok(())]);
    let mut p = FakeProber { verdicts: vec![] };
    let clock = FixedClock { wall: Cell::new(1) };
    wd.run_once(&mut d, &mut p, &clock);
    d.connected = false;
    wd.run_once(&mut d, &mut p, &clock);
    assert_eq!(d.dials, 2);
    assert_eq!(d.hangups, 1);
    assert_eq!(wd.snapshot().last_drop_reason.as_deref(), Some("RAS 会话不存在"));
}

#[test]
fn run_once_honours_a_manual_redial() {
    let mut wd = Watchdog::new(cfg());
    let mut d = FakeDialer::new(vec![Ok(()), Ok(())]);
    let mut p = FakeProber { verdicts: vec![] };
    let clock = FixedClock { wall: Cell::new(1) };
    wd.run_once(&mut d, &mut p, &clock);
    wd.request_redial();
    wd.run_once(&mut d, &mut p, &clock);
    assert_eq!(d.dials, 2);
    assert_eq!(d.hangups, 1);
    assert_eq!(wd.dial_calls(), 2);
    assert_eq!(wd.snapshot().last_drop_reason.as_deref(), Some("手动重拨"));
}

#[test]
fn shutdown_hangs_up() {
    let mut wd = Watchdog::new(cfg());
    let mut d = FakeDialer::new(vec![]);
    wd.shutdown(&mut d);
    assert_eq!(d.hangups, 1);
}

#[test]
fn icmp_probe_falls_back_to_the_public_address() {
    assert_eq!(icmp_target(None), [223, 5, 5, 5]);
    assert_eq!(icmp_target(Some([0, 0, 0, 0])), PUBLIC_PROBE);
    assert_eq!(icmp_target(Some([10, 30, 0, 1])), [10, 30, 0, 1]);
}

#[test]
fn http_recheck_catches_a_kick_behind_a_live_gateway() {
    let portal = "http://10.0.3.2/a79.htm?wlanacip=172.16.254.2";
    assert_eq!(http_verdict(Some((302, portal))), Some(ProbeVerdict::Kicked));
    assert_eq!(http_verdict(Some((302, "https://www.example.com/"))), Some(ProbeVerdict::Alive));
    assert_eq!(http_verdict(Some((200, portal))), Some(ProbeVerdict::Alive));
    assert_eq!(http_verdict(None), None);
    assert_eq!(probe_verdict(true, Some((302, portal))), ProbeVerdict::Kicked);
    assert_eq!(probe_verdict(true, None), ProbeVerdict::Alive);
    assert_eq!(probe_verdict(false, Some((200, ""))), ProbeVerdict::Alive);
    assert_eq!(probe_verdict(false, None), ProbeVerdict::LinkDown);
}

struct FakeWlan {
    api_ok: bool,
    calls: Vec<String>,
}

impl gdut_net::wireless::WlanControl for FakeWlan {
    fn api_connect(&mut self, profile: &str) -> Result<(), String> {
        self.calls.push(format!("api connect {profile}"));
        if self.api_ok { Ok(()) } else { Err("2".to_string()) }
    }

    fn api_disconnect(&mut self) -> Result<(), String> {
        self.calls.push("api disconnect".to_string());
        if self.api_ok { Ok(()) } else { Err("2".to_string()) }
    }

    fn netsh(&mut self, args: &[String]) -> Result<(), String> {
        self.calls.push(format!("netsh {}", args.join(" ")));
        Ok(())
    }
}

#[test]
fn wlan_falls_back_to_netsh() {
    let mut w = FakeWlan { api_ok: true, calls: vec![] };
    assert_eq!(gdut_net::wireless::associate(&mut w, "gdut"), Ok(()));
    assert_eq!(w.calls, vec!["api connect gdut".to_string()]);
    let mut w = FakeWlan { api_ok: false, calls: vec![] };
    assert_eq!(gdut_net::wireless::associate(&mut w, "gdut"), Ok(()));
    assert_eq!(gdut_net::wireless::disassociate(&mut w), Ok(()));
    assert_eq!(
        w.calls,
        vec![
            "api connect gdut".to_string(),
            "netsh wlan connect name=gdut".to_string(),
            "api disconnect".to_string(),
            "netsh wlan disconnect".to_string(),
        ]
    );
}

struct LoggingDialer {
    log: Vec<&'static str>,
    connected: bool,
}

impl Dialer for LoggingDialer {
    fn dial(&mut self) -> Result<(), DialError> {
        self.log.push("dial");
        self.connected = true;
        Ok(())
    }

    fn hangup(&mut self) {
        self.log.push("hangup");
        self.connected = false;
    }

    fn is_connected(&mut self) -> bool {
        self.log.push("is_connected");
        self.connected
    }
}

struct CountingProber {
    probes: u32,
}

impl Prober for CountingProber {
    fn probe(&mut self) -> ProbeVerdict {
        self.probes += 1;
        ProbeVerdict::Alive
    }
}

#[test]
fn pending_redial_hangs_up_before_dialing_again() {
    let mut wd = Watchdog::new(cfg());
    let mut d = LoggingDialer { log: Vec::new(), connected: false };
    let mut p = CountingProber { probes: 0 };
    let clock = FixedClock { wall: Cell::new(7) };
    assert_eq!(wd.run_once(&mut d, &mut p, &clock), 30_000);
    assert_eq!(d.log, vec!["dial"]);
    assert_eq!(p.probes, 0);
    wd.request_redial();
    assert_eq!(wd.run_once(&mut d, &mut p, &clock), 30_000);
    assert_eq!(d.log, vec!["dial", "hangup", "dial"]);
    assert_eq!(p.probes, 0);
    assert_eq!(wd.snapshot().status, SessionStatus::Connected);
    assert_eq!(wd.snapshot().last_drop_reason.as_deref(), Some("手动重拨"));
    assert_eq!(wd.run_once(&mut d, &mut p, &clock), 30_000);
    assert_eq!(d.log, vec!["dial", "hangup", "dial", "is_connected"]);
    assert_eq!(p.probes, 1);
}

#[test]
fn service_watchdog_settings() {
    let c = gdut_net::watchdog::service_watchdog_cfg(30);
    assert_eq!(c.redial_min_ms, 1_000);
    assert_eq!(c.redial_max_ms, 300_000);
    assert_eq!(c.auth_fail_delay_ms, 600_000);
    assert_eq!(c.probe_interval_ms, 30_000);
}

#[test]
fn service_watchdog_probe_interval_saturates() {
    let c = gdut_net::watchdog::service_watchdog_cfg(u64::MAX);
    assert_eq!(c.probe_interval_ms, u64::MAX);
}

#[test]
fn failed_logins_back_off_5_15_30() {
    let mut b = gdut_net::wireless::Brain::new(gdut_net::protocol::NetMode::WiredPlusStandby, 10, 60, 30);
    let world = |now: u64| gdut_net::wireless::World { now, ..Default::default() };
    for (i, d) in [5u64, 15, 30, 30].iter().enumerate() {
        let at = 100 * (i as u64 + 1);
        let msg = format!("e{i}");
        b.on_auth(false, &msg, at);
        assert_eq!(b.phase(), gdut_net::protocol::WPhase::Error);
        assert_eq!(b.snapshot().last_error, Some(msg));
        assert_eq!(b.decide(&world(at + d - 1)), gdut_net::wireless::Action::NoOp);
        assert_eq!(b.decide(&world(at + d)), gdut_net::wireless::Action::Associate);
    }
}
