use gdut_net::config::Config;
use gdut_net::probe::ProbeVerdict;
use gdut_net::protocol::{Command, HeartbeatStatus, NetMode, SessionStatus, WPhase};
use gdut_net::supervisor::{
    portal_outcome, Clock, Effect, Event, Lane, NotificationLedger, PortalAttempt, Reaction,
    SessionView, Supervisor, ToastKey, WatchdogStep, WirelessSample, WlanSample,
    LINK_DOWN_RETRY_MS, LINK_POLL_MS, NOTIFY_THROTTLE_MS, ROUTE_SETTLE_MS, WIRELESS_TICK_MS,
};

struct NoClock;

impl Clock for NoClock {
    fn now_ms(&self) -> u64 {
        0
    }

    fn wall_secs(&self) -> u64 {
        0
    }
}

fn wired_only() -> Config {
    let mut cfg = Config::default();
    cfg.wireless.enabled = false;
    cfg
}

fn with_wireless() -> Config {
    let mut cfg = Config::default();
    cfg.wireless.enabled = true;
    cfg.wireless.portal_url = "http://10.0.3.2:801/eportal/".to_string();
    cfg.wireless.probe_host = "223.5.5.5".to_string();
    cfg
}

fn started(cfg: Config) -> (Supervisor<NoClock>, Reaction) {
    let mut s = Supervisor::new(cfg, "secret".to_string(), NoClock);
    let r = s.on_at(Event::Started, 1_000, 100);
    (s, r)
}

fn session(status: SessionStatus, attempts: u32, reason: Option<&str>) -> SessionView {
    SessionView {
        status,
        since_unix: None,
        last_drop_reason: reason.map(|r| r.to_string()),
        redial_attempts: attempts,
    }
}

fn wlan_sample() -> WirelessSample {
    WirelessSample {
        associated: true,
        wlan: Some(WlanSample {
            ipv4: [10, 20, 30, 40],
            gateway: Some([10, 20, 0, 1]),
            ifindex: 15,
        }),
    }
}

#[test]
fn events_before_start_are_ignored() {
    let mut s = Supervisor::new(wired_only(), "pw".to_string(), NoClock);
    let r = s.on_at(Event::Wake, 5, 5);
    assert!(r.effects.is_empty());
    assert!(r.snapshot.is_none());
    assert!(r.wake_at.is_none());
    let r = s.on_at(Event::LinkSampled(Some(true)), 5, 5);
    assert!(r.effects.is_empty());
}

#[test]
fn start_publishes_a_snapshot_and_wakes_at_once() {
    let (s, r) = started(wired_only());
    assert!(r.effects.is_empty());
    let snap = r.snapshot.expect("first snapshot is published");
    assert_eq!(snap.status, SessionStatus::Idle);
    assert_eq!(snap.events.len(), 1);
    assert!(snap.events[0].ends_with("Service started, mode wired-exclusive"));
    assert_eq!(r.wake_at, Some(1_000));
    assert_eq!(s.password(), "secret");
}

#[test]
fn start_with_wireless_cleans_routes_and_samples() {
    let (_, r) = started(with_wireless());
    assert_eq!(r.effects, vec![Effect::CleanupStaleRoutes, Effect::SampleWireless]);
    assert_eq!(r.wake_at, Some(1_000));
}

#[test]
fn invalid_portal_target_disables_the_takeover() {
    let mut cfg = with_wireless();
    cfg.wireless.portal_url = "https://portal.example/".to_string();
    let (_, r) = started(cfg);
    assert!(r.effects.is_empty());
}

#[test]
fn unchanged_snapshot_is_not_published_again() {
    let (mut s, _) = started(wired_only());
    let r = s.on_at(Event::Heartbeat(HeartbeatStatus::Off), 1_100, 101);
    assert!(r.snapshot.is_none());
    let r = s.on_at(Event::Heartbeat(HeartbeatStatus::Running), 1_200, 102);
    assert_eq!(r.snapshot.unwrap().heartbeat, HeartbeatStatus::Running);
}

#[test]
fn due_deadline_samples_the_link_then_steps() {
    let (mut s, _) = started(wired_only());
    let r = s.on_at(Event::Wake, 1_000, 100);
    assert_eq!(r.effects, vec![Effect::SampleLink]);
    // The sample is in flight: another wake does not sample again.
    let r = s.on_at(Event::Wake, 1_500, 100);
    assert!(r.effects.is_empty());
    let r = s.on_at(Event::LinkSampled(Some(true)), 1_600, 100);
    assert_eq!(
        r.effects,
        vec![Effect::SetWatchdogLink(Some(true)), Effect::StepWatchdog]
    );
    assert_eq!(r.wake_at, Some(1_600 + LINK_POLL_MS));
}

#[test]
fn stale_link_sample_is_ignored() {
    let (mut s, _) = started(wired_only());
    let r = s.on_at(Event::LinkSampled(Some(false)), 1_100, 100);
    assert!(r.effects.is_empty());
    assert!(r.snapshot.is_none());
}

#[test]
fn pulling_the_cable_stops_stepping_and_plugging_redials() {
    let (mut s, _) = started(wired_only());
    s.on_at(Event::Wake, 1_000, 100);
    let r = s.on_at(Event::LinkSampled(Some(false)), 1_100, 100);
    assert_eq!(r.effects, vec![Effect::SetWatchdogLink(Some(false))]);
    assert_eq!(r.wake_at, Some(1_100 + LINK_DOWN_RETRY_MS));
    let r = s.on_at(Event::Wake, 1_100 + LINK_DOWN_RETRY_MS, 105);
    assert_eq!(r.effects, vec![Effect::SampleLink]);
    let r = s.on_at(Event::LinkSampled(Some(true)), 7_000, 106);
    assert_eq!(
        r.effects,
        vec![
            Effect::SetWatchdogLink(Some(true)),
            Effect::RequestRedial,
            Effect::StepWatchdog
        ]
    );
    let snap = r.snapshot.unwrap();
    assert!(snap.events.last().unwrap().ends_with("Ethernet link restored, redialing"));
}

#[test]
fn unknown_link_reading_keeps_a_known_state() {
    let (mut s, _) = started(wired_only());
    s.on_at(Event::Wake, 1_000, 100);
    s.on_at(Event::LinkSampled(Some(true)), 1_100, 100);
    s.on_at(Event::Wake, 1_100 + LINK_POLL_MS, 100);
    let r = s.on_at(Event::LinkSampled(None), 3_200, 100);
    assert!(r.effects.is_empty());
}

#[test]
fn redial_command_steps_at_once() {
    let (mut s, _) = started(wired_only());
    let r = s.on_at(Event::Command(Command::Redial), 1_100, 100);
    assert_eq!(r.effects, vec![Effect::RequestRedial, Effect::StepWatchdog]);
}

#[test]
fn set_mode_is_persisted_and_shown() {
    let (mut s, _) = started(with_wireless());
    let r = s.on_at(
        Event::Command(Command::SetMode {
            mode: NetMode::WiredPlusStandby,
        }),
        1_100,
        100,
    );
    assert_eq!(r.effects, vec![Effect::PersistMode(NetMode::WiredPlusStandby)]);
    let snap = r.snapshot.unwrap();
    assert_eq!(snap.mode, NetMode::WiredPlusStandby);
    assert!(snap.events.last().unwrap().ends_with("Mode switched to wired-plus-standby"));
}

#[test]
fn watchdog_step_sets_the_next_deadline() {
    let (mut s, _) = started(wired_only());
    let step = WatchdogStep {
        delay_ms: 30_000,
        session: session(SessionStatus::Connected, 0, None),
        ppp_ip: Some("10.1.2.3".to_string()),
    };
    let r = s.on_at(Event::WatchdogStepped(step), 2_000, 100);
    let snap = r.snapshot.unwrap();
    assert_eq!(snap.status, SessionStatus::Connected);
    assert_eq!(snap.ip.as_deref(), Some("10.1.2.3"));
    // The link poll (due since the start) comes before the step deadline.
    assert_eq!(r.wake_at, Some(2_000));
}

#[test]
fn long_failing_redials_raise_one_throttled_toast() {
    let (mut s, _) = started(wired_only());
    let failing = |t| WatchdogStep {
        delay_ms: t,
        session: session(SessionStatus::Backoff, 7, Some("拨号失败 651: x")),
        ppp_ip: None,
    };
    let r = s.on_at(Event::WatchdogStepped(failing(1_000)), 10_000, 100);
    assert!(r.effects.is_empty());
    let r = s.on_at(Event::WatchdogStepped(failing(1_000)), 610_000, 100);
    assert_eq!(r.effects.len(), 1);
    match &r.effects[0] {
        Effect::Notify { key, title, body } => {
            assert_eq!(*key, ToastKey::RedialFailing);
            assert_eq!(title, "gdut-net network error");
            assert_eq!(
                body,
                "Redial failed for 10 minutes (7 attempts), check network or credentials"
            );
        }
        other => panic!("unexpected effect {other:?}"),
    }
    // In flight: not sent again.
    let r = s.on_at(Event::WatchdogStepped(failing(1_000)), 620_000, 100);
    assert!(r.effects.is_empty());
    // Delivered: throttled for 30 minutes.
    s.on_at(
        Event::NotifyResult {
            key: ToastKey::RedialFailing,
            delivered: true,
        },
        630_000,
        100,
    );
    let r = s.on_at(Event::WatchdogStepped(failing(1_000)), 640_000, 100);
    assert!(r.effects.is_empty());
    let r = s.on_at(
        Event::WatchdogStepped(failing(1_000)),
        630_000 + NOTIFY_THROTTLE_MS,
        100,
    );
    assert_eq!(r.effects.len(), 1);
}

#[test]
fn heartbeat_error_raises_a_toast() {
    let (mut s, _) = started(wired_only());
    let r = s.on_at(
        Event::Heartbeat(HeartbeatStatus::Error("port busy".to_string())),
        2_000,
        100,
    );
    assert_eq!(
        r.effects,
        vec![Effect::Notify {
            key: ToastKey::HeartbeatError,
            title: "gdut-net heartbeat error".to_string(),
            body: "Compatibility heartbeat error: port busy".to_string(),
        }]
    );
}

#[test]
fn wireless_takeover_associates_then_logs_in() {
    let (mut s, _) = started(with_wireless());
    // Wired link unknown, takeover after 60 s by default; the first tick
    // only starts the unhealthy clock.
    let r = s.on_at(Event::WirelessSampled(wlan_sample()), 1_100, 100);
    assert!(r.effects.iter().all(|e| e.lane() == Lane::Wireless));
    let mut t = 1_100;
    let mut associated = false;
    for _ in 0..60 {
        t += WIRELESS_TICK_MS;
        let w = s.on_at(Event::Wake, t, 100);
        assert!(w.effects.contains(&Effect::SampleWireless));
        let r = s.on_at(Event::WirelessSampled(wlan_sample()), t, 100);
        if r.effects.iter().any(|e| matches!(e, Effect::Associate(_))) {
            associated = true;
            break;
        }
    }
    assert!(associated, "takeover associates after the debounce");
    let r = s.on_at(Event::AssociateFinished(Ok(())), t + 10, 100);
    assert!(r.effects.is_empty());
    // Next tick: joined with an address, the portal login is asked for.
    t += WIRELESS_TICK_MS;
    s.on_at(Event::Wake, t, 100);
    let r = s.on_at(Event::WirelessSampled(wlan_sample()), t, 100);
    let pos = r
        .effects
        .iter()
        .position(|e| matches!(e, Effect::EnsureRoutes { .. }))
        .expect("routes before the login");
    assert_eq!(
        r.effects[pos],
        Effect::EnsureRoutes {
            dests: vec![[10, 0, 3, 2], [223, 5, 5, 5]],
            gateway: [10, 20, 0, 1],
            ifindex: 15,
        }
    );
    assert_eq!(r.effects[pos + 1], Effect::Settle(ROUTE_SETTLE_MS));
    assert!(matches!(
        r.effects[pos + 2],
        Effect::PortalAuth {
            src_ip: [10, 20, 30, 40],
            ..
        }
    ));
    let snap = r.snapshot.unwrap();
    assert_eq!(snap.wireless.phase, WPhase::Authing);
    assert_eq!(snap.wireless.ip.as_deref(), Some("10.20.30.40"));
    // A login result nobody waits for is ignored; the awaited one counts.
    let r = s.on_at(
        Event::PortalFinished(PortalAttempt::Replied {
            status: 200,
            body: "dr1004({\"result\":\"1\",\"msg\":\"ok\"})".to_string(),
        }),
        t + 100,
        100,
    );
    let snap = r.snapshot.unwrap();
    assert_eq!(snap.wireless.phase, WPhase::Online);
    assert!(snap.events.last().unwrap().ends_with("Wireless: portal login success"));
    let r = s.on_at(Event::PortalFinished(PortalAttempt::NoReply), t + 200, 100);
    assert!(r.snapshot.is_none());
}

#[test]
fn stop_hangs_up_first_and_ends_the_timers() {
    let (mut s, _) = started(with_wireless());
    let r = s.on_at(Event::Stop, 2_000, 100);
    assert_eq!(
        r.effects,
        vec![Effect::Hangup, Effect::TeardownRoutes, Effect::Disassociate]
    );
    assert!(r.wake_at.is_none());
    let r = s.on_at(Event::Wake, 3_000, 100);
    assert!(r.effects.is_empty());
    assert!(r.snapshot.is_none());
}

#[test]
fn dead_wireless_worker_is_reported_once() {
    let (mut s, _) = started(with_wireless());
    let r = s.on_at(Event::WirelessDied, 2_000, 100);
    let snap = r.snapshot.unwrap();
    assert!(snap.events.last().unwrap().ends_with("Wireless: manager stopped"));
    let r = s.on_at(Event::Stop, 3_000, 100);
    assert_eq!(r.effects, vec![Effect::Hangup]);
}

#[test]
fn clock_running_backwards_counts_as_standing_still() {
    let (mut s, _) = started(wired_only());
    let r = s.on_at(Event::Command(Command::Redial), 500, 100);
    assert_eq!(r.wake_at, Some(1_000));
}

#[test]
fn lanes_split_wired_and_wireless_work() {
    assert_eq!(Effect::StepWatchdog.lane(), Lane::Main);
    assert_eq!(Effect::SampleWireless.lane(), Lane::Main);
    assert_eq!(
        Effect::Notify {
            key: ToastKey::HeartbeatError,
            title: String::new(),
            body: String::new()
        }
        .lane(),
        Lane::Main
    );
    assert_eq!(Effect::TeardownRoutes.lane(), Lane::Wireless);
    assert_eq!(Effect::Settle(1).lane(), Lane::Wireless);
    assert_eq!(ToastKey::HeartbeatError.as_str(), "heartbeat_error");
    assert_eq!(ToastKey::RedialFailing.as_str(), "redial_failing");
}

#[test]
fn portal_outcomes() {
    assert_eq!(
        portal_outcome(&PortalAttempt::Replied {
            status: 200,
            body: "{\"result\":\"0\",\"ret_code\":2}".to_string()
        }),
        (true, "already online".to_string())
    );
    assert_eq!(
        portal_outcome(&PortalAttempt::Replied {
            status: 200,
            body: "{\"result\":\"0\",\"msg\":\"bad password\"}".to_string()
        }),
        (false, "bad password".to_string())
    );
    assert_eq!(
        portal_outcome(&PortalAttempt::Replied {
            status: 502,
            body: "<html>".to_string()
        }),
        (false, "unparseable reply (HTTP 502)".to_string())
    );
    assert_eq!(
        portal_outcome(&PortalAttempt::TimedOut),
        (false, "portal auth timeout".to_string())
    );
    assert_eq!(
        portal_outcome(&PortalAttempt::Failed("refused".to_string())),
        (false, "refused".to_string())
    );
}

#[test]
fn notification_ledger_opens_the_window_only_on_delivery() {
    let mut l = NotificationLedger::new();
    let mut effs = Vec::new();
    l.maybe_notify(ToastKey::HeartbeatError, "t", "b".to_string(), 0, &mut effs);
    assert_eq!(effs.len(), 1);
    l.maybe_notify(ToastKey::HeartbeatError, "t", "b".to_string(), 1, &mut effs);
    assert_eq!(effs.len(), 1);
    l.on_result(ToastKey::HeartbeatError, false, 2);
    l.maybe_notify(ToastKey::HeartbeatError, "t", "b".to_string(), 3, &mut effs);
    assert_eq!(effs.len(), 2);
    l.on_result(ToastKey::HeartbeatError, true, 4);
    l.maybe_notify(ToastKey::HeartbeatError, "t", "b".to_string(), 5, &mut effs);
    assert_eq!(effs.len(), 2);
    l.maybe_notify(ToastKey::RedialFailing, "t", "b".to_string(), 5, &mut effs);
    assert_eq!(effs.len(), 3);
    l.maybe_notify(
        ToastKey::HeartbeatError,
        "t",
        "b".to_string(),
        4 + NOTIFY_THROTTLE_MS,
        &mut effs,
    );
    assert_eq!(effs.len(), 4);
}

#[test]
fn probe_verdict_is_cached_for_the_next_tick() {
    let (mut s, _) = started(with_wireless());
    let r = s.on_at(Event::WlanProbeFinished(ProbeVerdict::Kicked), 2_000, 100);
    // Nobody asked for a probe: ignored.
    assert!(r.snapshot.is_none());
}

#[test]
fn durations_saturate_to_milliseconds() {
    assert_eq!(gdut_net::supervisor::saturate_ms(1_500), 1_500);
    assert_eq!(gdut_net::supervisor::saturate_ms(u128::MAX), u64::MAX);
    assert_eq!(gdut_net::supervisor::duration_ms(&std::time::Duration::from_millis(2_345)), 2_345);
    assert_eq!(gdut_net::supervisor::duration_ms(&std::time::Duration::MAX), u64::MAX);
    let c = gdut_net::supervisor::SystemClock::new();
    assert!(c.wall_secs() > 1_600_000_000);
    assert!(c.now_ms() < 60_000);
}
