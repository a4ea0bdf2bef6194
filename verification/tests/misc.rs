use gdut_net::cli::{target_mode, wants_cli_logging, Cmd, ConfirmStep, ModeConfirm, WirelessAction};
use gdut_net::cmdline::first_token;
use gdut_net::config::Config;
use gdut_net::eventlog::EventLevel;
use gdut_net::http::{is_auth_redirect, parse_response, parse_response_text, parse_status_code, parse_url, request_text};
use gdut_net::logging::{enabled, event_record, rotation_bytes, LogLevel};
use gdut_net::portal::{build_login_url, parse_portal_reply, parse_portal_response, parse_portal_response_text, portal_request_text, redact_query, result_line, urlencode, PortalResult, test_login_next, no_reply_line, TestLoginStep};
use gdut_net::protocol::{
    format_uptime, EventLog, FrameDecoder, HeartbeatStatus, NetMode, SessionStatus, StateSnapshot,
    WirelessSnapshot, EVENT_LOG_CAP,
};
use gdut_net::service::ensure_purge_safe;
use gdut_net::setup_args::{Mode, SetupArgs, SetupArgsError};
use gdut_net::setup_flow::{
    dial_settled, entry_plan, label_zh, quote_args, run_install, step_label_en, EntryPlan,
    InstallEvent, InstallReporter, InstallRequest, InstallStep, InstallWork, RollbackOutcome,
    StepFailure, run_uninstall, StepOutcome, UninstallReport, UninstallWork,
};
use gdut_net::shell_shortcuts::{extra_targets, shortcuts, SHORTCUT_COUNT};
use gdut_net::status::{events_newest_first, panel_rows, session_en, view, Light};
use gdut_net::tray::{
    autostart_command, icon_kind, icon_rgba, on_show, on_spawn_failed, on_window_exit, on_window_ready,
    tray_view, GuiPhase, IconKind, ShowAction,
};
use gdut_net::watchdog::{dial_error_of, WedgeTracker};
use gdut_net::ras::{ErrKind, RasError};
use gdut_net::win32::wide;

#[test]
fn rotation_bytes_clamps() {
    const MIB: u64 = 1024 * 1024;
    assert_eq!(rotation_bytes(5), 5 * MIB);
    assert_eq!(rotation_bytes(0), MIB);
    assert_eq!(rotation_bytes(1), MIB);
    assert_eq!(rotation_bytes(u64::MAX), u64::MAX);
}

#[test]
fn only_warnings_and_errors_reach_the_event_log() {
    assert!(enabled(LogLevel::Info));
    assert!(!enabled(LogLevel::Debug));
    assert_eq!(event_record(LogLevel::Info, Some("m"), "x"), None);
    assert_eq!(
        event_record(LogLevel::Warn, Some("gdut_net::ras"), "dial failed"),
        Some((EventLevel::Warning, "[gdut_net::ras] dial failed".to_string()))
    );
    assert_eq!(
        event_record(LogLevel::Error, None, "boom"),
        Some((EventLevel::Error, "[gdut-net] boom".to_string()))
    );
    assert_eq!(EventLevel::Error.raw(), 1);
    assert_eq!(EventLevel::Warning.raw(), 2);
    assert_eq!(EventLevel::Info.raw(), 4);
}

fn snap(status: SessionStatus) -> StateSnapshot {
    StateSnapshot {
        status,
        since_unix: Some(1_000),
        ip: None,
        last_drop_reason: None,
        redial_attempts: 0,
        heartbeat: HeartbeatStatus::Error("x".to_string()),
        mode: NetMode::WiredExclusive,
        wireless: WirelessSnapshot::default(),
        events: Vec::new(),
    }
}

#[test]
fn snapshot_texts() {
    let s = snap(SessionStatus::Backoff);
    assert_eq!(s.status_text(), "重拨中");
    assert_eq!(snap(SessionStatus::Idle).status_text(), "空闲");
    assert_eq!(s.uptime_text(1_000 + 3_725), "01:02:05");
    assert_eq!(s.uptime_text(10), "00:00:00");
    assert_eq!(s.heartbeat_text(), "Error (x)");
    assert_eq!(format_uptime(360_000), "100:00:00");
    assert_eq!(format_uptime(59), "00:00:59");
    assert_eq!(format_uptime(36_000), "10:00:00");
}

#[test]
fn event_log_keeps_the_newest_lines() {
    let mut log = EventLog::new();
    for i in 0..(EVENT_LOG_CAP as u64 + 3) {
        log.push(3_600 + i, "tick");
    }
    assert_eq!(log.ring().len(), EVENT_LOG_CAP);
    assert_eq!(log.ring().last().unwrap(), &format!("01:00:{:02} tick", EVENT_LOG_CAP + 2));
    assert_eq!(log.ring()[0], "01:00:03 tick");
}

#[test]
fn frames_split_on_newlines() {
    let mut d = FrameDecoder::default();
    let f = d.feed(b"{\"a\":1}\n{\"b\"");
    assert_eq!(f.len(), 1);
    assert_eq!(f[0], b"{\"a\":1}\n".to_vec());
    let f = d.feed(b":2}\n\n");
    assert_eq!(f.len(), 2);
    assert_eq!(f[0], b"{\"b\":2}\n".to_vec());
    assert_eq!(f[1], b"\n".to_vec());
}

#[test]
fn frames_do_not_depend_on_chunking() {
    let stream: &[u8] = b"ab\ncd\n\nef";
    let mut whole = FrameDecoder::default();
    let all: Vec<Vec<u8>> = whole.feed(stream).into_iter().collect();
    for cut in 0..=stream.len() {
        let mut d = FrameDecoder::default();
        let mut got: Vec<Vec<u8>> = d.feed(&stream[..cut]).into_iter().collect();
        got.extend(d.feed(&stream[cut..]));
        assert_eq!(got, all);
    }
    assert_eq!(all, vec![b"ab\n".to_vec(), b"cd\n".to_vec(), b"\n".to_vec()]);
}

#[test]
fn icons_follow_the_status_light() {
    assert_eq!(icon_kind(None), IconKind::Down);
    let mut s = snap(SessionStatus::Connected);
    assert_eq!(view(Some(&s)).light, Light::Wired);
    assert_eq!(icon_kind(Some(&s)), IconKind::WiredUp);
    s.status = SessionStatus::Dialing;
    assert_eq!(icon_kind(Some(&s)), IconKind::Backoff);
    assert_eq!(IconKind::WirelessUp.color(), [0x30, 0x9c, 0xdc]);
    let all = IconKind::all();
    for (i, k) in all.iter().enumerate() {
        assert_eq!(k.index(), i);
    }
}

#[test]
fn icon_is_a_square_with_a_transparent_margin() {
    let rgba = icon_rgba([1, 2, 3]);
    assert_eq!(rgba.len(), 32 * 32 * 4);
    assert_eq!(&rgba[..4], &[1, 2, 3, 0]);
    let at = |x: usize, y: usize| &rgba[4 * (32 * y + x)..4 * (32 * y + x) + 4];
    assert_eq!(at(2, 2), &[1, 2, 3, 0xff]);
    assert_eq!(at(29, 29), &[1, 2, 3, 0xff]);
    assert_eq!(at(30, 5), &[1, 2, 3, 0]);
    assert_eq!(at(5, 1), &[1, 2, 3, 0]);
}

#[test]
fn step_labels() {
    assert_eq!(step_label_en("unpack"), "Unpack files");
    assert_eq!(step_label_en("uninstall_remove_dir"), "Remove install directory");
    assert_eq!(step_label_en("something_else"), "something_else");
    assert_eq!(label_zh("uninstall_entropy"), "移除加密密钥");
    assert_eq!(label_zh("x"), "x");
    assert_eq!(InstallStep::InstallCore.key(), "install_core");
    assert_eq!(InstallStep::Unpack.label(), "解包文件");
}

#[test]
fn quoting_arguments_with_spaces() {
    let args = vec![
        "--silent".to_string(),
        "C:\\Program Files\\x".to_string(),
        "a".to_string(),
    ];
    assert_eq!(quote_args(&args), "--silent \"C:\\Program Files\\x\" a");
    assert_eq!(quote_args(&[]), "");
}

#[test]
fn dial_results_worth_showing() {
    assert!(dial_settled(SessionStatus::Connected));
    assert!(dial_settled(SessionStatus::AuthFail));
    assert!(!dial_settled(SessionStatus::Dialing));
    assert_eq!(session_en(SessionStatus::Backoff), "Backoff (retrying)");
}

#[test]
fn installer_entry_elevates_first() {
    assert_eq!(
        entry_plan(Mode::SilentInstall, false),
        EntryPlan::Elevate { wait: true }
    );
    assert_eq!(entry_plan(Mode::Gui, false), EntryPlan::Elevate { wait: false });
    assert_eq!(entry_plan(Mode::SilentUninstall, true), EntryPlan::Silent);
    assert_eq!(entry_plan(Mode::Repair, true), EntryPlan::Gui);
}

struct Recorder(Vec<String>);

impl InstallReporter for Recorder {
    fn report(&mut self, event: InstallEvent) {
        self.0.push(match event {
            InstallEvent::Step { key, .. } => format!("step {key}"),
            InstallEvent::StepDone { key, .. } => format!("done {key}"),
            InstallEvent::StepFinished { key, label, outcome } => format!("row {key} {label} {:?}", outcome),
            InstallEvent::Done { result, rollback } => format!("end {:?} {:?}", result, rollback),
        });
    }
}

struct Work {
    fail_at: Option<InstallStep>,
    own_rollback: bool,
    rollbacks: u32,
}

impl InstallWork for Work {
    fn run_step(&mut self, step: InstallStep, _req: &InstallRequest) -> Result<(), StepFailure> {
        if self.fail_at == Some(step) {
            Err(StepFailure {
                error: "boom".to_string(),
                rollback: if self.own_rollback {
                    Some(RollbackOutcome::RolledBack)
                } else {
                    None
                },
            })
        } else {
            Ok(())
        }
    }

    fn rollback(&mut self) -> RollbackOutcome {
        self.rollbacks += 1;
        RollbackOutcome::Incomplete("left over".to_string())
    }
}

fn request() -> InstallRequest {
    InstallRequest {
        student_id: "3120000000".to_string(),
        password: None,
    }
}

#[test]
fn install_runs_every_step_in_order() {
    let mut rec = Recorder(Vec::new());
    let mut work = Work {
        fail_at: None,
        own_rollback: false,
        rollbacks: 0,
    };
    let out = run_install(request(), &mut work, &mut rec);
    assert_eq!(out.completed, 5);
    assert_eq!(out.result, Ok(()));
    assert_eq!(out.rollback, RollbackOutcome::NotNeeded);
    assert_eq!(rec.0.len(), 11);
    assert_eq!(rec.0[0], "step stop_service");
    assert_eq!(rec.0[9], "done start_service");
    assert_eq!(rec.0[10], "end Ok(()) NotNeeded");
    assert_eq!(work.rollbacks, 0);
}

#[test]
fn install_failure_rolls_back_once() {
    let mut rec = Recorder(Vec::new());
    let mut work = Work {
        fail_at: Some(InstallStep::ShellIntegration),
        own_rollback: false,
        rollbacks: 0,
    };
    let out = run_install(request(), &mut work, &mut rec);
    assert_eq!(out.completed, 3);
    assert_eq!(out.result, Err("boom".to_string()));
    assert_eq!(out.rollback, RollbackOutcome::Incomplete("left over".to_string()));
    assert_eq!(work.rollbacks, 1);
    assert_eq!(rec.0.last().unwrap(), "end Err(\"boom\") Incomplete(\"left over\")");
    // The core step rolls back by itself: no second rollback.
    let mut rec = Recorder(Vec::new());
    let mut work = Work {
        fail_at: Some(InstallStep::InstallCore),
        own_rollback: true,
        rollbacks: 0,
    };
    let out = run_install(request(), &mut work, &mut rec);
    assert_eq!(out.completed, 2);
    assert_eq!(out.rollback, RollbackOutcome::RolledBack);
    assert!(out.own_rollback);
    assert_eq!(work.rollbacks, 0);
}

#[test]
fn shortcut_list() {
    let s = shortcuts();
    assert_eq!(s.len(), SHORTCUT_COUNT);
    assert_eq!(s[0].name, "GDUT Net");
    assert_eq!(s[4].args, "tray");
    assert!(s[9].run_as_admin);
    assert_eq!(s[9].target, "gdut-net-setup.exe");
    assert_eq!(extra_targets(), vec!["gdut-net.exe", "gdut-net-setup.exe"]);
}

#[test]
fn cli_decisions() {
    assert!(!wants_cli_logging(Cmd::Run));
    assert!(wants_cli_logging(Cmd::Status));
    assert_eq!(target_mode(WirelessAction::Off), Some(NetMode::WiredExclusive));
    assert_eq!(target_mode(WirelessAction::Standby), Some(NetMode::WiredPlusStandby));
    assert_eq!(target_mode(WirelessAction::Test), None);
}

#[test]
fn mode_switch_is_confirmed_within_five_snapshots() {
    let mut c = ModeConfirm::new(NetMode::WiredPlusStandby);
    assert_eq!(c.on_frame(NetMode::WiredExclusive), ConfirmStep::ReadMore);
    assert_eq!(c.on_frame(NetMode::WiredPlusStandby), ConfirmStep::Confirmed);
    let mut c = ModeConfirm::new(NetMode::WiredPlusStandby);
    for _ in 0..4 {
        assert_eq!(c.on_frame(NetMode::WiredExclusive), ConfirmStep::ReadMore);
    }
    assert_eq!(c.on_frame(NetMode::WiredExclusive), ConfirmStep::GiveUp);
}

#[test]
fn purge_only_a_directory_named_gdut_net() {
    assert!(ensure_purge_safe(Some("gdut-net")).is_ok());
    assert!(ensure_purge_safe(Some("GDUT-Net")).is_ok());
    assert!(ensure_purge_safe(Some("ProgramData")).is_err());
    assert!(ensure_purge_safe(None).is_err());
}

#[test]
fn stuck_port_restarts_rasman_on_the_third_failure() {
    let mut w = WedgeTracker::new();
    assert!(!w.record(Some(756)));
    assert!(!w.record(Some(813)));
    assert!(w.record(Some(756)));
    assert!(!w.record(Some(756)));
    assert!(!w.record(Some(651)));
    assert!(!w.record(Some(756)));
    assert!(!w.record(None));
    assert!(!w.record(Some(756)));
    assert!(!w.record(Some(756)));
    assert!(w.record(Some(813)));
}

#[test]
fn ras_errors_map_to_dial_errors() {
    let e = dial_error_of(RasError::Auth);
    assert_eq!(e.kind, ErrKind::Auth);
    assert_eq!(e.code, 691);
    assert_eq!(
        e.msg,
        "Authentication failed (691): invalid student ID or password"
    );
    let e = dial_error_of(RasError::Other {
        code: 678,
        msg: "no answer".to_string(),
    });
    assert_eq!(e.kind, ErrKind::Transient);
    assert_eq!(e.code, 678);
    assert_eq!(e.msg, "no answer");
}

#[test]
fn wide_strings_end_with_nul() {
    assert_eq!(wide("ab"), vec![0x61, 0x62, 0]);
    assert_eq!(wide("说"), vec![0x8bf4, 0]);
    assert_eq!(wide("😀"), vec![0xd83d, 0xde00, 0]);
}

#[test]
fn first_token_of_a_command_line() {
    assert_eq!(first_token("\"C:\\Program Files\\x.exe\" tray"), "C:\\Program Files\\x.exe");
    assert_eq!(first_token("x.exe tray"), "x.exe");
}

#[test]
fn http_helpers() {
    let t = parse_url("http://10.0.3.2:801/eportal/?a=1").unwrap();
    assert_eq!(t.host, "10.0.3.2");
    assert_eq!(t.port, 801);
    assert_eq!(t.path, "/eportal/?a=1");
    assert_eq!(t.host_header, "10.0.3.2:801");
    let t = parse_url("http://example.com").unwrap();
    assert_eq!(t.port, 80);
    assert_eq!(t.path, "/");
    assert!(parse_url("https://example.com").is_none());
    assert_eq!(parse_status_code("HTTP/1.1 302 Found"), Some(302));
    assert_eq!(parse_status_code("garbage"), None);
    assert!(is_auth_redirect("http://10.0.3.2/a79.htm?wlanacip=1"));
    assert!(!is_auth_redirect("http://www.example.com/"));
}

#[test]
fn portal_helpers() {
    assert_eq!(urlencode("a b&c=d/é"), "a%20b%26c%3Dd%2F%C3%A9");
    assert_eq!(redact_query("http://h/p?user=1&pass=2"), "http://h/p?***");
    assert_eq!(redact_query("http://h/p"), "http://h/p");
    assert_eq!(parse_portal_reply("dr1004({\"result\":\"1\"})"), PortalResult::Success);
    assert_eq!(
        parse_portal_reply(" {\"result\":0,\"ret_code\":\"2\"} "),
        PortalResult::AlreadyOnline
    );
    assert_eq!(
        parse_portal_reply("{\"result\":\"0\",\"msg\":\"密码错误\"}"),
        PortalResult::Failure("密码错误".to_string())
    );
    assert_eq!(
        parse_portal_reply("{\"result\":\"0\"}"),
        PortalResult::Failure("no msg".to_string())
    );
    assert_eq!(parse_portal_reply("not json"), PortalResult::Malformed);
    let url = build_login_url("http://p/eportal/", "31 20", "p&w", [10, 1, 2, 3], "10.0.0.1");
    assert!(url.contains("10.1.2.3"));
    assert!(url.contains("p%26w"));
    assert!(url.contains("31%2020"));
}

#[test]
fn default_configuration_needs_a_student_id() {
    let cfg = Config::default();
    assert!(cfg.validate().is_err());
    let mut cfg = Config::default();
    cfg.account.student_id = "3120000000".to_string();
    assert!(cfg.validate().is_ok());
}

#[test]
fn setup_arguments() {
    let a = SetupArgs::parse(&["--silent".to_string(), "--uninstall".to_string()]).unwrap();
    assert_eq!(a.mode().unwrap(), Mode::SilentUninstall);
    let a = SetupArgs::parse(&[]).unwrap();
    assert_eq!(a.mode().unwrap(), Mode::Gui);
    assert!(SetupArgs::parse(&["--bogus".to_string()]).is_err());
    assert_eq!(
        SetupArgs::parse(&["--purge".to_string()]),
        Err(SetupArgsError::PurgeNeedsUninstall)
    );
}

#[test]
fn wireless_test_result_lines() {
    assert_eq!(result_line(Some(&PortalResult::Success)), "RESULT: SUCCESS");
    assert_eq!(result_line(Some(&PortalResult::AlreadyOnline)), "RESULT: SUCCESS (already online)");
    assert_eq!(
        result_line(Some(&PortalResult::Failure("bad pass".to_string()))),
        "RESULT: FAILURE (bad pass)"
    );
    assert_eq!(
        result_line(Some(&PortalResult::Malformed)),
        "RESULT: MALFORMED (check wlan_ac_ip / portal_url)"
    );
    assert_eq!(result_line(None), "RESULT: NO REPLY (route/TUN interference?)");
    let reply = parse_portal_reply("dr1003({\"result\":1,\"msg\":\"ok\"})");
    assert_eq!(result_line(Some(&reply)), "RESULT: SUCCESS");
}

#[test]
fn status_window_rows() {
    let none = panel_rows(None, 0);
    assert_eq!(none[0], ("Wired", "No service".to_string()));
    assert!(none[1..].iter().all(|(_, v)| v == "—"));
    let mut s = snap(SessionStatus::Connected);
    s.ip = Some("10.30.1.2".to_string());
    s.events = vec!["a".to_string(), "b".to_string()];
    let rows = panel_rows(Some(&s), 1_000 + 61);
    assert_eq!(rows[0], ("Wired", "已连接".to_string()));
    assert_eq!(rows[1], ("Uptime", "00:01:01".to_string()));
    assert_eq!(rows[2], ("Wired IP", "10.30.1.2".to_string()));
    assert_eq!(rows[3], ("Heartbeat", "Error (x)".to_string()));
    assert_eq!(rows[4], ("Drop reason", "—".to_string()));
    assert_eq!(rows[6], ("Wireless IP", "—".to_string()));
    assert_eq!(events_newest_first(Some(&s)), vec!["b".to_string(), "a".to_string()]);
    assert!(events_newest_first(None).is_empty());
}

#[test]
fn tray_menu_follows_the_snapshot() {
    let v = tray_view(None);
    assert_eq!(v.status, "服务未运行");
    assert_eq!(v.tooltip, "gdut-net — 服务未运行");
    assert!(v.exclusive_checked && !v.standby_checked);
    assert_eq!(v.icon, IconKind::Down);
    let mut s = snap(SessionStatus::Connected);
    s.mode = NetMode::WiredPlusStandby;
    let v = tray_view(Some(&s));
    assert!(!v.exclusive_checked && v.standby_checked);
    assert_eq!(v.icon, IconKind::WiredUp);
    assert_eq!(v.tooltip, format!("gdut-net — {}", v.status));
    assert_eq!(
        autostart_command("C:\\Program Files\\gdut-net\\gdut-net.exe"),
        "\"C:\\Program Files\\gdut-net\\gdut-net.exe\" tray"
    );
}

#[test]
fn get_request_text() {
    let t = parse_url("http://10.0.3.2:801/eportal/portal/login?x=1").unwrap();
    assert_eq!(
        request_text(&t, "gdut-net-probe"),
        "GET /eportal/portal/login?x=1 HTTP/1.0\r\nHost: 10.0.3.2:801\r\nUser-Agent: gdut-net-probe\r\nConnection: close\r\n\r\n"
    );
}

#[test]
fn response_status_location_and_body() {
    let r = parse_response_text(
        "HTTP/1.0 302 Found\r\nServer: x\r\n  LOCATION :  http://10.0.3.2/a79.htm?WlanAcIp=1  \r\n\r\nhello\r\n\r\nworld",
    )
    .unwrap();
    assert_eq!(r.status, 302);
    assert_eq!(r.location_lower, "http://10.0.3.2/a79.htm?wlanacip=1");
    assert_eq!(r.body, "hello\r\n\r\nworld");
    let r = parse_response_text("HTTP/1.1 200 OK\r\n\r\nLocation: nope").unwrap();
    assert_eq!(r.location_lower, "");
    assert_eq!(r.body, "Location: nope");
    let r = parse_response_text("HTTP/1.1 204 No Content").unwrap();
    assert_eq!((r.status, r.location_lower.as_str(), r.body.as_str()), (204, "", ""));
    assert!(parse_response_text("garbage\r\n\r\n").is_none());
    let r = parse_response(b"HTTP/1.0 302 Found\r\nLocation: http://x/\xff\r\n\r\n").unwrap();
    assert_eq!(r.location_lower, "http://x/\u{fffd}");
}

#[test]
fn portal_request_and_response() {
    assert_eq!(
        portal_request_text("http://10.0.3.2:801/eportal/portal/login?a=1").unwrap(),
        "GET /eportal/portal/login?a=1 HTTP/1.0\r\nHost: 10.0.3.2:801\r\nUser-Agent: python-requests/2.31.0\r\nConnection: close\r\n\r\n"
    );
    assert_eq!(
        portal_request_text("http://10.0.3.2").unwrap(),
        "GET / HTTP/1.0\r\nHost: 10.0.3.2\r\nUser-Agent: python-requests/2.31.0\r\nConnection: close\r\n\r\n"
    );
    assert!(portal_request_text("https://10.0.3.2/").is_none());
    assert_eq!(
        parse_portal_response_text("HTTP/1.1 200 OK\r\nContent-Type: x\r\n\r\ndr1003({\"result\":1})"),
        Some((200, "dr1003({\"result\":1})".to_string()))
    );
    assert_eq!(parse_portal_response_text("HTTP/1.1 200 OK"), Some((200, String::new())));
    assert_eq!(parse_portal_response_text("HTTP/1.1\r\n\r\n"), None);
    assert_eq!(parse_portal_response(b"X 302 y\r\n\r\nok"), Some((302, "ok".to_string())));
}

struct Unwork {
    fail_stop: bool,
    fail_removal: bool,
}

impl UninstallWork for Unwork {
    fn stop_service(&mut self) -> Result<(), String> {
        if self.fail_stop { Err("access denied".to_string()) } else { Ok(()) }
    }

    fn uninstall_core(&mut self, purge: bool) -> Result<UninstallReport, String> {
        Ok(UninstallReport {
            rows: vec![
                ("uninstall_service", StepOutcome::Done),
                ("uninstall_event_source", StepOutcome::Skipped),
                ("uninstall_entropy", StepOutcome::Failed("x".to_string())),
                ("uninstall_autostart", StepOutcome::Done),
            ],
            purge: if purge { Some(StepOutcome::Done) } else { None },
        })
    }

    fn schedule_dir_removal(&mut self) -> Result<(), String> {
        if self.fail_removal { Err("busy".to_string()) } else { Ok(()) }
    }
}

#[test]
fn uninstall_reports_each_row_then_removes_the_directory() {
    let mut rec = Recorder(Vec::new());
    let mut w = Unwork { fail_stop: false, fail_removal: false };
    let out = run_uninstall(true, true, &mut w, &mut rec);
    assert_eq!(out.result, Ok(()));
    assert!(out.stopped && out.core_done && out.dir_removal_scheduled);
    assert_eq!(
        rec.0,
        vec![
            "step uninstall_stop_service".to_string(),
            "done uninstall_stop_service".to_string(),
            "row uninstall_service 移除服务 Done".to_string(),
            "row uninstall_event_source 移除事件源 Skipped".to_string(),
            "row uninstall_entropy 移除加密密钥 Failed(\"x\")".to_string(),
            "row uninstall_autostart 移除托盘自启 Done".to_string(),
            "row uninstall_purge 删除配置与日志 Done".to_string(),
            "step uninstall_remove_dir".to_string(),
            "done uninstall_remove_dir".to_string(),
            "end Ok(()) NotNeeded".to_string(),
        ]
    );
}

#[test]
fn uninstall_stops_at_the_first_failure() {
    let mut rec = Recorder(Vec::new());
    let mut w = Unwork { fail_stop: true, fail_removal: false };
    let out = run_uninstall(false, true, &mut w, &mut rec);
    assert_eq!(out.result, Err("access denied".to_string()));
    assert!(!out.stopped && !out.core_done);
    assert_eq!(rec.0.len(), 2);
    let mut rec = Recorder(Vec::new());
    let mut w = Unwork { fail_stop: false, fail_removal: true };
    let out = run_uninstall(false, true, &mut w, &mut rec);
    assert_eq!(out.result, Err("busy".to_string()));
    assert!(out.core_done && !out.dir_removal_scheduled);
    assert_eq!(rec.0.last().unwrap(), "end Err(\"busy\") NotNeeded");
    let mut rec = Recorder(Vec::new());
    let out = run_uninstall(false, false, &mut Unwork { fail_stop: false, fail_removal: true }, &mut rec);
    assert_eq!(out.result, Ok(()));
    assert_eq!(rec.0.len(), 7);
}

#[test]
fn event_source_registration_values() {
    assert_eq!(gdut_net::eventlog::TYPES_SUPPORTED, 7);
    assert_eq!(
        EventLevel::Info.raw() | EventLevel::Warning.raw() | EventLevel::Error.raw(),
        gdut_net::eventlog::TYPES_SUPPORTED as u16
    );
    assert_eq!(gdut_net::eventlog::EVENT_MESSAGE_ID, 3299);
    assert_eq!(gdut_net::eventlog::EVENT_MESSAGE_FILE, "%SystemRoot%\\System32\\netmsg.dll");
    assert_eq!(
        gdut_net::eventlog::SOURCE_SUBKEY,
        "SYSTEM\\CurrentControlSet\\Services\\EventLog\\Application\\gdut-net"
    );
}

#[test]
fn daily_window_starts_once_and_never_after_its_end() {
    let mut p = GuiPhase::Absent;
    assert_eq!(on_show(&mut p), ShowAction::Spawn);
    assert_eq!(on_show(&mut p), ShowAction::Wait);
    on_spawn_failed(&mut p);
    assert_eq!(p, GuiPhase::Absent);
    assert_eq!(on_show(&mut p), ShowAction::Spawn);
    on_window_ready(&mut p);
    assert_eq!(on_show(&mut p), ShowAction::Focus);
    on_window_exit(&mut p, "window closed".to_string());
    assert_eq!(on_show(&mut p), ShowAction::Unavailable);
    on_window_ready(&mut p);
    on_spawn_failed(&mut p);
    assert_eq!(p, GuiPhase::Dead("window closed".to_string()));
}

#[test]
fn install_failure_reports_the_failed_step_then_one_end() {
    let mut rec = Recorder(Vec::new());
    let mut work = Work {
        fail_at: Some(InstallStep::Unpack),
        own_rollback: false,
        rollbacks: 0,
    };
    let out = run_install(request(), &mut work, &mut rec);
    assert_eq!(out.completed, 1);
    assert!(!out.own_rollback);
    assert_eq!(
        rec.0,
        vec![
            "step stop_service".to_string(),
            "done stop_service".to_string(),
            "step unpack".to_string(),
            "end Err(\"boom\") Incomplete(\"left over\")".to_string(),
        ]
    );
    assert_eq!(work.rollbacks, 1);
}

#[test]
fn field_test_login_retries_three_times() {
    assert_eq!(test_login_next(1, true), TestLoginStep::Show);
    assert_eq!(test_login_next(1, false), TestLoginStep::Retry(2_000));
    assert_eq!(test_login_next(2, false), TestLoginStep::Retry(2_000));
    assert_eq!(test_login_next(3, false), TestLoginStep::GiveUp);
    assert_eq!(no_reply_line(2), "No reply (attempt 2/3), retrying ...");
}

#[test]
fn frames_do_not_depend_on_three_way_chunking() {
    let stream: &[u8] = b"x\n\nyz\nw";
    let mut whole = FrameDecoder::default();
    let all: Vec<Vec<u8>> = whole.feed(stream).into_iter().collect();
    for a in 0..=stream.len() {
        for b in a..=stream.len() {
            let mut d = FrameDecoder::default();
            let mut got: Vec<Vec<u8>> = d.feed(&stream[..a]).into_iter().collect();
            got.extend(d.feed(&stream[a..b]));
            got.extend(d.feed(&stream[b..]));
            assert_eq!(got, all);
        }
    }
}
