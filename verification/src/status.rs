//! Snapshot to human-readable status: the one converter shared by the tray,
//! the daily window, the CLI and the installer.

use vstd::prelude::*;

use crate::protocol::{
    HeartbeatStatus, NetMode, SessionStatus, StateSnapshot, WPhase, WirelessSnapshot,
};

verus! {

/// Status light shared by the tray icon and the window.
#[derive(Debug, Clone, Copy, PartialEq, Eq, Structural)]
pub enum Light {
    Wired,
    Wireless,
    Busy,
    Off,
}

/// Page-level primary state.
#[derive(Debug, Clone, Copy, PartialEq, Eq, Structural)]
pub enum Primary {
    ServiceDown,
    Connected,
    WirelessOnline,
    Dialing,
    Backoff,
    AuthFail,
    Idle,
}

/// Primary state and light of a snapshot.
#[derive(Debug, Clone, Copy, PartialEq, Eq, Structural)]
pub struct StatusView {
    pub primary: Primary,
    pub light: Light,
}

/// Priority: wired connected > wireless online > wired progress/failure/idle;
/// no snapshot means the service is down.
pub open spec fn spec_view(s: Option<StateSnapshot>) -> StatusView {
    match s {
        None => StatusView { primary: Primary::ServiceDown, light: Light::Off },
        Some(s) => if s.status == SessionStatus::Connected {
            StatusView { primary: Primary::Connected, light: Light::Wired }
        } else if s.wireless.phase == WPhase::Online {
            StatusView { primary: Primary::WirelessOnline, light: Light::Wireless }
        } else {
            match s.status {
                SessionStatus::Dialing => StatusView {
                    primary: Primary::Dialing,
                    light: Light::Busy,
                },
                SessionStatus::Backoff => StatusView {
                    primary: Primary::Backoff,
                    light: Light::Busy,
                },
                SessionStatus::AuthFail => StatusView {
                    primary: Primary::AuthFail,
                    light: Light::Busy,
                },
                _ => StatusView { primary: Primary::Idle, light: Light::Off },
            }
        },
    }
}

/// Primary state and light of an optional snapshot.
pub fn view(s: Option<&StateSnapshot>) -> (r: StatusView)
    ensures
        r == spec_view(
            match s {
                None => None,
                Some(x) => Some(*x),
            },
        ),
{
    let s = match s {
        None => {
            return StatusView { primary: Primary::ServiceDown, light: Light::Off };
        },
        Some(s) => s,
    };
    if s.status == SessionStatus::Connected {
        return StatusView { primary: Primary::Connected, light: Light::Wired };
    }
    if s.wireless.phase == WPhase::Online {
        return StatusView { primary: Primary::WirelessOnline, light: Light::Wireless };
    }
    let primary = match s.status {
        SessionStatus::Dialing => Primary::Dialing,
        SessionStatus::Backoff => Primary::Backoff,
        SessionStatus::AuthFail => Primary::AuthFail,
        _ => Primary::Idle,
    };
    let light = match primary {
        Primary::Idle => Light::Off,
        _ => Light::Busy,
    };
    StatusView { primary, light }
}

/// Chinese word of a primary state.
pub open spec fn spec_word_zh(p: Primary) -> Seq<char> {
    match p {
        Primary::ServiceDown => "服务未运行"@,
        Primary::Connected => "已连接"@,
        Primary::WirelessOnline => "无线接管"@,
        Primary::Dialing => "拨号中"@,
        Primary::Backoff => "重拨中"@,
        Primary::AuthFail => "认证失败"@,
        Primary::Idle => "空闲"@,
    }
}

/// Chinese egress description of a primary state.
pub open spec fn spec_egress_zh(p: Primary) -> Seq<char> {
    match p {
        Primary::Connected => "有线"@,
        Primary::WirelessOnline => "无线"@,
        _ => "—"@,
    }
}

impl Primary {
    /// Chinese word (GUI side).
    pub fn word_zh(self) -> (r: &'static str)
        ensures
            r@ == spec_word_zh(self),
    {
        match self {
            Primary::ServiceDown => "服务未运行",
            Primary::Connected => "已连接",
            Primary::WirelessOnline => "无线接管",
            Primary::Dialing => "拨号中",
            Primary::Backoff => "重拨中",
            Primary::AuthFail => "认证失败",
            Primary::Idle => "空闲",
        }
    }

    /// Egress description (receipt field).
    pub fn egress_zh(self) -> (r: &'static str)
        ensures
            r@ == spec_egress_zh(self),
    {
        match self {
            Primary::Connected => "有线",
            Primary::WirelessOnline => "无线",
            _ => "—",
        }
    }
}

/// Chinese word of a session status.
pub open spec fn spec_session_zh(s: SessionStatus) -> Seq<char> {
    match s {
        SessionStatus::Connected => "已连接"@,
        SessionStatus::Dialing => "拨号中"@,
        SessionStatus::Backoff => "重拨中"@,
        SessionStatus::AuthFail => "认证失败"@,
        SessionStatus::Idle => "空闲"@,
    }
}

/// Session status in Chinese (tray status line, setup waiting text).
pub fn session_zh(s: SessionStatus) -> (r: &'static str)
    ensures
        r@ == spec_session_zh(s),
{
    match s {
        SessionStatus::Connected => "已连接",
        SessionStatus::Dialing => "拨号中",
        SessionStatus::Backoff => "重拨中",
        SessionStatus::AuthFail => "认证失败",
        SessionStatus::Idle => "空闲",
    }
}

/// English word of a session status.
pub open spec fn spec_session_en(s: SessionStatus) -> Seq<char> {
    match s {
        SessionStatus::Idle => "Idle"@,
        SessionStatus::Dialing => "Dialing"@,
        SessionStatus::Connected => "Connected"@,
        SessionStatus::Backoff => "Backoff (retrying)"@,
        SessionStatus::AuthFail => "Auth failed"@,
    }
}

/// Session status in English (CLI `status`; frozen strings).
pub fn session_en(s: SessionStatus) -> (r: &'static str)
    ensures
        r@ == spec_session_en(s),
{
    match s {
        SessionStatus::Idle => "Idle",
        SessionStatus::Dialing => "Dialing",
        SessionStatus::Connected => "Connected",
        SessionStatus::Backoff => "Backoff (retrying)",
        SessionStatus::AuthFail => "Auth failed",
    }
}

/// Chinese word of a wireless phase.
pub open spec fn spec_wphase_zh(p: WPhase) -> Seq<char> {
    match p {
        WPhase::Off => "关闭"@,
        WPhase::Joining => "连接中"@,
        WPhase::Authing => "认证中"@,
        WPhase::Online => "已接管"@,
        WPhase::Error => "错误"@,
    }
}

/// Wireless phase in Chinese.
pub fn wphase_zh(phase: WPhase) -> (r: &'static str)
    ensures
        r@ == spec_wphase_zh(phase),
{
    match phase {
        WPhase::Off => "关闭",
        WPhase::Joining => "连接中",
        WPhase::Authing => "认证中",
        WPhase::Online => "已接管",
        WPhase::Error => "错误",
    }
}

/// English word of a wireless phase.
pub open spec fn spec_wphase_en(p: WPhase) -> Seq<char> {
    match p {
        WPhase::Off => "Off"@,
        WPhase::Joining => "Joining"@,
        WPhase::Authing => "Authenticating"@,
        WPhase::Online => "Online"@,
        WPhase::Error => "Error"@,
    }
}

/// Wireless phase in English (CLI `status`; frozen strings).
pub fn wphase_en(phase: WPhase) -> (r: &'static str)
    ensures
        r@ == spec_wphase_en(phase),
{
    match phase {
        WPhase::Off => "Off",
        WPhase::Joining => "Joining",
        WPhase::Authing => "Authenticating",
        WPhase::Online => "Online",
        WPhase::Error => "Error",
    }
}

/// English heartbeat text.
pub open spec fn spec_heartbeat_en(h: HeartbeatStatus) -> Seq<char> {
    match h {
        HeartbeatStatus::Off => "Off"@,
        HeartbeatStatus::Running => "Running"@,
        HeartbeatStatus::Error(e) => "Error ("@ + e@ + ")"@,
    }
}

/// Heartbeat in English (CLI `status`; frozen strings).
pub fn heartbeat_en(h: &HeartbeatStatus) -> (r: String)
    ensures
        r@ == spec_heartbeat_en(*h),
{
    match h {
        HeartbeatStatus::Off => String::from_str("Off"),
        HeartbeatStatus::Running => String::from_str("Running"),
        HeartbeatStatus::Error(e) => {
            let mut out = String::from_str("Error (");
            out.append(e.as_str());
            out.append(")");
            out
        },
    }
}

/// English text of a mode.
pub open spec fn spec_mode_en(m: NetMode) -> Seq<char> {
    match m {
        NetMode::WiredExclusive => "Wired only (auto wireless takeover)"@,
        NetMode::WiredPlusStandby => "Wired + wireless standby"@,
    }
}

/// Mode in English (CLI `status` and mode confirmation; frozen strings).
pub fn mode_en(m: NetMode) -> (r: &'static str)
    ensures
        r@ == spec_mode_en(m),
{
    match m {
        NetMode::WiredExclusive => "Wired only (auto wireless takeover)",
        NetMode::WiredPlusStandby => "Wired + wireless standby",
    }
}

/// English wireless line: phase, then the IP, else the error in parentheses.
pub open spec fn spec_wireless_en(w: WirelessSnapshot) -> Seq<char> {
    let phase = spec_wphase_en(w.phase);
    match (w.ip, w.last_error) {
        (Some(ip), _) => phase + " "@ + ip@,
        (None, Some(e)) => phase + " ("@ + e@ + ")"@,
        _ => phase,
    }
}

/// Wireless link in English (phase + IP / error suffix; frozen strings).
pub fn wireless_en(w: &WirelessSnapshot) -> (r: String)
    ensures
        r@ == spec_wireless_en(*w),
{
    let phase = wphase_en(w.phase);
    let mut out = String::from_str(phase);
    match (&w.ip, &w.last_error) {
        (Some(ip), _) => {
            out.append(" ");
            out.append(ip.as_str());
        },
        (None, Some(e)) => {
            out.append(" (");
            out.append(e.as_str());
            out.append(")");
        },
        _ => {},
    }
    out
}

/// Tray status line; no snapshot reads as service down.
pub open spec fn spec_status_line_zh(s: Option<StateSnapshot>) -> Seq<char> {
    match s {
        None => "服务未运行"@,
        Some(s) => "有线："@ + spec_session_zh(s.status) + " · WiFi："@ + spec_wphase_zh(
            s.wireless.phase,
        ),
    }
}

/// Tray status line (first menu item and tooltip).
pub fn status_line_zh(s: Option<&StateSnapshot>) -> (r: String)
    ensures
        r@ == spec_status_line_zh(
            match s {
                None => None,
                Some(x) => Some(*x),
            },
        ),
{
    match s {
        None => String::from_str("服务未运行"),
        Some(s) => {
            let mut out = String::from_str("有线：");
            out.append(session_zh(s.status));
            out.append(" · WiFi：");
            out.append(wphase_zh(s.wireless.phase));
            out
        },
    }
}

/// A text, or a dash when there is none.
pub open spec fn or_dash(o: Option<Seq<char>>) -> Seq<char> {
    match o {
        Some(t) => t,
        None => "—"@,
    }
}

/// Label and value of each row of the status window; without a snapshot
/// the wired row says so and the others show a dash.
pub open spec fn spec_panel_rows(s: Option<StateSnapshot>, now_unix: u64) -> Seq<(Seq<char>, Seq<char>)> {
    match s {
        None => seq![
            ("Wired"@, "No service"@),
            ("Uptime"@, "—"@),
            ("Wired IP"@, "—"@),
            ("Heartbeat"@, "—"@),
            ("Drop reason"@, "—"@),
            ("Wireless"@, "—"@),
            ("Wireless IP"@, "—"@),
        ],
        Some(x) => seq![
            ("Wired"@, spec_session_zh(x.status)),
            ("Uptime"@, match x.since_unix {
                None => "—"@,
                Some(t) => crate::protocol::spec_format_uptime(
                    if now_unix >= t {
                        (now_unix - t) as nat
                    } else {
                        0nat
                    },
                ),
            }),
            ("Wired IP"@, or_dash(crate::protocol::opt_view(x.ip))),
            ("Heartbeat"@, crate::protocol::spec_heartbeat_text(x.heartbeat)),
            ("Drop reason"@, or_dash(crate::protocol::opt_view(x.last_drop_reason))),
            ("Wireless"@, spec_wireless_en(x.wireless)),
            ("Wireless IP"@, or_dash(crate::protocol::opt_view(x.wireless.ip))),
        ],
    }
}

fn text_or_dash(o: &Option<String>) -> (r: String)
    ensures
        r@ == or_dash(crate::protocol::opt_view(*o)),
{
    match o {
        Some(t) => t.clone(),
        None => String::from_str("—"),
    }
}

/// The rows of the status window at `now_unix`.
pub fn panel_rows(s: Option<&StateSnapshot>, now_unix: u64) -> (r: Vec<(&'static str, String)>)
    ensures
        r@.len() == 7,
        forall|i: int|
            0 <= i < 7 ==> ((#[trigger] r@[i]).0@, r@[i].1@) == spec_panel_rows(
                match s {
                    None => None,
                    Some(x) => Some(*x),
                },
                now_unix,
            )[i],
{
    match s {
        None => vec![
            ("Wired", String::from_str("No service")),
            ("Uptime", String::from_str("—")),
            ("Wired IP", String::from_str("—")),
            ("Heartbeat", String::from_str("—")),
            ("Drop reason", String::from_str("—")),
            ("Wireless", String::from_str("—")),
            ("Wireless IP", String::from_str("—")),
        ],
        Some(x) => vec![
            ("Wired", x.status_text()),
            ("Uptime", x.uptime_text(now_unix)),
            ("Wired IP", text_or_dash(&x.ip)),
            ("Heartbeat", x.heartbeat_text()),
            ("Drop reason", text_or_dash(&x.last_drop_reason)),
            ("Wireless", wireless_en(&x.wireless)),
            ("Wireless IP", text_or_dash(&x.wireless.ip)),
        ],
    }
}

/// Recent events of the snapshot, newest first (none without a snapshot).
pub fn events_newest_first(s: Option<&StateSnapshot>) -> (r: Vec<String>)
    ensures
        match s {
            None => r@.len() == 0,
            Some(x) => r@.len() == x.events@.len() && forall|i: int|
                0 <= i < r@.len() ==> #[trigger] r@[i]@ == x.events@[x.events@.len() - 1 - i]@,
        },
{
    let mut out: Vec<String> = Vec::new();
    match s {
        None => {},
        Some(x) => {
            let n = x.events.len();
            let mut k: usize = 0;
            while k < n
                invariant
                    k <= n,
                    n == x.events@.len(),
                    out@.len() == k,
                    forall|i: int| 0 <= i < k ==> #[trigger] out@[i]@ == x.events@[n - 1 - i]@,
                decreases n - k,
            {
                out.push(x.events[n - 1 - k].clone());
                k = k + 1;
            }
        },
    }
    out
}

} // verus!
