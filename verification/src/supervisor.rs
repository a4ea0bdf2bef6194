//! Service composition core: a synchronous reducer from events to reactions
//! (wired watchdog stepping, wireless takeover, event ring, snapshots).
//!
//! It touches nothing outside itself: time is read only through [`Clock`],
//! effects are carried out by the service shell, and their results come back
//! as [`Event`]s. `Reaction::snapshot` is the single place a snapshot is
//! published and `Reaction::wake_at` the single sleep deadline (absolute
//! monotonic milliseconds).

use vstd::prelude::*;

use crate::config::Config;
use crate::portal::{parse_portal_reply, portal_view, spec_classify, spec_extract_json, json_member, PortalResult, PortalResultView};
use crate::probe::{parse_http_probe_target, parse_ipv4, ProbeVerdict};
use crate::protocol::{
    clone_opt, opt_view, snapshot_view, same_snapshot, texts, Command, EventLog, HeartbeatStatus,
    NetMode, SessionStatus, SnapshotView, StateSnapshot, WPhase, WirelessSnapshot, heartbeat_view,
    copy_heartbeat, ring_push, spec_event_line,
};
use crate::text::{chars_of, decimal, push_str, spec_decimal, text_eq};
use crate::wireless::{Action, Brain, BrainView, World, JOIN_TIMEOUT_SECS};

verus! {

/// Link poll interval while the link state is known (ms).
pub const LINK_POLL_MS: u64 = 2_000;

/// Link poll interval while the cable is out (ms).
pub const LINK_DOWN_RETRY_MS: u64 = 5_000;

/// Wireless sampling tick (ms).
pub const WIRELESS_TICK_MS: u64 = 2_000;

/// Retry window when a sample result is overdue: only the ledger moves,
/// an effect in flight is never issued again (ms).
pub const SAMPLE_RETRY_MS: u64 = 2_000;

/// Wall-clock limit of one portal login (ms).
pub const PORTAL_AUTH_TIMEOUT_MS: u64 = 20_000;

/// Wait after writing the host routes before they carry traffic (ms).
pub const ROUTE_SETTLE_MS: u64 = 3_000;

/// Least interval between two toasts for the same reason (ms).
pub const NOTIFY_THROTTLE_MS: u64 = 1_800_000;

/// Failing redials for this long raise a toast (ms).
pub const REDIAL_FAILING_TOAST_AFTER_MS: u64 = 600_000;

/// Source of time: the only time dependency of the core.
pub trait Clock {
    /// Monotonic milliseconds.
    fn now_ms(&self) -> u64;

    /// Wall-clock Unix seconds.
    fn wall_secs(&self) -> u64;
}

#[verifier::external_type_specification]
#[verifier::external_body]
pub struct ExInstant(std::time::Instant);

/// Calls `Instant::now` (std). Nothing is claimed of the reading.
#[verifier::external_body]
fn instant_now() -> std::time::Instant {
    std::time::Instant::now()
}

#[verifier::external_type_specification]
#[verifier::external_body]
pub struct ExSystemTime(std::time::SystemTime);

/// Calls `Instant::elapsed` (std). Nothing is claimed of the reading.
#[verifier::external_body]
fn instant_elapsed(start: &std::time::Instant) -> std::time::Duration {
    start.elapsed()
}

/// Calls `Duration::as_millis` (std): the whole milliseconds of the
/// duration. Nothing is claimed of the value (the duration is opaque here).
#[verifier::external_body]
fn duration_millis(d: &std::time::Duration) -> u128 {
    d.as_millis()
}

/// Calls `Duration::as_secs` (std): the whole seconds of the duration.
/// Nothing is claimed of the value (the duration is opaque here).
#[verifier::external_body]
fn duration_secs(d: &std::time::Duration) -> u64 {
    d.as_secs()
}

/// Calls `SystemTime::now` (std). Nothing is claimed of the reading.
#[verifier::external_body]
fn system_now() -> std::time::SystemTime {
    std::time::SystemTime::now()
}

/// Calls `SystemTime::duration_since` (std) with the Unix epoch: `None`
/// for a time before it. Nothing is claimed of the value.
#[verifier::external_body]
fn since_unix_epoch(t: &std::time::SystemTime) -> Option<std::time::Duration> {
    t.duration_since(std::time::UNIX_EPOCH).ok()
}

/// Milliseconds as a `u64`, saturating at `u64::MAX`.
pub fn saturate_ms(ms: u128) -> (r: u64)
    ensures
        r == if ms > u64::MAX as u128 {
            u64::MAX
        } else {
            ms as u64
        },
{
    if ms > u64::MAX as u128 {
        u64::MAX
    } else {
        ms as u64
    }
}

/// Whole milliseconds of a duration, saturating at `u64::MAX`.
pub fn duration_ms(d: &std::time::Duration) -> u64 {
    saturate_ms(duration_millis(d))
}

/// Seconds since the Unix epoch, zero before it.
fn unix_secs() -> u64 {
    match since_unix_epoch(&system_now()) {
        Some(d) => duration_secs(&d),
        None => 0,
    }
}

/// Production clock: monotonic milliseconds since construction, wall clock
/// in Unix seconds.
pub struct SystemClock {
    start: std::time::Instant,
}

impl SystemClock {
    /// A clock started now.
    pub fn new() -> Self {
        SystemClock { start: instant_now() }
    }
}

impl Clock for SystemClock {
    fn now_ms(&self) -> u64 {
        duration_ms(&instant_elapsed(&self.start))
    }

    fn wall_secs(&self) -> u64 {
        unix_secs()
    }
}

/// An address of the wireless adapter.
#[derive(Debug, Clone, Copy, PartialEq, Eq)]
pub struct WlanSample {
    pub ipv4: [u8; 4],
    pub gateway: Option<[u8; 4]>,
    pub ifindex: u32,
}

/// One sample of the wireless side.
#[derive(Debug, Clone, Copy, PartialEq, Eq)]
pub struct WirelessSample {
    pub associated: bool,
    pub wlan: Option<WlanSample>,
}

/// Outcome of a portal login carried out by the shell.
#[derive(Debug, Clone, PartialEq, Eq)]
pub enum PortalAttempt {
    Replied { status: u16, body: String },
    NoReply,
    TimedOut,
    Failed(String),
}

/// Facts of the wired session as the watchdog last reported them.
#[derive(Debug, Clone, PartialEq, Eq)]
pub struct SessionView {
    pub status: SessionStatus,
    pub since_unix: Option<u64>,
    pub last_drop_reason: Option<String>,
    pub redial_attempts: u32,
}

/// Result of `Effect::StepWatchdog`: the next delay and one sample of the session.
#[derive(Debug, Clone, PartialEq, Eq)]
pub struct WatchdogStep {
    pub delay_ms: u64,
    pub session: SessionView,
    pub ppp_ip: Option<String>,
}

/// Reason of a toast.
#[derive(Debug, Clone, Copy, PartialEq, Eq, Hash, Structural)]
pub enum ToastKey {
    HeartbeatError,
    RedialFailing,
}

impl ToastKey {
    /// Stable name of the reason.
    pub fn as_str(self) -> (r: &'static str)
        ensures
            r@ == match self {
                ToastKey::HeartbeatError => "heartbeat_error"@,
                ToastKey::RedialFailing => "redial_failing"@,
            },
    {
        match self {
            ToastKey::HeartbeatError => "heartbeat_error",
            ToastKey::RedialFailing => "redial_failing",
        }
    }
}

/// Input of the reducer.
#[derive(Debug, PartialEq, Eq)]
pub enum Event {
    /// Exactly once, after assembly.
    Started,
    /// The shell slept until `Reaction::wake_at`.
    Wake,
    /// IPC redial / set mode.
    Command(Command),
    /// Result of a link sample.
    LinkSampled(Option<bool>),
    /// Result of `Effect::StepWatchdog`.
    WatchdogStepped(WatchdogStep),
    /// Result of a wireless sample.
    WirelessSampled(WirelessSample),
    AssociateFinished(Result<(), String>),
    PortalFinished(PortalAttempt),
    WlanProbeFinished(ProbeVerdict),
    Heartbeat(HeartbeatStatus),
    NotifyResult { key: ToastKey, delivered: bool },
    /// The wireless worker died.
    WirelessDied,
    Stop,
}

/// Work for the shell.
#[derive(Debug, Clone, PartialEq)]
pub enum Effect {
    StepWatchdog,
    RequestRedial,
    SetWatchdogLink(Option<bool>),
    Hangup,
    SampleLink,
    SampleWireless,
    CleanupStaleRoutes,
    Associate(String),
    Disassociate,
    EnsureRoutes { dests: Vec<[u8; 4]>, gateway: [u8; 4], ifindex: u32 },
    SuppressMetric { ifindex: u32, target: u32 },
    ReleaseMetric,
    TeardownRoutes,
    /// Wait for the host routes to take effect (ms).
    Settle(u64),
    /// The shell builds the login URL (it holds the password).
    PortalAuth { src_ip: [u8; 4], timeout_ms: u64 },
    WlanProbe { src_ip: [u8; 4], gateway: Option<[u8; 4]>, url: String },
    PersistMode(NetMode),
    Notify { key: ToastKey, title: String, body: String },
}

/// Where an effect runs: inline on the main lane, or serially on the wireless worker.
#[derive(Debug, Clone, Copy, PartialEq, Eq, Structural)]
pub enum Lane {
    Main,
    Wireless,
}

/// Lane of an effect: the wired, sampling and hook effects run on the
/// main lane, the takeover effects on the wireless lane.
pub open spec fn spec_lane(e: Effect) -> Lane {
    match e {
        Effect::StepWatchdog | Effect::RequestRedial | Effect::SetWatchdogLink(_) | Effect::Hangup
        | Effect::SampleLink | Effect::SampleWireless | Effect::PersistMode(_) | Effect::Notify {
            ..
        } => Lane::Main,
        _ => Lane::Wireless,
    }
}

impl Effect {
    /// Lane of the effect.
    pub fn lane(&self) -> (r: Lane)
        ensures
            r == spec_lane(*self),
    {
        match self {
            Effect::StepWatchdog
            | Effect::RequestRedial
            | Effect::SetWatchdogLink(_)
            | Effect::Hangup
            | Effect::SampleLink
            | Effect::SampleWireless
            | Effect::PersistMode(_)
            | Effect::Notify { .. } => Lane::Main,
            Effect::CleanupStaleRoutes
            | Effect::Associate(_)
            | Effect::Disassociate
            | Effect::EnsureRoutes { .. }
            | Effect::SuppressMetric { .. }
            | Effect::ReleaseMetric
            | Effect::TeardownRoutes
            | Effect::Settle(_)
            | Effect::PortalAuth { .. }
            | Effect::WlanProbe { .. } => Lane::Wireless,
        }
    }
}

/// Answer of the reducer to one event.
pub struct Reaction {
    pub effects: Vec<Effect>,
    /// Some exactly when the composed snapshot changed.
    pub snapshot: Option<StateSnapshot>,
    /// Absolute monotonic milliseconds; None means no timer.
    pub wake_at: Option<u64>,
}

/// Short name of a mode (event ring and logs).
pub open spec fn spec_mode_text(m: NetMode) -> Seq<char> {
    match m {
        NetMode::WiredExclusive => "wired-exclusive"@,
        NetMode::WiredPlusStandby => "wired-plus-standby"@,
    }
}

/// Short name of a mode.
pub fn mode_text(m: NetMode) -> (r: &'static str)
    ensures
        r@ == spec_mode_text(m),
{
    match m {
        NetMode::WiredExclusive => "wired-exclusive",
        NetMode::WiredPlusStandby => "wired-plus-standby",
    }
}

/// Outcome of a portal reply with HTTP status `status`: success and
/// already-online succeed, a failure carries the server's message, an
/// unparseable reply names the status.
pub open spec fn spec_reply_outcome(status: u16, res: PortalResultView) -> (bool, Seq<char>) {
    match res {
        PortalResultView::Success => (true, "login ok"@),
        PortalResultView::AlreadyOnline => (true, "already online"@),
        PortalResultView::Failure(m) => (false, m),
        PortalResultView::Malformed => (
            false,
            "unparseable reply (HTTP "@ + spec_decimal(status as nat) + ")"@,
        ),
    }
}

/// Outcome of a parsed portal reply.
pub fn reply_outcome(status: u16, res: PortalResult) -> (r: (bool, String))
    ensures
        (r.0, r.1@) == spec_reply_outcome(status, portal_view(res)),
{
    match res {
        PortalResult::Success => (true, String::from_str("login ok")),
        PortalResult::AlreadyOnline => (true, String::from_str("already online")),
        PortalResult::Failure(m) => (false, m),
        PortalResult::Malformed => {
            let mut msg = String::from_str("unparseable reply (HTTP ");
            let d = decimal(status as u64);
            push_str(&mut msg, d.as_str());
            push_str(&mut msg, ")");
            (false, msg)
        },
    }
}

/// Outcome `(ok, message)` of a portal attempt: a reply is parsed and
/// classified, no reply, a timeout and a transport failure fail.
pub fn portal_outcome(attempt: &PortalAttempt) -> (r: (bool, String))
    ensures
        attempt matches PortalAttempt::Replied { status, body } ==> exists|inner: Seq<char>, res: PortalResultView|
            spec_extract_json(body@, inner) && res == spec_classify(
                json_member(inner, "result"@),
                json_member(inner, "ret_code"@),
                json_member(inner, "msg"@),
            ) && (r.0, r.1@) == spec_reply_outcome(*status, res),
        attempt is NoReply ==> !r.0 && r.1@ == "no reply"@,
        attempt is TimedOut ==> !r.0 && r.1@ == "portal auth timeout"@,
        attempt matches PortalAttempt::Failed(m) ==> !r.0 && r.1@ == m@,
{
    match attempt {
        PortalAttempt::Replied { status, body } => {
            let res = parse_portal_reply(body.as_str());
            reply_outcome(*status, res)
        },
        PortalAttempt::NoReply => (false, String::from_str("no reply")),
        PortalAttempt::TimedOut => (false, String::from_str("portal auth timeout")),
        PortalAttempt::Failed(m) => (false, m.clone()),
    }
}

/// Index of a toast reason.
pub open spec fn key_index(k: ToastKey) -> int {
    match k {
        ToastKey::HeartbeatError => 0,
        ToastKey::RedialFailing => 1,
    }
}

fn key_slot(k: ToastKey) -> (r: usize)
    ensures
        r == key_index(k),
{
    match k {
        ToastKey::HeartbeatError => 0,
        ToastKey::RedialFailing => 1,
    }
}

/// Toast bookkeeping: toasts in flight are not sent again, and the
/// throttle window opens only when a toast was delivered.
pub struct NotificationLedger {
    in_flight: [bool; 2],
    delivered_at: [Option<u64>; 2],
}

/// Whether a delivery at `at` still throttles at `now`.
pub open spec fn throttles(at: Option<u64>, now: u64) -> bool {
    at matches Some(t) && (if now >= t {
        now - t
    } else {
        0
    }) < NOTIFY_THROTTLE_MS
}

impl NotificationLedger {
    /// Whether a toast for `k` is in flight.
    pub closed spec fn in_flight(&self, k: ToastKey) -> bool {
        self.in_flight@[key_index(k)]
    }

    /// Time of the last delivered toast for `k`.
    pub closed spec fn delivered_at(&self, k: ToastKey) -> Option<u64> {
        self.delivered_at@[key_index(k)]
    }

    /// Whether a toast for `k` may be sent at `now`.
    pub open spec fn may_send(&self, k: ToastKey, now: u64) -> bool {
        !self.in_flight(k) && !throttles(self.delivered_at(k), now)
    }

    /// Nothing in flight, nothing delivered.
    pub fn new() -> (r: Self)
        ensures
            forall|k: ToastKey| !r.in_flight(k) && r.delivered_at(k) is None,
    {
        NotificationLedger { in_flight: [false, false], delivered_at: [None, None] }
    }

    /// Result of a toast: a late result is ignored; otherwise the toast
    /// leaves flight, and a delivery opens the throttle window at `now`.
    pub fn on_result(&mut self, key: ToastKey, delivered: bool, now: u64)
        ensures
            !old(self).in_flight(key) ==> *final(self) == *old(self),
            old(self).in_flight(key) ==> {
                &&& !final(self).in_flight(key)
                &&& final(self).delivered_at(key) == if delivered {
                    Some(now)
                } else {
                    old(self).delivered_at(key)
                }
            },
            forall|k: ToastKey|
                k != key ==> final(self).in_flight(k) == old(self).in_flight(k)
                    && final(self).delivered_at(k) == old(self).delivered_at(k),
    {
        let i = key_slot(key);
        if !self.in_flight[i] {
            return;
        }
        self.in_flight[i] = false;
        if delivered {
            self.delivered_at[i] = Some(now);
        }
        assert forall|k: ToastKey| k != key implies key_index(k) != i by {}
    }

    /// Sends a toast for `key` unless one is in flight or one was delivered
    /// less than [`NOTIFY_THROTTLE_MS`] ago; a sent toast goes in flight.
    pub fn maybe_notify(&mut self, key: ToastKey, title: &str, body: String, now: u64, effects: &mut Vec<Effect>)
        ensures
            old(self).may_send(key, now) ==> {
                &&& final(effects)@.len() == old(effects)@.len() + 1
                &&& final(effects)@.drop_last() == old(effects)@
                &&& final(effects)@.last() matches Effect::Notify { key: k, title: t, body: b }
                    && k == key && t@ == title@ && b@ == body@
                &&& final(self).in_flight(key)
            },
            !old(self).may_send(key, now) ==> final(effects)@ == old(effects)@ && *final(self)
                == *old(self),
            forall|k: ToastKey| k != key ==> final(self).in_flight(k) == old(self).in_flight(k),
            forall|k: ToastKey| final(self).delivered_at(k) == old(self).delivered_at(k),
    {
        let i = key_slot(key);
        if self.in_flight[i] {
            return;
        }
        match self.delivered_at[i] {
            Some(at) => {
                if now.saturating_sub(at) < NOTIFY_THROTTLE_MS {
                    return;
                }
            },
            None => {},
        }
        self.in_flight[i] = true;
        effects.push(Effect::Notify { key, title: String::from_str(title), body });
        assert forall|k: ToastKey| k != key implies key_index(k) != i by {}
    }
}

/// Debug name of a probe verdict.
fn verdict_text(v: ProbeVerdict) -> (r: &'static str)
    ensures
        r@ == crate::watchdog::verdict_name(v),
{
    match v {
        ProbeVerdict::Alive => "Alive",
        ProbeVerdict::LinkDown => "LinkDown",
        ProbeVerdict::Kicked => "Kicked",
    }
}

/// Smaller of two times.
pub open spec fn min_u64(a: u64, b: u64) -> u64 {
    if a <= b {
        a
    } else {
        b
    }
}

/// Whether the effect respects the in-flight ledgers of state `o` at `now`:
/// a sample, association, portal login or probe is not issued while one is
/// in flight, and a toast only when the notification ledger allows it.
pub open spec fn guarded<C: Clock>(o: &Supervisor<C>, e: Effect, now: u64) -> bool {
    match e {
        Effect::SampleLink => !o.sample_in_flight(),
        Effect::SampleWireless => !o.wireless_sample_in_flight(),
        Effect::Associate(_) => !o.associate_in_flight(),
        Effect::PortalAuth { .. } => !o.auth_in_flight(),
        Effect::WlanProbe { .. } => !o.probe_in_flight(),
        Effect::Notify { key, .. } => o.notify().may_send(key, now),
        _ => true,
    }
}

/// Every effect respects the ledgers of `o`.
pub open spec fn all_guarded<C: Clock>(o: &Supervisor<C>, effs: Seq<Effect>, now: u64) -> bool {
    forall|i: int| 0 <= i < effs.len() ==> guarded(o, #[trigger] effs[i], now)
}

/// No watchdog step among the effects.
pub open spec fn no_step(effs: Seq<Effect>) -> bool {
    forall|i: int| 0 <= i < effs.len() ==> !(#[trigger] effs[i] is StepWatchdog)
}

/// Host routes are only written for a wireless address with a gateway, and
/// are followed by the settle wait and the portal login.
pub open spec fn routes_ok(effs: Seq<Effect>, wlan: Option<WlanSample>) -> bool {
    forall|i: int|
        0 <= i < effs.len() ==> (#[trigger] effs[i] matches Effect::EnsureRoutes { gateway, ifindex, .. }
            ==> {
            &&& i + 2 < effs.len()
            &&& effs[i + 1] is Settle
            &&& effs[i + 2] is PortalAuth
            &&& wlan matches Some(w) && w.gateway == Some(gateway) && w.ifindex == ifindex
        })
}

/// A session sample in which redials are failing.
pub open spec fn redial_failing(s: SessionView) -> bool {
    s.status == SessionStatus::Backoff || s.status == SessionStatus::AuthFail
}

/// The cable is out: the link is down or the watchdog says so.
pub open spec fn cable_paused<C: Clock>(o: &Supervisor<C>, s: SessionView) -> bool {
    o.eth_link() == Some(false) || opt_view(s.last_drop_reason) == Some("Ethernet link down"@)
}

/// Start of the failing streak as it stands after a failing sample at `now`.
pub open spec fn failing_start<C: Clock>(o: &Supervisor<C>, now: u64) -> u64 {
    match o.failing_since() {
        Some(t) => t,
        None => now,
    }
}

/// How long redials have been failing at `now` (ms).
pub open spec fn failing_for<C: Clock>(o: &Supervisor<C>, now: u64) -> u64 {
    let t = failing_start(o, now);
    if now >= t {
        (now - t) as u64
    } else {
        0
    }
}

/// Whether a watchdog sample at `now` raises the redial-failing toast:
/// redials have failed for ten minutes with the cable in, and the ledger
/// lets the toast go.
pub open spec fn redial_toast_due<C: Clock>(o: &Supervisor<C>, s: SessionView, now: u64) -> bool {
    &&& redial_failing(s)
    &&& failing_for(o, now) >= REDIAL_FAILING_TOAST_AFTER_MS
    &&& !cable_paused(o, s)
    &&& o.notify().may_send(ToastKey::RedialFailing, now)
}

/// Text of the redial-failing toast.
pub open spec fn redial_toast_body(failing_ms: u64, attempts: u32) -> Seq<char> {
    "Redial failed for "@ + spec_decimal((failing_ms / 60_000) as nat) + " minutes ("@
        + spec_decimal(attempts as nat) + " attempts), check network or credentials"@
}

/// The effects of a watchdog sample at `now`: the redial-failing toast when
/// it is due, nothing else.
pub open spec fn watchdog_sample_effects<C: Clock>(o: &Supervisor<C>, s: SessionView, now: u64, effs: Seq<Effect>) -> bool {
    if redial_toast_due(o, s, now) {
        &&& effs.len() == 1
        &&& effs[0] matches Effect::Notify { key, title, body }
        &&& key == ToastKey::RedialFailing
        &&& title@ == "gdut-net network error"@
        &&& body@ == redial_toast_body(failing_for(o, now), s.redial_attempts)
    } else {
        effs.len() == 0
    }
}

/// The effects of a heartbeat status at `now`: an error raises the
/// heartbeat toast when the ledger allows it; nothing else.
pub open spec fn heartbeat_effects<C: Clock>(o: &Supervisor<C>, h: HeartbeatStatus, now: u64, effs: Seq<Effect>) -> bool {
    match h {
        HeartbeatStatus::Error(msg) => if o.notify().may_send(ToastKey::HeartbeatError, now) {
            &&& effs.len() == 1
            &&& effs[0] matches Effect::Notify { key, title, body }
            &&& key == ToastKey::HeartbeatError
            &&& title@ == "gdut-net heartbeat error"@
            &&& body@ == "Compatibility heartbeat error: "@ + msg@
        } else {
            effs.len() == 0
        },
        _ => effs.len() == 0,
    }
}

/// A result event that no effect in flight is waiting for.
pub open spec fn stale_result<C: Clock>(o: &Supervisor<C>, e: &Event) -> bool {
    match e {
        Event::LinkSampled(_) => !o.sample_in_flight(),
        Event::WirelessSampled(_) => !o.wireless_sample_in_flight(),
        Event::AssociateFinished(_) => !o.associate_in_flight(),
        Event::PortalFinished(_) => !o.auth_in_flight(),
        Event::WlanProbeFinished(_) => !o.probe_in_flight(),
        _ => false,
    }
}

/// Service supervisor: wired watchdog stepping, wireless takeover, event
/// ring and snapshots in one decision point. It holds the password in
/// clear, so it is neither printed nor cloned.
pub struct Supervisor<C: Clock> {
    clock: C,
    cfg: Config,
    password: String,
    started: bool,
    stopped: bool,
    mode: NetMode,
    events: EventLog,
    last_snapshot: Option<StateSnapshot>,
    eth_link: Option<bool>,
    link_sample_seen: bool,
    sample_in_flight: bool,
    step_pending: bool,
    watchdog_deadline: Option<u64>,
    link_poll_at: u64,
    session: SessionView,
    ppp_ip: Option<String>,
    heartbeat: HeartbeatStatus,
    failing_since_ms: Option<u64>,
    notify: NotificationLedger,
    brain: Option<Brain>,
    wireless_died: bool,
    wireless_stopped_reported: bool,
    wireless_sample_in_flight: bool,
    wireless_tick_at: u64,
    wlan: Option<WlanSample>,
    wireless_ip: Option<String>,
    verdict: Option<ProbeVerdict>,
    associate_in_flight: bool,
    auth_in_flight: bool,
    probe_in_flight: bool,
    join_since_ms: Option<u64>,
    metric_suppressed_ifindex: Option<u32>,
    portal_ip: Option<[u8; 4]>,
    probe_ip: Option<[u8; 4]>,
    last_now: u64,
}

impl<C: Clock> Supervisor<C> {
    pub closed spec fn started(&self) -> bool {
        self.started
    }

    pub closed spec fn stopped(&self) -> bool {
        self.stopped
    }

    pub closed spec fn mode(&self) -> NetMode {
        self.mode
    }

    pub closed spec fn eth_link(&self) -> Option<bool> {
        self.eth_link
    }

    pub closed spec fn sample_in_flight(&self) -> bool {
        self.sample_in_flight
    }

    pub closed spec fn step_pending(&self) -> bool {
        self.step_pending
    }

    pub closed spec fn watchdog_deadline(&self) -> Option<u64> {
        self.watchdog_deadline
    }

    pub closed spec fn link_poll_at(&self) -> u64 {
        self.link_poll_at
    }

    pub closed spec fn notify(&self) -> NotificationLedger {
        self.notify
    }

    pub closed spec fn brain(&self) -> Option<BrainView> {
        match self.brain {
            Some(b) => Some(b@),
            None => None,
        }
    }

    pub closed spec fn wireless_sample_in_flight(&self) -> bool {
        self.wireless_sample_in_flight
    }

    pub closed spec fn wireless_tick_at(&self) -> u64 {
        self.wireless_tick_at
    }

    pub closed spec fn wlan(&self) -> Option<WlanSample> {
        self.wlan
    }

    pub closed spec fn verdict(&self) -> Option<ProbeVerdict> {
        self.verdict
    }

    pub closed spec fn associate_in_flight(&self) -> bool {
        self.associate_in_flight
    }

    pub closed spec fn auth_in_flight(&self) -> bool {
        self.auth_in_flight
    }

    pub closed spec fn probe_in_flight(&self) -> bool {
        self.probe_in_flight
    }

    /// The event log, oldest line first.
    pub closed spec fn log(&self) -> Seq<Seq<char>> {
        self.events@
    }

    /// Whether the takeover of the WLAN is configured.
    pub closed spec fn wireless_enabled(&self) -> bool {
        self.cfg.wireless.enabled
    }

    /// Whether the takeover manager has died.
    pub closed spec fn manager_died(&self) -> bool {
        self.wireless_died
    }

    /// Whether the end of the takeover manager was already logged.
    pub closed spec fn stop_reported(&self) -> bool {
        self.wireless_stopped_reported
    }

    /// Since when (monotonic ms) the manager has been joining, if it is.
    pub closed spec fn join_since(&self) -> Option<u64> {
        self.join_since_ms
    }

    /// Whether a link sample with reading `up` brings the cable back: a
    /// sample is awaited, the cable was out, and the reading (a definite
    /// one once a sample was seen) does not say it is out.
    pub closed spec fn link_restores(&self, up: Option<bool>) -> bool {
        &&& self.sample_in_flight
        &&& self.eth_link == Some(false)
        &&& if self.link_sample_seen {
            up == Some(true)
        } else {
            up != Some(false)
        }
    }

    pub closed spec fn last_now(&self) -> u64 {
        self.last_now
    }

    /// Since when (monotonic ms) redials have been failing, if they are.
    pub closed spec fn failing_since(&self) -> Option<u64> {
        self.failing_since_ms
    }

    pub closed spec fn password_text(&self) -> Seq<char> {
        self.password@
    }

    /// The last published snapshot.
    pub closed spec fn published(&self) -> Option<SnapshotView> {
        match self.last_snapshot {
            Some(s) => Some(snapshot_view(s)),
            None => None,
        }
    }

    /// Everything but the clock reading and the published snapshot.
    pub closed spec fn same_core(&self, o: &Self) -> bool {
        &&& self.clock == o.clock
        &&& self.cfg == o.cfg
        &&& self.password == o.password
        &&& self.started == o.started
        &&& self.stopped == o.stopped
        &&& self.mode == o.mode
        &&& self.events == o.events
        &&& self.eth_link == o.eth_link
        &&& self.link_sample_seen == o.link_sample_seen
        &&& self.sample_in_flight == o.sample_in_flight
        &&& self.step_pending == o.step_pending
        &&& self.watchdog_deadline == o.watchdog_deadline
        &&& self.link_poll_at == o.link_poll_at
        &&& self.session == o.session
        &&& self.ppp_ip == o.ppp_ip
        &&& self.heartbeat == o.heartbeat
        &&& self.failing_since_ms == o.failing_since_ms
        &&& self.notify == o.notify
        &&& self.brain == o.brain
        &&& self.wireless_died == o.wireless_died
        &&& self.wireless_stopped_reported == o.wireless_stopped_reported
        &&& self.wireless_sample_in_flight == o.wireless_sample_in_flight
        &&& self.wireless_tick_at == o.wireless_tick_at
        &&& self.wlan == o.wlan
        &&& self.wireless_ip == o.wireless_ip
        &&& self.verdict == o.verdict
        &&& self.associate_in_flight == o.associate_in_flight
        &&& self.auth_in_flight == o.auth_in_flight
        &&& self.probe_in_flight == o.probe_in_flight
        &&& self.join_since_ms == o.join_since_ms
        &&& self.metric_suppressed_ifindex == o.metric_suppressed_ifindex
        &&& self.portal_ip == o.portal_ip
        &&& self.probe_ip == o.probe_ip
    }

    /// The composed snapshot: the session facts, the heartbeat, the mode,
    /// the wireless phase (Off without a takeover manager) and the event ring.
    pub closed spec fn composed(&self) -> SnapshotView {
        SnapshotView {
            status: self.session.status,
            since_unix: self.session.since_unix,
            ip: opt_view(self.ppp_ip),
            last_drop_reason: opt_view(self.session.last_drop_reason),
            redial_attempts: self.session.redial_attempts,
            heartbeat: heartbeat_view(self.heartbeat),
            mode: self.mode,
            wireless_phase: match self.brain {
                Some(b) => b@.phase,
                None => WPhase::Off,
            },
            wireless_ip: match self.brain {
                Some(_) => opt_view(self.wireless_ip),
                None => None,
            },
            wireless_error: match self.brain {
                Some(b) => b@.last_error,
                None => None,
            },
            events: self.events@,
        }
    }

    /// Absolute wake-up: the earliest of the link poll, the watchdog
    /// deadline and (with a takeover manager) the wireless tick, never before `now`.
    pub closed spec fn next_wake_at(&self, now: u64) -> u64 {
        let a = self.link_poll_at;
        let b = match self.watchdog_deadline {
            Some(d) => min_u64(a, d),
            None => a,
        };
        let c = if self.brain is Some {
            min_u64(b, self.wireless_tick_at)
        } else {
            b
        };
        if c >= now {
            c
        } else {
            now
        }
    }

    /// Internal consistency: the event log is bounded, the takeover
    /// manager never saw a time after the last reading of the clock, and
    /// before `Started` nothing is in flight.
    pub closed spec fn wf(&self) -> bool {
        &&& self.events.wf()
        &&& (self.brain matches Some(b) ==> b@.times_before(self.last_now / 1000))
        &&& (!self.started ==> {
            &&& !self.stopped
            &&& !self.sample_in_flight
            &&& !self.wireless_sample_in_flight
            &&& !self.associate_in_flight
            &&& !self.auth_in_flight
            &&& !self.probe_in_flight
            &&& forall|k: ToastKey| !self.notify.in_flight(k)
        })
    }

    /// A supervisor that has not started. With wireless takeover enabled
    /// and both the portal URL and the probe host valid IPv4 targets, it
    /// carries a takeover manager in the configured mode.
    pub fn new(cfg: Config, password: String, clock: C) -> (r: Self)
        ensures
            r.wf(),
            !r.started(),
            !r.stopped(),
            r.mode() == cfg.wireless.mode,
            r.password_text() == password@,
            r.published() is None,
            r.eth_link() is None,
            r.last_now() == 0,
            r.brain() is Some <==> cfg.wireless.enabled && crate::probe::spec_parse_http_probe_target(
                cfg.wireless.portal_url@,
            ) is Some && crate::probe::spec_parse_ipv4(cfg.wireless.probe_host@) is Some,
            r.brain() matches Some(b) ==> b == (BrainView {
                mode: cfg.wireless.mode,
                phase: WPhase::Off,
                unhealthy_since: None,
                healthy_since: None,
                last_probe_at: None,
                auth_busy: false,
                auth_fail_count: 0,
                next_auth_at: None,
                last_error: None,
                takeover_after: cfg.wireless.takeover_after_secs,
                release_after: cfg.wireless.release_after_secs,
                probe_interval: cfg.dial.probe_interval_secs,
            }),
    {
        let mode = cfg.wireless.mode;
        let mut brain: Option<Brain> = None;
        let mut portal_ip: Option<[u8; 4]> = None;
        let mut probe_ip: Option<[u8; 4]> = None;
        if cfg.wireless.enabled {
            let target = parse_http_probe_target(cfg.wireless.portal_url.as_str());
            let host = chars_of(cfg.wireless.probe_host.as_str());
            let probe = parse_ipv4(host.as_slice());
            match (target, probe) {
                (Some((pip, _)), Some(qip)) => {
                    brain = Some(
                        Brain::new(
                            mode,
                            cfg.wireless.takeover_after_secs,
                            cfg.wireless.release_after_secs,
                            cfg.dial.probe_interval_secs,
                        ),
                    );
                    portal_ip = Some(pip);
                    probe_ip = Some(qip);
                },
                _ => {},
            }
        }
        Supervisor {
            clock,
            cfg,
            password,
            started: false,
            stopped: false,
            mode,
            events: EventLog::new(),
            last_snapshot: None,
            eth_link: None,
            link_sample_seen: false,
            sample_in_flight: false,
            step_pending: false,
            watchdog_deadline: None,
            link_poll_at: u64::MAX,
            session: SessionView {
                status: SessionStatus::Idle,
                since_unix: None,
                last_drop_reason: None,
                redial_attempts: 0,
            },
            ppp_ip: None,
            heartbeat: HeartbeatStatus::Off,
            failing_since_ms: None,
            notify: NotificationLedger::new(),
            brain,
            wireless_died: false,
            wireless_stopped_reported: false,
            wireless_sample_in_flight: false,
            wireless_tick_at: u64::MAX,
            wlan: None,
            wireless_ip: None,
            verdict: None,
            associate_in_flight: false,
            auth_in_flight: false,
            probe_in_flight: false,
            join_since_ms: None,
            metric_suppressed_ifindex: None,
            portal_ip,
            probe_ip,
            last_now: 0,
        }
    }

    /// The password in clear (the wireless worker builds the portal URL with it).
    pub fn password(&self) -> (r: &str)
        ensures
            r@ == self.password_text(),
    {
        self.password.as_str()
    }

    /// The composed snapshot (initial value of the watch channel).
    pub fn snapshot(&self) -> (r: StateSnapshot)
        ensures
            snapshot_view(r) == self.composed(),
    {
        self.compose()
    }

    fn compose(&self) -> (r: StateSnapshot)
        ensures
            snapshot_view(r) == self.composed(),
    {
        let wireless = match &self.brain {
            Some(b) => {
                let mut w = b.snapshot();
                w.ip = clone_opt(&self.wireless_ip);
                w
            },
            None => WirelessSnapshot::default(),
        };
        let r = StateSnapshot {
            status: self.session.status,
            since_unix: self.session.since_unix,
            ip: clone_opt(&self.ppp_ip),
            last_drop_reason: clone_opt(&self.session.last_drop_reason),
            redial_attempts: self.session.redial_attempts,
            heartbeat: copy_heartbeat(&self.heartbeat),
            mode: self.mode,
            wireless,
            events: self.events.ring().clone(),
        };
        assert(texts(r.events@) =~= self.events@);
        r
    }
}


/// `a + b`, capped at `u64::MAX`.
spec fn sat_add(a: u64, b: u64) -> u64 {
    if a + b <= u64::MAX {
        (a + b) as u64
    } else {
        u64::MAX
    }
}

/// The watchdog deadline is due at `now`.
spec fn deadline_due<C: Clock>(o: &Supervisor<C>, now: u64) -> bool {
    o.watchdog_deadline matches Some(d) && d <= now
}

/// Whether a watchdog step waits for a link sample after a wake-up at `now`.
spec fn wake_step_pending<C: Clock>(o: &Supervisor<C>, now: u64) -> bool {
    if deadline_due(o, now) {
        o.eth_link != Some(false)
    } else {
        o.step_pending
    }
}

/// A wake-up at `now` asks for a link sample.
spec fn wake_samples_link<C: Clock>(o: &Supervisor<C>, now: u64) -> bool {
    (wake_step_pending(o, now) || o.link_poll_at <= now) && !o.sample_in_flight
}

/// A wake-up at `now` asks for a wireless sample.
spec fn wake_samples_wlan<C: Clock>(o: &Supervisor<C>, now: u64) -> bool {
    o.brain is Some && o.wireless_tick_at <= now && !o.wireless_sample_in_flight
}

/// The effects of a wake-up at `now`: a link sample, then a wireless sample, as due.
pub closed spec fn wake_effects<C: Clock>(o: &Supervisor<C>, now: u64) -> Seq<Effect> {
    (if wake_samples_link(o, now) {
        seq![Effect::SampleLink]
    } else {
        Seq::<Effect>::empty()
    }) + (if wake_samples_wlan(o, now) {
        seq![Effect::SampleWireless]
    } else {
        Seq::<Effect>::empty()
    })
}

/// The wired side is healthy: the link is up and the session connected.
spec fn wired_healthy<C: Clock>(o: &Supervisor<C>) -> bool {
    o.eth_link == Some(true) && o.session.status == SessionStatus::Connected
}

/// The WLAN metric is to be raised, with `wlan` the sampled address.
spec fn metric_suppress_at<C: Clock>(o: &Supervisor<C>, wlan: Option<WlanSample>) -> bool {
    wlan matches Some(w) && (o.mode == NetMode::WiredPlusStandby || (o.mode == NetMode::WiredExclusive
        && !wired_healthy(o))) && o.cfg.wireless.standby_metric != 0 && o.metric_suppressed_ifindex
        != Some(w.ifindex)
}

/// The WLAN metric is to be raised now.
spec fn metric_suppress<C: Clock>(o: &Supervisor<C>) -> bool {
    metric_suppress_at(o, o.wlan)
}

/// The WLAN metric is to be restored, with `wlan` the sampled address.
spec fn metric_release_at<C: Clock>(o: &Supervisor<C>, wlan: Option<WlanSample>) -> bool {
    wlan is Some && o.mode == NetMode::WiredExclusive && wired_healthy(o)
        && o.metric_suppressed_ifindex is Some
}

/// The WLAN metric is to be restored now.
spec fn metric_release<C: Clock>(o: &Supervisor<C>) -> bool {
    metric_release_at(o, o.wlan)
}

/// The metric effects of the state `o` with `wlan` the sampled address.
spec fn metric_effects_at<C: Clock>(o: &Supervisor<C>, wlan: Option<WlanSample>) -> Seq<Effect> {
    match wlan {
        None => Seq::<Effect>::empty(),
        Some(w) => (if metric_suppress_at(o, wlan) {
            seq![Effect::SuppressMetric { ifindex: w.ifindex, target: o.cfg.wireless.standby_metric }]
        } else {
            Seq::<Effect>::empty()
        }) + (if metric_release_at(o, wlan) {
            seq![Effect::ReleaseMetric]
        } else {
            Seq::<Effect>::empty()
        }),
    }
}

/// The metric effects of the state `o`.
spec fn metric_effects<C: Clock>(o: &Supervisor<C>) -> Seq<Effect> {
    metric_effects_at(o, o.wlan)
}

/// The interface whose metric is raised after the metric bookkeeping.
spec fn metric_after<C: Clock>(o: &Supervisor<C>) -> Option<u32> {
    if metric_suppress(o) {
        Some(o.wlan->0.ifindex)
    } else if metric_release(o) {
        None
    } else {
        o.metric_suppressed_ifindex
    }
}

/// A join running longer than a minute at `now` (ms) is restarted.
spec fn join_timed_out<C: Clock>(o: &Supervisor<C>, b: BrainView, now: u64) -> bool {
    join_timed_out_at(o.join_since_ms, b, now)
}

/// A join under way since `join_since` has taken too long at `now`.
spec fn join_timed_out_at(join_since: Option<u64>, b: BrainView, now: u64) -> bool {
    &&& b.phase == WPhase::Joining
    &&& join_since matches Some(t)
    &&& (if now >= t {
        now - t
    } else {
        0
    }) > JOIN_TIMEOUT_SECS * 1000
}

/// The login of action `PortalAuth` cannot run for want of an address or a gateway.
spec fn auth_lacks_wlan<C: Clock>(o: &Supervisor<C>) -> bool {
    auth_lacks_wlan_at(o.wlan)
}

/// A login cannot start with `wlan` as the sampled address: none, or no gateway.
spec fn auth_lacks_wlan_at(wlan: Option<WlanSample>) -> bool {
    match wlan {
        None => true,
        Some(w) => w.gateway is None,
    }
}

/// The tick's outcome and effects of carrying out `action` from state `o`.
spec fn action_ok_at<C: Clock>(o: &Supervisor<C>, wlan: Option<WlanSample>, action: Action, go_on: bool, effs: Seq<Effect>) -> bool {
    match action {
        Action::NoOp => go_on && effs.len() == 0,
        Action::Associate => go_on && if o.associate_in_flight {
            effs.len() == 0
        } else {
            &&& effs.len() == 1
            &&& effs[0] matches Effect::Associate(p)
            &&& p@ == o.cfg.wireless.profile@
        },
        Action::Disassociate => go_on && effs == seq![Effect::TeardownRoutes, Effect::Disassociate],
        Action::PortalAuth => if o.auth_in_flight {
            go_on && effs.len() == 0
        } else if auth_lacks_wlan_at(wlan) {
            !go_on && effs.len() == 0
        } else {
            match (o.portal_ip, o.probe_ip) {
                (Some(a), Some(b)) => {
                    let w = wlan->0;
                    &&& go_on
                    &&& effs.len() == 3
                    &&& effs[0] matches Effect::EnsureRoutes { dests, gateway, ifindex }
                    &&& dests@ == seq![a, b]
                    &&& Some(gateway) == w.gateway
                    &&& ifindex == w.ifindex
                    &&& effs[1] == Effect::Settle(ROUTE_SETTLE_MS)
                    &&& effs[2] == (Effect::PortalAuth {
                        src_ip: w.ipv4,
                        timeout_ms: PORTAL_AUTH_TIMEOUT_MS,
                    })
                },
                _ => go_on && effs.len() == 0,
            }
        },
        Action::ProbeNow => if o.probe_in_flight {
            go_on && effs.len() == 0
        } else {
            match wlan {
                None => !go_on && effs.len() == 0,
                Some(w) => {
                    &&& go_on
                    &&& effs.len() == 1
                    &&& effs[0] matches Effect::WlanProbe { src_ip, gateway, url }
                    &&& src_ip == w.ipv4
                    &&& gateway == w.gateway
                    &&& url@ == "http://"@ + o.cfg.wireless.probe_host@ + "/"@
                },
            }
        },
    }
}

/// The tick's outcome and effects of carrying out `action` from state `o`.
spec fn action_ok<C: Clock>(o: &Supervisor<C>, action: Action, go_on: bool, effs: Seq<Effect>) -> bool {
    action_ok_at(o, o.wlan, action, go_on, effs)
}

/// `action` is a login that fails at once for want of an address or a gateway.
spec fn auth_fails_at_once<C: Clock>(o: &Supervisor<C>, action: Action) -> bool {
    action is PortalAuth && !o.auth_in_flight && auth_lacks_wlan(o)
}

impl<C: Clock> Supervisor<C> {
    /// Publishes the composed snapshot when it differs from the last one published.
    fn publish(&mut self) -> (r: Option<StateSnapshot>)
        ensures
            final(self).same_core(old(self)),
            final(self).last_now == old(self).last_now,
            final(self).published() == Some(old(self).composed()),
            final(self).composed() == old(self).composed(),
            r is Some <==> old(self).published() != Some(old(self).composed()),
            r matches Some(s) ==> snapshot_view(s) == old(self).composed(),
            final(self).wf() == old(self).wf(),
    {
        let snap = self.compose();
        let same = match &self.last_snapshot {
            Some(last) => same_snapshot(last, &snap),
            None => false,
        };
        if same {
            None
        } else {
            self.last_snapshot = Some(self.compose());
            Some(snap)
        }
    }

    /// Absolute wake-up time.
    fn next_wake(&self, now: u64) -> (r: u64)
        ensures
            r == self.next_wake_at(now),
    {
        let mut next = self.link_poll_at;
        match self.watchdog_deadline {
            Some(d) => {
                if d < next {
                    next = d;
                }
            },
            None => {},
        }
        if self.brain.is_some() && self.wireless_tick_at < next {
            next = self.wireless_tick_at;
        }
        if next >= now {
            next
        } else {
            now
        }
    }

    /// Link poll interval for the known link state: the cable-out pace while it is out.
    spec fn link_poll_interval_spec(&self) -> u64 {
        if self.eth_link == Some(false) {
            LINK_DOWN_RETRY_MS
        } else {
            LINK_POLL_MS
        }
    }

    fn link_poll_interval_ms(&self) -> (r: u64)
        ensures
            r == self.link_poll_interval_spec(),
            r == if self.eth_link == Some(false) {
                LINK_DOWN_RETRY_MS
            } else {
                LINK_POLL_MS
            },
    {
        if self.eth_link == Some(false) {
            LINK_DOWN_RETRY_MS
        } else {
            LINK_POLL_MS
        }
    }

    /// `Started`: the first watchdog step and link poll are due at once;
    /// with a takeover manager, stale routes are cleaned and the first
    /// wireless sample is taken.
    fn handle_started(&mut self, now: u64, wall: u64) -> (effs: Vec<Effect>)
        requires
            old(self).wf(),
            !old(self).started,
            old(self).last_now == now,
        ensures
            final(self).log() == log_line(old(self).log(), wall, Some(started_msg(old(self).mode))),
            final(self).wf(),
            final(self).started,
            final(self).stopped == old(self).stopped,
            final(self).last_now == now,
            final(self).watchdog_deadline == Some(now),
            final(self).link_poll_at == now,
            final(self).eth_link == old(self).eth_link,
            final(self).verdict == old(self).verdict,
            final(self).wlan == old(self).wlan,
            final(self).mode == old(self).mode,
            all_guarded(old(self), effs@, now),
            no_step(effs@),
            routes_ok(effs@, final(self).wlan),
            effs@ == if old(self).brain is Some {
                seq![Effect::CleanupStaleRoutes, Effect::SampleWireless]
            } else {
                Seq::<Effect>::empty()
            },
    {
        self.started = true;
        let mut msg = String::from_str("Service started, mode ");
        push_str(&mut msg, mode_text(self.mode));
        self.events.push(wall, msg.as_str());
        self.watchdog_deadline = Some(now);
        self.link_poll_at = now;
        let mut effs: Vec<Effect> = Vec::new();
        if self.brain.is_some() {
            effs.push(Effect::CleanupStaleRoutes);
            effs.push(Effect::SampleWireless);
            assert(effs@ =~= seq![Effect::CleanupStaleRoutes, Effect::SampleWireless]);
            self.wireless_sample_in_flight = true;
            self.wireless_tick_at = now.saturating_add(WIRELESS_TICK_MS);
        }
        effs
    }

    /// `Wake`: a due watchdog deadline asks for a fresh link sample first
    /// (dropped while the cable is out); an overdue sample only moves the
    /// ledger; the wireless tick samples unless a sample is in flight.
    fn handle_wake(&mut self, now: u64) -> (effs: Vec<Effect>)
        requires
            old(self).wf(),
            old(self).started,
            old(self).last_now == now,
        ensures
            wake_ok(old(self), final(self), now, effs@),
            final(self).log() == old(self).log(),
            final(self).wf(),
            final(self).started == old(self).started,
            final(self).stopped == old(self).stopped,
            final(self).last_now == now,
            final(self).eth_link == old(self).eth_link,
            final(self).verdict == old(self).verdict,
            final(self).wlan == old(self).wlan,
            final(self).mode == old(self).mode,
            all_guarded(old(self), effs@, now),
            no_step(effs@),
            routes_ok(effs@, final(self).wlan),
            effs@ == wake_effects(old(self), now),
            final(self).watchdog_deadline == if deadline_due(old(self), now) {
                None
            } else {
                old(self).watchdog_deadline
            },
            final(self).step_pending == wake_step_pending(old(self), now),
            final(self).sample_in_flight == (old(self).sample_in_flight || wake_samples_link(
                old(self),
                now,
            )),
            final(self).wireless_sample_in_flight == (old(self).wireless_sample_in_flight
                || wake_samples_wlan(old(self), now)),
            final(self).link_poll_at == if wake_samples_link(old(self), now) {
                sat_add(now, final(self).link_poll_interval_spec())
            } else if old(self).link_poll_at <= now {
                sat_add(now, SAMPLE_RETRY_MS)
            } else {
                old(self).link_poll_at
            },
            final(self).wireless_tick_at == if old(self).brain is Some && old(self).wireless_tick_at
                <= now {
                sat_add(now, WIRELESS_TICK_MS)
            } else {
                old(self).wireless_tick_at
            },
    {
        let mut effs: Vec<Effect> = Vec::new();
        let due = match self.watchdog_deadline {
            Some(d) => d <= now,
            None => false,
        };
        if due {
            self.watchdog_deadline = None;
            self.step_pending = self.eth_link != Some(false);
        }
        if self.step_pending || self.link_poll_at <= now {
            if !self.sample_in_flight {
                effs.push(Effect::SampleLink);
                self.sample_in_flight = true;
                self.link_poll_at = now.saturating_add(self.link_poll_interval_ms());
            } else if self.link_poll_at <= now {
                self.link_poll_at = now.saturating_add(SAMPLE_RETRY_MS);
            }
        }
        if self.brain.is_some() && self.wireless_tick_at <= now {
            if !self.wireless_sample_in_flight {
                effs.push(Effect::SampleWireless);
                self.wireless_sample_in_flight = true;
            }
            self.wireless_tick_at = now.saturating_add(WIRELESS_TICK_MS);
        }
        assert(effs@ =~= wake_effects(old(self), now));
        effs
    }

    /// IPC command: a redial request steps the watchdog at once; a mode
    /// switch updates the mode everywhere and is persisted.
    #[verifier::rlimit(60)]
    fn handle_command(&mut self, cmd: Command, wall: u64) -> (effs: Vec<Effect>)
        requires
            old(self).wf(),
            old(self).started,
        ensures
            final(self).log() == log_line(old(self).log(), wall, command_msg(cmd)),
            final(self).wf(),
            final(self).started == old(self).started,
            final(self).stopped == old(self).stopped,
            final(self).last_now == old(self).last_now,
            final(self).eth_link == old(self).eth_link,
            final(self).verdict == old(self).verdict,
            final(self).wlan == old(self).wlan,
            cmd is Redial ==> effs@ == seq![Effect::RequestRedial, Effect::StepWatchdog]
                && final(self).watchdog_deadline is None && final(self).mode == old(self).mode,
            cmd matches Command::SetMode { mode } ==> effs@ == seq![Effect::PersistMode(mode)]
                && final(self).mode == mode,
    {
        match cmd {
            Command::Redial => {
                self.watchdog_deadline = None;
                let mut effs: Vec<Effect> = Vec::new();
                effs.push(Effect::RequestRedial);
                effs.push(Effect::StepWatchdog);
                effs
            },
            Command::SetMode { mode } => {
                self.mode = mode;
                self.cfg.wireless.mode = mode;
                match self.brain.take() {
                    Some(mut b) => {
                        b.set_mode(mode);
                        self.brain = Some(b);
                    },
                    None => {},
                }
                let mut msg = String::from_str("Mode switched to ");
                push_str(&mut msg, mode_text(mode));
                self.events.push(wall, msg.as_str());
                let mut effs: Vec<Effect> = Vec::new();
                effs.push(Effect::PersistMode(mode));
                effs
            },
        }
    }

    /// Result of a link sample. A sample nobody waits for changes nothing.
    /// Once the link state is known only a definite reading replaces it.
    /// Pulling the cable stops the stepping; plugging it back redials at
    /// once; a sample taken for a due deadline steps the watchdog unless
    /// the cable is out.
    #[verifier::rlimit(100)]
    fn handle_link_sampled(&mut self, up: Option<bool>, now: u64, wall: u64) -> (effs: Vec<Effect>)
        requires
            old(self).wf(),
            old(self).started,
            old(self).last_now == now,
        ensures
            final(self).log() == log_line(
                old(self).log(),
                wall,
                if old(self).link_restores(up) {
                    Some(link_restored_msg())
                } else {
                    None
                },
            ),
            final(self).wf(),
            final(self).started == old(self).started,
            final(self).stopped == old(self).stopped,
            final(self).last_now == now,
            final(self).verdict == old(self).verdict,
            final(self).wlan == old(self).wlan,
            final(self).mode == old(self).mode,
            !old(self).sample_in_flight ==> *final(self) == *old(self) && effs@.len() == 0,
            all_guarded(old(self), effs@, now),
            routes_ok(effs@, final(self).wlan),
            forall|i: int|
                0 <= i < effs@.len() ==> (#[trigger] effs@[i] is StepWatchdog ==> final(self).eth_link
                    != Some(false)),
            old(self).eth_link != Some(false) && final(self).eth_link == Some(false) ==> {
                &&& final(self).watchdog_deadline is None
                &&& !final(self).step_pending
                &&& no_step(effs@)
            },
            (old(self).sample_in_flight && old(self).eth_link == Some(false) && up == Some(true)) ==> effs@
                == seq![Effect::SetWatchdogLink(Some(true)), Effect::RequestRedial, Effect::StepWatchdog],
    {
        let mut effs: Vec<Effect> = Vec::new();
        if !self.sample_in_flight {
            return effs;
        }
        self.sample_in_flight = false;
        let old_link = self.eth_link;
        let next = if self.link_sample_seen {
            match up {
                Some(v) => Some(v),
                None => old_link,
            }
        } else {
            up
        };
        self.link_sample_seen = true;
        if next != old_link {
            self.eth_link = next;
            effs.push(Effect::SetWatchdogLink(next));
            if next == Some(false) {
                self.watchdog_deadline = None;
                self.step_pending = false;
                self.link_poll_at = now.saturating_add(LINK_DOWN_RETRY_MS);
            } else if old_link == Some(false) {
                self.events.push(wall, "Ethernet link restored, redialing");
                effs.push(Effect::RequestRedial);
                effs.push(Effect::StepWatchdog);
                self.watchdog_deadline = None;
                self.step_pending = false;
                self.link_poll_at = now.saturating_add(LINK_POLL_MS);
            } else {
                self.link_poll_at = now.saturating_add(LINK_POLL_MS);
            }
        } else {
            self.link_poll_at = now.saturating_add(self.link_poll_interval_ms());
        }
        if self.step_pending {
            if self.eth_link == Some(false) {
                self.step_pending = false;
                self.watchdog_deadline = None;
                self.link_poll_at = now.saturating_add(LINK_DOWN_RETRY_MS);
            } else {
                effs.push(Effect::StepWatchdog);
                self.step_pending = false;
            }
        }
        effs
    }
}


impl<C: Clock> Supervisor<C> {
    /// Result of a watchdog step: the session facts are taken over and the
    /// next step is due after the reported delay. While redials keep failing
    /// for ten minutes (and the cable is in), a toast says so.
    #[verifier::rlimit(60)]
    fn handle_watchdog_stepped(&mut self, step: WatchdogStep, now: u64) -> (effs: Vec<Effect>)
        requires
            old(self).wf(),
            old(self).started,
            old(self).last_now == now,
        ensures
            final(self).log() == old(self).log(),
            final(self).wf(),
            final(self).started == old(self).started,
            final(self).stopped == old(self).stopped,
            final(self).last_now == now,
            final(self).eth_link == old(self).eth_link,
            final(self).verdict == old(self).verdict,
            final(self).wlan == old(self).wlan,
            final(self).mode == old(self).mode,
            final(self).session == step.session,
            final(self).watchdog_deadline == Some(
                if now + step.delay_ms <= u64::MAX {
                    (now + step.delay_ms) as u64
                } else {
                    u64::MAX
                },
            ),
            !final(self).step_pending,
            all_guarded(old(self), effs@, now),
            no_step(effs@),
            routes_ok(effs@, final(self).wlan),
            final(self).failing_since() == if redial_failing(step.session) {
                Some(failing_start(old(self), now))
            } else if step.session.status == SessionStatus::Connected {
                None
            } else {
                old(self).failing_since()
            },
            watchdog_sample_effects(old(self), step.session, now, effs@),
    {
        let ghost o = *self;
        self.session = step.session;
        self.ppp_ip = step.ppp_ip;
        self.step_pending = false;
        self.watchdog_deadline = Some(now.saturating_add(step.delay_ms));
        let mut effs: Vec<Effect> = Vec::new();
        match self.session.status {
            SessionStatus::Backoff | SessionStatus::AuthFail => {
                let since = match self.failing_since_ms {
                    Some(t) => t,
                    None => now,
                };
                self.failing_since_ms = Some(since);
                let cable_reason = match &self.session.last_drop_reason {
                    Some(r) => text_eq(r.as_str(), "Ethernet link down"),
                    None => false,
                };
                let link_paused = self.eth_link == Some(false) || cable_reason;
                let failing = now.saturating_sub(since);
                assert(failing == failing_for(&o, now));
                if failing >= REDIAL_FAILING_TOAST_AFTER_MS && !link_paused {
                    let mut body = String::from_str("Redial failed for ");
                    let m = decimal(failing / 60_000);
                    push_str(&mut body, m.as_str());
                    push_str(&mut body, " minutes (");
                    let a = decimal(self.session.redial_attempts as u64);
                    push_str(&mut body, a.as_str());
                    push_str(&mut body, " attempts), check network or credentials");
                    proof {
                        reveal_strlit("Redial failed for ");
                        reveal_strlit(" minutes (");
                        reveal_strlit(" attempts), check network or credentials");
                    }
                    assert(body@ == redial_toast_body(failing, step.session.redial_attempts));
                    self.notify.maybe_notify(
                        ToastKey::RedialFailing,
                        "gdut-net network error",
                        body,
                        now,
                        &mut effs,
                    );
                }
            },
            SessionStatus::Connected => {
                self.failing_since_ms = None;
            },
            SessionStatus::Idle | SessionStatus::Dialing => {},
        }
        effs
    }

    /// Heartbeat status: an error raises a (throttled) toast.
    #[verifier::rlimit(60)]
    fn handle_heartbeat(&mut self, status: HeartbeatStatus, now: u64) -> (effs: Vec<Effect>)
        requires
            old(self).wf(),
            old(self).started,
            old(self).last_now == now,
        ensures
            final(self).log() == old(self).log(),
            final(self).wf(),
            final(self).started == old(self).started,
            final(self).stopped == old(self).stopped,
            final(self).last_now == now,
            final(self).eth_link == old(self).eth_link,
            final(self).verdict == old(self).verdict,
            final(self).wlan == old(self).wlan,
            final(self).mode == old(self).mode,
            heartbeat_view(final(self).heartbeat) == heartbeat_view(status),
            all_guarded(old(self), effs@, now),
            no_step(effs@),
            routes_ok(effs@, final(self).wlan),
            heartbeat_effects(old(self), status, now, effs@),
    {
        let mut effs: Vec<Effect> = Vec::new();
        match &status {
            HeartbeatStatus::Error(e) => {
                let mut body = String::from_str("Compatibility heartbeat error: ");
                push_str(&mut body, e.as_str());
                self.notify.maybe_notify(
                    ToastKey::HeartbeatError,
                    "gdut-net heartbeat error",
                    body,
                    now,
                    &mut effs,
                );
            },
            _ => {},
        }
        self.heartbeat = status;
        effs
    }

    /// Result of a toast delivery.
    fn handle_notify_result(&mut self, key: ToastKey, delivered: bool, now: u64)
        requires
            old(self).wf(),
            old(self).started,
        ensures
            final(self).log() == old(self).log(),
            final(self).wf(),
            final(self).started == old(self).started,
            final(self).stopped == old(self).stopped,
            final(self).last_now == old(self).last_now,
            final(self).eth_link == old(self).eth_link,
            final(self).verdict == old(self).verdict,
            final(self).wlan == old(self).wlan,
            final(self).mode == old(self).mode,
            !old(self).notify.in_flight(key) ==> final(self).notify == old(self).notify,
            old(self).notify.in_flight(key) ==> {
                &&& !final(self).notify.in_flight(key)
                &&& final(self).notify.delivered_at(key) == if delivered {
                    Some(now)
                } else {
                    old(self).notify.delivered_at(key)
                }
            },
            forall|k: ToastKey|
                k != key ==> final(self).notify.in_flight(k) == old(self).notify.in_flight(k)
                    && final(self).notify.delivered_at(k) == old(self).notify.delivered_at(k),
    {
        self.notify.on_result(key, delivered, now);
    }

    /// The wireless worker died: the takeover manager and its ledger go,
    /// reported once in the event ring.
    #[verifier::rlimit(60)]
    fn handle_wireless_died(&mut self, wall: u64)
        requires
            old(self).wf(),
            old(self).started,
        ensures
            final(self).log() == log_line(
                old(self).log(),
                wall,
                if old(self).cfg.wireless.enabled && !old(self).wireless_stopped_reported {
                    Some(manager_stopped_msg())
                } else {
                    None
                },
            ),
            final(self).wf(),
            final(self).started == old(self).started,
            final(self).stopped == old(self).stopped,
            final(self).last_now == old(self).last_now,
            final(self).eth_link == old(self).eth_link,
            final(self).mode == old(self).mode,
            final(self).verdict is None || final(self).verdict == old(self).verdict,
            old(self).cfg.wireless.enabled ==> final(self).brain is None && final(self).wlan is None,
            !old(self).cfg.wireless.enabled ==> *final(self) == *old(self),
    {
        if !self.cfg.wireless.enabled {
            return;
        }
        if !self.wireless_stopped_reported {
            self.events.push(wall, "Wireless: manager stopped");
            self.wireless_stopped_reported = true;
        }
        self.brain = None;
        self.wireless_died = true;
        self.wlan = None;
        self.wireless_ip = None;
        self.verdict = None;
        self.wireless_sample_in_flight = false;
        self.associate_in_flight = false;
        self.auth_in_flight = false;
        self.probe_in_flight = false;
        self.join_since_ms = None;
        self.metric_suppressed_ifindex = None;
    }

    /// `Stop`: hang up first; with a live takeover manager, tear the
    /// routes down and leave the WLAN.
    #[verifier::rlimit(60)]
    fn handle_stop(&mut self, wall: u64) -> (effs: Vec<Effect>)
        requires
            old(self).wf(),
            old(self).started,
        ensures
            final(self).log() == log_line(
                old(self).log(),
                wall,
                if old(self).cfg.wireless.enabled && !old(self).wireless_died && old(self).brain is Some
                    && !old(self).wireless_stopped_reported {
                    Some(manager_stopped_msg())
                } else {
                    None
                },
            ),
            final(self).wf(),
            final(self).started == old(self).started,
            final(self).stopped,
            final(self).last_now == old(self).last_now,
            final(self).eth_link == old(self).eth_link,
            final(self).verdict == old(self).verdict,
            final(self).wlan == old(self).wlan,
            final(self).mode == old(self).mode,
            effs@.len() >= 1,
            effs@[0] is Hangup,
            all_guarded(old(self), effs@, old(self).last_now),
            no_step(effs@),
            routes_ok(effs@, final(self).wlan),
    {
        self.stopped = true;
        let mut effs: Vec<Effect> = Vec::new();
        effs.push(Effect::Hangup);
        if self.cfg.wireless.enabled && !self.wireless_died && self.brain.is_some() {
            effs.push(Effect::TeardownRoutes);
            effs.push(Effect::Disassociate);
            if !self.wireless_stopped_reported {
                self.events.push(wall, "Wireless: manager stopped");
                self.wireless_stopped_reported = true;
            }
        }
        effs
    }

    /// Result of an association: the join timeout starts counting now
    /// (success or failure alike). A result nobody waits for changes nothing.
    fn handle_associate_finished(&mut self, res: Result<(), String>, now: u64)
        requires
            old(self).wf(),
            old(self).started,
        ensures
            final(self).log() == old(self).log(),
            final(self).wf(),
            final(self).started == old(self).started,
            final(self).stopped == old(self).stopped,
            final(self).last_now == old(self).last_now,
            final(self).eth_link == old(self).eth_link,
            final(self).verdict == old(self).verdict,
            final(self).wlan == old(self).wlan,
            final(self).mode == old(self).mode,
            !old(self).associate_in_flight ==> *final(self) == *old(self),
            old(self).associate_in_flight ==> !final(self).associate_in_flight
                && final(self).join_since_ms == Some(now),
    {
        if !self.associate_in_flight {
            return;
        }
        self.associate_in_flight = false;
        self.join_since_ms = Some(now);
    }

    /// Result of a portal login: the manager learns it, and the cached
    /// probe verdict is dropped (a login makes it stale).
    #[verifier::rlimit(60)]
    fn handle_portal_finished(&mut self, attempt: PortalAttempt, now: u64, wall: u64)
        requires
            old(self).wf(),
            old(self).started,
            old(self).last_now == now,
        ensures
            old(self).auth_in_flight ==> exists|ok: bool, msg: Seq<char>|
                portal_outcome_is(attempt, ok, msg) && final(self).log() == #[trigger] log_line(
                    old(self).log(),
                    wall,
                    Some(portal_msg(ok, msg)),
                ),
            final(self).wf(),
            final(self).started == old(self).started,
            final(self).stopped == old(self).stopped,
            final(self).last_now == now,
            final(self).eth_link == old(self).eth_link,
            final(self).wlan == old(self).wlan,
            final(self).mode == old(self).mode,
            !old(self).auth_in_flight ==> *final(self) == *old(self),
            old(self).auth_in_flight ==> !final(self).auth_in_flight && final(self).verdict is None,
    {
        if !self.auth_in_flight {
            return;
        }
        self.auth_in_flight = false;
        let (ok, msg) = portal_outcome(&attempt);
        if ok {
            self.events.push(wall, "Wireless: portal login success");
        } else {
            let mut line = String::from_str("Wireless: portal login failed: ");
            push_str(&mut line, msg.as_str());
            self.events.push(wall, line.as_str());
        }
        assert(portal_outcome_is(attempt, ok, msg@));
        assert(self.log() == log_line(old(self).log(), wall, Some(portal_msg(ok, msg@))));
        match self.brain.take() {
            Some(mut b) => {
                b.on_auth(ok, msg.as_str(), now / 1000);
                self.brain = Some(b);
            },
            None => {},
        }
        self.verdict = None;
    }

    /// Result of a wireless probe: the verdict is cached for the next tick;
    /// anything but alive is recorded.
    fn handle_probe_finished(&mut self, verdict: ProbeVerdict, wall: u64)
        requires
            old(self).wf(),
            old(self).started,
        ensures
            final(self).log() == log_line(
                old(self).log(),
                wall,
                if old(self).probe_in_flight && verdict != ProbeVerdict::Alive {
                    Some("Wireless probe: "@ + crate::watchdog::verdict_name(verdict))
                } else {
                    None
                },
            ),
            final(self).wf(),
            final(self).started == old(self).started,
            final(self).stopped == old(self).stopped,
            final(self).last_now == old(self).last_now,
            final(self).eth_link == old(self).eth_link,
            final(self).wlan == old(self).wlan,
            final(self).mode == old(self).mode,
            !old(self).probe_in_flight ==> *final(self) == *old(self),
            old(self).probe_in_flight ==> !final(self).probe_in_flight && final(self).verdict
                == Some(verdict),
    {
        if !self.probe_in_flight {
            return;
        }
        self.probe_in_flight = false;
        self.verdict = Some(verdict);
        if verdict != ProbeVerdict::Alive {
            let mut line = String::from_str("Wireless probe: ");
            push_str(&mut line, verdict_text(verdict));
            self.events.push(wall, line.as_str());
        }
    }
}


impl<C: Clock> Supervisor<C> {
    /// Carries out a decision of the takeover manager. Returns false where
    /// the tick ends early (the metric and join-timeout checks are skipped).
    #[verifier::rlimit(80)]
    fn handle_action(&mut self, brain: &mut Brain, action: Action, now_secs: u64, wall: u64) -> (r: (
        bool,
        Vec<Effect>,
    ))
        requires
            old(self).wf(),
            old(self).started,
            old(self).brain is None,
            old(brain)@.times_before(old(self).last_now / 1000),
            now_secs <= old(self).last_now / 1000,
        ensures
            final(self).metric_suppressed_ifindex == old(self).metric_suppressed_ifindex,
            final(self).session == old(self).session,
            final(self).cfg == old(self).cfg,
            final(self).join_since_ms == if action is Disassociate {
                None
            } else {
                old(self).join_since_ms
            },
            final(self).log() == log_line(
                old(self).log(),
                wall,
                match action {
                    Action::Associate => if !old(self).associate_in_flight {
                        Some(associating_msg())
                    } else {
                        None
                    },
                    Action::Disassociate => Some(releasing_msg()),
                    _ => None,
                },
            ),
            (action is Associate && !old(self).associate_in_flight) ==> has_associate(r.1@),
            action is Disassociate ==> has_disassociate(r.1@),
            final(self).wf(),
            final(brain)@.times_before(final(self).last_now / 1000),
            final(self).brain is None,
            final(self).started == old(self).started,
            final(self).stopped == old(self).stopped,
            final(self).last_now == old(self).last_now,
            final(self).eth_link == old(self).eth_link,
            final(self).wlan == old(self).wlan,
            final(self).mode == old(self).mode,
            final(self).sample_in_flight == old(self).sample_in_flight,
            final(self).wireless_sample_in_flight == old(self).wireless_sample_in_flight,
            final(self).verdict is None || final(self).verdict == old(self).verdict,
            final(self).associate_in_flight ==> old(self).associate_in_flight || action is Associate,
            final(self).auth_in_flight ==> old(self).auth_in_flight || action is PortalAuth,
            final(self).probe_in_flight ==> old(self).probe_in_flight || action is ProbeNow,
            all_guarded(old(self), r.1@, old(self).last_now),
            forall|i: int| 0 <= i < r.1@.len() ==> spec_lane(#[trigger] r.1@[i]) == Lane::Wireless,
            routes_ok(r.1@, final(self).wlan),
            action_ok(old(self), action, r.0, r.1@),
            auth_fails_at_once(old(self), action) ==> final(brain)@ == old(brain)@.auth_failed(
                if old(self).wlan is None {
                    "wlan ip lost"@
                } else {
                    "wlan gateway missing"@
                },
                now_secs,
            ),
            !auth_fails_at_once(old(self), action) ==> final(brain)@ == old(brain)@,
            final(self).verdict == if action is Disassociate || auth_fails_at_once(old(self), action) {
                None
            } else {
                old(self).verdict
            },
            final(self).associate_in_flight == (old(self).associate_in_flight || action is Associate),
            final(self).auth_in_flight == (old(self).auth_in_flight || (action is PortalAuth
                && !auth_lacks_wlan(old(self)) && old(self).portal_ip is Some && old(self).probe_ip
                is Some)),
            final(self).probe_in_flight == (old(self).probe_in_flight || (action is ProbeNow
                && old(self).wlan is Some)),
    {
        let mut effs: Vec<Effect> = Vec::new();
        match action {
            Action::NoOp => (true, effs),
            Action::Associate => {
                if self.associate_in_flight {
                    return (true, effs);
                }
                self.events.push(wall, "Wireless: associating to campus SSID");
                effs.push(Effect::Associate(self.cfg.wireless.profile.clone()));
                assert(effs@[0] is Associate);
                self.associate_in_flight = true;
                (true, effs)
            },
            Action::Disassociate => {
                self.events.push(wall, "Wireless: releasing (wired healthy)");
                effs.push(Effect::TeardownRoutes);
                effs.push(Effect::Disassociate);
                assert(effs@ =~= seq![Effect::TeardownRoutes, Effect::Disassociate]);
                assert(effs@[1] is Disassociate);
                self.verdict = None;
                self.join_since_ms = None;
                (true, effs)
            },
            Action::PortalAuth => {
                if self.auth_in_flight {
                    return (true, effs);
                }
                let wlan = match self.wlan {
                    Some(w) => w,
                    None => {
                        brain.on_auth(false, "wlan ip lost", now_secs);
                        self.verdict = None;
                        return (false, effs);
                    },
                };
                let gateway = match wlan.gateway {
                    Some(g) => g,
                    None => {
                        brain.on_auth(false, "wlan gateway missing", now_secs);
                        self.verdict = None;
                        return (false, effs);
                    },
                };
                let (portal_ip, probe_ip) = match (self.portal_ip, self.probe_ip) {
                    (Some(a), Some(b)) => (a, b),
                    _ => {
                        return (true, effs);
                    },
                };
                let mut dests: Vec<[u8; 4]> = Vec::new();
                dests.push(portal_ip);
                dests.push(probe_ip);
                assert(dests@ =~= seq![portal_ip, probe_ip]);
                effs.push(Effect::EnsureRoutes { dests, gateway, ifindex: wlan.ifindex });
                effs.push(Effect::Settle(ROUTE_SETTLE_MS));
                effs.push(Effect::PortalAuth { src_ip: wlan.ipv4, timeout_ms: PORTAL_AUTH_TIMEOUT_MS });
                self.auth_in_flight = true;
                (true, effs)
            },
            Action::ProbeNow => {
                if self.probe_in_flight {
                    return (true, effs);
                }
                let wlan = match self.wlan {
                    Some(w) => w,
                    None => {
                        return (false, effs);
                    },
                };
                let mut url = String::from_str("http://");
                push_str(&mut url, self.cfg.wireless.probe_host.as_str());
                push_str(&mut url, "/");
                effs.push(Effect::WlanProbe { src_ip: wlan.ipv4, gateway: wlan.gateway, url });
                self.probe_in_flight = true;
                (true, effs)
            },
        }
    }

    /// Metric bookkeeping: the WLAN metric is raised in standby, or in
    /// exclusive mode while the wired link is unhealthy (a zero target
    /// leaves it alone); it is restored once the wired link is healthy.
    #[verifier::rlimit(60)]
    fn update_metric(&mut self) -> (effs: Vec<Effect>)
        requires
            old(self).wf(),
        ensures
            final(self).log() == old(self).log(),
            final(self).wf(),
            final(self).started == old(self).started,
            final(self).stopped == old(self).stopped,
            final(self).last_now == old(self).last_now,
            final(self).eth_link == old(self).eth_link,
            final(self).verdict == old(self).verdict,
            final(self).wlan == old(self).wlan,
            final(self).mode == old(self).mode,
            final(self).brain == old(self).brain,
            final(self).sample_in_flight == old(self).sample_in_flight,
            final(self).wireless_sample_in_flight == old(self).wireless_sample_in_flight,
            final(self).associate_in_flight == old(self).associate_in_flight,
            final(self).auth_in_flight == old(self).auth_in_flight,
            final(self).probe_in_flight == old(self).probe_in_flight,
            forall|i: int|
                0 <= i < effs@.len() ==> (#[trigger] effs@[i] is SuppressMetric || effs@[i] is ReleaseMetric),
            effs@ == metric_effects(old(self)),
            final(self).metric_suppressed_ifindex == metric_after(old(self)),
            final(self).join_since_ms == old(self).join_since_ms,
            final(self).session == old(self).session,
            final(self).cfg == old(self).cfg,
    {
        let mut effs: Vec<Effect> = Vec::new();
        let wlan = match self.wlan {
            Some(w) => w,
            None => {
                return effs;
            },
        };
        let wired_healthy = self.eth_link == Some(true) && self.session.status
            == SessionStatus::Connected;
        let takeover_active = self.mode == NetMode::WiredExclusive && !wired_healthy;
        let target = self.cfg.wireless.standby_metric;
        if (self.mode == NetMode::WiredPlusStandby || takeover_active) && target != 0
            && self.metric_suppressed_ifindex != Some(wlan.ifindex) {
            effs.push(Effect::SuppressMetric { ifindex: wlan.ifindex, target });
            self.metric_suppressed_ifindex = Some(wlan.ifindex);
        }
        if self.mode == NetMode::WiredExclusive && wired_healthy
            && self.metric_suppressed_ifindex.is_some() {
            self.metric_suppressed_ifindex = None;
            effs.push(Effect::ReleaseMetric);
        }
        effs
    }

    /// End of a tick that went on: the metric bookkeeping, then a join
    /// that took longer than a minute is restarted.
    #[verifier::rlimit(60)]
    fn finish_tick(&mut self, brain: &mut Brain, now: u64, wall: u64) -> (effs: Vec<Effect>)
        requires
            old(self).wf(),
            old(self).brain is None,
            old(brain)@.times_before(old(self).last_now / 1000),
        ensures
            final(self).log() == log_line(
                old(self).log(),
                wall,
                if join_timed_out(old(self), old(brain)@, now) {
                    Some(join_timeout_msg())
                } else {
                    None
                },
            ),
            final(self).wf(),
            final(brain)@.times_before(final(self).last_now / 1000),
            final(self).brain is None,
            final(self).started == old(self).started,
            final(self).stopped == old(self).stopped,
            final(self).last_now == old(self).last_now,
            final(self).eth_link == old(self).eth_link,
            final(self).verdict == old(self).verdict,
            final(self).wlan == old(self).wlan,
            final(self).mode == old(self).mode,
            final(self).sample_in_flight == old(self).sample_in_flight,
            final(self).wireless_sample_in_flight == old(self).wireless_sample_in_flight,
            final(self).associate_in_flight == old(self).associate_in_flight,
            final(self).auth_in_flight == old(self).auth_in_flight,
            final(self).probe_in_flight == old(self).probe_in_flight,
            forall|i: int|
                0 <= i < effs@.len() ==> (#[trigger] effs@[i] is SuppressMetric || effs@[i] is ReleaseMetric),
            effs@ == metric_effects(old(self)),
            final(self).metric_suppressed_ifindex == metric_after(old(self)),
            final(brain)@ == if join_timed_out(old(self), old(brain)@, now) {
                old(brain)@.reset_off()
            } else {
                old(brain)@
            },
            final(self).join_since_ms == if join_timed_out(old(self), old(brain)@, now) {
                None
            } else {
                old(self).join_since_ms
            },
    {
        let effs = self.update_metric();
        if brain.phase() == WPhase::Joining {
            let timed_out = match self.join_since_ms {
                Some(t) => now.saturating_sub(t) > JOIN_TIMEOUT_SECS * 1000,
                None => false,
            };
            if timed_out {
                self.events.push(wall, "Wireless: join timeout, restarting");
                brain.restart();
                self.join_since_ms = None;
            }
        }
        effs
    }

    /// A wireless sample: the manager decides on the world it shows; the
    /// decision is carried out, then the tick is finished. A sample nobody
    /// waits for changes nothing.
    #[verifier::rlimit(60)]
    fn handle_wireless_sampled(&mut self, sample: WirelessSample, now: u64, wall: u64) -> (effs: Vec<
        Effect,
    >)
        requires
            old(self).wf(),
            old(self).started,
            old(self).last_now == now,
        ensures
            old(self).wireless_sample_in_flight && old(self).brain is Some ==> sample_ok(
                old(self),
                final(self),
                sample,
                now,
                effs@,
            ),
            exists|decision: Option<Seq<char>>, timeout: Option<Seq<char>>|
                sample_msgs_ok(final(self), effs@, decision, timeout) && final(self).log()
                    == #[trigger] log_line(log_line(old(self).log(), wall, decision), wall, timeout),
            final(self).wf(),
            final(self).started == old(self).started,
            final(self).stopped == old(self).stopped,
            final(self).last_now == now,
            final(self).eth_link == old(self).eth_link,
            final(self).mode == old(self).mode,
            final(self).verdict is None || final(self).verdict == old(self).verdict,
            !old(self).wireless_sample_in_flight ==> *final(self) == *old(self) && effs@.len() == 0,
            old(self).wireless_sample_in_flight && old(self).brain is Some ==> final(self).wlan
                == sample.wlan,
            all_guarded(old(self), effs@, now),
            no_step(effs@),
            routes_ok(effs@, final(self).wlan),
    {
        let mut effs: Vec<Effect> = Vec::new();
        assert(log_line(log_line(self.log(), wall, None), wall, None) == self.log());
        if !self.wireless_sample_in_flight {
            return effs;
        }
        self.wireless_sample_in_flight = false;
        let mut brain = match self.brain.take() {
            Some(b) => b,
            None => {
                return effs;
            },
        };
        let ghost o = *old(self);
        self.wlan = sample.wlan;
        self.wireless_ip = match sample.wlan {
            Some(w) => Some(crate::portal::ipv4_text(w.ipv4)),
            None => None,
        };
        let now_secs = now / 1000;
        let world = World {
            now: now_secs,
            eth_link_up: self.eth_link == Some(true),
            wired_connected: self.session.status == SessionStatus::Connected,
            wlan_associated: sample.associated,
            wlan_ip: sample.wlan.is_some(),
            probe: self.verdict,
        };
        assert(world == sample_world(&o, sample, now));
        brain.set_mode(self.mode);
        let action = brain.decide(&world);
        assert((brain@, action) == sample_decision(&o, sample, now));
        let ghost b1 = brain@;
        let ghost s1 = *self;
        assert(action_ok(&s1, action, true, Seq::<Effect>::empty()) == action_ok_at(&o, sample.wlan, action, true, Seq::<Effect>::empty()));
        let ghost decision = match action {
            Action::Associate => if !self.associate_in_flight {
                Some(associating_msg())
            } else {
                None
            },
            Action::Disassociate => Some(releasing_msg()),
            _ => None,
        };
        let ghost log0 = self.log();
        let (go_on, acted) = self.handle_action(&mut brain, action, now_secs, wall);
        let mut acted = acted;
        let ghost before = acted@;
        let ghost mut timeout: Option<Seq<char>> = None;
        let ghost mid_self = *self;
        let ghost mid_brain = brain@;
        if go_on {
            let mut metric = self.finish_tick(&mut brain, now, wall);
            let ghost m = metric@;
            acted.append(&mut metric);
            assert(acted@ == before + m);
            proof {
                if join_timed_out(&mid_self, mid_brain, now) {
                    timeout = Some(join_timeout_msg());
                }
            }
        }
        proof {
            if has_associate(before) {
                let i = choose|i: int| 0 <= i < before.len() && #[trigger] before[i] is Associate;
                assert(acted@[i] == before[i]);
            }
            if has_disassociate(before) {
                let i = choose|i: int| 0 <= i < before.len() && #[trigger] before[i] is Disassociate;
                assert(acted@[i] == before[i]);
            }
        }
        assert(self.log() == log_line(log_line(log0, wall, decision), wall, timeout));
        proof {
            let k = before.len() as int;
            assert(forall|go: bool, x: Seq<Effect>| action_ok(&s1, action, go, x) == action_ok_at(&o, sample.wlan, action, go, x));
            assert(acted@.take(k) =~= before);
            assert(action_ok_at(&o, sample.wlan, action, go_on, acted@.take(k)));
            if go_on {
                assert(metric_effects(&mid_self) == metric_effects_at(&o, sample.wlan));
                assert(acted@.skip(k) =~= metric_effects_at(&o, sample.wlan));
            } else {
                assert(acted@.skip(k) =~= Seq::<Effect>::empty());
            }
        }
        assert forall|i: int| 0 <= i < acted@.len() implies guarded(old(self), #[trigger] acted@[i], now) by {
            if i < before.len() {
                assert(spec_lane(before[i]) == Lane::Wireless);
            }
        }
        assert forall|i: int| 0 <= i < acted@.len() implies !(#[trigger] acted@[i] is StepWatchdog) by {
            if i < before.len() {
                assert(spec_lane(before[i]) == Lane::Wireless);
            }
        }
        self.brain = Some(brain);
        acted
    }
}


/// What a wake-up at `now` does from state `o` to state `f` with effects
/// `effs`: the due samples are asked for (`wake_effects`: a link sample when
/// a watchdog step waits for one or the link poll is due and none is in
/// flight, a wireless sample when the wireless tick is due); a due watchdog
/// deadline is consumed and becomes a pending step unless the cable is out;
/// the link poll and the wireless tick move on; nothing else changes.
pub closed spec fn wake_ok<C: Clock>(o: &Supervisor<C>, f: &Supervisor<C>, now: u64, effs: Seq<Effect>) -> bool {
    &&& effs == wake_effects(o, now)
    &&& f.eth_link == o.eth_link
    &&& f.verdict == o.verdict
    &&& f.wlan == o.wlan
    &&& f.mode == o.mode
    &&& f.watchdog_deadline == if deadline_due(o, now) {
        None
    } else {
        o.watchdog_deadline
    }
    &&& f.step_pending == wake_step_pending(o, now)
    &&& f.sample_in_flight == (o.sample_in_flight || wake_samples_link(o, now))
    &&& f.wireless_sample_in_flight == (o.wireless_sample_in_flight || wake_samples_wlan(o, now))
    &&& f.link_poll_at == if wake_samples_link(o, now) {
        sat_add(now, f.link_poll_interval_spec())
    } else if o.link_poll_at <= now {
        sat_add(now, SAMPLE_RETRY_MS)
    } else {
        o.link_poll_at
    }
    &&& f.wireless_tick_at == if o.brain is Some && o.wireless_tick_at <= now {
        sat_add(now, WIRELESS_TICK_MS)
    } else {
        o.wireless_tick_at
    }
}

/// The world a wireless sample `s` shows the takeover manager at `now`
/// (ms): the time in seconds, the wired link and session, the sample, and
/// the cached probe verdict.
pub closed spec fn sample_world<C: Clock>(o: &Supervisor<C>, s: WirelessSample, now: u64) -> World {
    World {
        now: now / 1000,
        eth_link_up: o.eth_link == Some(true),
        wired_connected: o.session.status == SessionStatus::Connected,
        wlan_associated: s.associated,
        wlan_ip: s.wlan is Some,
        probe: o.verdict,
    }
}

/// The takeover manager's decision on a sample: its next state (in the
/// current mode) and its action.
pub closed spec fn sample_decision<C: Clock>(o: &Supervisor<C>, s: WirelessSample, now: u64) -> (BrainView, Action) {
    (BrainView { mode: o.mode, ..o.brain->0@ }).decide(sample_world(o, s, now))
}

/// What a wireless sample `s` at `now` does, with a sample awaited and a
/// takeover manager present: the address is taken over; the manager
/// decides on the sample's world; the effects are those of carrying out
/// the action (as `action_ok_at` fixes them), then, unless the tick ended
/// early, the metric effects; a login that cannot start for want of an
/// address or a gateway counts as a failed login, and a join that took too
/// long restarts the manager.
pub closed spec fn sample_ok<C: Clock>(o: &Supervisor<C>, f: &Supervisor<C>, s: WirelessSample, now: u64, effs: Seq<Effect>) -> bool {
    let (b1, action) = sample_decision(o, s, now);
    let b2 = if action is PortalAuth && !o.auth_in_flight && auth_lacks_wlan_at(s.wlan) {
        b1.auth_failed(
            if s.wlan is None {
                "wlan ip lost"@
            } else {
                "wlan gateway missing"@
            },
            now / 1000,
        )
    } else {
        b1
    };
    let join_after = if action is Disassociate {
        None
    } else {
        o.join_since_ms
    };
    &&& f.wlan == s.wlan
    &&& exists|k: int, go_on: bool|
        {
            &&& 0 <= k <= effs.len()
            &&& #[trigger] action_ok_at(o, s.wlan, action, go_on, effs.take(k))
            &&& effs.skip(k) == if go_on {
                metric_effects_at(o, s.wlan)
            } else {
                Seq::<Effect>::empty()
            }
            &&& f.brain() == Some(
                if go_on && join_timed_out_at(join_after, b2, now) {
                    b2.reset_off()
                } else {
                    b2
                },
            )
        }
}

/// The schedule and the takeover decision: a wake-up on a running
/// supervisor does what `wake_ok` says, and a wireless sample that is
/// awaited with a takeover manager present does what `sample_ok` says.
#[verifier::opaque]
pub open spec fn core_ok<C: Clock>(o: &Supervisor<C>, f: &Supervisor<C>, e: &Event, effs: Seq<Effect>, now: u64) -> bool {
    &&& (o.started() && e is Wake) ==> wake_ok(o, f, now, effs)
    &&& (o.started() && o.wireless_sample_in_flight() && o.brain() is Some) ==> (e matches Event::WirelessSampled(
        smp,
    ) ==> sample_ok(o, f, *smp, now, effs))
}

/// The log after an optional line `msg` at wall-clock time `wall`.
pub open spec fn log_line(log: Seq<Seq<char>>, wall: u64, msg: Option<Seq<char>>) -> Seq<Seq<char>> {
    match msg {
        Some(m) => ring_push(log, spec_event_line(wall as nat, m)),
        None => log,
    }
}

/// Line of the start of the service.
pub open spec fn started_msg(mode: NetMode) -> Seq<char> {
    "Service started, mode "@ + spec_mode_text(mode)
}

/// Line of a command: a mode switch is logged.
pub open spec fn command_msg(cmd: Command) -> Option<Seq<char>> {
    match cmd {
        Command::SetMode { mode } => Some("Mode switched to "@ + spec_mode_text(mode)),
        _ => None,
    }
}

/// Line of the cable coming back.
pub open spec fn link_restored_msg() -> Seq<char> {
    "Ethernet link restored, redialing"@
}

/// Line of the end of the takeover manager.
pub open spec fn manager_stopped_msg() -> Seq<char> {
    "Wireless: manager stopped"@
}

/// Line of an association the manager starts.
pub open spec fn associating_msg() -> Seq<char> {
    "Wireless: associating to campus SSID"@
}

/// Line of the manager releasing the WLAN.
pub open spec fn releasing_msg() -> Seq<char> {
    "Wireless: releasing (wired healthy)"@
}

/// Line of a join that took too long.
pub open spec fn join_timeout_msg() -> Seq<char> {
    "Wireless: join timeout, restarting"@
}

/// Line of a portal login outcome.
pub open spec fn portal_msg(ok: bool, msg: Seq<char>) -> Seq<char> {
    if ok {
        "Wireless: portal login success"@
    } else {
        "Wireless: portal login failed: "@ + msg
    }
}

/// What a login attempt comes to (as `portal_outcome` says): success, or
/// failure with a message.
pub open spec fn portal_outcome_is(attempt: PortalAttempt, ok: bool, msg: Seq<char>) -> bool {
    match attempt {
        PortalAttempt::Replied { status, body } => exists|inner: Seq<char>, res: PortalResultView|
            spec_extract_json(body@, inner) && res == spec_classify(
                json_member(inner, "result"@),
                json_member(inner, "ret_code"@),
                json_member(inner, "msg"@),
            ) && (ok, msg) == spec_reply_outcome(status, res),
        PortalAttempt::NoReply => !ok && msg == "no reply"@,
        PortalAttempt::TimedOut => !ok && msg == "portal auth timeout"@,
        PortalAttempt::Failed(m) => !ok && msg == m@,
    }
}

/// Whether some effect of `effs` starts an association.
pub open spec fn has_associate(effs: Seq<Effect>) -> bool {
    exists|i: int| 0 <= i < effs.len() && #[trigger] effs[i] is Associate
}

/// Whether some effect of `effs` ends the association.
pub open spec fn has_disassociate(effs: Seq<Effect>) -> bool {
    exists|i: int| 0 <= i < effs.len() && #[trigger] effs[i] is Disassociate
}

/// The lines of a wireless sample: the manager's decision (an association
/// it starts, or the release of the WLAN, each with its effect), then a
/// join timeout (after which no join is under way).
pub open spec fn sample_msgs_ok<C: Clock>(f: &Supervisor<C>, effs: Seq<Effect>, decision: Option<Seq<char>>, timeout: Option<Seq<char>>) -> bool {
    &&& decision matches Some(m) ==> (m == associating_msg() && has_associate(effs)) || (m
        == releasing_msg() && has_disassociate(effs))
    &&& timeout matches Some(m) ==> m == join_timeout_msg() && f.join_since() is None
}

/// The event log after handling event `e` at wall-clock time `wall` from
/// state `o` (running, or starting) to state `f` with effects `effs`: the
/// start, a mode switch, the cable coming back, the end of the takeover
/// manager (once), a login outcome, a bad WLAN probe, and the manager's
/// decisions are logged, in this order within a step; nothing else is.
#[verifier::opaque]
pub open spec fn log_ok<C: Clock>(o: &Supervisor<C>, f: &Supervisor<C>, e: &Event, effs: Seq<Effect>, wall: u64) -> bool {
    if !o.started() {
        f.log() == log_line(o.log(), wall, Some(started_msg(o.mode())))
    } else {
        match e {
            Event::Command(cmd) => f.log() == log_line(o.log(), wall, command_msg(*cmd)),
            Event::LinkSampled(up) => f.log() == log_line(
                o.log(),
                wall,
                if o.link_restores(*up) {
                    Some(link_restored_msg())
                } else {
                    None
                },
            ),
            Event::WirelessDied => f.log() == log_line(
                o.log(),
                wall,
                if o.wireless_enabled() && !o.stop_reported() {
                    Some(manager_stopped_msg())
                } else {
                    None
                },
            ),
            Event::Stop => f.log() == log_line(
                o.log(),
                wall,
                if o.wireless_enabled() && !o.manager_died() && o.brain() is Some && !o.stop_reported() {
                    Some(manager_stopped_msg())
                } else {
                    None
                },
            ),
            Event::PortalFinished(attempt) => if o.auth_in_flight() {
                exists|ok: bool, msg: Seq<char>|
                    portal_outcome_is(*attempt, ok, msg) && f.log() == #[trigger] log_line(
                        o.log(),
                        wall,
                        Some(portal_msg(ok, msg)),
                    )
            } else {
                f.log() == o.log()
            },
            Event::WlanProbeFinished(v) => f.log() == log_line(
                o.log(),
                wall,
                if o.probe_in_flight() && *v != ProbeVerdict::Alive {
                    Some("Wireless probe: "@ + crate::watchdog::verdict_name(*v))
                } else {
                    None
                },
            ),
            Event::WirelessSampled(_) => exists|decision: Option<Seq<char>>, timeout: Option<Seq<char>>|
                sample_msgs_ok(f, effs, decision, timeout) && f.log() == #[trigger] log_line(
                    log_line(o.log(), wall, decision),
                    wall,
                    timeout,
                ),
            _ => f.log() == o.log(),
        }
    }
}

/// Whether the supervisor in state `o` acts on event `e`: before `Started`
/// only `Started` counts, after `Stop` nothing does.
pub open spec fn handles<C: Clock>(o: &Supervisor<C>, e: &Event) -> bool {
    (!o.started() && e is Started) || (o.started() && !o.stopped())
}

/// What every reaction of the supervisor satisfies, from state `o` to
/// state `f` on event `e` (with `f.last_now()` the time of the reaction):
/// - an event it does not act on changes nothing and asks for nothing;
/// - the snapshot is published exactly when the composed one changed;
/// - while running, the wake-up is the earliest pending deadline, never
///   before the time of the reaction;
/// - only `Stop` stops the supervisor; it hangs up first and asks for no
///   further wake-up;
/// - no sample, association, login or probe is issued while one is in
///   flight, and toasts respect the notification ledger;
/// - the watchdog steps only on a redial request or on a link sample with
///   the cable in;
/// - a result nobody waits for changes nothing but the clock reading;
/// - only a probe result caches a verdict;
/// - host routes are written only for the sampled address and gateway,
///   followed by the settle wait and the login;
/// - a mode switch takes effect and is persisted;
/// - pulling the cable stops the stepping;
/// - a watchdog sample raises the redial-failing toast exactly when redials
///   have failed for ten minutes with the cable in and the ledger allows it;
/// - a heartbeat error raises the heartbeat toast when the ledger allows it;
/// - a redial command, and the cable coming back, redial at once;
/// - `Started` makes the first watchdog step and link poll due at once,
///   and with a takeover manager cleans stale routes and samples the WLAN;
/// - a wake-up asks for the due samples and moves the schedule on, and a
///   wireless sample runs the takeover manager's decision and carries out
///   its action (`core_ok`).
pub open spec fn reaction_ok<C: Clock>(o: &Supervisor<C>, f: &Supervisor<C>, e: &Event, r: &Reaction) -> bool {
    &&& !handles(o, e) ==> *f == *o && r.effects@.len() == 0 && r.snapshot is None && r.wake_at is None
    &&& handles(o, e) ==> {
        &&& f.published() == Some(f.composed())
        &&& (r.snapshot is Some <==> o.published() != Some(f.composed()))
        &&& (r.snapshot matches Some(s) ==> snapshot_view(s) == f.composed())
        &&& f.started()
        &&& r.wake_at == if !f.stopped() {
            Some(f.next_wake_at(f.last_now()))
        } else {
            None
        }
        &&& !o.started() ==> r.wake_at == Some(f.last_now())
        &&& !(e is Stop) ==> {
            &&& !f.stopped()
            &&& r.wake_at matches Some(w) && w >= f.last_now()
        }
        &&& e is Stop ==> {
            &&& f.stopped()
            &&& r.wake_at is None
            &&& r.effects@.len() >= 1
            &&& r.effects@[0] is Hangup
        }
        &&& effects_ok(o, f, e, r.effects@, f.last_now())
        &&& core_ok(o, f, e, r.effects@, f.last_now())
        &&& stale_result(o, e) ==> f.same_core(o)
    }
}

/// The laws on the effects of handling event `e` at `now` from state `o`
/// (running, or starting) to state `f` (`reveal(effects_ok)` shows them).
#[verifier::opaque]
pub open spec fn effects_ok<C: Clock>(o: &Supervisor<C>, f: &Supervisor<C>, e: &Event, effs: Seq<Effect>, now: u64) -> bool {
    &&& all_guarded(o, effs, now)
    &&& forall|i: int|
        0 <= i < effs.len() ==> (#[trigger] effs[i] is StepWatchdog ==> (e matches Event::Command(
            Command::Redial,
        )) || (e is LinkSampled && f.eth_link() != Some(false)))
    &&& stale_result(o, e) ==> effs.len() == 0
    &&& (f.verdict() is Some && f.verdict() != o.verdict()) ==> e is WlanProbeFinished
    &&& routes_ok(effs, f.wlan())
    &&& e matches Event::Command(Command::SetMode { mode }) ==> (o.started() ==> f.mode() == mode
        && effs == seq![Effect::PersistMode(*mode)])
    &&& (e is LinkSampled && o.eth_link() != Some(false) && f.eth_link() == Some(false)) ==> f.watchdog_deadline()
        is None && no_step(effs)
    &&& (o.started() && e is Stop) ==> f.stopped() && effs.len() >= 1 && effs[0] is Hangup
    &&& e matches Event::WatchdogStepped(step) ==> (o.started() ==> watchdog_sample_effects(
        o,
        step.session,
        now,
        effs,
    ))
    &&& e matches Event::WatchdogStepped(step) ==> (o.started() ==> f.failing_since() == if redial_failing(
        step.session,
    ) {
        Some(failing_start(o, now))
    } else if step.session.status == SessionStatus::Connected {
        None
    } else {
        o.failing_since()
    })
    &&& e matches Event::Heartbeat(h) ==> (o.started() ==> heartbeat_effects(o, *h, now, effs))
    &&& !o.started() ==> effs == if o.brain() is Some {
        seq![Effect::CleanupStaleRoutes, Effect::SampleWireless]
    } else {
        Seq::<Effect>::empty()
    }
    &&& (o.started() && e matches Event::Command(Command::Redial)) ==> effs == seq![
        Effect::RequestRedial,
        Effect::StepWatchdog,
    ]
    &&& (o.started() && o.sample_in_flight() && o.eth_link() == Some(false) && e matches Event::LinkSampled(
        Some(true),
    )) ==> effs == seq![Effect::SetWatchdogLink(Some(true)), Effect::RequestRedial, Effect::StepWatchdog]
}

/// What handling event `e` at `now` satisfies, from state `o` (already
/// running, or starting) to state `f`, with effects `effs`.
pub open spec fn step_ok<C: Clock>(o: &Supervisor<C>, f: &Supervisor<C>, e: &Event, effs: Seq<Effect>, now: u64) -> bool {
    &&& f.started()
    &&& f.last_now() == o.last_now()
    &&& stale_result(o, e) ==> *f == *o
    &&& !o.started() ==> f.link_poll_at() == now && !f.stopped()
    &&& !(e is Stop) ==> !f.stopped()
    &&& effects_ok(o, f, e, effs, now)
}

/// The effect laws carry over from the state the handler saw (`mid`: the
/// running state with the new clock reading and no published snapshot) to
/// the state before (`o`), and from the handler's result (`g`) to the
/// state after publishing (`f`).
proof fn lemma_effects_carry<C: Clock>(
    o: &Supervisor<C>,
    mid: &Supervisor<C>,
    g: &Supervisor<C>,
    f: &Supervisor<C>,
    e: &Event,
    effs: Seq<Effect>,
    now: u64,
)
    requires
        mid.same_core(o),
        f.same_core(g),
        step_ok(mid, g, e, effs, now),
    ensures
        effects_ok(o, f, e, effs, now),
        stale_result(o, e) ==> f.same_core(o),
{
    reveal(effects_ok);
    assert(forall|x: Effect| guarded(mid, x, now) == guarded(o, x, now));
    assert(stale_result(o, e) == stale_result(mid, e));
    assert(e matches Event::WatchdogStepped(step) ==> watchdog_sample_effects(o, step.session, now, effs)
        == watchdog_sample_effects(mid, step.session, now, effs));
    assert(e matches Event::Heartbeat(h) ==> heartbeat_effects(o, *h, now, effs) == heartbeat_effects(
        mid,
        *h,
        now,
        effs,
    ));
}

/// The log laws carry over like the effect laws (see `lemma_effects_carry`).
proof fn lemma_log_carry<C: Clock>(
    o: &Supervisor<C>,
    mid: &Supervisor<C>,
    g: &Supervisor<C>,
    f: &Supervisor<C>,
    e: &Event,
    effs: Seq<Effect>,
    wall: u64,
)
    requires
        mid.same_core(o),
        f.same_core(g),
        log_ok(mid, g, e, effs, wall),
    ensures
        log_ok(o, f, e, effs, wall),
{
    reveal(log_ok);
    assert(o.log() == mid.log() && f.log() == g.log());
    assert(f.join_since() == g.join_since());
    assert(forall|up: Option<bool>| o.link_restores(up) == mid.link_restores(up));
    if e is WirelessSampled && o.started() {
        let (d, t) = choose|d: Option<Seq<char>>, t: Option<Seq<char>>|
            sample_msgs_ok(g, effs, d, t) && g.log() == #[trigger] log_line(log_line(mid.log(), wall, d), wall, t);
        assert(sample_msgs_ok(f, effs, d, t));
        assert(f.log() == log_line(log_line(o.log(), wall, d), wall, t));
    }
}

/// The schedule and takeover laws carry over like the effect laws.
proof fn lemma_core_carry<C: Clock>(
    o: &Supervisor<C>,
    mid: &Supervisor<C>,
    g: &Supervisor<C>,
    f: &Supervisor<C>,
    e: &Event,
    effs: Seq<Effect>,
    now: u64,
)
    requires
        mid.same_core(o),
        f.same_core(g),
        core_ok(mid, g, e, effs, now),
    ensures
        core_ok(o, f, e, effs, now),
{
    reveal(core_ok);
    assert(wake_effects(mid, now) == wake_effects(o, now));
    if o.started() && o.wireless_sample_in_flight() && o.brain() is Some {
        if let Event::WirelessSampled(smp) = e {
            assert(sample_decision(mid, *smp, now) == sample_decision(o, *smp, now));
            assert(metric_effects_at(mid, smp.wlan) == metric_effects_at(o, smp.wlan));
            assert(forall|a: Action, go: bool, x: Seq<Effect>|
                action_ok_at(mid, smp.wlan, a, go, x) == action_ok_at(o, smp.wlan, a, go, x));
        }
    }
}

/// A session stuck on authentication failures (691) counts as failing
/// redials: a first failing sample starts the streak, and a failing sample
/// ten minutes or more later, with the cable in, raises the
/// redial-failing toast when the notification ledger lets it go.
pub proof fn lemma_auth_failures_raise_redial_toast<C: Clock>(
    o: &Supervisor<C>,
    f1: &Supervisor<C>,
    step1: WatchdogStep,
    r1: &Reaction,
    f2: &Supervisor<C>,
    step2: WatchdogStep,
    r2: &Reaction,
)
    requires
        o.started(),
        !o.stopped(),
        o.failing_since() is None,
        step1.session.status == SessionStatus::AuthFail,
        reaction_ok(o, f1, &Event::WatchdogStepped(step1), r1),
        step2.session.status == SessionStatus::AuthFail,
        reaction_ok(f1, f2, &Event::WatchdogStepped(step2), r2),
        f2.last_now() >= f1.last_now() + REDIAL_FAILING_TOAST_AFTER_MS,
        f1.eth_link() != Some(false),
        opt_view(step2.session.last_drop_reason) != Some("Ethernet link down"@),
        f1.notify().may_send(ToastKey::RedialFailing, f2.last_now()),
    ensures
        f1.failing_since() == Some(f1.last_now()),
        r2.effects@.len() == 1,
        r2.effects@[0] matches Effect::Notify { key, .. } && key == ToastKey::RedialFailing,
{
    reveal(effects_ok);
    assert(f1.failing_since() == Some(f1.last_now()));
    assert(failing_for(f1, f2.last_now()) >= REDIAL_FAILING_TOAST_AFTER_MS);
    assert(redial_toast_due(f1, step2.session, f2.last_now()));
}

/// Events about the wired side, the heartbeat and toasts.
pub open spec fn is_wired_event(e: &Event) -> bool {
    e is Started || e is Wake || e is Command || e is LinkSampled || e is WatchdogStepped
        || e is Heartbeat || e is NotifyResult
}

impl<C: Clock> Supervisor<C> {
    #[verifier::rlimit(80)]
    fn run_wired(&mut self, event: Event, now: u64, wall: u64) -> (effs: Vec<Effect>)
        requires
            old(self).wf(),
            old(self).started,
            !old(self).stopped,
            old(self).last_now == now,
            is_wired_event(&event),
        ensures
            core_ok(old(self), final(self), &event, effs@, now),
            log_ok(old(self), final(self), &event, effs@, wall),
            final(self).wf(),
            step_ok(old(self), final(self), &event, effs@, now),
    {
        proof {
            reveal(effects_ok);
            reveal(core_ok);
            reveal(log_ok);
        }
        match event {
            Event::Wake => self.handle_wake(now),
            Event::Command(cmd) => self.handle_command(cmd, wall),
            Event::LinkSampled(up) => self.handle_link_sampled(up, now, wall),
            Event::WatchdogStepped(step) => self.handle_watchdog_stepped(step, now),
            Event::Heartbeat(status) => self.handle_heartbeat(status, now),
            Event::NotifyResult { key, delivered } => {
                self.handle_notify_result(key, delivered, now);
                Vec::new()
            },
            _ => Vec::new(),
        }
    }

    #[verifier::rlimit(100)]
    fn run_wireless(&mut self, event: Event, now: u64, wall: u64) -> (effs: Vec<Effect>)
        requires
            old(self).wf(),
            old(self).started,
            !old(self).stopped,
            old(self).last_now == now,
            !is_wired_event(&event),
        ensures
            core_ok(old(self), final(self), &event, effs@, now),
            log_ok(old(self), final(self), &event, effs@, wall),
            final(self).wf(),
            step_ok(old(self), final(self), &event, effs@, now),
    {
        let ghost ev = event;
        match event {
            Event::WirelessSampled(sample) => {
                let effs = self.handle_wireless_sampled(sample, now, wall);
                assert(log_ok(old(self), &*self, &ev, effs@, wall)) by {
                    reveal(log_ok);
                }
                assert(core_ok(old(self), &*self, &ev, effs@, now)) by {
                    reveal(core_ok);
                }
                proof {
                    reveal(effects_ok);
                }
                effs
            },
            Event::Stop => {
                let effs = self.handle_stop(wall);
                assert(log_ok(old(self), &*self, &ev, effs@, wall)) by {
                    reveal(log_ok);
                }
                assert(core_ok(old(self), &*self, &ev, effs@, now)) by {
                    reveal(core_ok);
                }
                proof {
                    reveal(effects_ok);
                }
                effs
            },
            _ => {
                self.run_wireless_result(event, now, wall);
                Vec::new()
            },
        }
    }

    #[verifier::rlimit(80)]
    fn run_wireless_result(&mut self, event: Event, now: u64, wall: u64)
        requires
            old(self).wf(),
            old(self).started,
            !old(self).stopped,
            old(self).last_now == now,
            !is_wired_event(&event),
            !(event is WirelessSampled),
            !(event is Stop),
        ensures
            core_ok(old(self), final(self), &event, Seq::<Effect>::empty(), now),
            log_ok(old(self), final(self), &event, Seq::<Effect>::empty(), wall),
            final(self).wf(),
            step_ok(old(self), final(self), &event, Seq::<Effect>::empty(), now),
    {
        proof {
            reveal(effects_ok);
            reveal(core_ok);
            reveal(log_ok);
        }
        match event {
            Event::AssociateFinished(res) => self.handle_associate_finished(res, now),
            Event::PortalFinished(attempt) => self.handle_portal_finished(attempt, now, wall),
            Event::WlanProbeFinished(verdict) => self.handle_probe_finished(verdict, wall),
            _ => self.handle_wireless_died(wall),
        }
    }

    #[verifier::rlimit(40)]
    fn run_event(&mut self, event: Event, now: u64, wall: u64) -> (effs: Vec<Effect>)
        requires
            old(self).wf(),
            old(self).last_now == now,
            handles(old(self), &event),
        ensures
            core_ok(old(self), final(self), &event, effs@, now),
            log_ok(old(self), final(self), &event, effs@, wall),
            final(self).wf(),
            step_ok(old(self), final(self), &event, effs@, now),
    {
        proof {
            reveal(effects_ok);
            reveal(core_ok);
            reveal(log_ok);
        }
        if !self.started {
            self.handle_started(now, wall)
        } else if is_wired(&event) {
            self.run_wired(event, now, wall)
        } else {
            self.run_wireless(event, now, wall)
        }
    }

    /// Reacts to `event` at monotonic time `now` (ms; a reading behind the
    /// last one counts as the last one) and wall-clock time `wall` (Unix seconds).
    #[verifier::rlimit(100)]
    pub fn on_at(&mut self, event: Event, now: u64, wall: u64) -> (r: Reaction)
        requires
            old(self).wf(),
        ensures
            final(self).wf(),
            reaction_ok(old(self), final(self), &event, &r),
            handles(old(self), &event) ==> final(self).last_now() == if now < old(self).last_now() {
                old(self).last_now()
            } else {
                now
            },
            final(self).last_now() >= old(self).last_now(),
            handles(old(self), &event) ==> log_ok(old(self), final(self), &event, r.effects@, wall),
    {
        let now = if now < self.last_now {
            self.last_now
        } else {
            now
        };
        let ghost o = *self;
        if !self.started {
            if !is_started(&event) {
                return Reaction { effects: Vec::new(), snapshot: None, wake_at: None };
            }
        } else if self.stopped {
            return Reaction { effects: Vec::new(), snapshot: None, wake_at: None };
        }
        assert(self.last_now / 1000 <= now / 1000) by (nonlinear_arith)
            requires
                self.last_now <= now,
        ;
        self.last_now = now;
        let last = self.last_snapshot.take();
        let ghost mid = *self;
        let ghost ev = event;
        let effects = self.run_event(event, now, wall);
        let ghost g = *self;
        self.last_snapshot = last;
        let snapshot = self.publish();
        proof {
            lemma_effects_carry(&o, &mid, &g, &*self, &ev, effects@, now);
            lemma_log_carry(&o, &mid, &g, &*self, &ev, effects@, wall);
            lemma_core_carry(&o, &mid, &g, &*self, &ev, effects@, now);
        }
        let wake_at = if !self.stopped {
            Some(self.next_wake(now))
        } else {
            None
        };
        proof {
            if !o.started() {
                assert(g.link_poll_at == now);
                assert(!g.stopped);
                assert(self.link_poll_at == now);
                assert(self.next_wake_at(now) == now);
            }
            assert(self.next_wake_at(now) >= now);
            if ev is Stop {
                assert(self.stopped && effects@.len() >= 1 && effects@[0] is Hangup) by {
                    reveal(effects_ok);
                }
            } else {
                assert(!g.stopped());
                assert(!self.stopped);
            }
        }
        Reaction { effects, snapshot, wake_at }
    }

    /// Reacts to `event`, reading the time from the clock once.
    pub fn on(&mut self, event: Event) -> (r: Reaction)
        requires
            old(self).wf(),
        ensures
            final(self).wf(),
            reaction_ok(old(self), final(self), &event, &r),
            final(self).last_now() >= old(self).last_now(),
            handles(old(self), &event) ==> exists|wall: u64|
                #[trigger] log_ok(old(self), final(self), &event, r.effects@, wall),
    {
        let now = self.clock.now_ms();
        let wall = self.clock.wall_secs();
        self.on_at(event, now, wall)
    }
}

fn is_started(e: &Event) -> (r: bool)
    ensures
        r == e is Started,
{
    match e {
        Event::Started => true,
        _ => false,
    }
}

fn is_wired(e: &Event) -> (r: bool)
    ensures
        r == is_wired_event(e),
{
    match e {
        Event::Started | Event::Wake | Event::Command(_) | Event::LinkSampled(_)
        | Event::WatchdogStepped(_) | Event::Heartbeat(_) | Event::NotifyResult { .. } => true,
        _ => false,
    }
}

} // verus!
