//! Wireless takeover: the pure decision core. It never touches the system;
//! each tick it reads a `World` and answers with an `Action`.

use vstd::prelude::*;

use crate::probe::ProbeVerdict;
use crate::protocol::{clone_opt, opt_view, result_view, NetMode, WPhase, WirelessSnapshot};

verus! {

/// Portal authentication retry delays in seconds: 5s, 15s, then 30s for good.
pub const AUTH_RETRY_DELAYS: [u64; 3] = [5, 15, 30];

/// Joining timeout (seconds) after which the manager restarts the join.
pub const JOIN_TIMEOUT_SECS: u64 = 60;

/// The world as sampled on one tick (plain data).
#[derive(Debug, Clone, Default)]
pub struct World {
    pub now: u64,
    pub eth_link_up: bool,
    pub wired_connected: bool,
    pub wlan_associated: bool,
    pub wlan_ip: bool,
    pub probe: Option<ProbeVerdict>,
}

/// What the manager should do after a tick.
#[derive(Debug, Clone, Copy, PartialEq, Eq, Structural)]
pub enum Action {
    NoOp,
    /// Connect to the WLAN profile.
    Associate,
    /// Disconnect the WLAN and roll back routes and metric.
    Disassociate,
    /// Send one portal login; the result comes back through `Brain::on_auth`.
    PortalAuth,
    /// Run a probe; its verdict is cached into the next tick's `World.probe`.
    ProbeNow,
}

/// Retry delay (seconds) after the `n`-th consecutive authentication failure.
pub open spec fn retry_delay(n: u32) -> u64 {
    if n <= 1 {
        5
    } else if n == 2 {
        15
    } else {
        30
    }
}

/// `t` is due at `now` (no deadline means due).
pub open spec fn due(t: Option<u64>, now: u64) -> bool {
    match t {
        None => true,
        Some(t) => now >= t,
    }
}

/// Pure decision core of the wireless takeover.
pub struct Brain {
    mode: NetMode,
    phase: WPhase,
    unhealthy_since: Option<u64>,
    healthy_since: Option<u64>,
    last_probe_at: Option<u64>,
    auth_busy: bool,
    auth_fail_count: u32,
    next_auth_at: Option<u64>,
    last_error: Option<String>,
    takeover_after: u64,
    release_after: u64,
    probe_interval: u64,
}

/// Abstract state of the brain (its fields, with the error as characters).
pub struct BrainView {
    pub mode: NetMode,
    pub phase: WPhase,
    pub unhealthy_since: Option<u64>,
    pub healthy_since: Option<u64>,
    pub last_probe_at: Option<u64>,
    pub auth_busy: bool,
    pub auth_fail_count: u32,
    pub next_auth_at: Option<u64>,
    pub last_error: Option<Seq<char>>,
    pub takeover_after: u64,
    pub release_after: u64,
    pub probe_interval: u64,
}

impl View for Brain {
    type V = BrainView;

    closed spec fn view(&self) -> BrainView {
        BrainView {
            mode: self.mode,
            phase: self.phase,
            unhealthy_since: self.unhealthy_since,
            healthy_since: self.healthy_since,
            last_probe_at: self.last_probe_at,
            auth_busy: self.auth_busy,
            auth_fail_count: self.auth_fail_count,
            next_auth_at: self.next_auth_at,
            last_error: opt_view(self.last_error),
            takeover_after: self.takeover_after,
            release_after: self.release_after,
            probe_interval: self.probe_interval,
        }
    }
}

impl BrainView {
    /// No recorded time lies after `now` (the clock never runs backwards).
    pub open spec fn times_before(self, now: u64) -> bool {
        &&& (self.unhealthy_since matches Some(t) ==> t <= now)
        &&& (self.healthy_since matches Some(t) ==> t <= now)
        &&& (self.last_probe_at matches Some(t) ==> t <= now)
    }

    /// Start joining: phase Joining, auth state and error cleared.
    pub open spec fn start_join(self) -> BrainView {
        BrainView {
            phase: WPhase::Joining,
            auth_busy: false,
            next_auth_at: None,
            last_error: None,
            ..self
        }
    }

    /// A failed portal login with message `msg` at `now`: one more
    /// failure, the next try after its retry delay, in the Error phase.
    pub open spec fn auth_failed(self, msg: Seq<char>, now: u64) -> BrainView {
        let count = if self.auth_fail_count == u32::MAX {
            u32::MAX
        } else {
            (self.auth_fail_count + 1) as u32
        };
        BrainView {
            auth_busy: false,
            auth_fail_count: count,
            next_auth_at: Some((now + retry_delay(count)) as u64),
            phase: WPhase::Error,
            last_error: Some(msg),
            ..self
        }
    }

    /// Back to Off: auth state, error and probe clock cleared.
    pub open spec fn reset_off(self) -> BrainView {
        BrainView {
            phase: WPhase::Off,
            auth_busy: false,
            next_auth_at: None,
            last_error: None,
            last_probe_at: None,
            ..self
        }
    }

    /// Enter Authing and ask for a portal login.
    pub open spec fn begin_auth(self) -> BrainView {
        BrainView { phase: WPhase::Authing, auth_busy: true, next_auth_at: None, ..self }
    }

    /// Keeping the wireless link up (standby mode, or exclusive mode while
    /// the wired link is unhealthy).
    pub open spec fn keep_wireless(self, w: World) -> (BrainView, Action) {
        match self.phase {
            WPhase::Off => (self.start_join(), Action::Associate),
            WPhase::Error => if due(self.next_auth_at, w.now) {
                (self.start_join(), Action::Associate)
            } else {
                (self, Action::NoOp)
            },
            WPhase::Joining => if w.wlan_associated && w.wlan_ip {
                (self.begin_auth(), Action::PortalAuth)
            } else {
                (self, Action::NoOp)
            },
            WPhase::Authing => if !self.auth_busy && due(self.next_auth_at, w.now) {
                (BrainView { auth_busy: true, ..self }, Action::PortalAuth)
            } else {
                (self, Action::NoOp)
            },
            WPhase::Online => if w.probe == Some(ProbeVerdict::Kicked) {
                (self.begin_auth(), Action::PortalAuth)
            } else if !w.wlan_associated || !w.wlan_ip {
                (self.start_join(), Action::Associate)
            } else {
                match self.last_probe_at {
                    None => (BrainView { last_probe_at: Some(w.now), ..self }, Action::ProbeNow),
                    Some(t) => if w.now - t >= self.probe_interval {
                        (BrainView { last_probe_at: Some(w.now), ..self }, Action::ProbeNow)
                    } else {
                        (self, Action::NoOp)
                    },
                }
            },
        }
    }

    /// One tick: standby mode keeps the wireless link; exclusive mode
    /// releases it once the wired link has been healthy (link up and session
    /// connected) for `release_after`, and takes over once it has been
    /// unhealthy for `takeover_after`.
    pub open spec fn decide(self, w: World) -> (BrainView, Action) {
        match self.mode {
            NetMode::WiredPlusStandby => self.keep_wireless(w),
            NetMode::WiredExclusive => if w.eth_link_up && w.wired_connected {
                let since = match self.healthy_since {
                    Some(t) => t,
                    None => w.now,
                };
                let s = BrainView { unhealthy_since: None, healthy_since: Some(since), ..self };
                if w.now - since >= self.release_after && self.phase != WPhase::Off {
                    (s.reset_off(), Action::Disassociate)
                } else {
                    (s, Action::NoOp)
                }
            } else {
                let since = match self.unhealthy_since {
                    Some(t) => t,
                    None => w.now,
                };
                let s = BrainView { healthy_since: None, unhealthy_since: Some(since), ..self };
                let debounced = w.now - since >= self.takeover_after;
                match s.phase {
                    WPhase::Off => if debounced {
                        (s.start_join(), Action::Associate)
                    } else {
                        (s, Action::NoOp)
                    },
                    WPhase::Error => if due(s.next_auth_at, w.now) {
                        (s.start_join(), Action::Associate)
                    } else {
                        (s, Action::NoOp)
                    },
                    _ => s.keep_wireless(w),
                }
            },
        }
    }
}

impl Brain {
    /// A brain in phase Off with the given mode and thresholds (seconds).
    pub fn new(mode: NetMode, takeover_after: u64, release_after: u64, probe_interval: u64) -> (r:
        Self)
        ensures
            r@ == (BrainView {
                mode,
                phase: WPhase::Off,
                unhealthy_since: None,
                healthy_since: None,
                last_probe_at: None,
                auth_busy: false,
                auth_fail_count: 0,
                next_auth_at: None,
                last_error: None,
                takeover_after,
                release_after,
                probe_interval,
            }),
    {
        Brain {
            mode,
            phase: WPhase::Off,
            unhealthy_since: None,
            healthy_since: None,
            last_probe_at: None,
            auth_busy: false,
            auth_fail_count: 0,
            next_auth_at: None,
            last_error: None,
            takeover_after,
            release_after,
            probe_interval,
        }
    }

    /// Current phase.
    pub fn phase(&self) -> (r: WPhase)
        ensures
            r == self@.phase,
    {
        self.phase
    }

    /// Switches the mode; nothing else changes.
    pub fn set_mode(&mut self, m: NetMode)
        ensures
            final(self)@ == (BrainView { mode: m, ..old(self)@ }),
    {
        self.mode = m;
    }

    /// Joining timeout or external reset: back to Off.
    pub fn restart(&mut self)
        ensures
            final(self)@ == old(self)@.reset_off(),
    {
        self.reset_off();
    }

    /// Result of a portal login: success goes Online and clears the
    /// failures; failure goes to Error and schedules the next try after
    /// 5s, 15s, then 30s.
    pub fn on_auth(&mut self, ok: bool, msg: &str, now: u64)
        requires
            now <= u64::MAX - 30,
        ensures
            ok ==> final(self)@ == (BrainView {
                auth_busy: false,
                phase: WPhase::Online,
                auth_fail_count: 0,
                next_auth_at: None,
                last_error: None,
                last_probe_at: None,
                ..old(self)@
            }),
            !ok ==> final(self)@ == (BrainView {
                auth_busy: false,
                auth_fail_count: if old(self)@.auth_fail_count == u32::MAX {
                    u32::MAX
                } else {
                    (old(self)@.auth_fail_count + 1) as u32
                },
                next_auth_at: Some(
                    (now + retry_delay(
                        if old(self)@.auth_fail_count == u32::MAX {
                            u32::MAX
                        } else {
                            (old(self)@.auth_fail_count + 1) as u32
                        },
                    )) as u64,
                ),
                phase: WPhase::Error,
                last_error: Some(msg@),
                ..old(self)@
            }),
    {
        self.auth_busy = false;
        if ok {
            self.phase = WPhase::Online;
            self.auth_fail_count = 0;
            self.next_auth_at = None;
            self.last_error = None;
            self.last_probe_at = None;
        } else {
            self.auth_fail_count = self.auth_fail_count.saturating_add(1);
            let idx: usize = if self.auth_fail_count as u64 - 1 < 2 {
                (self.auth_fail_count - 1) as usize
            } else {
                2
            };
            self.next_auth_at = Some(now + AUTH_RETRY_DELAYS[idx]);
            self.phase = WPhase::Error;
            self.last_error = Some(msg.to_string());
        }
    }

    /// Wireless part of the snapshot (the IP is filled in by the supervisor).
    pub fn snapshot(&self) -> (r: WirelessSnapshot)
        ensures
            r.phase == self@.phase,
            r.ip is None,
            opt_view(r.last_error) == self@.last_error,
    {
        WirelessSnapshot { phase: self.phase, ip: None, last_error: clone_opt(&self.last_error) }
    }

    /// One tick of the decision core.
    pub fn decide(&mut self, w: &World) -> (r: Action)
        requires
            old(self)@.times_before(w.now),
        ensures
            (final(self)@, r) == old(self)@.decide(*w),
            final(self)@.times_before(w.now),
    {
        match self.mode {
            NetMode::WiredPlusStandby => self.keep_wireless(w),
            NetMode::WiredExclusive => {
                if w.eth_link_up && w.wired_connected {
                    self.unhealthy_since = None;
                    let since = match self.healthy_since {
                        Some(t) => t,
                        None => w.now,
                    };
                    self.healthy_since = Some(since);
                    if w.now - since >= self.release_after && self.phase != WPhase::Off {
                        self.reset_off();
                        return Action::Disassociate;
                    }
                    Action::NoOp
                } else {
                    self.healthy_since = None;
                    let since = match self.unhealthy_since {
                        Some(t) => t,
                        None => w.now,
                    };
                    self.unhealthy_since = Some(since);
                    let debounced = w.now - since >= self.takeover_after;
                    match self.phase {
                        WPhase::Off => {
                            if debounced {
                                self.start_join()
                            } else {
                                Action::NoOp
                            }
                        },
                        WPhase::Error => {
                            let is_due = match self.next_auth_at {
                                None => true,
                                Some(t) => w.now >= t,
                            };
                            if is_due {
                                self.start_join()
                            } else {
                                Action::NoOp
                            }
                        },
                        _ => self.keep_wireless(w),
                    }
                }
            },
        }
    }

    /// Keeps the wireless link (standby in full, exclusive while wired is down).
    fn keep_wireless(&mut self, w: &World) -> (r: Action)
        requires
            old(self)@.times_before(w.now),
        ensures
            (final(self)@, r) == old(self)@.keep_wireless(*w),
            final(self)@.times_before(w.now),
    {
        match self.phase {
            WPhase::Off => self.start_join(),
            WPhase::Error => {
                let is_due = match self.next_auth_at {
                    None => true,
                    Some(t) => w.now >= t,
                };
                if is_due {
                    self.start_join()
                } else {
                    Action::NoOp
                }
            },
            WPhase::Joining => {
                if w.wlan_associated && w.wlan_ip {
                    self.phase = WPhase::Authing;
                    self.auth_busy = true;
                    self.next_auth_at = None;
                    Action::PortalAuth
                } else {
                    Action::NoOp
                }
            },
            WPhase::Authing => {
                let is_due = match self.next_auth_at {
                    None => true,
                    Some(t) => w.now >= t,
                };
                if !self.auth_busy && is_due {
                    self.auth_busy = true;
                    Action::PortalAuth
                } else {
                    Action::NoOp
                }
            },
            WPhase::Online => {
                if w.probe == Some(ProbeVerdict::Kicked) {
                    self.phase = WPhase::Authing;
                    self.auth_busy = true;
                    self.next_auth_at = None;
                    return Action::PortalAuth;
                }
                if !w.wlan_associated || !w.wlan_ip {
                    return self.start_join();
                }
                match self.last_probe_at {
                    None => {
                        self.last_probe_at = Some(w.now);
                        Action::ProbeNow
                    },
                    Some(t) => {
                        if w.now - t >= self.probe_interval {
                            self.last_probe_at = Some(w.now);
                            Action::ProbeNow
                        } else {
                            Action::NoOp
                        }
                    },
                }
            },
        }
    }

    fn start_join(&mut self) -> (r: Action)
        ensures
            final(self)@ == old(self)@.start_join(),
            r == Action::Associate,
    {
        self.phase = WPhase::Joining;
        self.auth_busy = false;
        self.next_auth_at = None;
        self.last_error = None;
        Action::Associate
    }

    fn reset_off(&mut self)
        ensures
            final(self)@ == old(self)@.reset_off(),
    {
        self.phase = WPhase::Off;
        self.auth_busy = false;
        self.next_auth_at = None;
        self.last_error = None;
        self.last_probe_at = None;
    }
}


/// Takeover is debounced: in exclusive mode, while the wired side has been
/// unhealthy for less than `takeover_after`, an idle brain stays idle.
pub proof fn lemma_takeover_debounced(b: BrainView, w: World)
    requires
        b.mode == NetMode::WiredExclusive,
        b.phase == WPhase::Off,
        !(w.eth_link_up && w.wired_connected),
        b.times_before(w.now),
        match b.unhealthy_since {
            Some(t) => w.now - t < b.takeover_after,
            None => b.takeover_after > 0,
        },
    ensures
        b.decide(w).1 == Action::NoOp,
        b.decide(w).0.phase == WPhase::Off,
{
}

/// Once the wired side has been unhealthy for `takeover_after`, an idle
/// brain in exclusive mode starts joining the wireless network.
pub proof fn lemma_takeover_after_debounce(b: BrainView, w: World)
    requires
        b.mode == NetMode::WiredExclusive,
        b.phase == WPhase::Off,
        !(w.eth_link_up && w.wired_connected),
        b.times_before(w.now),
        match b.unhealthy_since {
            Some(t) => w.now - t >= b.takeover_after,
            None => b.takeover_after == 0,
        },
    ensures
        b.decide(w).1 == Action::Associate,
        b.decide(w).0.phase == WPhase::Joining,
{
}

/// In exclusive mode a wired side healthy for `release_after` makes an
/// active wireless link be released and the brain go back to Off.
pub proof fn lemma_release_after_healthy(b: BrainView, w: World)
    requires
        b.mode == NetMode::WiredExclusive,
        b.phase != WPhase::Off,
        w.eth_link_up && w.wired_connected,
        b.times_before(w.now),
        match b.healthy_since {
            Some(t) => w.now - t >= b.release_after,
            None => b.release_after == 0,
        },
    ensures
        b.decide(w).1 == Action::Disassociate,
        b.decide(w).0.phase == WPhase::Off,
{
}

/// While the wired side is healthy in exclusive mode, an idle brain does nothing.
pub proof fn lemma_healthy_wired_keeps_wireless_off(b: BrainView, w: World)
    requires
        b.mode == NetMode::WiredExclusive,
        b.phase == WPhase::Off,
        w.eth_link_up && w.wired_connected,
        b.times_before(w.now),
    ensures
        b.decide(w).1 == Action::NoOp,
        b.decide(w).0.phase == WPhase::Off,
{
}

/// Standby mode never releases the wireless link.
pub proof fn lemma_standby_never_releases(b: BrainView, w: World)
    requires
        b.mode == NetMode::WiredPlusStandby,
    ensures
        b.decide(w).1 != Action::Disassociate,
{
}

/// A kicked verdict while online leads to a new portal login at once.
pub proof fn lemma_kicked_reauthenticates(b: BrainView, w: World)
    requires
        b.phase == WPhase::Online,
        w.probe == Some(ProbeVerdict::Kicked),
        b.mode == NetMode::WiredPlusStandby || !(w.eth_link_up && w.wired_connected),
    ensures
        b.decide(w).1 == Action::PortalAuth,
        b.decide(w).0.phase == WPhase::Authing,
{
}

/// Portal retries back off 5s, 15s, then 30s, never shrinking and never above 30s.
pub proof fn lemma_retry_delays(a: u32, b: u32)
    requires
        a <= b,
    ensures
        retry_delay(a) <= retry_delay(b) <= 30,
        retry_delay(1) == 5,
        retry_delay(2) == 15,
        retry_delay(3) == 30,
{
}

/// An error phase waits for its retry deadline before joining again.
pub proof fn lemma_error_waits_for_deadline(b: BrainView, w: World)
    requires
        b.phase == WPhase::Error,
        b.next_auth_at matches Some(t) && w.now < t,
        b.mode == NetMode::WiredPlusStandby || !(w.eth_link_up && w.wired_connected),
    ensures
        b.decide(w).1 == Action::NoOp,
        b.decide(w).0.phase == WPhase::Error,
{
}

/// The `netsh` fallback of a WLAN connect: `wlan connect name=<profile>`.
pub open spec fn spec_netsh_connect_args(profile: Seq<char>) -> Seq<Seq<char>> {
    seq!["wlan"@, "connect"@, "name="@ + profile]
}

/// The `netsh` fallback of a WLAN disconnect.
pub open spec fn spec_netsh_disconnect_args() -> Seq<Seq<char>> {
    seq!["wlan"@, "disconnect"@]
}

/// The connection control of the WLAN adapter: the WLAN API, and `netsh`
/// as the fallback back end.
pub trait WlanControl {
    /// The calls made on this control so far, oldest first. A control that
    /// keeps no record of them leaves this empty, and then does not meet the
    /// contracts below; `associate` and `disassociate` speak of this record.
    closed spec fn calls(&self) -> Seq<WlanCall> {
        Seq::empty()
    }

    /// Connects the first WLAN interface with the profile through the WLAN API.
    fn api_connect(&mut self, profile: &str) -> (r: Result<(), String>)
        ensures
            final(self).calls() == old(self).calls().push(WlanCall::ApiConnect(profile@, result_view(r))),
    ;

    /// Disconnects the first WLAN interface through the WLAN API.
    fn api_disconnect(&mut self) -> (r: Result<(), String>)
        ensures
            final(self).calls() == old(self).calls().push(WlanCall::ApiDisconnect(result_view(r))),
    ;

    /// Runs `netsh` with the arguments.
    fn netsh(&mut self, args: &[String]) -> (r: Result<(), String>)
        ensures
            final(self).calls() == old(self).calls().push(
                WlanCall::Netsh(args@.map_values(|a: String| a@), result_view(r)),
            ),
    ;
}

/// A call made on the WLAN control, with its arguments and result.
pub enum WlanCall {
    ApiConnect(Seq<char>, Result<(), Seq<char>>),
    ApiDisconnect(Result<(), Seq<char>>),
    Netsh(Seq<Seq<char>>, Result<(), Seq<char>>),
}

/// The calls of an association whose API call returned `api` and which
/// ended with `result`: the API call, then `netsh` when the API failed.
pub open spec fn associate_calls(profile: Seq<char>, api: Result<(), Seq<char>>, result: Result<(), Seq<char>>) -> Seq<WlanCall> {
    if api is Ok {
        seq![WlanCall::ApiConnect(profile, api)]
    } else {
        seq![WlanCall::ApiConnect(profile, api), WlanCall::Netsh(spec_netsh_connect_args(profile), result)]
    }
}

/// The calls of a disassociation whose API call returned `api` and which
/// ended with `result`: the API call, then `netsh` when the API failed.
pub open spec fn disassociate_calls(api: Result<(), Seq<char>>, result: Result<(), Seq<char>>) -> Seq<WlanCall> {
    if api is Ok {
        seq![WlanCall::ApiDisconnect(api)]
    } else {
        seq![WlanCall::ApiDisconnect(api), WlanCall::Netsh(spec_netsh_disconnect_args(), result)]
    }
}

/// What follows the WLAN API's connect: nothing when it succeeded, else the
/// `netsh` command to run instead.
pub fn connect_fallback(api: &Result<(), String>, profile: &str) -> (r: Option<Vec<String>>)
    ensures
        api is Ok ==> r is None,
        api is Err ==> (r matches Some(args) && args@.map_values(|a: String| a@)
            == spec_netsh_connect_args(profile@)),
{
    match api {
        Ok(()) => None,
        Err(_) => {
            let mut name = String::from_str("name=");
            crate::text::push_str(&mut name, profile);
            let args = vec![String::from_str("wlan"), String::from_str("connect"), name];
            assert(args@.map_values(|a: String| a@) =~= spec_netsh_connect_args(profile@));
            Some(args)
        },
    }
}

/// What follows the WLAN API's disconnect: nothing when it succeeded, else
/// the `netsh` command to run instead.
pub fn disconnect_fallback(api: &Result<(), String>) -> (r: Option<Vec<String>>)
    ensures
        api is Ok ==> r is None,
        api is Err ==> (r matches Some(args) && args@.map_values(|a: String| a@)
            == spec_netsh_disconnect_args()),
{
    match api {
        Ok(()) => None,
        Err(_) => {
            let args = vec![String::from_str("wlan"), String::from_str("disconnect")];
            assert(args@.map_values(|a: String| a@) =~= spec_netsh_disconnect_args());
            Some(args)
        },
    }
}

/// Associates the WLAN profile: the WLAN API first, `netsh` when it fails.
/// Succeeds when the API call does; otherwise the result is that of `netsh`.
pub fn associate<W: WlanControl>(w: &mut W, profile: &str) -> (r: Result<(), String>)
    ensures
        exists|api: Result<(), Seq<char>>|
            {
                &&& final(w).calls() == old(w).calls() + #[trigger] associate_calls(profile@, api, result_view(r))
                &&& api is Ok ==> r is Ok
            },
{
    let api = w.api_connect(profile);
    let ghost av = result_view(api);
    let r = match connect_fallback(&api, profile) {
        None => Ok(()),
        Some(args) => w.netsh(args.as_slice()),
    };
    assert(w.calls() =~= old(w).calls() + associate_calls(profile@, av, result_view(r)));
    r
}

/// Disassociates the WLAN: the WLAN API first, `netsh` when it fails.
/// Succeeds when the API call does; otherwise the result is that of `netsh`.
pub fn disassociate<W: WlanControl>(w: &mut W) -> (r: Result<(), String>)
    ensures
        exists|api: Result<(), Seq<char>>|
            {
                &&& final(w).calls() == old(w).calls() + #[trigger] disassociate_calls(api, result_view(r))
                &&& api is Ok ==> r is Ok
            },
{
    let api = w.api_disconnect();
    let ghost av = result_view(api);
    let r = match disconnect_fallback(&api) {
        None => Ok(()),
        Some(args) => w.netsh(args.as_slice()),
    };
    assert(w.calls() =~= old(w).calls() + disassociate_calls(av, result_view(r)));
    r
}


/// The manager after failed logins with messages `msgs` at times `times`
/// (seconds), in order.
pub open spec fn failed_logins(b: BrainView, msgs: Seq<Seq<char>>, times: Seq<u64>) -> BrainView
    decreases msgs.len(),
{
    if msgs.len() == 0 {
        b
    } else {
        failed_logins(b, msgs.drop_last(), times.take(msgs.len() - 1)).auth_failed(
            msgs.last(),
            times[msgs.len() - 1],
        )
    }
}

proof fn lemma_failed_logins_count(b: BrainView, msgs: Seq<Seq<char>>, times: Seq<u64>)
    requires
        b.auth_fail_count == 0,
        msgs.len() < u32::MAX,
        times.len() >= msgs.len(),
    ensures
        failed_logins(b, msgs, times).auth_fail_count == msgs.len(),
        failed_logins(b, msgs, times).mode == b.mode,
    decreases msgs.len(),
{
    if msgs.len() > 0 {
        lemma_failed_logins_count(b, msgs.drop_last(), times.take(msgs.len() - 1));
    }
}

/// A run of failed logins since the last success (or since the start):
/// after the `j`-th failure the manager is in the error phase with that
/// failure's message, and waits 5, 15, then 30 s (from the third failure
/// on) after it; in standby mode its next decision is to wait before that
/// deadline and to join again from it on.
pub proof fn lemma_failed_login_schedule(b: BrainView, msgs: Seq<Seq<char>>, times: Seq<u64>, w: World)
    requires
        b.auth_fail_count == 0,
        msgs.len() >= 1,
        msgs.len() < u32::MAX,
        times.len() == msgs.len(),
        times.last() <= u64::MAX - 30,
    ensures
        ({
            let r = failed_logins(b, msgs, times);
            let j = msgs.len();
            let d: u64 = if j == 1 {
                5
            } else if j == 2 {
                15
            } else {
                30
            };
            &&& r.phase == WPhase::Error
            &&& r.last_error == Some(msgs.last())
            &&& r.auth_fail_count == j
            &&& r.next_auth_at == Some((times.last() + d) as u64)
            &&& b.mode == NetMode::WiredPlusStandby ==> r.decide(w).1 == if w.now < times.last() + d {
                Action::NoOp
            } else {
                Action::Associate
            }
        }),
{
    let n = msgs.len() - 1;
    assert(times.take(n).len() == n);
    lemma_failed_logins_count(b, msgs.drop_last(), times.take(n));
    assert(times[n] == times.last());
}


/// An online WLAN session whose link is up and addressed, and that the
/// portal has not kicked, is probed again once a probe interval has passed
/// since the last probe (the probe time moves to now), and not before
/// (while the manager keeps the wireless link: standby mode, or the wired
/// side unhealthy).
pub proof fn lemma_online_session_reprobed_every_interval(b: BrainView, w: World, t: u64)
    requires
        b.phase == WPhase::Online,
        b.last_probe_at == Some(t),
        w.wlan_associated,
        w.wlan_ip,
        w.probe != Some(ProbeVerdict::Kicked),
        b.mode == NetMode::WiredPlusStandby || !(w.eth_link_up && w.wired_connected),
        t <= w.now,
    ensures
        w.now >= t + b.probe_interval ==> b.decide(w).1 == Action::ProbeNow && b.decide(w).0.last_probe_at
            == Some(w.now) && b.decide(w).0.phase == WPhase::Online,
        w.now < t + b.probe_interval ==> b.decide(w).1 == Action::NoOp && b.decide(w).0.last_probe_at
            == Some(t),
{
}

} // verus!
