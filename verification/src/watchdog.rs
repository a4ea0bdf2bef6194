//! Dial watchdog: dial, probe, and redial after a drop.
//!
//! The state machine is free of I/O: the service shell performs the dial,
//! the hang-up and the probe that a step asks for, and feeds the outcome
//! back. A drop is judged by probing traffic, not by the RAS state alone.

use vstd::prelude::*;

use crate::backoff::{spec_delay, Backoff};
use crate::probe::ProbeVerdict;
use crate::protocol::{HeartbeatStatus, NetMode, SessionStatus, StateSnapshot, WirelessSnapshot};
use crate::ras::{ErrKind, RasError};
use crate::text::{decimal, push_char};
use crate::protocol::{clone_opt, opt_view};

verus! {

/// Accumulated stable time (ms) after which backoff and redial count reset.
pub const STABLE_RESET_AFTER_MS: u64 = 300_000;

/// Watchdog phase.
#[derive(Debug, Clone, Copy, PartialEq, Eq, Structural)]
pub enum Phase {
    Idle,
    Dialing,
    Connected,
    Backoff,
    AuthFail,
}

/// Session status published for a phase.
pub open spec fn spec_phase_status(p: Phase) -> SessionStatus {
    match p {
        Phase::Idle => SessionStatus::Idle,
        Phase::Dialing => SessionStatus::Dialing,
        Phase::Connected => SessionStatus::Connected,
        Phase::Backoff => SessionStatus::Backoff,
        Phase::AuthFail => SessionStatus::AuthFail,
    }
}

impl Phase {
    /// Session status published for this phase.
    pub fn status(self) -> (r: SessionStatus)
        ensures
            r == spec_phase_status(self),
    {
        match self {
            Phase::Idle => SessionStatus::Idle,
            Phase::Dialing => SessionStatus::Dialing,
            Phase::Connected => SessionStatus::Connected,
            Phase::Backoff => SessionStatus::Backoff,
            Phase::AuthFail => SessionStatus::AuthFail,
        }
    }
}

/// A failed dial.
#[derive(Debug)]
pub struct DialError {
    pub kind: ErrKind,
    pub code: u32,
    pub msg: String,
}

/// Watchdog timing (milliseconds).
#[derive(Debug, Clone, Copy)]
pub struct WatchdogCfg {
    pub redial_min_ms: u64,
    pub redial_max_ms: u64,
    pub probe_interval_ms: u64,
    pub auth_fail_delay_ms: u64,
}

/// What the shell must do next within a step.
#[derive(Debug, Clone, Copy, PartialEq, Eq, Structural)]
pub enum StepStart {
    /// Dial; hang up the current session first when `hangup_first`.
    Dial { hangup_first: bool },
    /// Run one probe and report it with `on_probe`.
    Probe,
}

/// Result of a probe report.
#[derive(Debug, Clone, Copy, PartialEq, Eq, Structural)]
pub enum ProbeStep {
    /// Wait this long before the next step.
    Wait(u64),
    /// The session is judged dropped: hang up and dial.
    Redial,
}

/// Dial watchdog state.
pub struct Watchdog {
    cfg: WatchdogCfg,
    phase: Phase,
    backoff: Backoff,
    attempts: u32,
    since: Option<u64>,
    probe_fails: u8,
    stable_for: u64,
    dial_calls: u32,
    last_drop_reason: Option<String>,
    redial_requested: bool,
}

/// Abstract state of the watchdog.
pub struct WatchdogView {
    pub cfg: WatchdogCfg,
    pub phase: Phase,
    pub backoff_min_ms: u64,
    pub backoff_max_ms: u64,
    pub backoff_attempt: u32,
    pub attempts: u32,
    pub since: Option<u64>,
    pub probe_fails: u8,
    pub stable_for: u64,
    pub dial_calls: u32,
    pub last_drop_reason: Option<Seq<char>>,
    pub redial_requested: bool,
}

impl View for Watchdog {
    type V = WatchdogView;

    closed spec fn view(&self) -> WatchdogView {
        WatchdogView {
            cfg: self.cfg,
            phase: self.phase,
            backoff_min_ms: self.backoff.min_ms(),
            backoff_max_ms: self.backoff.max_ms(),
            backoff_attempt: self.backoff.attempt(),
            attempts: self.attempts,
            since: self.since,
            probe_fails: self.probe_fails,
            stable_for: self.stable_for,
            dial_calls: self.dial_calls,
            last_drop_reason: opt_view(self.last_drop_reason),
            redial_requested: self.redial_requested,
        }
    }
}

/// Debug name of a bad verdict.
pub open spec fn verdict_name(v: ProbeVerdict) -> Seq<char> {
    match v {
        ProbeVerdict::Alive => "Alive"@,
        ProbeVerdict::LinkDown => "LinkDown"@,
        ProbeVerdict::Kicked => "Kicked"@,
    }
}

/// `"<prefix> <code>: <msg>"`.
pub open spec fn coded_reason(prefix: Seq<char>, code: u32, msg: Seq<char>) -> Seq<char> {
    prefix + " "@ + crate::text::spec_decimal(code as nat) + ": "@ + msg
}

/// Saturating increment.
pub open spec fn sat_inc(n: u32) -> u32 {
    if n == u32::MAX {
        u32::MAX
    } else {
        (n + 1) as u32
    }
}


/// A dial result as plain values: `None` for success, else kind, code and message.
pub open spec fn dial_outcome(result: &Result<(), DialError>) -> Option<(ErrKind, u32, Seq<char>)> {
    match result {
        Ok(()) => None,
        Err(e) => Some((e.kind, e.code, e.msg@)),
    }
}

impl WatchdogView {
    /// The session is forgotten after a drop, with its reason.
    pub open spec fn drop_session(self, reason: Seq<char>) -> WatchdogView {
        WatchdogView {
            since: None,
            probe_fails: 0,
            stable_for: 0,
            last_drop_reason: Some(reason),
            ..self
        }
    }

    /// Start of a step: a pending redial request is consumed and always
    /// dials (dropping a live session first); a connected session is probed
    /// unless RAS reports it gone; any other phase dials.
    pub open spec fn begin_step(self, is_connected: bool) -> (WatchdogView, StepStart) {
        if self.redial_requested {
            let s = WatchdogView { redial_requested: false, ..self };
            if self.phase == Phase::Connected || is_connected {
                (s.drop_session("手动重拨"@), StepStart::Dial { hangup_first: true })
            } else {
                (s, StepStart::Dial { hangup_first: false })
            }
        } else if self.phase == Phase::Connected {
            if is_connected {
                (self, StepStart::Probe)
            } else {
                (self.drop_session("RAS 会话不存在"@), StepStart::Dial { hangup_first: true })
            }
        } else {
            (self, StepStart::Dial { hangup_first: false })
        }
    }

    /// A probe report: alive accumulates stable time (saturating) and, after
    /// five stable minutes with failed attempts on record, resets the
    /// backoff and the redial count; the first bad verdict rechecks after a
    /// quarter interval; the second in a row drops the session.
    pub open spec fn on_probe(self, verdict: ProbeVerdict) -> (WatchdogView, ProbeStep) {
        if verdict == ProbeVerdict::Alive {
            let stable = if self.stable_for as int + self.cfg.probe_interval_ms > u64::MAX {
                u64::MAX
            } else {
                (self.stable_for + self.cfg.probe_interval_ms) as u64
            };
            let reset = stable >= STABLE_RESET_AFTER_MS && self.attempts > 0;
            (
                WatchdogView {
                    probe_fails: 0,
                    stable_for: stable,
                    attempts: if reset {
                        0
                    } else {
                        self.attempts
                    },
                    backoff_attempt: if reset {
                        0
                    } else {
                        self.backoff_attempt
                    },
                    ..self
                },
                ProbeStep::Wait(self.cfg.probe_interval_ms),
            )
        } else if self.probe_fails == 0 {
            (
                WatchdogView { probe_fails: 1, ..self },
                ProbeStep::Wait(self.cfg.probe_interval_ms / 4),
            )
        } else {
            (
                self.drop_session("探测连续 2 次异常（"@ + verdict_name(verdict) + "）"@),
                ProbeStep::Redial,
            )
        }
    }

    /// A dial report: success connects at `now_unix` and probes after one
    /// interval; an authentication failure waits the fixed long delay; a
    /// transient failure waits the next backoff delay and counts an attempt.
    pub open spec fn on_dial(self, outcome: Option<(ErrKind, u32, Seq<char>)>, now_unix: u64) -> (
        WatchdogView,
        u64,
    ) {
        match outcome {
            None => (
                WatchdogView {
                    phase: Phase::Connected,
                    since: Some(now_unix),
                    probe_fails: 0,
                    stable_for: 0,
                    ..self
                },
                self.cfg.probe_interval_ms,
            ),
            Some((ErrKind::Auth, code, msg)) => (
                WatchdogView {
                    phase: Phase::AuthFail,
                    last_drop_reason: Some(coded_reason("认证失败"@, code, msg)),
                    ..self
                },
                self.cfg.auth_fail_delay_ms,
            ),
            Some((ErrKind::Transient, code, msg)) => (
                WatchdogView {
                    phase: Phase::Backoff,
                    attempts: sat_inc(self.attempts),
                    backoff_attempt: sat_inc(self.backoff_attempt),
                    last_drop_reason: Some(coded_reason("拨号失败"@, code, msg)),
                    ..self
                },
                spec_delay(self.cfg.redial_min_ms, self.cfg.redial_max_ms, self.backoff_attempt),
            ),
        }
    }
}

impl WatchdogView {
    /// The start of a dial: dialing, one more dial started.
    pub open spec fn begin_dial(self) -> WatchdogView {
        WatchdogView { phase: Phase::Dialing, dial_calls: sat_inc(self.dial_calls), ..self }
    }

    /// A whole dial: its start, then its outcome at `now_unix`.
    pub open spec fn dial(self, outcome: Option<(ErrKind, u32, Seq<char>)>, now_unix: u64) -> (WatchdogView, u64) {
        self.begin_dial().on_dial(outcome, now_unix)
    }

    /// One step given what the outside reported: whether RAS still has the
    /// session, the probe verdict, and the dial outcome with its time (each
    /// used only where the step asks for it).
    pub open spec fn run_step(
        self,
        is_connected: bool,
        verdict: ProbeVerdict,
        outcome: Option<(ErrKind, u32, Seq<char>)>,
        now_unix: u64,
    ) -> (WatchdogView, u64) {
        let (v1, start) = self.begin_step(is_connected);
        match start {
            StepStart::Dial { .. } => v1.dial(outcome, now_unix),
            StepStart::Probe => {
                let (v2, ps) = v1.on_probe(verdict);
                match ps {
                    ProbeStep::Wait(d) => (v2, d),
                    ProbeStep::Redial => v2.dial(outcome, now_unix),
                }
            },
        }
    }
}

impl Watchdog {
    /// Internal consistency: the backoff runs between the configured bounds
    /// and at most one bad probe is pending.
    pub closed spec fn wf(&self) -> bool {
        &&& self.backoff_ok()
        &&& self.probe_fails < 2
    }

    /// The backoff runs between the configured bounds.
    pub closed spec fn backoff_ok(&self) -> bool {
        &&& self.backoff.min_ms() == self.cfg.redial_min_ms
        &&& self.backoff.max_ms() == self.cfg.redial_max_ms
    }

    /// A fresh watchdog: idle, no attempts, no session.
    pub fn new(cfg: WatchdogCfg) -> (r: Self)
        ensures
            r.wf(),
            r@.cfg == cfg,
            r@.phase == Phase::Idle,
            r@.backoff_min_ms == cfg.redial_min_ms,
            r@.backoff_max_ms == cfg.redial_max_ms,
            r@.backoff_attempt == 0,
            r@.attempts == 0,
            r@.since is None,
            r@.probe_fails == 0,
            r@.stable_for == 0,
            r@.dial_calls == 0,
            r@.last_drop_reason is None,
            !r@.redial_requested,
    {
        let backoff = Backoff::new(cfg.redial_min_ms, cfg.redial_max_ms);
        Watchdog {
            cfg,
            phase: Phase::Idle,
            backoff,
            attempts: 0,
            since: None,
            probe_fails: 0,
            stable_for: 0,
            dial_calls: 0,
            last_drop_reason: None,
            redial_requested: false,
        }
    }

    /// Current state as a snapshot (no IP; heartbeat off; default mode and wireless).
    pub fn snapshot(&self) -> (r: StateSnapshot)
        ensures
            r.status == spec_phase_status(self@.phase),
            r.since_unix == self@.since,
            r.ip is None,
            opt_view(r.last_drop_reason) == self@.last_drop_reason,
            r.redial_attempts == self@.attempts,
            r.heartbeat == HeartbeatStatus::Off,
            r.mode == NetMode::WiredExclusive,
            r.wireless.phase == crate::protocol::WPhase::Off,
            r.events@.len() == 0,
    {
        StateSnapshot {
            status: self.phase.status(),
            since_unix: self.since,
            ip: None,
            last_drop_reason: clone_opt(&self.last_drop_reason),
            redial_attempts: self.attempts,
            heartbeat: HeartbeatStatus::Off,
            mode: NetMode::WiredExclusive,
            wireless: WirelessSnapshot::default(),
            events: Vec::new(),
        }
    }

    /// Number of dials started so far.
    pub fn dial_calls(&self) -> (r: u32)
        ensures
            r == self@.dial_calls,
    {
        self.dial_calls
    }

    /// Asks for an immediate redial (IPC command); the next step consumes it.
    pub fn request_redial(&mut self)
        ensures
            final(self)@ == (WatchdogView { redial_requested: true, ..old(self)@ }),
            final(self).wf() == old(self).wf(),
    {
        self.redial_requested = true;
    }

    /// Starts a step. A pending redial request is consumed and always leads
    /// to a dial (after dropping a live session); otherwise a connected
    /// session is probed unless RAS already reports it gone, and any other
    /// phase dials.
    pub fn begin_step(&mut self, is_connected: bool) -> (r: StepStart)
        requires
            old(self).wf(),
        ensures
            final(self).wf(),
            (final(self)@, r) == old(self)@.begin_step(is_connected),
    {
        if self.redial_requested {
            self.redial_requested = false;
            if self.phase == Phase::Connected || is_connected {
                self.record_drop("手动重拨");
                return StepStart::Dial { hangup_first: true };
            }
            return StepStart::Dial { hangup_first: false };
        }
        if self.phase == Phase::Connected {
            if !is_connected {
                self.record_drop("RAS 会话不存在");
                return StepStart::Dial { hangup_first: true };
            }
            return StepStart::Probe;
        }
        StepStart::Dial { hangup_first: false }
    }

    /// Reports a probe of the connected session. Alive accumulates stable
    /// time (resetting backoff and redial count after five stable minutes);
    /// the first bad verdict rechecks after a quarter interval, the second
    /// in a row drops the session.
    pub fn on_probe(&mut self, verdict: ProbeVerdict) -> (r: ProbeStep)
        requires
            old(self).wf(),
        ensures
            final(self).wf(),
            (final(self)@, r) == old(self)@.on_probe(verdict),
    {
        match verdict {
            ProbeVerdict::Alive => {
                self.probe_fails = 0;
                self.stable_for = self.stable_for.saturating_add(self.cfg.probe_interval_ms);
                if self.stable_for >= STABLE_RESET_AFTER_MS && self.attempts > 0 {
                    self.backoff.reset();
                    self.attempts = 0;
                }
                assert(self.backoff.min_ms() == self.cfg.redial_min_ms);
                assert(self.backoff.max_ms() == self.cfg.redial_max_ms);
                ProbeStep::Wait(self.cfg.probe_interval_ms)
            },
            _ => {
                self.probe_fails = self.probe_fails + 1;
                if self.probe_fails < 2 {
                    ProbeStep::Wait(self.cfg.probe_interval_ms / 4)
                } else {
                    let mut reason = String::from_str("探测连续 2 次异常（");
                    match verdict {
                        ProbeVerdict::LinkDown => reason.append("LinkDown"),
                        ProbeVerdict::Kicked => reason.append("Kicked"),
                        ProbeVerdict::Alive => reason.append("Alive"),
                    }
                    reason.append("）");
                    assert(reason@ =~= "探测连续 2 次异常（"@ + verdict_name(verdict) + "）"@);
                    self.record_drop_owned(reason);
                    ProbeStep::Redial
                }
            },
        }
    }

    /// Marks the start of a dial.
    pub fn begin_dial(&mut self)
        requires
            old(self).wf(),
        ensures
            final(self).wf(),
            final(self)@ == (WatchdogView {
                phase: Phase::Dialing,
                dial_calls: sat_inc(old(self)@.dial_calls),
                ..old(self)@
            }),
    {
        self.phase = Phase::Dialing;
        self.dial_calls = self.dial_calls.saturating_add(1);
    }

    /// Reports the dial result and returns the wait before the next step (ms).
    /// Success connects (session start `now_unix`, probe after one
    /// interval); an authentication failure waits the long fixed delay; a
    /// transient failure waits the next backoff delay and counts an attempt.
    pub fn on_dial(&mut self, result: Result<(), DialError>, now_unix: u64) -> (r: u64)
        requires
            old(self).wf(),
        ensures
            final(self).wf(),
            (final(self)@, r) == old(self)@.on_dial(dial_outcome(&result), now_unix),
    {
        match result {
            Ok(()) => {
                self.phase = Phase::Connected;
                self.since = Some(now_unix);
                self.probe_fails = 0;
                self.stable_for = 0;
                self.cfg.probe_interval_ms
            },
            Err(e) => {
                match e.kind {
                    ErrKind::Auth => {
                        self.phase = Phase::AuthFail;
                        self.last_drop_reason = Some(coded("认证失败", e.code, e.msg.as_str()));
                        self.cfg.auth_fail_delay_ms
                    },
                    ErrKind::Transient => {
                        let delay = self.backoff.next_delay();
                        self.attempts = self.attempts.saturating_add(1);
                        self.phase = Phase::Backoff;
                        self.last_drop_reason = Some(coded("拨号失败", e.code, e.msg.as_str()));
                        delay
                    },
                }
            },
        }
    }

    /// Forgets the session after a drop, keeping the reason.
    pub fn record_drop(&mut self, reason: &str)
        ensures
            final(self)@ == (WatchdogView {
                since: None,
                probe_fails: 0,
                stable_for: 0,
                last_drop_reason: Some(reason@),
                ..old(self)@
            }),
            final(self).wf() == old(self).backoff_ok(),
    {
        self.record_drop_owned(String::from_str(reason));
    }

    fn record_drop_owned(&mut self, reason: String)
        ensures
            final(self)@ == (WatchdogView {
                since: None,
                probe_fails: 0,
                stable_for: 0,
                last_drop_reason: Some(reason@),
                ..old(self)@
            }),
            final(self).wf() == old(self).backoff_ok(),
    {
        self.since = None;
        self.probe_fails = 0;
        self.stable_for = 0;
        self.last_drop_reason = Some(reason);
    }
}

/// A call made on the dial side, with what it returned.
pub enum DialCall {
    /// `is_connected`, and its answer.
    IsConnected(bool),
    Hangup,
    /// `dial`, and its outcome (`None` for success).
    Dial(Option<(ErrKind, u32, Seq<char>)>),
}

/// The dial side of the watchdog (RAS in the service).
pub trait Dialer {
    /// The calls made on this dialer so far, oldest first. A dialer that
    /// keeps no record of them leaves this empty, and then does not meet the
    /// contracts below; the watchdog's own contracts speak of this record.
    closed spec fn calls(&self) -> Seq<DialCall> {
        Seq::empty()
    }

    /// Dials and waits for the session.
    fn dial(&mut self) -> (r: Result<(), DialError>)
        ensures
            final(self).calls() == old(self).calls().push(DialCall::Dial(dial_outcome(&r))),
    ;

    /// Hangs the session up, if there is one.
    fn hangup(&mut self)
        ensures
            final(self).calls() == old(self).calls().push(DialCall::Hangup),
    ;

    /// Whether RAS still reports the session.
    fn is_connected(&mut self) -> (r: bool)
        ensures
            final(self).calls() == old(self).calls().push(DialCall::IsConnected(r)),
    ;
}

/// The probe side of the watchdog.
pub trait Prober {
    /// The verdicts this prober has returned so far, oldest first (empty
    /// for a prober that keeps no record, which then does not meet the
    /// contract below).
    closed spec fn verdicts(&self) -> Seq<ProbeVerdict> {
        Seq::empty()
    }

    /// Probes the connected session.
    fn probe(&mut self) -> (r: ProbeVerdict)
        ensures
            final(self).verdicts() == old(self).verdicts().push(r),
    ;
}

impl WatchdogView {
    /// Whether a step asks RAS about the session: with a redial pending,
    /// only when not already connected; otherwise only when connected.
    pub open spec fn asks_ras(self) -> bool {
        if self.redial_requested {
            self.phase != Phase::Connected
        } else {
            self.phase == Phase::Connected
        }
    }

    /// What a step takes as RAS's answer: the answer where it asks, else `false`.
    pub open spec fn ras_answer(self, answer: bool) -> bool {
        self.asks_ras() && answer
    }

    /// Whether a step probes, given RAS's answer.
    pub open spec fn probes(self, answer: bool) -> bool {
        self.begin_step(self.ras_answer(answer)).1 is Probe
    }

    /// The calls a step makes on the dialer, in order, given RAS's answer,
    /// the probe verdict and the dial outcome: the RAS question where it is
    /// asked; then, for a dial, the hang-up when the step drops a session
    /// and the dial; for a probe that judges the session dropped, the
    /// hang-up and the dial; for any other probe, nothing more.
    pub open spec fn step_dial_calls(
        self,
        answer: bool,
        verdict: ProbeVerdict,
        outcome: Option<(ErrKind, u32, Seq<char>)>,
    ) -> Seq<DialCall> {
        let asked = if self.asks_ras() {
            seq![DialCall::IsConnected(answer)]
        } else {
            Seq::empty()
        };
        let (v1, start) = self.begin_step(self.ras_answer(answer));
        match start {
            StepStart::Dial { hangup_first } => if hangup_first {
                asked + seq![DialCall::Hangup, DialCall::Dial(outcome)]
            } else {
                asked + seq![DialCall::Dial(outcome)]
            },
            StepStart::Probe => if v1.on_probe(verdict).1 is Redial {
                asked + seq![DialCall::Hangup, DialCall::Dial(outcome)]
            } else {
                asked
            },
        }
    }

    /// The verdicts a step asks the prober for: one when it probes, none otherwise.
    pub open spec fn step_verdicts(self, answer: bool, verdict: ProbeVerdict) -> Seq<ProbeVerdict> {
        if self.probes(answer) {
            seq![verdict]
        } else {
            Seq::empty()
        }
    }
}

impl Watchdog {
    fn dial_now<D: Dialer, C: crate::supervisor::Clock>(&mut self, dialer: &mut D, clock: &C) -> (r: (u64, Ghost<Option<(ErrKind, u32, Seq<char>)>>, u64))
        requires
            old(self).wf(),
        ensures
            final(self).wf(),
            final(self)@.phase != Phase::Dialing,
            final(self)@.dial_calls == sat_inc(old(self)@.dial_calls),
            final(self)@.redial_requested == old(self)@.redial_requested,
            (final(self)@, r.0) == old(self)@.dial(r.1@, r.2),
            final(dialer).calls() == old(dialer).calls().push(DialCall::Dial(r.1@)),
    {
        self.begin_dial();
        let result = dialer.dial();
        let now = clock.wall_secs();
        let ghost outcome = dial_outcome(&result);
        let d = self.on_dial(result, now);
        (d, Ghost(outcome), now)
    }

    /// One step of the state machine with a dialer, a prober and a clock:
    /// the session is dialed unless it is connected, in which case it is
    /// probed; a pending redial request dials at once, hanging up a live
    /// session first. Returns the wait before the next step (ms). RAS is
    /// asked whether the session is still there only where that decides the
    /// step. The calls made on the dialer and the prober, in order, and the
    /// next state follow from what those calls returned and the time read
    /// after a dial (`run_step`, `step_dial_calls`, `step_verdicts`).
    pub fn run_once<D: Dialer, P: Prober, C: crate::supervisor::Clock>(
        &mut self,
        dialer: &mut D,
        prober: &mut P,
        clock: &C,
    ) -> (r: u64)
        requires
            old(self).wf(),
        ensures
            final(self).wf(),
            final(self)@.phase != Phase::Dialing,
            !final(self)@.redial_requested,
            old(self)@.redial_requested ==> final(self)@.dial_calls == sat_inc(old(self)@.dial_calls),
            old(self)@.phase != Phase::Connected ==> final(self)@.dial_calls == sat_inc(
                old(self)@.dial_calls,
            ),
            exists|answer: bool, verdict: ProbeVerdict, outcome: Option<(ErrKind, u32, Seq<char>)>, now: u64|
                {
                    &&& (final(self)@, r) == #[trigger] old(self)@.run_step(
                        old(self)@.ras_answer(answer),
                        verdict,
                        outcome,
                        now,
                    )
                    &&& final(dialer).calls() == old(dialer).calls() + old(self)@.step_dial_calls(
                        answer,
                        verdict,
                        outcome,
                    )
                    &&& final(prober).verdicts() == old(prober).verdicts() + old(self)@.step_verdicts(
                        answer,
                        verdict,
                    )
                },
    {
        let ghost v0 = self@;
        let ghost c0 = dialer.calls();
        let ghost p0 = prober.verdicts();
        let ask = if self.redial_requested {
            self.phase != Phase::Connected
        } else {
            self.phase == Phase::Connected
        };
        let connected = if ask {
            dialer.is_connected()
        } else {
            false
        };
        let ghost asked = if ask {
            seq![DialCall::IsConnected(connected)]
        } else {
            Seq::<DialCall>::empty()
        };
        assert(dialer.calls() =~= c0 + asked);
        assert(v0.ras_answer(connected) == connected);
        match self.begin_step(connected) {
            StepStart::Dial { hangup_first } => {
                if hangup_first {
                    dialer.hangup();
                }
                let (d, outcome, now) = self.dial_now(dialer, clock);
                assert((self@, d) == v0.run_step(connected, ProbeVerdict::Alive, outcome@, now));
                assert(dialer.calls() =~= c0 + v0.step_dial_calls(connected, ProbeVerdict::Alive, outcome@));
                assert(prober.verdicts() =~= p0 + v0.step_verdicts(connected, ProbeVerdict::Alive));
                d
            },
            StepStart::Probe => {
                let verdict = prober.probe();
                assert(prober.verdicts() =~= p0 + v0.step_verdicts(connected, verdict));
                match self.on_probe(verdict) {
                    ProbeStep::Wait(d) => {
                        assert(self@.phase == Phase::Connected);
                        assert((self@, d) == v0.run_step(connected, verdict, None, 0));
                        assert(dialer.calls() =~= c0 + v0.step_dial_calls(connected, verdict, None));
                        d
                    },
                    ProbeStep::Redial => {
                        dialer.hangup();
                        let (d, outcome, now) = self.dial_now(dialer, clock);
                        assert((self@, d) == v0.run_step(connected, verdict, outcome@, now));
                        assert(dialer.calls() =~= c0 + v0.step_dial_calls(connected, verdict, outcome@));
                        d
                    },
                }
            },
        }
    }

    /// Hangs up at shutdown.
    pub fn shutdown<D: Dialer>(&mut self, dialer: &mut D)
        ensures
            final(self)@ == old(self)@,
            final(dialer).calls() == old(dialer).calls().push(DialCall::Hangup),
    {
        dialer.hangup();
    }
}

/// A manual redial request is always honoured by the next step: it dials,
/// and the request is consumed.
pub proof fn lemma_redial_request_dials(w: WatchdogView, is_connected: bool)
    requires
        w.redial_requested,
    ensures
        w.begin_step(is_connected).1 is Dial,
        !w.begin_step(is_connected).0.redial_requested,
{
}

/// A pending redial with a live session (connected, or reported by RAS)
/// hangs up before it dials again, dials once, and probes nothing; the
/// session is dropped with the manual-redial reason.
pub proof fn lemma_redial_hangs_up_first(
    w: WatchdogView,
    answer: bool,
    verdict: ProbeVerdict,
    outcome: Option<(ErrKind, u32, Seq<char>)>,
)
    requires
        w.redial_requested,
        w.phase == Phase::Connected || answer,
    ensures
        w.step_dial_calls(answer, verdict, outcome) == if w.phase == Phase::Connected {
            seq![DialCall::Hangup, DialCall::Dial(outcome)]
        } else {
            seq![DialCall::IsConnected(true), DialCall::Hangup, DialCall::Dial(outcome)]
        },
        w.step_verdicts(answer, verdict) == Seq::<ProbeVerdict>::empty(),
        w.begin_step(w.ras_answer(answer)).0.last_drop_reason == Some("手动重拨"@),
{
    assert(seq![DialCall::IsConnected(true)] + seq![DialCall::Hangup, DialCall::Dial(outcome)] =~= seq![
        DialCall::IsConnected(true),
        DialCall::Hangup,
        DialCall::Dial(outcome),
    ]);
    assert(Seq::<DialCall>::empty() + seq![DialCall::Hangup, DialCall::Dial(outcome)] =~= seq![
        DialCall::Hangup,
        DialCall::Dial(outcome),
    ]);
}

/// Without a pending redial, a step on a session that is not connected
/// asks RAS nothing, hangs nothing up, probes nothing and dials once.
pub proof fn lemma_idle_step_only_dials(
    w: WatchdogView,
    answer: bool,
    verdict: ProbeVerdict,
    outcome: Option<(ErrKind, u32, Seq<char>)>,
)
    requires
        !w.redial_requested,
        w.phase != Phase::Connected,
    ensures
        w.step_dial_calls(answer, verdict, outcome) == seq![DialCall::Dial(outcome)],
        w.step_verdicts(answer, verdict) == Seq::<ProbeVerdict>::empty(),
{
    assert(Seq::<DialCall>::empty() + seq![DialCall::Dial(outcome)] =~= seq![DialCall::Dial(outcome)]);
}

/// One bad probe only schedules a quick recheck; a second bad probe in a
/// row drops the session, and a good probe in between forgives the first.
pub proof fn lemma_two_bad_probes_drop(w: WatchdogView, v1: ProbeVerdict, v2: ProbeVerdict)
    requires
        w.probe_fails == 0,
        v1 != ProbeVerdict::Alive,
        v2 != ProbeVerdict::Alive,
    ensures
        w.on_probe(v1).1 == ProbeStep::Wait(w.cfg.probe_interval_ms / 4),
        w.on_probe(v1).0.on_probe(v2).1 == ProbeStep::Redial,
        w.on_probe(v1).0.on_probe(ProbeVerdict::Alive).0.on_probe(v2).1 is Wait,
{
}

/// After a stable session has reset the backoff, the next transient dial
/// failure waits the minimum delay again.
pub proof fn lemma_stable_session_restarts_backoff(
    w: WatchdogView,
    code: u32,
    msg: Seq<char>,
    now: u64,
)
    requires
        w.probe_fails == 0,
        w.attempts > 0,
        w.stable_for as int + w.cfg.probe_interval_ms >= STABLE_RESET_AFTER_MS,
        w.cfg.redial_min_ms <= w.cfg.redial_max_ms,
    ensures
        w.on_probe(ProbeVerdict::Alive).0.attempts == 0,
        w.on_probe(ProbeVerdict::Alive).0.on_dial(Some((ErrKind::Transient, code, msg)), now).1
            == w.cfg.redial_min_ms,
{
    crate::backoff::lemma_delay_bounds(w.cfg.redial_min_ms, w.cfg.redial_max_ms, 0);
}

/// Consecutive transient failures wait no less each time, within the bounds.
pub proof fn lemma_transient_delays_grow(
    w: WatchdogView,
    code: u32,
    msg: Seq<char>,
    now: u64,
)
    requires
        w.cfg.redial_min_ms <= w.cfg.redial_max_ms,
    ensures
        ({
            let (w1, d1) = w.on_dial(Some((ErrKind::Transient, code, msg)), now);
            let (_w2, d2) = w1.on_dial(Some((ErrKind::Transient, code, msg)), now);
            &&& d1 <= d2
            &&& w.cfg.redial_min_ms <= d1 <= w.cfg.redial_max_ms
            &&& w1.phase == Phase::Backoff
        }),
{
    let a = w.backoff_attempt;
    crate::backoff::lemma_delay_monotone(w.cfg.redial_min_ms, w.cfg.redial_max_ms, a, sat_inc(a));
    crate::backoff::lemma_delay_bounds(w.cfg.redial_min_ms, w.cfg.redial_max_ms, a);
}

/// An authentication failure waits the fixed delay and does not count as a
/// backoff attempt.
pub proof fn lemma_auth_failure_fixed_wait(w: WatchdogView, code: u32, msg: Seq<char>, now: u64)
    ensures
        w.on_dial(Some((ErrKind::Auth, code, msg)), now).1 == w.cfg.auth_fail_delay_ms,
        w.on_dial(Some((ErrKind::Auth, code, msg)), now).0.attempts == w.attempts,
        w.on_dial(Some((ErrKind::Auth, code, msg)), now).0.backoff_attempt == w.backoff_attempt,
        w.on_dial(Some((ErrKind::Auth, code, msg)), now).0.phase == Phase::AuthFail,
{
}

/// `"<prefix> <code>: <msg>"`.
fn coded(prefix: &str, code: u32, msg: &str) -> (r: String)
    ensures
        r@ == coded_reason(prefix@, code, msg@),
{
    let mut out = String::from_str(prefix);
    push_char(&mut out, ' ');
    let c = decimal(code as u64);
    out.append(c.as_str());
    out.append(": ");
    out.append(msg);
    proof {
        reveal_strlit(" ");
    }
    assert(out@ =~= coded_reason(prefix@, code, msg@));
    out
}


/// Consecutive stuck-port dial failures (756, 813) after which RasMan is restarted.
pub const WEDGE_RESTART_AFTER: u32 = 3;

/// Dial error of a RAS failure: an authentication failure is 691 with a
/// fixed message, anything else is transient with the RAS code and text.
pub open spec fn spec_dial_error(e: RasError) -> (ErrKind, u32, Seq<char>) {
    match e {
        RasError::Auth => (
            ErrKind::Auth,
            691,
            "Authentication failed (691): invalid student ID or password"@,
        ),
        RasError::Other { code, msg } => (ErrKind::Transient, code, msg@),
    }
}

/// Dial error of a RAS failure.
pub fn dial_error_of(e: RasError) -> (r: DialError)
    ensures
        (r.kind, r.code, r.msg@) == spec_dial_error(e),
{
    match e {
        RasError::Auth => DialError {
            kind: ErrKind::Auth,
            code: 691,
            msg: String::from_str("Authentication failed (691): invalid student ID or password"),
        },
        RasError::Other { code, msg } => DialError { kind: ErrKind::Transient, code, msg },
    }
}

/// Counter of consecutive dials that failed because the port is stuck in
/// the dialing state (756 or 813); only a restart of RasMan clears that.
pub struct WedgeTracker {
    fails: u32,
}

impl WedgeTracker {
    /// Consecutive stuck-port failures.
    pub closed spec fn fails(&self) -> u32 {
        self.fails
    }

    /// No failures yet.
    pub fn new() -> (r: Self)
        ensures
            r.fails() == 0,
    {
        WedgeTracker { fails: 0 }
    }

    /// Records a dial result (`None` for success, else the error code).
    /// Returns whether RasMan must be restarted now: on the third stuck-port
    /// failure in a row, after which the count starts over. Any other
    /// result clears the count.
    pub fn record(&mut self, code: Option<u32>) -> (restart: bool)
        requires
            old(self).fails() < WEDGE_RESTART_AFTER,
        ensures
            final(self).fails() < WEDGE_RESTART_AFTER,
            restart <==> (code matches Some(c) && (c == 756 || c == 813) && old(self).fails() + 1
                >= WEDGE_RESTART_AFTER),
            final(self).fails() == if code matches Some(c) && (c == 756 || c == 813) && !restart {
                old(self).fails() + 1
            } else {
                0
            },
    {
        match code {
            Some(c) => {
                if c == 756 || c == 813 {
                    self.fails = self.fails + 1;
                    if self.fails >= WEDGE_RESTART_AFTER {
                        self.fails = 0;
                        return true;
                    }
                    false
                } else {
                    self.fails = 0;
                    false
                }
            },
            None => {
                self.fails = 0;
                false
            },
        }
    }
}


/// Watchdog timing the service runs with: redial backoff from 1 s up to
/// 5 min, 10 min after an authentication failure (691), and the configured
/// probe interval (milliseconds, saturating at `u64::MAX`).
pub fn service_watchdog_cfg(probe_interval_secs: u64) -> (r: WatchdogCfg)
    ensures
        r.redial_min_ms == 1_000,
        r.redial_max_ms == 300_000,
        r.auth_fail_delay_ms == crate::backoff::AUTH_FAIL_DELAY_MS,
        r.auth_fail_delay_ms == 600_000,
        r.probe_interval_ms == if probe_interval_secs * 1000 <= u64::MAX {
            probe_interval_secs * 1000
        } else {
            u64::MAX as int
        },
{
    let probe_interval_ms = if probe_interval_secs <= u64::MAX / 1000 {
        probe_interval_secs * 1000
    } else {
        u64::MAX
    };
    WatchdogCfg {
        redial_min_ms: 1_000,
        redial_max_ms: 300_000,
        probe_interval_ms,
        auth_fail_delay_ms: crate::backoff::AUTH_FAIL_DELAY_MS,
    }
}


/// An alive probe adds one probe interval to the stable time (saturating)
/// and forgives the failed attempts only once that time reaches five
/// minutes: before that the redial count and the backoff stay as they
/// were, so a drop soon after a reconnect keeps backing off.
pub proof fn lemma_alive_probe_resets_only_after_five_stable_minutes(w: WatchdogView)
    ensures
        STABLE_RESET_AFTER_MS == 300_000,
        ({
            let (v, step) = w.on_probe(ProbeVerdict::Alive);
            let stable = w.stable_for + w.cfg.probe_interval_ms;
            &&& step == ProbeStep::Wait(w.cfg.probe_interval_ms)
            &&& v.probe_fails == 0
            &&& v.stable_for == if stable > u64::MAX {
                u64::MAX as int
            } else {
                stable
            }
            &&& stable < 300_000 ==> v.attempts == w.attempts && v.backoff_attempt == w.backoff_attempt
            &&& (stable >= 300_000 && w.attempts > 0) ==> v.attempts == 0 && v.backoff_attempt == 0
            &&& (stable >= 300_000 && w.attempts == 0) ==> v.backoff_attempt == w.backoff_attempt
        }),
{
}

} // verus!
