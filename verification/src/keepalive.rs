//! Heartbeat session: the decisions of the keepalive loop without its I/O.
//!
//! Each round sends the KA1 probe, learns seed, host IP and flag from the
//! reply, answers with the KA1 second packet, waits three seconds, runs the
//! KA2 key exchange (a file packet teaches a new flag and the first KA2
//! packet is sent once more), confirms with the KA2 type 3 packet, advances
//! both counters and sleeps until the next round. A reply that does not
//! come or does not parse restarts the round with the counters unchanged:
//! the server tells rounds apart by them. The shell owns the socket, the
//! receive timeouts, the sleeps, the stop signal and the random numbers.

use vstd::prelude::*;
use vstd::slice::slice_to_vec;

use crate::protocol::HeartbeatStatus;
use crate::text::push_str;
use crate::heartbeat::{
    is_ka1_resp, is_ka2_resp, ka1_pkt1, ka1_pkt2, ka2_pkt1, ka2_pkt2, next_cnt, parse_ka1_resp,
    parse_ka2_resp, spec_ka1_pkt2, spec_ka2_pkt1, spec_ka2_pkt2,
};

verus! {

/// Pause between the KA1 exchange and the KA2 exchange (ms).
pub const KA1_TO_KA2_DELAY_MS: u64 = 3_000;

/// Consecutive receive timeouts after which a round is given up.
pub const RECV_TIMEOUT_LIMIT: u8 = 5;

/// Receive timeout of one wait for a reply (ms).
pub const RECV_TIMEOUT_MS: u64 = 2_000;

/// What the shell reports back.
pub enum KaInput {
    /// The reply to the last packet, or None when one receive timed out.
    Reply(Option<Vec<u8>>),
    /// The requested sleep is over.
    Slept,
}

/// What the shell does next.
pub enum KaAction {
    /// Send the packet, then wait for a reply.
    SendRecv(Vec<u8>),
    /// Send the packet, then sleep for the given milliseconds.
    SendSleep(Vec<u8>, u64),
    /// Wait for the reply once more (the last receive timed out).
    Recv,
}

/// Abstract action: the packet bytes and, for a sleep, its length.
pub enum KaActionView {
    SendRecv(Seq<u8>),
    SendSleep(Seq<u8>, u64),
    Recv,
}

/// Abstract input.
pub enum KaInputView {
    Reply(Option<Seq<u8>>),
    Slept,
}

/// Where the round stands.
#[derive(Clone, Copy, PartialEq, Eq, Structural)]
pub enum KaStage {
    /// Waiting for the reply to the KA1 probe.
    AwaitKa1,
    /// Sleeping between KA1 and KA2.
    BetweenExchanges,
    /// Waiting for the reply to the first KA2 packet (`retried` after a file packet).
    AwaitKa2 { retried: bool },
    /// Sleeping until the next round.
    BetweenRounds,
}

/// Abstract state of a session.
pub struct KaView {
    pub ka1_cnt: u8,
    pub ka2_cnt: u8,
    pub ka1_flag: Seq<u8>,
    pub ka2_flag: Seq<u8>,
    pub seed: Seq<u8>,
    pub host_ip: Seq<u8>,
    pub stage: KaStage,
    pub interval_ms: u64,
    /// Consecutive receive timeouts in the current wait.
    pub timeouts: u8,
}

/// KA1 probe bytes.
pub open spec fn spec_ka1_pkt1(cnt: u8) -> Seq<u8> {
    seq![0x07u8, cnt, 0x08, 0x00, 0x01, 0x00, 0x00, 0x00]
}

/// Abstract input of a concrete one.
pub open spec fn input_view(i: KaInput) -> KaInputView {
    match i {
        KaInput::Reply(None) => KaInputView::Reply(None),
        KaInput::Reply(Some(p)) => KaInputView::Reply(Some(p@)),
        KaInput::Slept => KaInputView::Slept,
    }
}

/// Abstract action of a concrete one.
pub open spec fn action_view(a: KaAction) -> KaActionView {
    match a {
        KaAction::SendRecv(p) => KaActionView::SendRecv(p@),
        KaAction::SendSleep(p, ms) => KaActionView::SendSleep(p@, ms),
        KaAction::Recv => KaActionView::Recv,
    }
}

/// A file packet: `0x07` first and `0x10` third.
pub open spec fn is_file_packet(p: Seq<u8>) -> bool {
    p.len() >= 3 && p[0] == 0x07u8 && p[2] == 0x10u8
}

/// The flag a packet carries, if it carries one (bytes `6..8` of a file packet).
pub open spec fn learned_flag(p: Seq<u8>, old_flag: Seq<u8>) -> Seq<u8> {
    if p.len() >= 8 && p[2] == 0x10u8 {
        p.subrange(6, 8)
    } else {
        old_flag
    }
}

/// Sleep between rounds: the interval minus the KA1-to-KA2 pause, at least zero.
pub open spec fn round_sleep(interval_ms: u64) -> u64 {
    if interval_ms >= KA1_TO_KA2_DELAY_MS {
        (interval_ms - KA1_TO_KA2_DELAY_MS) as u64
    } else {
        0
    }
}

impl KaView {
    /// Start over from the KA1 probe, counters and flags kept.
    pub open spec fn restart(self) -> (KaView, KaActionView) {
        (
            KaView { stage: KaStage::AwaitKa1, timeouts: 0, ..self },
            KaActionView::SendRecv(spec_ka1_pkt1(self.ka1_cnt)),
        )
    }

    /// KA2 confirmation with the key of reply `p`: the type 3 packet goes
    /// out, both counters advance, and the session sleeps until the next round.
    pub open spec fn confirm(self, p: Seq<u8>, rand: u16) -> (KaView, KaActionView) {
        if !is_ka2_resp(p) {
            self.restart()
        } else {
            let flag = learned_flag(p, self.ka2_flag);
            let key = p.subrange(16, 20);
            (
                KaView {
                    ka2_flag: flag,
                    ka1_cnt: ((self.ka1_cnt + 2) % 128) as u8,
                    ka2_cnt: ((self.ka2_cnt + 2) % 128) as u8,
                    stage: KaStage::BetweenRounds,
                    ..self
                },
                KaActionView::SendSleep(
                    spec_ka2_pkt2(self.ka2_cnt, flag, rand, key, self.host_ip),
                    round_sleep(self.interval_ms),
                ),
            )
        }
    }

    /// Whether the session waits for a reply.
    pub open spec fn awaits_reply(self) -> bool {
        self.stage is AwaitKa1 || self.stage is AwaitKa2
    }

    /// One step of the session on input `i`, with `rand` the fresh random
    /// number for a KA2 packet built in this step: a receive timeout while
    /// a reply is awaited waits once more, up to the fifth in a row, which
    /// gives the round up; any other input clears the timeouts and moves
    /// the round on (`advance`).
    pub open spec fn step(self, i: KaInputView, rand: u16) -> (KaView, KaActionView) {
        if i == KaInputView::Reply(None) && self.awaits_reply() && self.timeouts + 1 < RECV_TIMEOUT_LIMIT {
            (KaView { timeouts: (self.timeouts + 1) as u8, ..self }, KaActionView::Recv)
        } else {
            KaView { timeouts: 0, ..self }.advance(i, rand)
        }
    }

    /// The round moved on by input `i`.
    pub open spec fn advance(self, i: KaInputView, rand: u16) -> (KaView, KaActionView) {
        match (self.stage, i) {
            (KaStage::AwaitKa1, KaInputView::Reply(Some(p))) => if !is_ka1_resp(p) {
                self.restart()
            } else {
                let flag = learned_flag(p, self.ka1_flag);
                let seed = p.subrange(8, 12);
                let host_ip = p.subrange(12, 16);
                (
                    KaView {
                        ka1_flag: flag,
                        seed,
                        host_ip,
                        stage: KaStage::BetweenExchanges,
                        ..self
                    },
                    KaActionView::SendSleep(
                        spec_ka1_pkt2(self.ka1_cnt, true, host_ip, seed, flag),
                        KA1_TO_KA2_DELAY_MS,
                    ),
                )
            },
            (KaStage::BetweenExchanges, KaInputView::Slept) => (
                KaView { stage: KaStage::AwaitKa2 { retried: false }, ..self },
                KaActionView::SendRecv(spec_ka2_pkt1(self.ka2_cnt, self.ka2_flag, rand, seq![0u8, 0, 0, 0])),
            ),
            (KaStage::AwaitKa2 { retried }, KaInputView::Reply(Some(p))) => if !retried
                && is_file_packet(p) {
                let flag = if is_ka2_resp(p) {
                    learned_flag(p, self.ka2_flag)
                } else {
                    self.ka2_flag
                };
                (
                    KaView { ka2_flag: flag, stage: KaStage::AwaitKa2 { retried: true }, ..self },
                    KaActionView::SendRecv(spec_ka2_pkt1(self.ka2_cnt, flag, rand, seq![0u8, 0, 0, 0])),
                )
            } else {
                self.confirm(p, rand)
            },
            _ => self.restart(),
        }
    }

    /// Counters below 128.
    pub open spec fn wf(self) -> bool {
        &&& self.ka1_cnt < 128
        &&& self.ka2_cnt < 128
        &&& self.ka1_flag.len() == 2
        &&& self.ka2_flag.len() == 2
        &&& self.seed.len() == 4
        &&& self.host_ip.len() == 4
        &&& self.timeouts < RECV_TIMEOUT_LIMIT
    }
}

/// State of a heartbeat session.
pub struct KaSession {
    ka1_cnt: u8,
    ka2_cnt: u8,
    ka1_flag: [u8; 2],
    ka2_flag: [u8; 2],
    seed: [u8; 4],
    host_ip: [u8; 4],
    stage: KaStage,
    interval_ms: u64,
    timeouts: u8,
}

impl View for KaSession {
    type V = KaView;

    closed spec fn view(&self) -> KaView {
        KaView {
            ka1_cnt: self.ka1_cnt,
            ka2_cnt: self.ka2_cnt,
            ka1_flag: self.ka1_flag@,
            ka2_flag: self.ka2_flag@,
            seed: self.seed@,
            host_ip: self.host_ip@,
            stage: self.stage,
            interval_ms: self.interval_ms,
            timeouts: self.timeouts,
        }
    }
}

fn flag_of(p: &[u8], old_flag: [u8; 2]) -> (r: [u8; 2])
    ensures
        r@ == learned_flag(p@, old_flag@),
{
    if p.len() >= 8 && p[2] == 0x10 {
        let r = [p[6], p[7]];
        assert(r@ =~= p@.subrange(6, 8));
        r
    } else {
        old_flag
    }
}

impl KaSession {
    /// A session with KA1 counter 1, KA2 counter 0, zero flags, and rounds
    /// `interval_ms` apart; its first action is the KA1 probe.
    pub fn new(interval_ms: u64) -> (r: (Self, KaAction))
        ensures
            r.0@.wf(),
            r.0@ == (KaView {
                ka1_cnt: 1,
                ka2_cnt: 0,
                ka1_flag: seq![0u8, 0],
                ka2_flag: seq![0u8, 0],
                seed: seq![0u8, 0, 0, 0],
                host_ip: seq![0u8, 0, 0, 0],
                stage: KaStage::AwaitKa1,
                interval_ms,
                timeouts: 0,
            }),
            action_view(r.1) == KaActionView::SendRecv(spec_ka1_pkt1(1)),
    {
        let s = KaSession {
            ka1_cnt: 1,
            ka2_cnt: 0,
            ka1_flag: [0, 0],
            ka2_flag: [0, 0],
            seed: [0, 0, 0, 0],
            host_ip: [0, 0, 0, 0],
            stage: KaStage::AwaitKa1,
            interval_ms,
            timeouts: 0,
        };
        assert(s@ == (KaView {
            ka1_cnt: 1,
            ka2_cnt: 0,
            ka1_flag: seq![0u8, 0],
            ka2_flag: seq![0u8, 0],
            seed: seq![0u8, 0, 0, 0],
            host_ip: seq![0u8, 0, 0, 0],
            stage: KaStage::AwaitKa1,
            interval_ms,
            timeouts: 0,
        }));
        let a = s.restart_action();
        (s, a)
    }

    fn restart_action(&self) -> (r: KaAction)
        ensures
            action_view(r) == KaActionView::SendRecv(spec_ka1_pkt1(self.ka1_cnt)),
    {
        let p = ka1_pkt1(self.ka1_cnt);
        let v = slice_to_vec(p.as_slice());
        KaAction::SendRecv(v)
    }

    fn restart(&mut self) -> (r: KaAction)
        ensures
            (final(self)@, action_view(r)) == old(self)@.restart(),
    {
        self.stage = KaStage::AwaitKa1;
        self.timeouts = 0;
        self.restart_action()
    }

    fn confirm(&mut self, p: &[u8], rand: u16) -> (r: KaAction)
        requires
            old(self)@.wf(),
        ensures
            final(self)@.wf(),
            (final(self)@, action_view(r)) == old(self)@.confirm(p@, rand),
    {
        match parse_ka2_resp(p) {
            None => self.restart(),
            Some(resp) => {
                self.ka2_flag = flag_of(p, self.ka2_flag);
                let pkt = ka2_pkt2(self.ka2_cnt, self.ka2_flag, rand, resp.key, self.host_ip);
                self.ka1_cnt = next_cnt(self.ka1_cnt);
                self.ka2_cnt = next_cnt(self.ka2_cnt);
                self.stage = KaStage::BetweenRounds;
                let sleep = self.interval_ms.saturating_sub(KA1_TO_KA2_DELAY_MS);
                KaAction::SendSleep(slice_to_vec(pkt.as_slice()), sleep)
            },
        }
    }

    /// One step: what the shell does after reporting `input`; `rand` is a
    /// fresh random number, used when this step builds a KA2 packet.
    pub fn step(&mut self, input: KaInput, rand: u16) -> (r: KaAction)
        requires
            old(self)@.wf(),
        ensures
            final(self)@.wf(),
            (final(self)@, action_view(r)) == old(self)@.step(input_view(input), rand),
    {
        let timed_out = match &input {
            KaInput::Reply(None) => true,
            _ => false,
        };
        let awaiting = match self.stage {
            KaStage::AwaitKa1 | KaStage::AwaitKa2 { .. } => true,
            _ => false,
        };
        if timed_out && awaiting && self.timeouts + 1 < RECV_TIMEOUT_LIMIT {
            self.timeouts = self.timeouts + 1;
            return KaAction::Recv;
        }
        self.timeouts = 0;
        match (self.stage, input) {
            (KaStage::AwaitKa1, KaInput::Reply(Some(p))) => match parse_ka1_resp(p.as_slice()) {
                None => self.restart(),
                Some(init) => {
                    self.ka1_flag = flag_of(p.as_slice(), self.ka1_flag);
                    self.seed = init.seed;
                    self.host_ip = init.host_ip;
                    self.stage = KaStage::BetweenExchanges;
                    let pkt = ka1_pkt2(self.ka1_cnt, true, self.host_ip, self.seed, self.ka1_flag);
                    KaAction::SendSleep(slice_to_vec(pkt.as_slice()), KA1_TO_KA2_DELAY_MS)
                },
            },
            (KaStage::BetweenExchanges, KaInput::Slept) => {
                self.stage = KaStage::AwaitKa2 { retried: false };
                let pkt = ka2_pkt1(self.ka2_cnt, self.ka2_flag, rand, [0, 0, 0, 0]);
                proof {
                    assert([0u8, 0, 0, 0]@ =~= seq![0u8, 0, 0, 0]);
                }
                KaAction::SendRecv(slice_to_vec(pkt.as_slice()))
            },
            (KaStage::AwaitKa2 { retried }, KaInput::Reply(Some(p))) => {
                let file = p.len() >= 3 && p[0] == 0x07 && p[2] == 0x10;
                if !retried && file {
                    match parse_ka2_resp(p.as_slice()) {
                        Some(_) => {
                            self.ka2_flag = flag_of(p.as_slice(), self.ka2_flag);
                        },
                        None => {},
                    }
                    self.stage = KaStage::AwaitKa2 { retried: true };
                    let pkt = ka2_pkt1(self.ka2_cnt, self.ka2_flag, rand, [0, 0, 0, 0]);
                    proof {
                        assert([0u8, 0, 0, 0]@ =~= seq![0u8, 0, 0, 0]);
                    }
                    KaAction::SendRecv(slice_to_vec(pkt.as_slice()))
                } else {
                    self.confirm(p.as_slice(), rand)
                }
            },
            _ => self.restart(),
        }
    }
}

/// A receive that times out while a reply is awaited waits once more,
/// unless it is the fifth in a row.
pub proof fn lemma_timeout_waits_again(s: KaView, rand: u16)
    requires
        s.awaits_reply(),
        s.timeouts + 1 < RECV_TIMEOUT_LIMIT,
    ensures
        s.step(KaInputView::Reply(None), rand) == (KaView { timeouts: (s.timeouts + 1) as u8, ..s }, KaActionView::Recv),
{
}

/// The fifth receive timeout in a row (or one while no reply is awaited)
/// restarts the round from the KA1 probe with the counters unchanged.
pub proof fn lemma_missing_reply_restarts_round(s: KaView, rand: u16)
    requires
        !s.awaits_reply() || s.timeouts + 1 >= RECV_TIMEOUT_LIMIT,
    ensures
        s.step(KaInputView::Reply(None), rand) == s.restart(),
        s.restart().0.ka1_cnt == s.ka1_cnt,
        s.restart().0.ka2_cnt == s.ka2_cnt,
        s.restart().1 == KaActionView::SendRecv(spec_ka1_pkt1(s.ka1_cnt)),
{
}

/// The counters change only when a round completes: then both advance by
/// two modulo 128 and the KA2 type 3 packet carries the old KA2 counter.
pub proof fn lemma_counters_advance_only_on_confirmation(s: KaView, i: KaInputView, rand: u16)
    requires
        s.wf(),
    ensures
        ({
            let (t, a) = s.step(i, rand);
            (t.ka1_cnt != s.ka1_cnt || t.ka2_cnt != s.ka2_cnt) ==> {
                &&& t.ka1_cnt == (s.ka1_cnt + 2) % 128
                &&& t.ka2_cnt == (s.ka2_cnt + 2) % 128
                &&& t.stage == KaStage::BetweenRounds
                &&& a matches KaActionView::SendSleep(p, ms) && p[1] == s.ka2_cnt && ms == round_sleep(
                    s.interval_ms,
                )
            }
        }),
{
    let (t, a) = s.step(i, rand);
    if t.ka1_cnt != s.ka1_cnt || t.ka2_cnt != s.ka2_cnt {
        match a {
            KaActionView::SendSleep(p, ms) => {
                reveal_with_fuel(crate::heartbeat::zeros, 1);
            },
            _ => {},
        }
    }
}

/// Every step keeps the counters below 128, so a session can run forever.
pub proof fn lemma_step_keeps_wf(s: KaView, i: KaInputView, rand: u16)
    requires
        s.wf(),
    ensures
        s.step(i, rand).0.wf(),
{
}


/// Wait before the heartbeat is set up again after its session ended (ms).
pub const HEARTBEAT_RETRY_DELAY_MS: u64 = 60_000;

/// Report when the heartbeat port is taken (by the official client).
pub const BIND_ERR_MSG: &'static str = "Port 61440 in use, compatibility mode unavailable";

/// What happened to the heartbeat task.
pub enum HbEvent {
    /// The session ended: with its error, or normally.
    SessionEnded(Option<String>),
    /// The retry wait is over.
    RetryDue,
    /// The service stops.
    Stop,
}

/// What the heartbeat task does next.
#[derive(Debug, Clone, Copy, PartialEq, Eq, Structural)]
pub enum HbAction {
    /// Set up a new session.
    Start,
    /// Wait this long, then report `RetryDue` (a stop ends the wait).
    WaitMs(u64),
    /// End the task.
    Exit,
}

/// Supervision of the heartbeat task: an error ending the session is
/// reported, never silent, and the session is set up again after a minute
/// (so it recovers once the official client lets the port go); a normal end
/// also retries after a minute; a stop turns the heartbeat off and ends the
/// task. Gives the status to publish, if any, and the next action.
pub fn heartbeat_next(ev: HbEvent) -> (r: (Option<HeartbeatStatus>, HbAction))
    ensures
        ev matches HbEvent::SessionEnded(Some(e)) ==> r == (Some(HeartbeatStatus::Error(e)), HbAction::WaitMs(
            HEARTBEAT_RETRY_DELAY_MS,
        )),
        ev matches HbEvent::SessionEnded(None) ==> r == (None::<HeartbeatStatus>, HbAction::WaitMs(
            HEARTBEAT_RETRY_DELAY_MS,
        )),
        ev is RetryDue ==> r == (None::<HeartbeatStatus>, HbAction::Start),
        ev is Stop ==> r == (Some(HeartbeatStatus::Off), HbAction::Exit),
{
    match ev {
        HbEvent::SessionEnded(Some(e)) => (Some(HeartbeatStatus::Error(e)), HbAction::WaitMs(HEARTBEAT_RETRY_DELAY_MS)),
        HbEvent::SessionEnded(None) => (None, HbAction::WaitMs(HEARTBEAT_RETRY_DELAY_MS)),
        HbEvent::RetryDue => (None, HbAction::Start),
        HbEvent::Stop => (Some(HeartbeatStatus::Off), HbAction::Exit),
    }
}

/// Status published when the heartbeat port cannot be bound.
pub fn bind_failure_status() -> (r: HeartbeatStatus)
    ensures
        r matches HeartbeatStatus::Error(m) && m@ == BIND_ERR_MSG@,
{
    HeartbeatStatus::Error(String::from_str(BIND_ERR_MSG))
}

/// Error the session ends with when the port cannot be bound:
/// `"<BIND_ERR_MSG>: <system error>"`.
pub fn bind_failure_error(os_error: &str) -> (r: String)
    ensures
        r@ == BIND_ERR_MSG@ + ": "@ + os_error@,
{
    let mut out = String::from_str(BIND_ERR_MSG);
    push_str(&mut out, ": ");
    push_str(&mut out, os_error);
    out
}

/// Status published once the port is bound and the session runs.
pub fn session_running_status() -> (r: HeartbeatStatus)
    ensures
        r == HeartbeatStatus::Running,
{
    HeartbeatStatus::Running
}

} // verus!
