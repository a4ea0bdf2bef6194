//! IPC protocol between the service and its clients: the state snapshot,
//! commands, and the newline-delimited frame decoder.

use std::collections::VecDeque;
use vstd::prelude::*;
use vstd::seq_lib::lemma_flatten_concat;

use crate::text::{decimal, digits_value, is_digit, lemma_decimal_reads_back, push_char, push_str, spec_decimal};

verus! {

/// Wired session state.
#[derive(Debug, Clone, Copy, PartialEq, Eq, Structural)]
pub enum SessionStatus {
    Idle,
    Dialing,
    Connected,
    Backoff,
    AuthFail,
}

/// Compatibility heartbeat state.
#[derive(Debug, Clone, PartialEq, Eq)]
pub enum HeartbeatStatus {
    Off,
    Running,
    Error(String),
}

/// Network mode of the service.
#[derive(Debug, Clone, Copy, PartialEq, Eq, Structural)]
pub enum NetMode {
    /// Wired only; wireless takes over while the wired link is unhealthy.
    WiredExclusive,
    /// Wired with the wireless link kept up as a standby.
    WiredPlusStandby,
}

impl Default for NetMode {
    fn default() -> (r: Self)
        ensures
            r == NetMode::WiredExclusive,
    {
        NetMode::WiredExclusive
    }
}

/// Phase of the wireless takeover.
#[derive(Debug, Clone, Copy, PartialEq, Eq, Structural)]
pub enum WPhase {
    Off,
    Joining,
    Authing,
    Online,
    Error,
}

/// Wireless part of the state snapshot.
#[derive(Debug, Clone, PartialEq, Eq)]
pub struct WirelessSnapshot {
    pub phase: WPhase,
    pub ip: Option<String>,
    pub last_error: Option<String>,
}

impl Default for WirelessSnapshot {
    fn default() -> (r: Self)
        ensures
            r.phase == WPhase::Off,
            r.ip is None,
            r.last_error is None,
    {
        WirelessSnapshot { phase: WPhase::Off, ip: None, last_error: None }
    }
}

/// Service state published to every client.
#[derive(Debug, Clone, PartialEq, Eq)]
pub struct StateSnapshot {
    pub status: SessionStatus,
    pub since_unix: Option<u64>,
    pub ip: Option<String>,
    pub last_drop_reason: Option<String>,
    pub redial_attempts: u32,
    pub heartbeat: HeartbeatStatus,
    pub mode: NetMode,
    pub wireless: WirelessSnapshot,
    /// Recent service events, oldest first.
    pub events: Vec<String>,
}

/// Message from the service to a client.
#[derive(Debug, Clone, PartialEq, Eq)]
pub enum ServerMsg {
    State { state: StateSnapshot },
    Ack,
}

/// Command a client sends to the service.
#[derive(Debug, Clone, PartialEq, Eq)]
pub enum Command {
    Redial,
    SetMode { mode: NetMode },
}

/// Message from a client to the service.
#[derive(Debug, Clone, PartialEq, Eq)]
pub enum ClientMsg {
    Cmd { c: Command },
}

/// Text of a heartbeat status.
pub open spec fn spec_heartbeat_text(h: HeartbeatStatus) -> Seq<char> {
    match h {
        HeartbeatStatus::Off => "Off"@,
        HeartbeatStatus::Running => "Running"@,
        HeartbeatStatus::Error(e) => "Error ("@ + e@ + ")"@,
    }
}

/// Decimal of `n`, zero-padded to at least two digits.
pub open spec fn spec_pad2(n: nat) -> Seq<char> {
    if n < 10 {
        seq!['0'] + spec_decimal(n)
    } else {
        spec_decimal(n)
    }
}

/// `HH:MM:SS` of a number of seconds; hours are not capped.
pub open spec fn spec_format_uptime(secs: nat) -> Seq<char> {
    spec_pad2(secs / 3600) + ":"@ + spec_pad2((secs % 3600) / 60) + ":"@ + spec_pad2(secs % 60)
}

/// Decimal of `n`, zero-padded to at least two digits.
pub fn pad2(n: u64) -> (r: String)
    ensures
        r@ == spec_pad2(n as nat),
{
    let mut out = String::new();
    if n < 10 {
        push_char(&mut out, '0');
    }
    let d = decimal(n);
    push_str(&mut out, d.as_str());
    assert(out@ =~= spec_pad2(n as nat));
    out
}

/// Seconds as `HH:MM:SS` (hours are not capped).
pub fn format_uptime(secs: u64) -> (r: String)
    ensures
        r@ == spec_format_uptime(secs as nat),
{
    let mut out = pad2(secs / 3600);
    push_char(&mut out, ':');
    let m = pad2((secs % 3600) / 60);
    push_str(&mut out, m.as_str());
    push_char(&mut out, ':');
    let s = pad2(secs % 60);
    push_str(&mut out, s.as_str());
    proof {
        reveal_strlit(":");
    }
    assert(out@ =~= spec_format_uptime(secs as nat));
    out
}

impl StateSnapshot {
    /// Chinese description of the session status (shared by the `status`
    /// command and the tray).
    pub fn status_text(&self) -> (r: String)
        ensures
            r@ == crate::status::spec_session_zh(self.status),
    {
        String::from_str(crate::status::session_zh(self.status))
    }

    /// Online time since `since_unix` as `HH:MM:SS`, measured at `now_unix`
    /// (a start in the future counts as zero); `—` without a session.
    pub fn uptime_text(&self, now_unix: u64) -> (r: String)
        ensures
            r@ == match self.since_unix {
                None => "—"@,
                Some(t) => spec_format_uptime(
                    if now_unix >= t {
                        (now_unix - t) as nat
                    } else {
                        0nat
                    },
                ),
            },
    {
        match self.since_unix {
            None => String::from_str("—"),
            Some(t) => format_uptime(now_unix.saturating_sub(t)),
        }
    }

    /// Description of the heartbeat status.
    pub fn heartbeat_text(&self) -> (r: String)
        ensures
            r@ == spec_heartbeat_text(self.heartbeat),
    {
        match &self.heartbeat {
            HeartbeatStatus::Off => String::from_str("Off"),
            HeartbeatStatus::Running => String::from_str("Running"),
            HeartbeatStatus::Error(e) => {
                let mut out = String::from_str("Error (");
                push_str(&mut out, e.as_str());
                push_str(&mut out, ")");
                out
            },
        }
    }
}

/// Optional string as an optional character sequence.
pub open spec fn opt_view(o: Option<String>) -> Option<Seq<char>> {
    match o {
        None => None,
        Some(s) => Some(s@),
    }
}

/// The value of a result with a text error.
pub open spec fn result_view(r: Result<(), String>) -> Result<(), Seq<char>> {
    match r {
        Ok(()) => Ok(()),
        Err(e) => Err(e@),
    }
}

/// Copy of an optional string.
pub fn clone_opt(o: &Option<String>) -> (r: Option<String>)
    ensures
        opt_view(r) == opt_view(*o),
{
    match o {
        None => None,
        Some(s) => Some(s.clone()),
    }
}

/// Heartbeat status with the error as characters.
pub enum HeartbeatView {
    Off,
    Running,
    Error(Seq<char>),
}

/// Heartbeat status as a value.
pub open spec fn heartbeat_view(h: HeartbeatStatus) -> HeartbeatView {
    match h {
        HeartbeatStatus::Off => HeartbeatView::Off,
        HeartbeatStatus::Running => HeartbeatView::Running,
        HeartbeatStatus::Error(e) => HeartbeatView::Error(e@),
    }
}

/// Copy of a heartbeat status.
pub fn copy_heartbeat(h: &HeartbeatStatus) -> (r: HeartbeatStatus)
    ensures
        heartbeat_view(r) == heartbeat_view(*h),
{
    match h {
        HeartbeatStatus::Off => HeartbeatStatus::Off,
        HeartbeatStatus::Running => HeartbeatStatus::Running,
        HeartbeatStatus::Error(e) => HeartbeatStatus::Error(e.clone()),
    }
}

/// A state snapshot as a value: its fields, texts as character sequences.
pub struct SnapshotView {
    pub status: SessionStatus,
    pub since_unix: Option<u64>,
    pub ip: Option<Seq<char>>,
    pub last_drop_reason: Option<Seq<char>>,
    pub redial_attempts: u32,
    pub heartbeat: HeartbeatView,
    pub mode: NetMode,
    pub wireless_phase: WPhase,
    pub wireless_ip: Option<Seq<char>>,
    pub wireless_error: Option<Seq<char>>,
    pub events: Seq<Seq<char>>,
}

/// The value of a snapshot.
pub open spec fn snapshot_view(s: StateSnapshot) -> SnapshotView {
    SnapshotView {
        status: s.status,
        since_unix: s.since_unix,
        ip: opt_view(s.ip),
        last_drop_reason: opt_view(s.last_drop_reason),
        redial_attempts: s.redial_attempts,
        heartbeat: heartbeat_view(s.heartbeat),
        mode: s.mode,
        wireless_phase: s.wireless.phase,
        wireless_ip: opt_view(s.wireless.ip),
        wireless_error: opt_view(s.wireless.last_error),
        events: texts(s.events@),
    }
}

fn same_opt_text(a: &Option<String>, b: &Option<String>) -> (r: bool)
    ensures
        r == (opt_view(*a) == opt_view(*b)),
{
    match (a, b) {
        (None, None) => true,
        (Some(x), Some(y)) => *x == *y,
        _ => false,
    }
}

fn same_texts(a: &Vec<String>, b: &Vec<String>) -> (r: bool)
    ensures
        r == (texts(a@) == texts(b@)),
{
    if a.len() != b.len() {
        assert(texts(a@).len() != texts(b@).len());
        return false;
    }
    let mut i: usize = 0;
    while i < a.len()
        invariant
            a@.len() == b@.len(),
            i <= a@.len(),
            forall|j: int| 0 <= j < i ==> a@[j]@ == b@[j]@,
        decreases a.len() - i,
    {
        if a[i] != b[i] {
            assert(texts(a@)[i as int] != texts(b@)[i as int]);
            return false;
        }
        i = i + 1;
    }
    assert(texts(a@) =~= texts(b@));
    true
}

/// Whether two snapshots carry the same values.
pub fn same_snapshot(a: &StateSnapshot, b: &StateSnapshot) -> (r: bool)
    ensures
        r == (snapshot_view(*a) == snapshot_view(*b)),
{
    let hb = match (&a.heartbeat, &b.heartbeat) {
        (HeartbeatStatus::Off, HeartbeatStatus::Off) => true,
        (HeartbeatStatus::Running, HeartbeatStatus::Running) => true,
        (HeartbeatStatus::Error(x), HeartbeatStatus::Error(y)) => *x == *y,
        _ => false,
    };
    a.status == b.status && a.since_unix == b.since_unix && same_opt_text(&a.ip, &b.ip)
        && same_opt_text(&a.last_drop_reason, &b.last_drop_reason) && a.redial_attempts
        == b.redial_attempts && hb && a.mode == b.mode && a.wireless.phase == b.wireless.phase
        && same_opt_text(&a.wireless.ip, &b.wireless.ip) && same_opt_text(
        &a.wireless.last_error,
        &b.wireless.last_error,
    ) && same_texts(&a.events, &b.events)
}

/// Most events kept in the log.
pub const EVENT_LOG_CAP: usize = 32;

/// `HH:MM:SS` (UTC) of a wall-clock time in Unix seconds.
pub open spec fn spec_clock_text(wall: nat) -> Seq<char> {
    let t = wall % 86400;
    spec_pad2(t / 3600) + ":"@ + spec_pad2((t % 3600) / 60) + ":"@ + spec_pad2(t % 60)
}

/// Line of an event: its time of day, a space, the message.
pub open spec fn spec_event_line(wall: nat, msg: Seq<char>) -> Seq<char> {
    spec_clock_text(wall) + " "@ + msg
}

/// Appends a line to a ring, dropping the oldest one when the ring is full.
pub open spec fn ring_push(ring: Seq<Seq<char>>, line: Seq<char>) -> Seq<Seq<char>> {
    if ring.len() >= EVENT_LOG_CAP {
        ring.drop_first().push(line)
    } else {
        ring.push(line)
    }
}

/// Texts of a vector of strings.
pub open spec fn texts(v: Seq<String>) -> Seq<Seq<char>> {
    v.map_values(|s: String| s@)
}

/// Bounded log of recent service events, oldest first.
pub struct EventLog {
    ring: Vec<String>,
}

impl View for EventLog {
    type V = Seq<Seq<char>>;

    closed spec fn view(&self) -> Seq<Seq<char>> {
        texts(self.ring@)
    }
}

/// `HH:MM:SS` (UTC) of a wall-clock time in Unix seconds.
pub fn clock_text(wall: u64) -> (r: String)
    ensures
        r@ == spec_clock_text(wall as nat),
{
    let t = wall % 86400;
    let mut out = pad2(t / 3600);
    push_char(&mut out, ':');
    let m = pad2((t % 3600) / 60);
    push_str(&mut out, m.as_str());
    push_char(&mut out, ':');
    let s = pad2(t % 60);
    push_str(&mut out, s.as_str());
    proof {
        reveal_strlit(":");
    }
    assert(out@ =~= spec_clock_text(wall as nat));
    out
}

impl EventLog {
    /// Never holds more than [`EVENT_LOG_CAP`] lines.
    pub closed spec fn wf(&self) -> bool {
        self.ring@.len() <= EVENT_LOG_CAP
    }

    /// An empty log.
    pub fn new() -> (r: Self)
        ensures
            r.wf(),
            r@ == Seq::<Seq<char>>::empty(),
    {
        let r = EventLog { ring: Vec::new() };
        assert(r@ =~= Seq::<Seq<char>>::empty());
        r
    }

    /// Records `msg` at wall-clock time `wall`; the oldest line goes when the log is full.
    pub fn push(&mut self, wall: u64, msg: &str)
        requires
            old(self).wf(),
        ensures
            final(self).wf(),
            final(self)@ == ring_push(old(self)@, spec_event_line(wall as nat, msg@)),
    {
        let mut line = clock_text(wall);
        push_char(&mut line, ' ');
        push_str(&mut line, msg);
        proof {
            reveal_strlit(" ");
        }
        assert(line@ =~= spec_event_line(wall as nat, msg@));
        let ghost before = self.ring@;
        if self.ring.len() >= EVENT_LOG_CAP {
            self.ring.remove(0);
            assert(texts(self.ring@) =~= texts(before).drop_first());
        }
        let ghost mid = self.ring@;
        self.ring.push(line);
        assert(texts(self.ring@) =~= texts(mid).push(line@));
    }

    /// The lines, oldest first.
    pub fn ring(&self) -> (r: &Vec<String>)
        ensures
            texts(r@) == self@,
    {
        &self.ring
    }
}

/// Every line of the ring after a push is kept or newest, and the ring stays
/// within its bound: the newest line is last.
pub proof fn lemma_ring_push_keeps_newest(ring: Seq<Seq<char>>, line: Seq<char>)
    requires
        ring.len() <= EVENT_LOG_CAP,
    ensures
        ring_push(ring, line).len() <= EVENT_LOG_CAP,
        ring_push(ring, line).last() == line,
        ring.len() < EVENT_LOG_CAP ==> ring_push(ring, line) == ring.push(line),
{
}

/// Splitting into frames: the frames and the remainder concatenate back to
/// the input, every frame ends with its only newline, the remainder has none.
pub open spec fn is_frame_split(input: Seq<u8>, frames: Seq<Seq<u8>>, rest: Seq<u8>) -> bool {
    &&& frames.flatten() + rest == input
    &&& forall|i: int|
        0 <= i < frames.len() ==> {
            &&& #[trigger] frames[i].len() > 0
            &&& frames[i].last() == 0x0au8
            &&& !frames[i].drop_last().contains(0x0au8)
        }
    &&& !rest.contains(0x0au8)
}

/// Splits a byte stream into newline-terminated frames.
#[derive(Debug)]
pub struct FrameDecoder {
    buf: Vec<u8>,
}

impl Default for FrameDecoder {
    fn default() -> (r: Self)
        ensures
            r.pending() == Seq::<u8>::empty(),
    {
        FrameDecoder { buf: Vec::new() }
    }
}

impl FrameDecoder {
    /// Bytes received but not yet part of a complete frame.
    pub closed spec fn pending(&self) -> Seq<u8> {
        self.buf@
    }

    /// Appends a chunk and returns every frame now complete, newline included.
    pub fn feed(&mut self, chunk: &[u8]) -> (r: VecDeque<Vec<u8>>)
        ensures
            is_frame_split(
                old(self).pending() + chunk@,
                r@.map_values(|f: Vec<u8>| f@),
                final(self).pending(),
            ),
    {
        let mut input: Vec<u8> = Vec::new();
        input.append(&mut self.buf);
        let ghost old_buf = input@;
        input.extend_from_slice(chunk);
        assert(input@ =~= old(self).pending() + chunk@);
        let mut frames: VecDeque<Vec<u8>> = VecDeque::new();
        let mut cur: Vec<u8> = Vec::new();
        let mut i: usize = 0;
        assert(frames@.map_values(|f: Vec<u8>| f@) =~= Seq::<Seq<u8>>::empty());
        assert(Seq::<Seq<u8>>::empty().flatten() =~= Seq::<u8>::empty());
        assert(input@.take(0) =~= Seq::<u8>::empty());
        while i < input.len()
            invariant
                i <= input.len(),
                is_frame_split(input@.take(i as int), frames@.map_values(|f: Vec<u8>| f@), cur@),
            decreases input.len() - i,
        {
            let b = input[i];
            let ghost fs = frames@.map_values(|f: Vec<u8>| f@);
            cur.push(b);
            if b == 0x0a {
                let ghost frame = cur@;
                assert(frame.drop_last() =~= cur@.drop_last());
                let mut done: Vec<u8> = Vec::new();
                std::mem::swap(&mut done, &mut cur);
                frames.push_back(done);
                assert(frames@.map_values(|f: Vec<u8>| f@) =~= fs.push(frame));
                proof {
                    fs.lemma_flatten_push(frame);
                }
                assert(input@.take(i + 1) =~= input@.take(i as int).push(b));
            } else {
                assert(input@.take(i + 1) =~= input@.take(i as int).push(b));
            }
            i = i + 1;
        }
        assert(input@.take(input@.len() as int) =~= input@);
        self.buf = cur;
        frames
    }
}

/// The first frame of a split is the input up to and including its first
/// newline; the remaining frames and the remainder split what follows.
proof fn lemma_frame_split_first(input: Seq<u8>, frames: Seq<Seq<u8>>, rest: Seq<u8>)
    requires
        is_frame_split(input, frames, rest),
        frames.len() > 0,
    ensures
        ({
            let n = frames[0].len() as int;
            &&& 0 < n <= input.len()
            &&& frames[0] == input.take(n)
            &&& input[n - 1] == 0x0au8
            &&& forall|j: int| 0 <= j < n - 1 ==> input[j] != 0x0au8
            &&& is_frame_split(input.skip(n), frames.drop_first(), rest)
        }),
{
    let n = frames[0].len() as int;
    let tail = frames.drop_first();
    assert(frames.flatten() == frames[0] + tail.flatten());
    assert(input == frames[0] + (tail.flatten() + rest));
    assert(input.take(n) =~= frames[0]);
    assert(input.skip(n) =~= tail.flatten() + rest);
    assert(input[n - 1] == frames[0].last());
    assert forall|j: int| 0 <= j < n - 1 implies input[j] != 0x0au8 by {
        assert(input[j] == frames[0].drop_last()[j]);
    }
    assert forall|i: int| 0 <= i < tail.len() implies {
        &&& #[trigger] tail[i].len() > 0
        &&& tail[i].last() == 0x0au8
        &&& !tail[i].drop_last().contains(0x0au8)
    } by {
        assert(tail[i] == frames[i + 1]);
    }
}

/// An input with no frame is all remainder.
proof fn lemma_frame_split_none(input: Seq<u8>, frames: Seq<Seq<u8>>, rest: Seq<u8>)
    requires
        is_frame_split(input, frames, rest),
        frames.len() == 0,
    ensures
        rest == input,
        !input.contains(0x0au8),
{
    assert(frames.flatten() =~= Seq::<u8>::empty());
    assert(input =~= rest);
}

/// A byte stream has exactly one split into frames and remainder.
pub proof fn lemma_frame_split_unique(
    input: Seq<u8>,
    frames: Seq<Seq<u8>>,
    rest: Seq<u8>,
    frames2: Seq<Seq<u8>>,
    rest2: Seq<u8>,
)
    requires
        is_frame_split(input, frames, rest),
        is_frame_split(input, frames2, rest2),
    ensures
        frames == frames2,
        rest == rest2,
    decreases frames.len(),
{
    if frames.len() == 0 {
        lemma_frame_split_none(input, frames, rest);
        if frames2.len() > 0 {
            lemma_frame_split_first(input, frames2, rest2);
            let n = frames2[0].len() as int;
            assert(input.contains(input[n - 1]));
        }
        lemma_frame_split_none(input, frames2, rest2);
        assert(frames =~= frames2);
    } else if frames2.len() == 0 {
        lemma_frame_split_none(input, frames2, rest2);
        lemma_frame_split_first(input, frames, rest);
        let n = frames[0].len() as int;
        assert(input.contains(input[n - 1]));
    } else {
        lemma_frame_split_first(input, frames, rest);
        lemma_frame_split_first(input, frames2, rest2);
        let n = frames[0].len() as int;
        let m = frames2[0].len() as int;
        if n < m {
            assert(input[n - 1] != 0x0au8);
        } else if m < n {
            assert(input[m - 1] != 0x0au8);
        }
        lemma_frame_split_unique(input.skip(n), frames.drop_first(), rest, frames2.drop_first(), rest2);
        assert(frames =~= seq![frames[0]] + frames.drop_first());
        assert(frames2 =~= seq![frames2[0]] + frames2.drop_first());
    }
}

/// Splitting `a`, then splitting its remainder followed by `b`, splits `a + b`.
pub proof fn lemma_frame_split_concat(
    a: Seq<u8>,
    frames_a: Seq<Seq<u8>>,
    rest_a: Seq<u8>,
    b: Seq<u8>,
    frames_b: Seq<Seq<u8>>,
    rest_b: Seq<u8>,
)
    requires
        is_frame_split(a, frames_a, rest_a),
        is_frame_split(rest_a + b, frames_b, rest_b),
    ensures
        is_frame_split(a + b, frames_a + frames_b, rest_b),
{
    lemma_flatten_concat(frames_a, frames_b);
    assert((frames_a + frames_b).flatten() + rest_b =~= frames_a.flatten() + (frames_b.flatten() + rest_b));
    assert(a + b =~= frames_a.flatten() + (rest_a + b));
    let all = frames_a + frames_b;
    assert forall|i: int| 0 <= i < all.len() implies {
        &&& #[trigger] all[i].len() > 0
        &&& all[i].last() == 0x0au8
        &&& !all[i].drop_last().contains(0x0au8)
    } by {
        if i < frames_a.len() {
            assert(all[i] == frames_a[i]);
        } else {
            assert(all[i] == frames_b[i - frames_a.len()]);
        }
    }
}

/// Feeding a decoder in two chunks returns, over both calls, the frames that
/// feeding the two chunks at once returns, and leaves the same bytes pending:
/// the frames depend on the stream only, not on how it was cut.
pub proof fn lemma_feed_in_pieces(
    pending: Seq<u8>,
    c1: Seq<u8>,
    frames1: Seq<Seq<u8>>,
    rest1: Seq<u8>,
    c2: Seq<u8>,
    frames2: Seq<Seq<u8>>,
    rest2: Seq<u8>,
    frames: Seq<Seq<u8>>,
    rest: Seq<u8>,
)
    requires
        is_frame_split(pending + c1, frames1, rest1),
        is_frame_split(rest1 + c2, frames2, rest2),
        is_frame_split(pending + (c1 + c2), frames, rest),
    ensures
        frames == frames1 + frames2,
        rest == rest2,
{
    lemma_frame_split_concat(pending + c1, frames1, rest1, c2, frames2, rest2);
    assert(pending + c1 + c2 =~= pending + (c1 + c2));
    lemma_frame_split_unique(pending + (c1 + c2), frames, rest, frames1 + frames2, rest2);
}


/// A run of `feed` calls on one decoder: before call `i` the decoder holds
/// `pendings[i]`; it is fed `chunks[i]`, returns `frames[i]` and then holds
/// `pendings[i + 1]` (what the contract of `feed` says of each call); what
/// is pending at the start holds no newline (as after `default` or `feed`).
pub open spec fn is_feed_run(chunks: Seq<Seq<u8>>, frames: Seq<Seq<Seq<u8>>>, pendings: Seq<Seq<u8>>) -> bool {
    &&& !pendings[0].contains(0x0au8)
    &&& frames.len() == chunks.len()
    &&& pendings.len() == chunks.len() + 1
    &&& forall|i: int|
        0 <= i < chunks.len() ==> is_frame_split(
            pendings[i] + chunks[i],
            #[trigger] frames[i],
            pendings[i + 1],
        )
}

/// Feeding a stream in any number of chunks returns, over all the calls,
/// the one split of the whole stream (what was pending at the start, then
/// every chunk): the frames, in order, are those of feeding it at once, and
/// what stays pending is the same. So the frames depend on the stream
/// only, not on how it was cut.
pub proof fn lemma_feed_run(
    chunks: Seq<Seq<u8>>,
    frames: Seq<Seq<Seq<u8>>>,
    pendings: Seq<Seq<u8>>,
    whole_frames: Seq<Seq<u8>>,
    whole_rest: Seq<u8>,
)
    requires
        is_feed_run(chunks, frames, pendings),
        is_frame_split(pendings[0] + chunks.flatten(), whole_frames, whole_rest),
    ensures
        whole_frames == frames.flatten(),
        whole_rest == pendings.last(),
{
    lemma_feed_run_splits(chunks, frames, pendings);
    lemma_frame_split_unique(
        pendings[0] + chunks.flatten(),
        whole_frames,
        whole_rest,
        frames.flatten(),
        pendings.last(),
    );
}

/// A run of feeds splits the whole stream into all its frames and the last
/// pending bytes.
proof fn lemma_feed_run_splits(chunks: Seq<Seq<u8>>, frames: Seq<Seq<Seq<u8>>>, pendings: Seq<Seq<u8>>)
    requires
        is_feed_run(chunks, frames, pendings),
    ensures
        is_frame_split(pendings[0] + chunks.flatten(), frames.flatten(), pendings.last()),
    decreases chunks.len(),
{
    if chunks.len() == 0 {
        assert(chunks.flatten() =~= Seq::<u8>::empty());
        assert(frames.flatten() =~= Seq::<Seq<u8>>::empty());
        assert(pendings[0] + chunks.flatten() =~= pendings[0]);
        assert(Seq::<Seq<u8>>::empty().flatten() =~= Seq::<u8>::empty());
        assert(Seq::<Seq<u8>>::empty().flatten() + pendings[0] =~= pendings[0]);
        assert(pendings.last() == pendings[0]);
    } else {
        let n = chunks.len() - 1;
        let cs = chunks.drop_last();
        let fs = frames.drop_last();
        let ps = pendings.drop_last();
        assert forall|i: int| 0 <= i < cs.len() implies is_frame_split(
            ps[i] + cs[i],
            #[trigger] fs[i],
            ps[i + 1],
        ) by {
            assert(fs[i] == frames[i]);
            assert(ps[i] == pendings[i] && ps[i + 1] == pendings[i + 1] && cs[i] == chunks[i]);
        }
        if n > 0 {
            assert(ps[0] == pendings[0]);
        }
        assert(ps[0] == pendings[0]);
        lemma_feed_run_splits(cs, fs, ps);
        assert(ps.last() == pendings[n]);
        assert(is_frame_split(pendings[n] + chunks[n], frames[n], pendings[n + 1]));
        lemma_frame_split_concat(ps[0] + cs.flatten(), fs.flatten(), ps.last(), chunks[n], frames[n], pendings[n + 1]);
        assert(chunks =~= cs.push(chunks[n]));
        assert(frames =~= fs.push(frames[n]));
        cs.lemma_flatten_push(chunks[n]);
        fs.lemma_flatten_push(frames[n]);
        assert(pendings[0] + chunks.flatten() =~= ps[0] + cs.flatten() + chunks[n]);
    }
}


/// Length of the longest prefix of `s` that ends with a newline (zero when
/// `s` holds none).
pub open spec fn complete_len(s: Seq<u8>) -> nat
    decreases s.len(),
{
    if s.len() == 0 {
        0
    } else if s.last() == 0x0au8 {
        s.len()
    } else {
        complete_len(s.drop_last())
    }
}

proof fn lemma_complete_len_skip_rest(f: Seq<u8>, rest: Seq<u8>)
    requires
        f.len() == 0 || f.last() == 0x0au8,
        !rest.contains(0x0au8),
    ensures
        complete_len(f + rest) == f.len(),
    decreases rest.len(),
{
    if rest.len() == 0 {
        assert(f + rest =~= f);
    } else {
        assert((f + rest).drop_last() =~= f + rest.drop_last());
        assert((f + rest).last() == rest.last());
        assert(rest.contains(rest[rest.len() - 1]));
        assert forall|x: u8| rest.drop_last().contains(x) implies rest.contains(x) by {
            let i = choose|i: int| 0 <= i < rest.drop_last().len() && rest.drop_last()[i] == x;
            assert(rest[i] == x);
        }
        lemma_complete_len_skip_rest(f, rest.drop_last());
    }
}

/// The frames of a split are, run together, the longest prefix of the
/// input that ends with a newline; the remainder is what follows it.
pub proof fn lemma_frames_are_complete_prefix(input: Seq<u8>, frames: Seq<Seq<u8>>, rest: Seq<u8>)
    requires
        is_frame_split(input, frames, rest),
    ensures
        frames.flatten() == input.take(complete_len(input) as int),
        rest == input.skip(complete_len(input) as int),
{
    let f = frames.flatten();
    if frames.len() > 0 {
        let n = frames.len() - 1;
        assert(frames =~= frames.drop_last().push(frames[n]));
        frames.drop_last().lemma_flatten_push(frames[n]);
        assert(frames[n].len() > 0 && frames[n].last() == 0x0au8);
        assert(f.last() == frames[n].last());
    } else {
        assert(f =~= Seq::<u8>::empty());
    }
    lemma_complete_len_skip_rest(f, rest);
    assert(input.take(f.len() as int) =~= f);
    assert(input.skip(f.len() as int) =~= rest);
}

/// Fed from a fresh decoder, any run of chunks returns, run together,
/// exactly the longest prefix of the whole stream that ends with a
/// newline, and keeps the rest pending.
pub proof fn lemma_feed_run_complete_prefix(
    chunks: Seq<Seq<u8>>,
    frames: Seq<Seq<Seq<u8>>>,
    pendings: Seq<Seq<u8>>,
)
    requires
        is_feed_run(chunks, frames, pendings),
        pendings[0] == Seq::<u8>::empty(),
    ensures
        frames.flatten().flatten() == chunks.flatten().take(complete_len(chunks.flatten()) as int),
        pendings.last() == chunks.flatten().skip(complete_len(chunks.flatten()) as int),
{
    lemma_feed_run_splits(chunks, frames, pendings);
    assert(pendings[0] + chunks.flatten() =~= chunks.flatten());
    lemma_frames_are_complete_prefix(chunks.flatten(), frames.flatten(), pendings.last());
}


/// Two-digit padding keeps the number: it reads back as `n`, is all
/// digits, and has two characters below a hundred (at least two always).
proof fn lemma_pad2_reads_back(n: nat)
    ensures
        digits_value(spec_pad2(n)) == n,
        forall|i: int| 0 <= i < spec_pad2(n).len() ==> is_digit(#[trigger] spec_pad2(n)[i]),
        spec_pad2(n).len() >= 2,
        n < 100 ==> spec_pad2(n).len() == 2,
{
    lemma_decimal_reads_back(n);
    let p = spec_pad2(n);
    if n < 10 {
        let d = spec_decimal(n);
        assert(p.drop_last() =~= seq!['0']);
        assert(p.last() == d[0]);
        assert(seq!['0'].drop_last() =~= Seq::<char>::empty());
        assert(seq!['0'].last() == '0');
        assert(digits_value(Seq::<char>::empty()) == 0);
        assert(digits_value(seq!['0']) == digits_value(seq!['0'].drop_last()) * 10 + ((seq!['0'].last() as u32)
            - ('0' as u32)) as nat);
        assert(digits_value(seq!['0']) == 0);
        assert(d.drop_last() =~= Seq::<char>::empty());
        assert forall|i: int| 0 <= i < p.len() implies is_digit(#[trigger] p[i]) by {
            if i == 1 {
                assert(p[i] == d[0]);
            }
        }
    }
}

/// The fields of an uptime: the hours (two digits at least), a colon, two
/// digits of minutes, a colon, two digits of seconds; minutes and seconds
/// stay below sixty, and `3600 * hours + 60 * minutes + seconds` is the
/// number of seconds.
pub proof fn lemma_uptime_fields(secs: nat)
    ensures
        ({
            let r = spec_format_uptime(secs);
            let n = r.len() as int;
            let h = r.take(n - 6);
            let m = r.subrange(n - 5, n - 3);
            let s = r.skip(n - 2);
            &&& n >= 8
            &&& r[n - 6] == ':' && r[n - 3] == ':'
            &&& forall|i: int| 0 <= i < h.len() ==> is_digit(#[trigger] h[i])
            &&& forall|i: int| 0 <= i < m.len() ==> is_digit(#[trigger] m[i])
            &&& forall|i: int| 0 <= i < s.len() ==> is_digit(#[trigger] s[i])
            &&& digits_value(m) < 60
            &&& digits_value(s) < 60
            &&& 3600 * digits_value(h) + 60 * digits_value(m) + digits_value(s) == secs
        }),
{
    reveal_strlit(":");
    let hh = secs / 3600;
    let mm = (secs % 3600) / 60;
    let ss = secs % 60;
    lemma_pad2_reads_back(hh);
    lemma_pad2_reads_back(mm);
    lemma_pad2_reads_back(ss);
    let a = spec_pad2(hh);
    let b = spec_pad2(mm);
    let c = spec_pad2(ss);
    let r = spec_format_uptime(secs);
    assert(r =~= a + seq![':'] + b + seq![':'] + c);
    let n = r.len() as int;
    assert(r.take(n - 6) =~= a);
    assert(r.subrange(n - 5, n - 3) =~= b);
    assert(r.skip(n - 2) =~= c);
    assert(3600 * hh + 60 * mm + ss == secs);
}

} // verus!
