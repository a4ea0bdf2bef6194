use md4::Md4;
use md5::{Digest, Md5};
use sha1::Sha1;

use gdut_net::heartbeat::{
    crypt_bytes, ka1_pkt1, ka1_pkt2, ka2_checksum, ka2_pkt1, ka2_pkt2, md4_bytes, md5_bytes,
    next_cnt, parse_ka1_resp, parse_ka2_resp, plain_bytes, sha1_bytes, KA1_LEN, KA2_LEN,
};
use gdut_net::protocol::HeartbeatStatus;
use gdut_net::keepalive::{
    bind_failure_error, bind_failure_status, heartbeat_next, session_running_status, HbAction, HbEvent,
    KaAction, KaInput, KaSession, BIND_ERR_MSG, HEARTBEAT_RETRY_DELAY_MS, KA1_TO_KA2_DELAY_MS,
};

#[test]
fn counters_wrap_at_128() {
    assert_eq!(next_cnt(0), 2);
    assert_eq!(next_cnt(1), 3);
    assert_eq!(next_cnt(126), 0);
    assert_eq!(next_cnt(127), 1);
    assert_eq!(next_cnt(254), 0);
    assert_eq!(next_cnt(255), 1);
}

#[test]
fn ka1_probe_layout() {
    assert_eq!(ka1_pkt1(5), [0x07, 5, 0x08, 0x00, 0x01, 0x00, 0x00, 0x00]);
}

#[test]
fn plain_checksum_bytes() {
    assert_eq!(plain_bytes(), [0xc7, 0x2f, 0x31, 0x01, 0x7e, 0x00, 0x00, 0x00]);
    assert_eq!(crypt_bytes(&[0x04, 1, 2, 3]), plain_bytes());
}

#[test]
fn digest_modes_pick_their_bytes() {
    let seed = [0x01u8, 0x22, 0x33, 0x44];
    let d = Md5::digest(seed);
    assert_eq!(md5_bytes(&seed), [d[2], d[3], d[8], d[9], d[5], d[6], d[13], d[14]]);
    assert_eq!(crypt_bytes(&seed), md5_bytes(&seed));
    let seed = [0x02u8, 0x22, 0x33, 0x44];
    let d = Md4::digest(seed);
    assert_eq!(md4_bytes(&seed), [d[1], d[2], d[8], d[9], d[4], d[5], d[11], d[12]]);
    assert_eq!(crypt_bytes(&seed), md4_bytes(&seed));
    let seed = [0x03u8, 0x22, 0x33, 0x44];
    let d = Sha1::digest(seed);
    assert_eq!(sha1_bytes(&seed), [d[2], d[3], d[9], d[10], d[5], d[6], d[15], d[16]]);
    assert_eq!(crypt_bytes(&seed), sha1_bytes(&seed));
}

#[test]
fn ka1_second_packet_layout() {
    let p = ka1_pkt2(9, true, [10, 0, 0, 1], [0, 1, 2, 3], [0xaa, 0xbb]);
    assert_eq!(p.len(), KA1_LEN);
    assert_eq!(&p[..6], &[0x07, 9, 0x60, 0x00, 0x03, 0x00]);
    assert_eq!(&p[6..12], &[0; 6]);
    assert_eq!(&p[12..16], &[10, 0, 0, 1]);
    assert_eq!(&p[16..18], &[0x00, 0x62]);
    assert_eq!(&p[18..20], &[0xaa, 0xbb]);
    assert_eq!(&p[20..24], &[0, 1, 2, 3]);
    assert_eq!(&p[24..32], &plain_bytes());
    assert!(p[32..].iter().all(|b| *b == 0));
    let q = ka1_pkt2(9, false, [10, 0, 0, 1], [0, 1, 2, 3], [0xaa, 0xbb]);
    assert_eq!(q[17], 0x63);
}

#[test]
fn ka2_packets_layout_and_checksum() {
    let p = ka2_pkt1(4, [1, 2], 0xabcd, [9, 8, 7, 6]);
    assert_eq!(p.len(), KA2_LEN);
    assert_eq!(&p[..10], &[0x07, 4, 0x28, 0x00, 0x0b, 0x01, 1, 2, 0xab, 0xcd]);
    assert_eq!(&p[16..20], &[9, 8, 7, 6]);
    let q = ka2_pkt2(4, [1, 2], 0xabcd, [9, 8, 7, 6], [10, 0, 0, 1]);
    assert_eq!(q[5], 0x03);
    assert_eq!(&q[28..32], &[10, 0, 0, 1]);
    let mut zeroed = q;
    zeroed[24..28].copy_from_slice(&[0, 0, 0, 0]);
    assert_eq!(&q[24..28], &ka2_checksum(&zeroed));
    // The checksum is the XOR of the 16-bit words times 0x2c7.
    let mut x: u16 = 0;
    for i in 0..20 {
        x ^= u16::from_le_bytes([zeroed[2 * i], zeroed[2 * i + 1]]);
    }
    assert_eq!(ka2_checksum(&zeroed), (u32::from(x).wrapping_mul(0x2c7)).to_le_bytes());
}

#[test]
fn responses_parse() {
    let mut r = vec![0u8; 30];
    r[0] = 0x07;
    r[2] = 0x10;
    r[6] = 0xde;
    r[7] = 0xad;
    r[8..12].copy_from_slice(&[1, 2, 3, 4]);
    r[12..16].copy_from_slice(&[10, 0, 0, 9]);
    r[16..20].copy_from_slice(&[5, 6, 7, 8]);
    let i = parse_ka1_resp(&r).unwrap();
    assert_eq!(i.seed, [1, 2, 3, 4]);
    assert_eq!(i.host_ip, [10, 0, 0, 9]);
    assert_eq!(i.flag, Some([0xde, 0xad]));
    let k = parse_ka2_resp(&r).unwrap();
    assert_eq!(k.key, [5, 6, 7, 8]);
    assert_eq!(k.flag, Some([0xde, 0xad]));
    assert!(parse_ka1_resp(&r[..29]).is_none());
    assert!(parse_ka2_resp(&r[..19]).is_none());
    r[2] = 0x00;
    assert_eq!(parse_ka1_resp(&r).unwrap().flag, None);
}

fn send_recv(a: KaAction) -> Vec<u8> {
    match a {
        KaAction::SendRecv(p) => p,
        KaAction::SendSleep(..) | KaAction::Recv => panic!("expected send and receive"),
    }
}

fn send_sleep(a: KaAction) -> (Vec<u8>, u64) {
    match a {
        KaAction::SendSleep(p, ms) => (p, ms),
        KaAction::SendRecv(_) | KaAction::Recv => panic!("expected send and sleep"),
    }
}

fn ka1_reply() -> Vec<u8> {
    let mut r = vec![0u8; 30];
    r[0] = 0x07;
    r[8..12].copy_from_slice(&[4, 0, 0, 0]);
    r[12..16].copy_from_slice(&[10, 1, 2, 3]);
    r
}

fn ka2_reply(file: bool) -> Vec<u8> {
    let mut r = vec![0u8; 40];
    r[0] = 0x07;
    if file {
        r[2] = 0x10;
        r[6] = 0x11;
        r[7] = 0x22;
    }
    r[16..20].copy_from_slice(&[9, 9, 9, 9]);
    r
}

#[test]
fn keepalive_round_completes_and_advances_counters() {
    let (mut s, first) = KaSession::new(20_000);
    assert_eq!(send_recv(first), ka1_pkt1(1).to_vec());
    let (pkt, ms) = send_sleep(s.step(KaInput::Reply(Some(ka1_reply())), 0));
    assert_eq!(pkt, ka1_pkt2(1, true, [10, 1, 2, 3], [4, 0, 0, 0], [0, 0]).to_vec());
    assert_eq!(ms, KA1_TO_KA2_DELAY_MS);
    let pkt = send_recv(s.step(KaInput::Slept, 0x1234));
    assert_eq!(pkt, ka2_pkt1(0, [0, 0], 0x1234, [0; 4]).to_vec());
    let (pkt, ms) = send_sleep(s.step(KaInput::Reply(Some(ka2_reply(false))), 0x5678));
    assert_eq!(pkt, ka2_pkt2(0, [0, 0], 0x5678, [9, 9, 9, 9], [10, 1, 2, 3]).to_vec());
    assert_eq!(ms, 17_000);
    // Next round with the advanced counters.
    let pkt = send_recv(s.step(KaInput::Slept, 0));
    assert_eq!(pkt, ka1_pkt1(3).to_vec());
}

#[test]
fn keepalive_file_packet_teaches_the_flag_and_resends() {
    let (mut s, _) = KaSession::new(20_000);
    s.step(KaInput::Reply(Some(ka1_reply())), 0);
    s.step(KaInput::Slept, 1);
    let pkt = send_recv(s.step(KaInput::Reply(Some(ka2_reply(true))), 2));
    assert_eq!(pkt, ka2_pkt1(0, [0x11, 0x22], 2, [0; 4]).to_vec());
    let (pkt, _) = send_sleep(s.step(KaInput::Reply(Some(ka2_reply(true))), 3));
    assert_eq!(pkt, ka2_pkt2(0, [0x11, 0x22], 3, [9, 9, 9, 9], [10, 1, 2, 3]).to_vec());
}

#[test]
fn keepalive_missing_reply_restarts_with_same_counters() {
    let (mut s, _) = KaSession::new(20_000);
    s.step(KaInput::Reply(Some(ka1_reply())), 0);
    s.step(KaInput::Slept, 1);
    for _ in 0..4 {
        assert!(matches!(s.step(KaInput::Reply(None), 2), KaAction::Recv));
    }
    let pkt = send_recv(s.step(KaInput::Reply(None), 2));
    assert_eq!(pkt, ka1_pkt1(1).to_vec());
    let pkt = send_recv(s.step(KaInput::Reply(Some(vec![0x01, 0x02])), 2));
    assert_eq!(pkt, ka1_pkt1(1).to_vec());
}

#[test]
fn keepalive_short_interval_sleeps_zero() {
    let (mut s, _) = KaSession::new(1_000);
    s.step(KaInput::Reply(Some(ka1_reply())), 0);
    s.step(KaInput::Slept, 1);
    let (_, ms) = send_sleep(s.step(KaInput::Reply(Some(ka2_reply(false))), 2));
    assert_eq!(ms, 0);
}

#[test]
fn heartbeat_supervision_reports_and_retries() {
    assert_eq!(HEARTBEAT_RETRY_DELAY_MS, 60_000);
    let (status, action) = heartbeat_next(HbEvent::SessionEnded(Some("boom".to_string())));
    assert_eq!(status, Some(HeartbeatStatus::Error("boom".to_string())));
    assert_eq!(action, HbAction::WaitMs(60_000));
    assert_eq!(heartbeat_next(HbEvent::SessionEnded(None)), (None, HbAction::WaitMs(60_000)));
    assert_eq!(heartbeat_next(HbEvent::RetryDue), (None, HbAction::Start));
    assert_eq!(heartbeat_next(HbEvent::Stop), (Some(HeartbeatStatus::Off), HbAction::Exit));
    assert_eq!(
        bind_failure_status(),
        HeartbeatStatus::Error("Port 61440 in use, compatibility mode unavailable".to_string())
    );
    assert_eq!(
        bind_failure_error("os error 10048"),
        format!("{BIND_ERR_MSG}: os error 10048")
    );
    assert_eq!(session_running_status(), HeartbeatStatus::Running);
}

#[test]
fn keepalive_timeouts_count_per_wait() {
    let (mut s, _) = KaSession::new(20_000);
    for _ in 0..3 {
        assert!(matches!(s.step(KaInput::Reply(None), 0), KaAction::Recv));
    }
    let (pkt, _) = send_sleep(s.step(KaInput::Reply(Some(ka1_reply())), 0));
    assert_eq!(pkt, ka1_pkt2(1, true, [10, 1, 2, 3], [4, 0, 0, 0], [0, 0]).to_vec());
    s.step(KaInput::Slept, 1);
    for _ in 0..4 {
        assert!(matches!(s.step(KaInput::Reply(None), 0), KaAction::Recv));
    }
    assert_eq!(send_recv(s.step(KaInput::Reply(None), 0)), ka1_pkt1(1).to_vec());
}
