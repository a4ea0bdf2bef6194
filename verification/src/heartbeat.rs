//! Dr.COM (GDUT variant) heartbeat packet format: pure byte operations.
//!
//! The digests of the checksum modes come from the `md-5`, `md4` and `sha1`
//! crates; everything around them (packet layout, byte selection, the KA2
//! checksum, response parsing) is specified and proved here.

use md4::Md4;
use md5::{Digest, Md5};
use sha1::Sha1;
use vstd::prelude::*;

verus! {

/// UDP port of the heartbeat server.
pub const PORT: u16 = 61440;

/// Length of a KA1 second packet.
pub const KA1_LEN: usize = 96;

/// Length of a KA2 packet.
pub const KA2_LEN: usize = 40;

/// Initialisation data carried by a KA1 probe response.
pub struct Ka1Init {
    pub seed: [u8; 4],
    pub host_ip: [u8; 4],
    pub flag: Option<[u8; 2]>,
}

/// Key and optional file-packet flag carried by a KA2 response.
pub struct Ka2Resp {
    pub key: [u8; 4],
    pub flag: Option<[u8; 2]>,
}

/// `n` zero bytes.
pub open spec fn zeros(n: nat) -> Seq<u8> {
    Seq::new(n, |i: int| 0u8)
}

/// Counter advance: `(cnt + 2) % 128`.
pub fn next_cnt(cnt: u8) -> (r: u8)
    ensures
        r == (cnt + 2) % 128,
        r < 128,
{
    let wide: u16 = cnt as u16 + 2;
    (wide % 128) as u8
}

/// KA1 probe: `07 cnt 08 00 01 00 00 00`.
pub fn ka1_pkt1(cnt: u8) -> (r: [u8; 8])
    ensures
        r@ == seq![0x07u8, cnt, 0x08, 0x00, 0x01, 0x00, 0x00, 0x00],
{
    let r = [0x07u8, cnt, 0x08, 0x00, 0x01, 0x00, 0x00, 0x00];
    assert(r@ =~= seq![0x07u8, cnt, 0x08, 0x00, 0x01, 0x00, 0x00, 0x00]);
    r
}

/// A response is a KA1 response when it starts with `0x07` and is at least 30 bytes.
pub open spec fn is_ka1_resp(pkt: Seq<u8>) -> bool {
    pkt.len() >= 30 && pkt[0] == 0x07u8
}

/// Bytes `6..8` are a flag exactly when byte 2 marks a file packet (`0x10`).
pub open spec fn file_flag(pkt: Seq<u8>, flag: Option<[u8; 2]>) -> bool {
    &&& (flag is Some <==> pkt[2] == 0x10u8)
    &&& (flag matches Some(f) ==> f@ == pkt.subrange(6, 8))
}

/// Parses a KA1 probe response: seed at `8..12`, host IP at `12..16`,
/// flag at `6..8` for a file packet.
pub fn parse_ka1_resp(pkt: &[u8]) -> (r: Option<Ka1Init>)
    ensures
        r is Some <==> is_ka1_resp(pkt@),
        r matches Some(i) ==> {
            &&& i.seed@ == pkt@.subrange(8, 12)
            &&& i.host_ip@ == pkt@.subrange(12, 16)
            &&& file_flag(pkt@, i.flag)
        },
{
    if pkt.len() < 30 || pkt[0] != 0x07 {
        return None;
    }
    let seed = [pkt[8], pkt[9], pkt[10], pkt[11]];
    let host_ip = [pkt[12], pkt[13], pkt[14], pkt[15]];
    let flag = if pkt[2] == 0x10 {
        Some([pkt[6], pkt[7]])
    } else {
        None
    };
    assert(seed@ =~= pkt@.subrange(8, 12));
    assert(host_ip@ =~= pkt@.subrange(12, 16));
    assert(flag matches Some(f) ==> f@ =~= pkt@.subrange(6, 8));
    Some(Ka1Init { seed, host_ip, flag })
}

/// MD5 digest of the data, as the `md-5` crate computes it.
pub uninterp spec fn md5_digest(data: Seq<u8>) -> Seq<u8>;

/// MD4 digest of the data, as the `md4` crate computes it.
pub uninterp spec fn md4_digest(data: Seq<u8>) -> Seq<u8>;

/// SHA-1 digest of the data, as the `sha1` crate computes it.
pub uninterp spec fn sha1_digest(data: Seq<u8>) -> Seq<u8>;

/// Calls `Md5::digest` (`md-5` crate). Claims only that the 16 bytes
/// returned are the MD5 digest of the argument, a function of the argument.
#[verifier::external_body]
fn md5_of(data: &[u8]) -> (r: [u8; 16])
    ensures
        r@ == md5_digest(data@),
{
    let d = Md5::digest(data);
    let mut out = [0u8; 16];
    out.copy_from_slice(&d);
    out
}

/// Calls `Md4::digest` (`md4` crate). Claims only that the 16 bytes
/// returned are the MD4 digest of the argument, a function of the argument.
#[verifier::external_body]
fn md4_of(data: &[u8]) -> (r: [u8; 16])
    ensures
        r@ == md4_digest(data@),
{
    let d = Md4::digest(data);
    let mut out = [0u8; 16];
    out.copy_from_slice(&d);
    out
}

/// Calls `Sha1::digest` (`sha1` crate). Claims only that the 20 bytes
/// returned are the SHA-1 digest of the argument, a function of the argument.
#[verifier::external_body]
fn sha1_of(data: &[u8]) -> (r: [u8; 20])
    ensures
        r@ == sha1_digest(data@),
{
    let d = Sha1::digest(data);
    let mut out = [0u8; 20];
    out.copy_from_slice(&d);
    out
}

/// The eight bytes of `d` at the positions `idx`.
pub open spec fn pick(d: Seq<u8>, idx: Seq<int>) -> Seq<u8> {
    Seq::new(8, |i: int| d[idx[i]])
}

/// Byte positions picked from the MD5 digest (mode 1).
pub open spec fn md5_idx() -> Seq<int> {
    seq![2int, 3, 8, 9, 5, 6, 13, 14]
}

/// Byte positions picked from the MD4 digest (mode 2).
pub open spec fn md4_idx() -> Seq<int> {
    seq![1int, 2, 8, 9, 4, 5, 11, 12]
}

/// Byte positions picked from the SHA-1 digest (mode 3).
pub open spec fn sha1_idx() -> Seq<int> {
    seq![2int, 3, 9, 10, 5, 6, 15, 16]
}

/// Picks eight bytes of a digest at the given positions.
pub fn pick8(d: &[u8], idx: [usize; 8]) -> (r: [u8; 8])
    requires
        forall|i: int| 0 <= i < 8 ==> idx[i] < d@.len(),
    ensures
        r@ == Seq::new(8, |i: int| d@[idx[i] as int]),
{
    let r = [
        d[idx[0]],
        d[idx[1]],
        d[idx[2]],
        d[idx[3]],
        d[idx[4]],
        d[idx[5]],
        d[idx[6]],
        d[idx[7]],
    ];
    assert(r@ =~= Seq::new(8, |i: int| d@[idx[i] as int]));
    r
}

/// Mode 0 checksum bytes: `le32(20000711) ++ le32(126)`.
pub open spec fn spec_plain_bytes() -> Seq<u8> {
    seq![0xc7u8, 0x2f, 0x31, 0x01, 0x7e, 0x00, 0x00, 0x00]
}

/// Checksum bytes for a seed: `seed[0] & 3` selects the mode.
pub open spec fn spec_crypt_bytes(seed: Seq<u8>) -> Seq<u8> {
    let m = seed[0] & 3u8;
    if m == 0 {
        spec_plain_bytes()
    } else if m == 1 {
        pick(md5_digest(seed), md5_idx())
    } else if m == 2 {
        pick(md4_digest(seed), md4_idx())
    } else {
        pick(sha1_digest(seed), sha1_idx())
    }
}

/// Mode 0 checksum bytes: `le32(20000711) ++ le32(126)`.
pub fn plain_bytes() -> (r: [u8; 8])
    ensures
        r@ == spec_plain_bytes(),
{
    let a: u32 = 20000711;
    let b: u32 = 126;
    let r = [
        (a & 0xff) as u8,
        ((a >> 8) & 0xff) as u8,
        ((a >> 16) & 0xff) as u8,
        ((a >> 24) & 0xff) as u8,
        (b & 0xff) as u8,
        ((b >> 8) & 0xff) as u8,
        ((b >> 16) & 0xff) as u8,
        ((b >> 24) & 0xff) as u8,
    ];
    assert(r@ =~= spec_plain_bytes()) by {
        assert((a & 0xff) as u8 == 0xc7u8) by (bit_vector)
            requires
                a == 20000711u32,
        ;
        assert(((a >> 8) & 0xff) as u8 == 0x2fu8) by (bit_vector)
            requires
                a == 20000711u32,
        ;
        assert(((a >> 16) & 0xff) as u8 == 0x31u8) by (bit_vector)
            requires
                a == 20000711u32,
        ;
        assert(((a >> 24) & 0xff) as u8 == 0x01u8) by (bit_vector)
            requires
                a == 20000711u32,
        ;
        assert((b & 0xff) as u8 == 0x7eu8) by (bit_vector)
            requires
                b == 126u32,
        ;
        assert(((b >> 8) & 0xff) as u8 == 0u8) by (bit_vector)
            requires
                b == 126u32,
        ;
        assert(((b >> 16) & 0xff) as u8 == 0u8) by (bit_vector)
            requires
                b == 126u32,
        ;
        assert(((b >> 24) & 0xff) as u8 == 0u8) by (bit_vector)
            requires
                b == 126u32,
        ;
    }
    r
}

/// Mode 1: MD5 of the seed, bytes `[2,3,8,9,5,6,13,14]`.
pub fn md5_bytes(seed: &[u8; 4]) -> (r: [u8; 8])
    ensures
        r@ == pick(md5_digest(seed@), md5_idx()),
{
    let d = md5_of(seed.as_slice());
    let r = pick8(d.as_slice(), [2, 3, 8, 9, 5, 6, 13, 14]);
    assert(r@ =~= pick(md5_digest(seed@), md5_idx()));
    r
}

/// Mode 2: MD4 of the seed, bytes `[1,2,8,9,4,5,11,12]`.
pub fn md4_bytes(seed: &[u8; 4]) -> (r: [u8; 8])
    ensures
        r@ == pick(md4_digest(seed@), md4_idx()),
{
    let d = md4_of(seed.as_slice());
    let r = pick8(d.as_slice(), [1, 2, 8, 9, 4, 5, 11, 12]);
    assert(r@ =~= pick(md4_digest(seed@), md4_idx()));
    r
}

/// Mode 3: SHA-1 of the seed, bytes `[2,3,9,10,5,6,15,16]`.
pub fn sha1_bytes(seed: &[u8; 4]) -> (r: [u8; 8])
    ensures
        r@ == pick(sha1_digest(seed@), sha1_idx()),
{
    let d = sha1_of(seed.as_slice());
    let r = pick8(d.as_slice(), [2, 3, 9, 10, 5, 6, 15, 16]);
    assert(r@ =~= pick(sha1_digest(seed@), sha1_idx()));
    r
}

/// Checksum bytes: `seed[0] & 3` selects plain / MD5 / MD4 / SHA-1.
pub fn crypt_bytes(seed: &[u8; 4]) -> (r: [u8; 8])
    ensures
        r@ == spec_crypt_bytes(seed@),
{
    let m = seed[0] & 3;
    if m == 0 {
        plain_bytes()
    } else if m == 1 {
        md5_bytes(seed)
    } else if m == 2 {
        md4_bytes(seed)
    } else {
        sha1_bytes(seed)
    }
}


/// KA1 second packet (96 bytes): `07 cnt 60 00 03 00`, 6 zero bytes, host IP,
/// `00 62|63`, flag, seed, checksum bytes, 64 zero bytes.
pub open spec fn spec_ka1_pkt2(
    cnt: u8,
    first: bool,
    host_ip: Seq<u8>,
    seed: Seq<u8>,
    flag: Seq<u8>,
) -> Seq<u8> {
    seq![0x07u8, cnt, 0x60, 0x00, 0x03, 0x00] + zeros(6) + host_ip + seq![
        0x00u8,
        if first {
            0x62u8
        } else {
            0x63u8
        },
    ] + flag + seed + spec_crypt_bytes(seed) + zeros(64)
}

/// Builds the KA1 second packet; `first` selects `0x62` over `0x63`.
pub fn ka1_pkt2(cnt: u8, first: bool, host_ip: [u8; 4], seed: [u8; 4], flag: [u8; 2]) -> (r: [u8;
    KA1_LEN])
    ensures
        r@ == spec_ka1_pkt2(cnt, first, host_ip@, seed@, flag@),
{
    let mut pkt = [0u8; KA1_LEN];
    pkt[0] = 0x07;
    pkt[1] = cnt;
    pkt[2] = 0x60;
    pkt[3] = 0x00;
    pkt[4] = 0x03;
    pkt[5] = 0x00;
    pkt[12] = host_ip[0];
    pkt[13] = host_ip[1];
    pkt[14] = host_ip[2];
    pkt[15] = host_ip[3];
    pkt[16] = 0x00;
    pkt[17] = if first {
        0x62
    } else {
        0x63
    };
    pkt[18] = flag[0];
    pkt[19] = flag[1];
    pkt[20] = seed[0];
    pkt[21] = seed[1];
    pkt[22] = seed[2];
    pkt[23] = seed[3];
    let c = crypt_bytes(&seed);
    pkt[24] = c[0];
    pkt[25] = c[1];
    pkt[26] = c[2];
    pkt[27] = c[3];
    pkt[28] = c[4];
    pkt[29] = c[5];
    pkt[30] = c[6];
    pkt[31] = c[7];
    assert(pkt@ =~= spec_ka1_pkt2(cnt, first, host_ip@, seed@, flag@));
    pkt
}

/// Little-endian 16-bit word `i` of a packet.
pub open spec fn word_le(p: Seq<u8>, i: int) -> u16 {
    (p[2 * i] as u16) | ((p[2 * i + 1] as u16) << 8u16)
}

/// XOR of the first `n` little-endian 16-bit words.
pub open spec fn xor_words(p: Seq<u8>, n: nat) -> u16
    decreases n,
{
    if n == 0 {
        0u16
    } else {
        xor_words(p, (n - 1) as nat) ^ word_le(p, n - 1)
    }
}

/// Little-endian bytes of a 32-bit value.
pub open spec fn le32(v: u32) -> Seq<u8> {
    seq![
        (v & 0xff) as u8,
        ((v >> 8u32) & 0xff) as u8,
        ((v >> 16u32) & 0xff) as u8,
        ((v >> 24u32) & 0xff) as u8,
    ]
}

/// Big-endian bytes of a 16-bit value.
pub open spec fn be16(v: u16) -> Seq<u8> {
    seq![(v >> 8u16) as u8, (v & 0xff) as u8]
}

/// KA2 checksum: XOR of all little-endian 16-bit words, times `0x2c7`,
/// written as 32-bit little endian.
pub open spec fn spec_ka2_checksum(p: Seq<u8>) -> Seq<u8> {
    le32(((xor_words(p, 20) as int) * 0x2c7) as u32)
}

/// Computes the KA2 checksum of a 40-byte packet.
pub fn ka2_checksum(pkt: &[u8; KA2_LEN]) -> (r: [u8; 4])
    ensures
        r@ == spec_ka2_checksum(pkt@),
{
    let mut sum: u16 = 0;
    let mut i: usize = 0;
    while i < 20
        invariant
            i <= 20,
            sum == xor_words(pkt@, i as nat),
        decreases 20 - i,
    {
        let w: u16 = (pkt[2 * i] as u16) | ((pkt[2 * i + 1] as u16) << 8u16);
        sum = sum ^ w;
        i = i + 1;
    }
    let s32: u32 = sum as u32;
    assert(s32 * 0x2c7 <= 0xffffu32 * 0x2c7) by (nonlinear_arith)
        requires
            s32 <= 0xffff,
    ;
    let v: u32 = s32 * 0x2c7;
    let r = [
        (v & 0xff) as u8,
        ((v >> 8u32) & 0xff) as u8,
        ((v >> 16u32) & 0xff) as u8,
        ((v >> 24u32) & 0xff) as u8,
    ];
    assert(r@ =~= spec_ka2_checksum(pkt@));
    r
}

/// KA2 type 1 packet (40 bytes): `07 cnt 28 00 0b 01`, flag, big-endian
/// rand, 6 zero bytes, key at `16..20`, zeros.
pub open spec fn spec_ka2_pkt1(cnt: u8, flag: Seq<u8>, rand: u16, key: Seq<u8>) -> Seq<u8> {
    seq![0x07u8, cnt, 0x28, 0x00, 0x0b, 0x01] + flag + be16(rand) + zeros(6) + key + zeros(20)
}

/// Builds the KA2 type 1 packet.
pub fn ka2_pkt1(cnt: u8, flag: [u8; 2], rand: u16, key: [u8; 4]) -> (r: [u8; KA2_LEN])
    ensures
        r@ == spec_ka2_pkt1(cnt, flag@, rand, key@),
{
    let mut pkt = [0u8; KA2_LEN];
    pkt[0] = 0x07;
    pkt[1] = cnt;
    pkt[2] = 0x28;
    pkt[3] = 0x00;
    pkt[4] = 0x0b;
    pkt[5] = 0x01;
    pkt[6] = flag[0];
    pkt[7] = flag[1];
    pkt[8] = (rand >> 8u16) as u8;
    pkt[9] = (rand & 0xff) as u8;
    pkt[16] = key[0];
    pkt[17] = key[1];
    pkt[18] = key[2];
    pkt[19] = key[3];
    assert(pkt@ =~= spec_ka2_pkt1(cnt, flag@, rand, key@));
    pkt
}

/// A response is a KA2 response when it starts with `0x07` and is at least 20 bytes.
pub open spec fn is_ka2_resp(pkt: Seq<u8>) -> bool {
    pkt.len() >= 20 && pkt[0] == 0x07u8
}

/// Parses a KA2 response: key at `16..20`, flag at `6..8` for a file packet.
pub fn parse_ka2_resp(pkt: &[u8]) -> (r: Option<Ka2Resp>)
    ensures
        r is Some <==> is_ka2_resp(pkt@),
        r matches Some(k) ==> {
            &&& k.key@ == pkt@.subrange(16, 20)
            &&& file_flag(pkt@, k.flag)
        },
{
    if pkt.len() < 20 || pkt[0] != 0x07 {
        return None;
    }
    let key = [pkt[16], pkt[17], pkt[18], pkt[19]];
    let flag = if pkt[2] == 0x10 {
        Some([pkt[6], pkt[7]])
    } else {
        None
    };
    assert(key@ =~= pkt@.subrange(16, 20));
    assert(flag matches Some(f) ==> f@ =~= pkt@.subrange(6, 8));
    Some(Ka2Resp { key, flag })
}

/// KA2 type 3 packet before its checksum is filled in: `07 cnt 28 00 0b 03`,
/// flag, big-endian rand, 6 zero bytes, key, 8 zero bytes, host IP at `28..32`, zeros.
pub open spec fn ka2_pkt2_body(
    cnt: u8,
    flag: Seq<u8>,
    rand: u16,
    key: Seq<u8>,
    host_ip: Seq<u8>,
) -> Seq<u8> {
    seq![0x07u8, cnt, 0x28, 0x00, 0x0b, 0x03] + flag + be16(rand) + zeros(6) + key + zeros(8)
        + host_ip + zeros(8)
}

/// KA2 type 3 packet: the body with the checksum of the body at `24..28`.
pub open spec fn spec_ka2_pkt2(
    cnt: u8,
    flag: Seq<u8>,
    rand: u16,
    key: Seq<u8>,
    host_ip: Seq<u8>,
) -> Seq<u8> {
    let body = ka2_pkt2_body(cnt, flag, rand, key, host_ip);
    body.subrange(0, 24) + spec_ka2_checksum(body) + body.subrange(28, 40)
}

/// Builds the KA2 type 3 packet, checksum computed over the packet with a zero checksum field.
pub fn ka2_pkt2(cnt: u8, flag: [u8; 2], rand: u16, key: [u8; 4], host_ip: [u8; 4]) -> (r: [u8;
    KA2_LEN])
    ensures
        r@ == spec_ka2_pkt2(cnt, flag@, rand, key@, host_ip@),
{
    let mut pkt = [0u8; KA2_LEN];
    pkt[0] = 0x07;
    pkt[1] = cnt;
    pkt[2] = 0x28;
    pkt[3] = 0x00;
    pkt[4] = 0x0b;
    pkt[5] = 0x03;
    pkt[6] = flag[0];
    pkt[7] = flag[1];
    pkt[8] = (rand >> 8u16) as u8;
    pkt[9] = (rand & 0xff) as u8;
    pkt[16] = key[0];
    pkt[17] = key[1];
    pkt[18] = key[2];
    pkt[19] = key[3];
    pkt[28] = host_ip[0];
    pkt[29] = host_ip[1];
    pkt[30] = host_ip[2];
    pkt[31] = host_ip[3];
    let ghost body = pkt@;
    assert(body =~= ka2_pkt2_body(cnt, flag@, rand, key@, host_ip@));
    let crc = ka2_checksum(&pkt);
    pkt[24] = crc[0];
    pkt[25] = crc[1];
    pkt[26] = crc[2];
    pkt[27] = crc[3];
    assert(pkt@ =~= spec_ka2_pkt2(cnt, flag@, rand, key@, host_ip@));
    pkt
}


/// A receiver that zeroes the checksum field of a KA2 type 3 packet and
/// recomputes the checksum finds the checksum that the packet carries.
pub proof fn lemma_ka2_pkt2_checksum_verifies(
    cnt: u8,
    flag: [u8; 2],
    rand: u16,
    key: [u8; 4],
    host_ip: [u8; 4],
)
    ensures
        ({
            let p = spec_ka2_pkt2(cnt, flag@, rand, key@, host_ip@);
            &&& p.len() == KA2_LEN
            &&& p.subrange(24, 28) == spec_ka2_checksum(
                p.subrange(0, 24) + zeros(4) + p.subrange(28, 40),
            )
        }),
{
    let body = ka2_pkt2_body(cnt, flag@, rand, key@, host_ip@);
    let p = spec_ka2_pkt2(cnt, flag@, rand, key@, host_ip@);
    assert(p.subrange(0, 24) + zeros(4) + p.subrange(28, 40) =~= body);
    assert(p.subrange(24, 28) =~= spec_ka2_checksum(body));
}

/// Parsing a KA2 type 1 packet as a response yields the key that was
/// written into it and no file-packet flag.
pub proof fn lemma_ka2_pkt1_key_parses_back(cnt: u8, flag: [u8; 2], rand: u16, key: [u8; 4])
    ensures
        ({
            let p = spec_ka2_pkt1(cnt, flag@, rand, key@);
            &&& is_ka2_resp(p)
            &&& p.subrange(16, 20) == key@
            &&& p[2] != 0x10u8
        }),
{
    let p = spec_ka2_pkt1(cnt, flag@, rand, key@);
    assert(p.subrange(16, 20) =~= key@);
}

/// A KA1 second packet carries the counter at byte 1, the seed at `20..24`
/// and the checksum bytes of that seed at `24..32`.
pub proof fn lemma_ka1_pkt2_carries_counter_seed_and_checksum(
    cnt: u8,
    first: bool,
    host_ip: [u8; 4],
    seed: [u8; 4],
    flag: [u8; 2],
)
    ensures
        spec_ka1_pkt2(cnt, first, host_ip@, seed@, flag@).len() == KA1_LEN,
        spec_ka1_pkt2(cnt, first, host_ip@, seed@, flag@)[1] == cnt,
        spec_ka1_pkt2(cnt, first, host_ip@, seed@, flag@).subrange(20, 24) == seed@,
        spec_ka1_pkt2(cnt, first, host_ip@, seed@, flag@).subrange(24, 32) == spec_crypt_bytes(seed@),
{
    let p = spec_ka1_pkt2(cnt, first, host_ip@, seed@, flag@);
    assert(p.subrange(20, 24) =~= seed@);
    assert(p.subrange(24, 32) =~= spec_crypt_bytes(seed@));
}

} // verus!
