//! Password blob `GDUT1:<entropy_hex>:<base64>` around the DPAPI-protected
//! bytes. DPAPI itself and the registry are used by the Windows shell.

use base64::Engine as _;
use vstd::prelude::*;
use vstd::slice::slice_subrange;

use crate::text::{chars_of, find_char, push_char, spec_find, starts_with, string_of};

verus! {

/// The blob prefix `GDUT1:`.
pub open spec fn blob_prefix() -> Seq<char> {
    seq!['G', 'D', 'U', 'T', '1', ':']
}

/// Standard base64 (with padding) of the bytes, as the `base64` crate encodes it.
pub uninterp spec fn base64_encode(data: Seq<u8>) -> Seq<char>;

/// Standard base64 decoding of the text, as the `base64` crate decodes it
/// (`None` when the text is not valid base64).
pub uninterp spec fn base64_decode(text: Seq<char>) -> Option<Seq<u8>>;

/// Calls `STANDARD.encode` (`base64` crate). Claims that the text is the
/// encoding of the bytes, a function of the bytes, and that decoding it gives
/// the bytes back (the crate documents the two as inverse).
#[verifier::external_body]
fn b64_encode(data: &[u8]) -> (r: String)
    ensures
        r@ == base64_encode(data@),
        base64_decode(r@) == Some(data@),
{
    base64::engine::general_purpose::STANDARD.encode(data)
}

/// Calls `STANDARD.decode` (`base64` crate). Claims that the outcome is a
/// function of the text.
#[verifier::external_body]
fn b64_decode(text: &str) -> (r: Option<Vec<u8>>)
    ensures
        match r {
            None => base64_decode(text@) is None,
            Some(v) => base64_decode(text@) == Some(v@),
        },
{
    base64::engine::general_purpose::STANDARD.decode(text).ok()
}

/// Hex digit (either case).
pub open spec fn is_hex(c: char) -> bool {
    ('0' <= c <= '9') || ('a' <= c <= 'f') || ('A' <= c <= 'F')
}

/// ASCII lower case of a character.
pub open spec fn ascii_lower(c: char) -> char {
    if 'A' <= c <= 'Z' {
        ((c as u32) + 32) as char
    } else {
        c
    }
}

/// ASCII lower case of a text.
pub open spec fn lower_text(s: Seq<char>) -> Seq<char> {
    Seq::new(s.len(), |i: int| ascii_lower(s[i]))
}

/// A valid entropy field: non-empty, even length, hex digits only.
pub open spec fn valid_entropy_hex(h: Seq<char>) -> bool {
    h.len() > 0 && h.len() % 2 == 0 && forall|i: int| 0 <= i < h.len() ==> is_hex(#[trigger] h[i])
}

/// The blob text of an entropy field and protected bytes.
pub open spec fn spec_wrap_blob(entropy_hex: Seq<char>, protected: Seq<u8>) -> Seq<char> {
    blob_prefix() + entropy_hex + seq![':'] + base64_encode(protected)
}

/// Encodes the blob `GDUT1:<entropy_hex>:<base64(protected)>`. With a
/// valid entropy field and non-empty bytes, the blob decodes to the
/// lower-cased field and the same bytes.
pub fn wrap_blob(entropy_hex: &str, protected: &[u8]) -> (r: String)
    ensures
        r@ == spec_wrap_blob(entropy_hex@, protected@),
        valid_entropy_hex(entropy_hex@) && protected@.len() > 0 ==> spec_unwrap_blob(r@) == Some(
            (lower_text(entropy_hex@), protected@),
        ),
{
    let mut out = String::new();
    push_char(&mut out, 'G');
    push_char(&mut out, 'D');
    push_char(&mut out, 'U');
    push_char(&mut out, 'T');
    push_char(&mut out, '1');
    push_char(&mut out, ':');
    out.append(entropy_hex);
    push_char(&mut out, ':');
    let enc = b64_encode(protected);
    out.append(enc.as_str());
    assert(out@ =~= spec_wrap_blob(entropy_hex@, protected@));
    proof {
        if valid_entropy_hex(entropy_hex@) && protected@.len() > 0 {
            lemma_blob_roundtrip(entropy_hex@, protected@);
        }
    }
    out
}

/// Decoding of a blob: the prefix, the entropy field up to the first `:`
/// after it (non-empty, even, hex), and non-empty base64 bytes; the entropy
/// comes back in lower case.
pub open spec fn spec_unwrap_blob(s: Seq<char>) -> Option<(Seq<char>, Seq<u8>)> {
    if !blob_prefix().is_prefix_of(s) {
        None
    } else {
        let rest = s.skip(6);
        match spec_find(rest, ':') {
            None => None,
            Some(i) => {
                let h = rest.take(i);
                if !valid_entropy_hex(h) {
                    None
                } else {
                    match base64_decode(rest.skip(i + 1)) {
                        None => None,
                        Some(p) => if p.len() == 0 {
                            None
                        } else {
                            Some((lower_text(h), p))
                        },
                    }
                }
            },
        }
    }
}

fn hex_char(c: char) -> (r: bool)
    ensures
        r == is_hex(c),
{
    ('0' <= c && c <= '9') || ('a' <= c && c <= 'f') || ('A' <= c && c <= 'F')
}

pub(crate) fn lower_char(c: char) -> (r: char)
    ensures
        r == ascii_lower(c),
{
    if 'A' <= c && c <= 'Z' {
        ((c as u8) + 32) as char
    } else {
        c
    }
}

/// Decodes a blob; any malformed part gives `None`.
#[verifier::loop_isolation(false)]
pub fn unwrap_blob(s: &str) -> (r: Option<(String, Vec<u8>)>)
    ensures
        match r {
            None => spec_unwrap_blob(s@) is None,
            Some((h, p)) => spec_unwrap_blob(s@) == Some((h@, p@)),
        },
{
    let cs = chars_of(s);
    let prefix = ['G', 'D', 'U', 'T', '1', ':'];
    assert(prefix@ =~= blob_prefix());
    if !starts_with(cs.as_slice(), prefix.as_slice()) {
        return None;
    }
    let rest = slice_subrange(cs.as_slice(), 6, cs.len());
    assert(rest@ =~= s@.skip(6));
    let i = match find_char(rest, ':') {
        None => {
            return None;
        },
        Some(i) => i,
    };
    let h = slice_subrange(rest, 0, i);
    assert(h@ =~= rest@.take(i as int));
    if h.len() == 0 || h.len() % 2 != 0 {
        return None;
    }
    let mut lower: Vec<char> = Vec::new();
    let mut k: usize = 0;
    while k < h.len()
        invariant
            k <= h@.len(),
            forall|j: int| 0 <= j < k ==> is_hex(#[trigger] h@[j]),
            lower@ == lower_text(h@.take(k as int)),
        decreases h.len() - k,
    {
        if !hex_char(h[k]) {
            assert(!is_hex(h@[k as int]));
            return None;
        }
        lower.push(lower_char(h[k]));
        assert(lower@ =~= lower_text(h@.take(k + 1)));
        k = k + 1;
    }
    assert(h@.take(h@.len() as int) =~= h@);
    let b64 = string_of(slice_subrange(rest, i + 1, rest.len()));
    assert(b64@ =~= rest@.skip(i + 1));
    let protected = match b64_decode(b64.as_str()) {
        None => {
            return None;
        },
        Some(p) => p,
    };
    if protected.len() == 0 {
        return None;
    }
    Some((string_of(lower.as_slice()), protected))
}

/// A blob written with a valid entropy field and non-empty bytes reads back
/// as the lower-cased entropy field and the same bytes.
proof fn lemma_blob_roundtrip(entropy_hex: Seq<char>, protected: Seq<u8>)
    requires
        valid_entropy_hex(entropy_hex),
        protected.len() > 0,
        base64_decode(base64_encode(protected)) == Some(protected),
    ensures
        spec_unwrap_blob(spec_wrap_blob(entropy_hex, protected)) == Some(
            (lower_text(entropy_hex), protected),
        ),
{
    let s = spec_wrap_blob(entropy_hex, protected);
    let rest = s.skip(6);
    assert(blob_prefix().is_prefix_of(s)) by {
        assert(s.take(6) =~= blob_prefix());
    }
    assert(rest =~= entropy_hex + seq![':'] + base64_encode(protected));
    let i = entropy_hex.len() as int;
    assert(rest[i] == ':');
    assert forall|j: int| 0 <= j < i implies rest[j] != ':' by {
        assert(is_hex(entropy_hex[j]));
    }
    assert(crate::text::is_first(rest, ':', i));
    assert(rest.contains(':'));
    assert((choose|k: int| crate::text::is_first(rest, ':', k)) == i);
    assert(rest.take(i) =~= entropy_hex);
    assert(rest.skip(i + 1) =~= base64_encode(protected));
}

/// Value of a hex digit.
pub open spec fn hex_value(c: char) -> nat {
    if '0' <= c <= '9' {
        ((c as u32) - ('0' as u32)) as nat
    } else if 'a' <= c <= 'f' {
        ((c as u32) - ('a' as u32) + 10) as nat
    } else {
        ((c as u32) - ('A' as u32) + 10) as nat
    }
}

/// A two-character group as `u8::from_str_radix(_, 16)` reads it: two hex
/// digits, or `+` and one hex digit.
pub open spec fn pair_value(a: char, b: char) -> Option<u8> {
    if is_hex(a) && is_hex(b) {
        Some((hex_value(a) * 16 + hex_value(b)) as u8)
    } else if a == '+' && is_hex(b) {
        Some(hex_value(b) as u8)
    } else {
        None
    }
}

/// Lower-case hex digit of `d < 16`.
pub open spec fn hex_lower(d: u8) -> char {
    if d < 10 {
        (('0' as u32) + d) as char
    } else {
        (('a' as u32) + d - 10) as char
    }
}

/// Lower-case hex of the bytes, two digits each.
pub open spec fn spec_hex_encode(bytes: Seq<u8>) -> Seq<char>
    decreases bytes.len(),
{
    if bytes.len() == 0 {
        Seq::empty()
    } else {
        spec_hex_encode(bytes.drop_last()) + seq![hex_lower(bytes.last() / 16), hex_lower(bytes.last() % 16)]
    }
}

fn hex_digit_lower(d: u8) -> (r: char)
    requires
        d < 16,
    ensures
        r == hex_lower(d),
{
    if d < 10 {
        (('0' as u8) + d) as char
    } else {
        (('a' as u8) + d - 10) as char
    }
}

/// Lower-case hex encoding (two digits per byte).
pub fn hex_encode(bytes: &[u8]) -> (r: String)
    ensures
        r@ == spec_hex_encode(bytes@),
{
    let mut out = String::new();
    let mut i: usize = 0;
    while i < bytes.len()
        invariant
            i <= bytes@.len(),
            out@ == spec_hex_encode(bytes@.take(i as int)),
        decreases bytes.len() - i,
    {
        let b = bytes[i];
        assert(bytes@.take(i + 1).drop_last() =~= bytes@.take(i as int));
        push_char(&mut out, hex_digit_lower(b / 16));
        push_char(&mut out, hex_digit_lower(b % 16));
        assert(out@ =~= spec_hex_encode(bytes@.take(i + 1)));
        i = i + 1;
    }
    assert(bytes@.take(bytes@.len() as int) =~= bytes@);
    out
}

/// A hex text that does not decode.
#[derive(Debug, Clone, Copy, PartialEq, Eq, Structural)]
pub struct HexDecodeError;

/// Decoding of consecutive character pairs (a trailing odd character is
/// ignored); `None` at the first pair that is not a hex byte.
pub open spec fn spec_hex_decode(s: Seq<char>) -> Option<Seq<u8>> {
    let n = s.len() / 2;
    if forall|i: int| 0 <= i < n ==> (#[trigger] pair_value(s[2 * i], s[2 * i + 1])) is Some {
        Some(Seq::new(n, |i: int| pair_value(s[2 * i], s[2 * i + 1])->0))
    } else {
        None
    }
}

fn hex_val(c: char) -> (r: u8)
    requires
        is_hex(c),
    ensures
        r as nat == hex_value(c),
        r < 16,
{
    if '0' <= c && c <= '9' {
        ((c as u32) - ('0' as u32)) as u8
    } else if 'a' <= c && c <= 'f' {
        ((c as u32) - ('a' as u32) + 10) as u8
    } else {
        ((c as u32) - ('A' as u32) + 10) as u8
    }
}

/// Decodes the hex text pair by pair, as `u8::from_str_radix(_, 16)` does
/// for each two-character group.
pub fn hex_decode(s: &str) -> (r: Result<Vec<u8>, HexDecodeError>)
    ensures
        match r {
            Ok(v) => spec_hex_decode(s@) == Some(v@),
            Err(_) => spec_hex_decode(s@) is None,
        },
{
    let cs = chars_of(s);
    let n = cs.len() / 2;
    let mut out: Vec<u8> = Vec::new();
    let mut i: usize = 0;
    while i < n
        invariant
            i <= n,
            n == cs@.len() / 2,
            cs@ == s@,
            out@.len() == i,
            forall|j: int| 0 <= j < i ==> (#[trigger] pair_value(cs@[2 * j], cs@[2 * j + 1])) is Some,
            forall|j: int| 0 <= j < i ==> out@[j] == pair_value(cs@[2 * j], cs@[2 * j + 1])->0,
        decreases n - i,
    {
        let a = cs[2 * i];
        let b = cs[2 * i + 1];
        if hex_char(a) && hex_char(b) {
            out.push(hex_val(a) * 16 + hex_val(b));
        } else if a == '+' && hex_char(b) {
            out.push(hex_val(b));
        } else {
            assert(pair_value(cs@[2 * i as int], cs@[2 * i + 1]) is None);
            return Err(HexDecodeError);
        }
        i = i + 1;
    }
    assert(out@ =~= Seq::new(n as nat, |i: int| pair_value(s@[2 * i], s@[2 * i + 1])->0));
    Ok(out)
}

/// Length of the DPAPI entropy kept in the registry.
pub const ENTROPY_LEN: usize = 32;

/// The stored entropy is used only when it has the right length; otherwise
/// a fresh one is made and stored.
pub fn usable_entropy(stored: Option<Vec<u8>>) -> (r: Option<Vec<u8>>)
    ensures
        match stored {
            Some(e) => if e@.len() == ENTROPY_LEN {
                r == Some(e)
            } else {
                r is None
            },
            None => r is None,
        },
{
    match stored {
        Some(e) => if e.len() == ENTROPY_LEN {
            Some(e)
        } else {
            None
        },
        None => None,
    }
}

/// Entropy and protected bytes of a blob: its fields, the entropy decoded
/// from hex.
pub open spec fn spec_open_blob(s: Seq<char>) -> Option<(Seq<u8>, Seq<u8>)> {
    match spec_unwrap_blob(s) {
        None => None,
        Some((h, p)) => match spec_hex_decode(h) {
            None => None,
            Some(e) => Some((e, p)),
        },
    }
}

proof fn lemma_hex_encode_shape(e: Seq<u8>)
    ensures
        spec_hex_encode(e).len() == 2 * e.len(),
        forall|i: int|
            0 <= i < e.len() ==> spec_hex_encode(e)[2 * i] == hex_lower(#[trigger] e[i] / 16)
                && spec_hex_encode(e)[2 * i + 1] == hex_lower(e[i] % 16),
    decreases e.len(),
{
    if e.len() > 0 {
        let d = e.drop_last();
        lemma_hex_encode_shape(d);
        assert forall|i: int| 0 <= i < e.len() implies spec_hex_encode(e)[2 * i] == hex_lower(
            #[trigger] e[i] / 16,
        ) && spec_hex_encode(e)[2 * i + 1] == hex_lower(e[i] % 16) by {
            if i < d.len() {
                assert(e[i] == d[i]);
            }
        }
    }
}

proof fn lemma_hex_digit(d: u8)
    requires
        d < 16,
    ensures
        is_hex(hex_lower(d)),
        hex_value(hex_lower(d)) == d,
        ascii_lower(hex_lower(d)) == hex_lower(d),
{
}

proof fn lemma_byte_split(b: u8)
    ensures
        ((b / 16) as nat * 16 + (b % 16) as nat) as u8 == b,
        b / 16 < 16,
{
}

/// Hex text written by `hex_encode` is valid entropy (for a non-empty
/// input), already lower case, and decodes to the bytes.
proof fn lemma_hex_roundtrip(e: Seq<u8>)
    requires
        e.len() > 0,
    ensures
        valid_entropy_hex(spec_hex_encode(e)),
        lower_text(spec_hex_encode(e)) == spec_hex_encode(e),
        spec_hex_decode(spec_hex_encode(e)) == Some(e),
{
    let h = spec_hex_encode(e);
    lemma_hex_encode_shape(e);
    assert forall|k: int| 0 <= k < h.len() implies is_hex(#[trigger] h[k]) && ascii_lower(h[k])
        == h[k] by {
        let i = k / 2;
        assert(0 <= i < e.len());
        if k % 2 == 0 {
            assert(k == 2 * i);
            lemma_hex_digit(e[i] / 16);
        } else {
            assert(k == 2 * i + 1);
            lemma_hex_digit(e[i] % 16);
        }
    }
    assert(lower_text(h) =~= h);
    assert forall|i: int| 0 <= i < e.len() implies (#[trigger] pair_value(h[2 * i], h[2 * i + 1]))
        == Some(e[i]) by {
        lemma_hex_digit(e[i] / 16);
        lemma_hex_digit(e[i] % 16);
        lemma_byte_split(e[i]);
    }
    assert(h.len() / 2 == e.len());
    assert(Seq::new(e.len(), |i: int| pair_value(h[2 * i], h[2 * i + 1])->0) =~= e);
}

/// The blob of bytes protected with `entropy`: the entropy in lower-case
/// hex, then the bytes in base64. A blob made from non-empty entropy and
/// bytes opens to exactly them.
pub fn seal_blob(entropy: &[u8], protected: &[u8]) -> (r: String)
    ensures
        r@ == spec_wrap_blob(spec_hex_encode(entropy@), protected@),
        entropy@.len() > 0 && protected@.len() > 0 ==> spec_open_blob(r@) == Some(
            (entropy@, protected@),
        ),
{
    let h = hex_encode(entropy);
    let r = wrap_blob(h.as_str(), protected);
    proof {
        if entropy@.len() > 0 && protected@.len() > 0 {
            lemma_hex_roundtrip(entropy@);
        }
    }
    r
}

/// Opens a blob into the entropy and the protected bytes that DPAPI takes;
/// `None` when the blob is malformed.
pub fn open_blob(blob: &str) -> (r: Option<(Vec<u8>, Vec<u8>)>)
    ensures
        match r {
            None => spec_open_blob(blob@) is None,
            Some((e, p)) => spec_open_blob(blob@) == Some((e@, p@)),
        },
{
    match unwrap_blob(blob) {
        None => None,
        Some((h, p)) => match hex_decode(h.as_str()) {
            Ok(e) => Some((e, p)),
            Err(_) => None,
        },
    }
}

} // verus!
