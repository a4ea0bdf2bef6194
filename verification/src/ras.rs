//! Dial error classification and the pure helpers of the RAS glue.

use vstd::prelude::*;

use crate::win32::{encode_utf16, utf16_of};

verus! {

/// Dial error class: authentication failures get the long backoff.
#[derive(Debug, Clone, Copy, PartialEq, Eq, Structural)]
pub enum ErrKind {
    /// Authentication rejected (691: wrong credentials or account online).
    Auth,
    /// Transient failure (link down, server busy, adapter trouble, ...).
    Transient,
}

/// RAS session state; intermediate states count as connected (probes check).
#[derive(Debug, Clone, Copy, PartialEq, Eq, Structural)]
pub enum ConnState {
    Connected,
    Disconnected,
}

/// Dial failure: `Auth` leads to the long wait, `Other` to the exponential backoff.
#[derive(Debug, Clone, PartialEq, Eq)]
pub enum RasError {
    Auth,
    Other { code: u32, msg: String },
}

/// Dial return code classification: 691 is an authentication failure,
/// anything else is transient.
pub fn classify(code: u32) -> (r: ErrKind)
    ensures
        r == (if code == 691 {
            ErrKind::Auth
        } else {
            ErrKind::Transient
        }),
{
    if code == 691 {
        ErrKind::Auth
    } else {
        ErrKind::Transient
    }
}

/// Length of a NUL-terminated UTF-16 buffer (the whole buffer without NUL).
pub open spec fn nul_len(buf: Seq<u16>) -> int {
    if buf.contains(0u16) {
        choose|i: int| 0 <= i < buf.len() && buf[i] == 0u16 && forall|j: int| 0 <= j < i ==> buf[j] != 0u16
    } else {
        buf.len() as int
    }
}

/// Position of the first NUL, or the length.
fn nul_pos(buf: &[u16]) -> (r: usize)
    ensures
        r as int == nul_len(buf@),
        r <= buf@.len(),
{
    let mut i: usize = 0;
    while i < buf.len()
        invariant
            i <= buf@.len(),
            forall|j: int| 0 <= j < i ==> buf@[j] != 0u16,
        decreases buf.len() - i,
    {
        if buf[i] == 0 {
            assert(buf@.contains(0u16));
            assert((choose|k: int|
                0 <= k < buf@.len() && buf@[k] == 0u16 && forall|j: int| 0 <= j < k ==> buf@[j] != 0u16)
                == i as int);
            return i;
        }
        i = i + 1;
    }
    i
}

/// The entry name in a fixed buffer: everything before the first NUL.
pub fn entry_name_slice(buf: &[u16]) -> (r: &[u16])
    ensures
        r@ == buf@.take(nul_len(buf@)),
{
    let end = nul_pos(buf);
    vstd::slice::slice_subrange(buf, 0, end)
}

/// A UTF-16 unit folded for ASCII-case-insensitive comparison: surrogates
/// (not characters) become NUL, ASCII capitals become lower case.
pub open spec fn fold_unit(x: u16) -> u16 {
    if 0xD800 <= x <= 0xDFFF {
        0
    } else if 65 <= x <= 90 {
        (x + 32) as u16
    } else {
        x
    }
}

fn fold(x: u16) -> (r: u16)
    ensures
        r == fold_unit(x),
{
    if 0xD800 <= x && x <= 0xDFFF {
        0
    } else if 65 <= x && x <= 90 {
        x + 32
    } else {
        x
    }
}

/// Phonebook paths equal up to their NULs, ignoring ASCII case.
pub open spec fn spec_pbk_eq_ci(a: Seq<u16>, b: Seq<u16>) -> bool {
    nul_len(a) == nul_len(b) && forall|i: int|
        0 <= i < nul_len(a) ==> fold_unit(#[trigger] a[i]) == fold_unit(b[i])
}

/// Compares two NUL-terminated UTF-16 paths, ignoring ASCII case.
pub fn pbk_eq_ci(a: &[u16], b: &[u16]) -> (r: bool)
    ensures
        r == spec_pbk_eq_ci(a@, b@),
{
    let ae = nul_pos(a);
    let be = nul_pos(b);
    if ae != be {
        return false;
    }
    let mut i: usize = 0;
    while i < ae
        invariant
            ae as int == nul_len(a@) == nul_len(b@),
            ae <= a@.len(),
            ae <= b@.len(),
            i <= ae,
            forall|j: int| 0 <= j < i ==> fold_unit(a@[j]) == fold_unit(b@[j]),
        decreases ae - i,
    {
        if fold(a[i]) != fold(b[i]) {
            return false;
        }
        i = i + 1;
    }
    true
}

/// Phonebook match of a connection's buffer against the wanted path.
pub fn pbk_eq(buf: &[u16], pbk: &[u16]) -> (r: bool)
    ensures
        r == spec_pbk_eq_ci(buf@, pbk@),
{
    pbk_eq_ci(buf, pbk)
}


/// Fixed-size UTF-16 buffer of `len` units: the encoding truncated to
/// `len - 1` units, then NUL padding.
pub open spec fn spec_wide_fixed(s: Seq<char>, len: nat) -> Seq<u16> {
    let u = utf16_of(s);
    let k = if u.len() < len - 1 {
        u.len() as int
    } else {
        len - 1
    };
    u.take(k) + Seq::new((len - k) as nat, |i: int| 0u16)
}

/// String to a fixed-size UTF-16 buffer (NUL-terminated, truncated when
/// too long); `len` counts the NUL, so it must be at least 1.
pub fn wide(s: &str, len: usize) -> (r: Vec<u16>)
    requires
        len >= 1,
    ensures
        r@ == spec_wide_fixed(s@, len as nat),
{
    let u = encode_utf16(s);
    let k = if u.len() < len - 1 {
        u.len()
    } else {
        len - 1
    };
    let mut out: Vec<u16> = Vec::new();
    let mut i: usize = 0;
    while i < len
        invariant
            k <= u@.len(),
            k <= len - 1,
            i <= len,
            out@.len() == i,
            forall|j: int| 0 <= j < i ==> out@[j] == (if j < k {
                u@[j]
            } else {
                0u16
            }),
        decreases len - i,
    {
        if i < k {
            out.push(u[i]);
        } else {
            out.push(0);
        }
        i = i + 1;
    }
    assert(out@ =~= spec_wide_fixed(s@, len as nat));
    out
}

} // verus!
