//! Single-file release payload container: `[setup][data...][TOC][footer]`.
//!
//! The 24-byte footer is `GDUTPAK1`, a `u32` version, a `u32` entry count
//! and the `u64` TOC offset. A TOC entry is a `u16` name length, the name
//! (UTF-8), the `u64` data offset, the `u64` data length and the SHA-256
//! of the data. All integers are little endian.

use sha2::{Digest, Sha256};
use vstd::prelude::*;
use vstd::slice::{slice_subrange, slice_to_vec};
use vstd::utf8::{decode_utf8, encode_utf8, valid_utf8};

use crate::text::{chars_of, contains_sub, has_substr, push_char, push_str};

verus! {

/// Footer magic.
pub const MAGIC: [u8; 8] = [0x47, 0x44, 0x55, 0x54, 0x50, 0x41, 0x4b, 0x31];

/// Container format version.
pub const VERSION: u32 = 1;

/// Footer length in bytes.
pub const FOOTER_LEN: usize = 24;

/// `256^k`.
pub open spec fn p256(k: nat) -> nat
    decreases k,
{
    if k == 0 {
        1
    } else {
        256 * p256((k - 1) as nat)
    }
}

/// The `n` little-endian bytes of `v` (higher bytes dropped).
pub open spec fn le_n(v: nat, n: nat) -> Seq<u8>
    decreases n,
{
    if n == 0 {
        Seq::empty()
    } else {
        seq![(v % 256) as u8] + le_n(v / 256, (n - 1) as nat)
    }
}

/// The value of little-endian bytes.
pub open spec fn le_val(s: Seq<u8>) -> nat
    decreases s.len(),
{
    if s.len() == 0 {
        0
    } else {
        s[0] as nat + 256 * le_val(s.drop_first())
    }
}

proof fn lemma_le_n_len(v: nat, n: nat)
    ensures
        le_n(v, n).len() == n,
    decreases n,
{
    if n > 0 {
        lemma_le_n_len(v / 256, (n - 1) as nat);
    }
}

proof fn lemma_le_val_bound(s: Seq<u8>)
    ensures
        le_val(s) < p256(s.len()),
    decreases s.len(),
{
    if s.len() > 0 {
        lemma_le_val_bound(s.drop_first());
        assert(le_val(s) < p256(s.len())) by (nonlinear_arith)
            requires
                le_val(s) == s[0] as nat + 256 * le_val(s.drop_first()),
                le_val(s.drop_first()) + 1 <= p256(s.drop_first().len()),
                p256(s.len()) == 256 * p256(s.drop_first().len()),
                s[0] < 256,
        ;
    }
}

/// Little-endian bytes read back give the value they were written from.
pub proof fn lemma_le_roundtrip(v: nat, n: nat)
    requires
        v < p256(n),
    ensures
        le_val(le_n(v, n)) == v,
    decreases n,
{
    if n > 0 {
        assert(v / 256 < p256((n - 1) as nat)) by (nonlinear_arith)
            requires
                v < p256(n),
                p256(n) == 256 * p256((n - 1) as nat),
        ;
        lemma_le_roundtrip(v / 256, (n - 1) as nat);
        let s = le_n(v, n);
        assert(s.drop_first() =~= le_n(v / 256, (n - 1) as nat));
        assert(v == (v % 256) + 256 * (v / 256)) by (nonlinear_arith);
    }
}

proof fn lemma_p256_8()
    ensures
        p256(2) == 0x1_0000,
        p256(4) == 0x1_0000_0000,
        p256(8) == 0x1_0000_0000_0000_0000,
{
    reveal_with_fuel(p256, 9);
}

/// Appends the `n` little-endian bytes of `v`.
fn push_le(out: &mut Vec<u8>, v: u64, n: usize)
    ensures
        final(out)@ == old(out)@ + le_n(v as nat, n as nat),
{
    let ghost start = old(out)@;
    let mut cur = v;
    let mut i: usize = 0;
    while i < n
        invariant
            i <= n,
            out@ + le_n(cur as nat, (n - i) as nat) == start + le_n(v as nat, n as nat),
        decreases n - i,
    {
        let ghost before = out@;
        out.push((cur % 256) as u8);
        assert(le_n(cur as nat, (n - i) as nat) == seq![(cur % 256) as u8] + le_n(
            (cur / 256) as nat,
            (n - i - 1) as nat,
        ));
        assert(out@ + le_n((cur / 256) as nat, (n - i - 1) as nat) =~= before + le_n(
            cur as nat,
            (n - i) as nat,
        ));
        cur = cur / 256;
        i = i + 1;
    }
    assert(le_n(cur as nat, 0) =~= Seq::<u8>::empty());
    assert(out@ =~= start + le_n(v as nat, n as nat));
}

/// Value of the `n <= 8` little-endian bytes at `start`.
fn read_le(bytes: &[u8], start: usize, n: usize) -> (r: u64)
    requires
        n <= 8,
        start + n <= bytes@.len(),
    ensures
        r as nat == le_val(bytes@.subrange(start as int, start + n)),
{
    let ghost s = bytes@.subrange(start as int, start + n);
    proof {
        lemma_p256_8();
        lemma_p256_mono(n as nat, 8);
    }
    let blen = bytes.len();
    let mut v: u64 = 0;
    let mut i: usize = n;
    while i > 0
        invariant
            blen == bytes@.len(),
            i <= n <= 8,
            start + n <= bytes@.len(),
            s == bytes@.subrange(start as int, start + n),
            v as nat == le_val(s.subrange(i as int, n as int)),
            p256(n as nat) <= p256(8),
            p256(8) == 0x1_0000_0000_0000_0000,
        decreases i,
    {
        let ghost tail = s.subrange(i as int, n as int);
        let ghost longer = s.subrange(i - 1, n as int);
        assert(longer.drop_first() =~= tail);
        proof {
            lemma_le_val_bound(longer);
            lemma_p256_mono((n - i + 1) as nat, n as nat);
        }
        let b = bytes[start + (i - 1)];
        assert(longer[0] == b);
        assert(v * 256 + b < 0x1_0000_0000_0000_0000);
        v = v * 256 + b as u64;
        i = i - 1;
    }
    assert(s.subrange(0, n as int) =~= s);
    v
}

proof fn lemma_p256_mono(a: nat, b: nat)
    requires
        a <= b,
    ensures
        p256(a) <= p256(b),
    decreases b,
{
    if a < b {
        lemma_p256_mono(a, (b - 1) as nat);
    }
}

/// An ASCII control character: U+0000 to U+001F, or U+007F.
pub open spec fn is_control(c: char) -> bool {
    (c as u32) <= 0x1f || (c as u32) == 0x7f
}

/// Why a payload was refused.
#[derive(Debug, Clone, PartialEq, Eq)]
pub enum PayloadError {
    EmptyName,
    /// The name holds `/`, `\`, `:` or `..`.
    PathInName(String),
    ControlInName(String),
    DuplicateName(String),
    NameTooLong,
    UnsupportedVersion(u32),
    TocOutOfRange { offset: u64, len: usize },
    TocTruncated,
    EntryTruncated,
    NameNotUtf8,
    EntryOutOfRange(String),
    ChecksumMismatch(String),
    TrailingBytes,
}

/// A refusal as a value.
pub enum PayloadErrorView {
    EmptyName,
    PathInName(Seq<char>),
    ControlInName(Seq<char>),
    DuplicateName(Seq<char>),
    NameTooLong,
    UnsupportedVersion(u32),
    TocOutOfRange { offset: u64, len: usize },
    TocTruncated,
    EntryTruncated,
    NameNotUtf8,
    EntryOutOfRange(Seq<char>),
    ChecksumMismatch(Seq<char>),
    TrailingBytes,
}

/// The value of a refusal.
pub open spec fn error_view(e: PayloadError) -> PayloadErrorView {
    match e {
        PayloadError::EmptyName => PayloadErrorView::EmptyName,
        PayloadError::PathInName(n) => PayloadErrorView::PathInName(n@),
        PayloadError::ControlInName(n) => PayloadErrorView::ControlInName(n@),
        PayloadError::DuplicateName(n) => PayloadErrorView::DuplicateName(n@),
        PayloadError::NameTooLong => PayloadErrorView::NameTooLong,
        PayloadError::UnsupportedVersion(v) => PayloadErrorView::UnsupportedVersion(v),
        PayloadError::TocOutOfRange { offset, len } => PayloadErrorView::TocOutOfRange { offset, len },
        PayloadError::TocTruncated => PayloadErrorView::TocTruncated,
        PayloadError::EntryTruncated => PayloadErrorView::EntryTruncated,
        PayloadError::NameNotUtf8 => PayloadErrorView::NameNotUtf8,
        PayloadError::EntryOutOfRange(n) => PayloadErrorView::EntryOutOfRange(n@),
        PayloadError::ChecksumMismatch(n) => PayloadErrorView::ChecksumMismatch(n@),
        PayloadError::TrailingBytes => PayloadErrorView::TrailingBytes,
    }
}

/// Name whitelist: non-empty, no path separator, no `:`, no `..`, no ASCII control character.
pub open spec fn spec_validate_name(name: Seq<char>) -> Option<PayloadErrorView> {
    if name.len() == 0 {
        Some(PayloadErrorView::EmptyName)
    } else if name.contains('/') || name.contains('\\') || contains_sub(name, seq!['.', '.'])
        || name.contains(':') {
        Some(PayloadErrorView::PathInName(name))
    } else if exists|i: int| 0 <= i < name.len() && is_control(#[trigger] name[i]) {
        Some(PayloadErrorView::ControlInName(name))
    } else {
        None
    }
}

fn contains_char(cs: &[char], c: char) -> (r: bool)
    ensures
        r == cs@.contains(c),
{
    let mut i: usize = 0;
    while i < cs.len()
        invariant
            i <= cs@.len(),
            forall|j: int| 0 <= j < i ==> cs@[j] != c,
        decreases cs.len() - i,
    {
        if cs[i] == c {
            return true;
        }
        i = i + 1;
    }
    false
}

fn control_char(c: char) -> (r: bool)
    ensures
        r == is_control(c),
{
    (c as u32) <= 0x1f || (c as u32) == 0x7f
}

/// Checks an entry name against the whitelist.
#[verifier::loop_isolation(false)]
pub fn validate_name(name: &str) -> (r: Result<(), PayloadError>)
    ensures
        match r {
            Ok(()) => spec_validate_name(name@) is None,
            Err(e) => spec_validate_name(name@) == Some(error_view(e)),
        },
{
    let cs = chars_of(name);
    if cs.len() == 0 {
        return Err(PayloadError::EmptyName);
    }
    let dots = ['.', '.'];
    assert(dots@ =~= seq!['.', '.']);
    if contains_char(cs.as_slice(), '/') || contains_char(cs.as_slice(), '\\') || has_substr(
        cs.as_slice(),
        dots.as_slice(),
    ) || contains_char(cs.as_slice(), ':') {
        return Err(PayloadError::PathInName(String::from_str(name)));
    }
    let mut i: usize = 0;
    while i < cs.len()
        invariant
            i <= cs@.len(),
            cs@ == name@,
            forall|j: int| 0 <= j < i ==> !is_control(#[trigger] cs@[j]),
        decreases cs.len() - i,
    {
        if control_char(cs[i]) {
            assert(is_control(name@[i as int]));
            return Err(PayloadError::ControlInName(String::from_str(name)));
        }
        i = i + 1;
    }
    Ok(())
}


/// SHA-256 digest of the data, as the `sha2` crate computes it.
pub uninterp spec fn sha256_digest(data: Seq<u8>) -> [u8; 32];

/// Calls `Sha256` (`sha2` crate). Claims only that the 32 bytes returned
/// are the SHA-256 digest of the argument, a function of the argument.
#[verifier::external_body]
fn sha256(data: &[u8]) -> (r: [u8; 32])
    ensures
        r == sha256_digest(data@),
{
    let mut h = Sha256::new();
    h.update(data);
    h.finalize().into()
}

/// Entries as values: names as characters, data as bytes.
pub open spec fn entries_view(es: Seq<(String, Vec<u8>)>) -> Seq<(Seq<char>, Seq<u8>)> {
    es.map_values(|e: (String, Vec<u8>)| (e.0@, e.1@))
}

/// First name that breaks the whitelist or repeats an earlier one, in order.
pub open spec fn first_name_error(es: Seq<(Seq<char>, Seq<u8>)>) -> Option<PayloadErrorView>
    decreases es.len(),
{
    if es.len() == 0 {
        None
    } else {
        match first_name_error(es.drop_last()) {
            Some(e) => Some(e),
            None => match spec_validate_name(es.last().0) {
                Some(e) => Some(e),
                None => if exists|j: int| 0 <= j < es.len() - 1 && (#[trigger] es[j]).0 == es.last().0 {
                    Some(PayloadErrorView::DuplicateName(es.last().0))
                } else {
                    None
                },
            },
        }
    }
}

/// Some name is longer than 65535 bytes of UTF-8.
pub open spec fn name_too_long(es: Seq<(Seq<char>, Seq<u8>)>) -> bool {
    exists|i: int| 0 <= i < es.len() && encode_utf8((#[trigger] es[i]).0).len() > 65535
}

/// The data of the entries, one after the other.
pub open spec fn datas(es: Seq<(Seq<char>, Seq<u8>)>) -> Seq<u8>
    decreases es.len(),
{
    if es.len() == 0 {
        Seq::empty()
    } else {
        datas(es.drop_last()) + es.last().1
    }
}

/// One TOC entry.
pub open spec fn toc_entry(name: Seq<char>, offset: nat, data: Seq<u8>) -> Seq<u8> {
    let nb = encode_utf8(name);
    le_n(nb.len(), 2) + nb + le_n(offset, 8) + le_n(data.len(), 8) + sha256_digest(data)@
}

/// The TOC of entries whose data starts at `base`.
pub open spec fn toc_of(base: nat, es: Seq<(Seq<char>, Seq<u8>)>) -> Seq<u8>
    decreases es.len(),
{
    if es.len() == 0 {
        Seq::empty()
    } else {
        toc_of(base, es.drop_last()) + toc_entry(
            es.last().0,
            base + datas(es.drop_last()).len(),
            es.last().1,
        )
    }
}

/// The packed container: setup, data, TOC, then the footer (the count
/// written as its low 32 bits).
pub open spec fn spec_pack_bytes(setup: Seq<u8>, es: Seq<(Seq<char>, Seq<u8>)>) -> Seq<u8> {
    setup + datas(es) + toc_of(setup.len(), es) + MAGIC@ + le_n(VERSION as nat, 4) + le_n(
        es.len(),
        4,
    ) + le_n(setup.len() + datas(es).len(), 8)
}

/// Packing: the first bad or repeated name is refused, then a name too
/// long for the TOC; otherwise the container bytes.
pub open spec fn spec_pack(setup: Seq<u8>, es: Seq<(Seq<char>, Seq<u8>)>) -> Result<Seq<u8>, PayloadErrorView> {
    match first_name_error(es) {
        Some(e) => Err(e),
        None => if name_too_long(es) {
            Err(PayloadErrorView::NameTooLong)
        } else {
            Ok(spec_pack_bytes(setup, es))
        },
    }
}

fn append_slice(out: &mut Vec<u8>, s: &[u8])
    ensures
        final(out)@ == old(out)@ + s@,
{
    let mut v = slice_to_vec(s);
    out.append(&mut v);
}

/// Packs the setup program and the entries into one container.
#[verifier::loop_isolation(false)]
pub fn pack(setup: &[u8], entries: &[(String, Vec<u8>)]) -> (r: Result<Vec<u8>, PayloadError>)
    ensures
        match r {
            Ok(v) => spec_pack(setup@, entries_view(entries@)) == Ok::<Seq<u8>, PayloadErrorView>(v@),
            Err(e) => spec_pack(setup@, entries_view(entries@)) == Err::<Seq<u8>, PayloadErrorView>(
                error_view(e),
            ),
        },
{
    let ghost ev = entries_view(entries@);
    let mut i: usize = 0;
    while i < entries.len()
        invariant
            i <= entries@.len(),
            ev == entries_view(entries@),
            first_name_error(ev.take(i as int)) is None,
        decreases entries.len() - i,
    {
        let ghost pre = ev.take(i as int);
        let ghost cur = ev.take(i + 1);
        assert(cur.drop_last() =~= pre);
        assert(cur.last() == ev[i as int]);
        match validate_name(entries[i].0.as_str()) {
            Err(e) => {
                proof {
                    lemma_first_error_prefix(ev, (i + 1) as nat);
                }
                return Err(e);
            },
            Ok(()) => {},
        }
        let mut j: usize = 0;
        while j < i
            invariant
                j <= i < entries@.len(),
                forall|k: int| 0 <= k < j ==> (#[trigger] cur[k]).0 != cur.last().0,
            decreases i - j,
        {
            if entries[j].0 == entries[i].0 {
                assert(cur[j as int].0 == cur.last().0);
                proof {
                    lemma_first_error_prefix(ev, (i + 1) as nat);
                }
                return Err(PayloadError::DuplicateName(entries[i].0.clone()));
            }
            j = j + 1;
        }
        i = i + 1;
    }
    assert(ev.take(entries@.len() as int) =~= ev);
    let mut out = slice_to_vec(setup);
    let mut toc: Vec<u8> = Vec::new();
    let mut i: usize = 0;
    while i < entries.len()
        invariant
            i <= entries@.len(),
            ev == entries_view(entries@),
            out@ == setup@ + datas(ev.take(i as int)),
            toc@ == toc_of(setup@.len(), ev.take(i as int)),
            !name_too_long(ev.take(i as int)),
        decreases entries.len() - i,
    {
        let ghost pre = ev.take(i as int);
        let ghost cur = ev.take(i + 1);
        assert(cur.drop_last() =~= pre);
        assert(cur.last() == ev[i as int]);
        let name = entries[i].0.as_str();
        let data = entries[i].1.as_slice();
        let offset = out.len() as u64;
        append_slice(&mut out, data);
        let nb = name.as_bytes();
        if nb.len() > 65535 {
            assert(encode_utf8(ev[i as int].0).len() > 65535);
            return Err(PayloadError::NameTooLong);
        }
        push_le(&mut toc, nb.len() as u64, 2);
        append_slice(&mut toc, nb);
        push_le(&mut toc, offset, 8);
        push_le(&mut toc, data.len() as u64, 8);
        let digest = sha256(data);
        append_slice(&mut toc, digest.as_slice());
        assert(toc@ =~= toc_of(setup@.len(), cur));
        assert(out@ =~= setup@ + datas(cur));
        assert forall|k: int| 0 <= k < cur.len() implies encode_utf8((#[trigger] cur[k]).0).len() <= 65535 by {
            if k < pre.len() {
                assert(cur[k] == pre[k]);
            }
        }
        i = i + 1;
    }
    assert(ev.take(entries@.len() as int) =~= ev);
    let toc_offset = out.len() as u64;
    append_slice(&mut out, toc.as_slice());
    append_slice(&mut out, MAGIC.as_slice());
    push_le(&mut out, VERSION as u64, 4);
    push_le(&mut out, entries.len() as u64, 4);
    push_le(&mut out, toc_offset, 8);
    assert(out@ =~= spec_pack_bytes(setup@, ev));
    Ok(out)
}

/// A name error within the first `k` entries is the first name error of all of them.
proof fn lemma_first_error_prefix(es: Seq<(Seq<char>, Seq<u8>)>, k: nat)
    requires
        k <= es.len(),
        first_name_error(es.take(k as int)) is Some,
    ensures
        first_name_error(es) == first_name_error(es.take(k as int)),
    decreases es.len() - k,
{
    if k < es.len() {
        let t = es.take((k + 1) as int);
        assert(t.drop_last() =~= es.take(k as int));
        lemma_first_error_prefix(es, k + 1);
    } else {
        assert(es.take(k as int) =~= es);
    }
}


/// One unpacked entry.
#[derive(Debug, Clone, PartialEq, Eq)]
pub struct Entry {
    pub name: String,
    pub data: Vec<u8>,
}

/// Unpacked entries as values.
pub open spec fn entry_views(es: Seq<Entry>) -> Seq<(Seq<char>, Seq<u8>)> {
    es.map_values(|e: Entry| (e.name@, e.data@))
}

/// Name order: character by character, a prefix first (the order of `str`,
/// since UTF-8 keeps the order of code points).
pub open spec fn name_le(a: Seq<char>, b: Seq<char>) -> bool
    decreases a.len(),
{
    if a.len() == 0 {
        true
    } else if b.len() == 0 {
        false
    } else if (a[0] as u32) != (b[0] as u32) {
        (a[0] as u32) < (b[0] as u32)
    } else {
        name_le(a.drop_first(), b.drop_first())
    }
}

/// Any two names are ordered one way or the other.
pub proof fn lemma_name_le_total(a: Seq<char>, b: Seq<char>)
    ensures
        name_le(a, b) || name_le(b, a),
    decreases a.len(),
{
    if a.len() > 0 && b.len() > 0 && (a[0] as u32) == (b[0] as u32) {
        lemma_name_le_total(a.drop_first(), b.drop_first());
    }
}

/// The name order is transitive.
pub proof fn lemma_name_le_trans(a: Seq<char>, b: Seq<char>, c: Seq<char>)
    requires
        name_le(a, b),
        name_le(b, c),
    ensures
        name_le(a, c),
    decreases a.len(),
{
    if a.len() > 0 && b.len() > 0 && c.len() > 0 && (a[0] as u32) == (b[0] as u32) && (b[0] as u32) == (c[0]
        as u32) {
        lemma_name_le_trans(a.drop_first(), b.drop_first(), c.drop_first());
    }
}

/// Whether `a` orders at or before `b`.
fn names_le(a: &str, b: &str) -> (r: bool)
    ensures
        r == name_le(a@, b@),
{
    let x = chars_of(a);
    let y = chars_of(b);
    let mut i: usize = 0;
    assert(x@.skip(0) =~= x@ && y@.skip(0) =~= y@);
    while i < x.len() && i < y.len()
        invariant
            i <= x@.len(),
            i <= y@.len(),
            x@ == a@,
            y@ == b@,
            name_le(x@, y@) == name_le(x@.skip(i as int), y@.skip(i as int)),
        decreases x.len() - i,
    {
        let ghost xs = x@.skip(i as int);
        let ghost ys = y@.skip(i as int);
        assert(xs[0] == x@[i as int] && ys[0] == y@[i as int]);
        assert(xs.len() > 0 && ys.len() > 0);
        let cx = x[i] as u32;
        let cy = y[i] as u32;
        if cx != cy {
            assert(name_le(xs, ys) == (cx < cy));
            return cx < cy;
        }
        assert(xs.drop_first() =~= x@.skip(i + 1));
        assert(ys.drop_first() =~= y@.skip(i + 1));
        i = i + 1;
    }
    assert(x@.skip(i as int).len() == 0 || y@.skip(i as int).len() == 0);
    i == x.len()
}

/// Names of entries, in order.
pub open spec fn entry_names(es: Seq<Entry>) -> Seq<Seq<char>> {
    es.map_values(|e: Entry| e.name@)
}

/// Names in name order.
pub open spec fn sorted_by_name(names: Seq<Seq<char>>) -> bool {
    forall|i: int, j: int| 0 <= i < j < names.len() ==> name_le(#[trigger] names[i], #[trigger] names[j])
}

/// The entries in name order; entries with the same name keep their order.
pub fn sort_by_name(entries: Vec<Entry>) -> (r: Vec<Entry>)
    ensures
        sorted_by_name(entry_names(r@)),
        r@.to_multiset() == entries@.to_multiset(),
{
    let mut rest = entries;
    let mut out: Vec<Entry> = Vec::new();
    proof {
        vstd::seq_lib::to_multiset_len(out@);
        assert(out@.to_multiset().len() == 0);
        assert(out@.to_multiset() =~= vstd::multiset::Multiset::<Entry>::empty());
    }
    while rest.len() > 0
        invariant
            sorted_by_name(entry_names(out@)),
            out@.to_multiset().add(rest@.to_multiset()) == entries@.to_multiset(),
        decreases rest.len(),
    {
        let ghost before = rest@;
        let e = rest.remove(0);
        assert(before.remove(0) == rest@);
        let ghost names = entry_names(out@);
        let mut pos: usize = 0;
        while pos < out.len() && names_le(out[pos].name.as_str(), e.name.as_str())
            invariant
                pos <= out@.len(),
                names == entry_names(out@),
                forall|k: int| 0 <= k < pos ==> name_le(#[trigger] names[k], e.name@),
            decreases out.len() - pos,
        {
            pos = pos + 1;
        }
        let ghost old_out = out@;
        out.insert(pos, e);
        proof {
            let n2 = entry_names(out@);
            assert(n2 =~= names.insert(pos as int, e.name@));
            assert forall|i: int, j: int| 0 <= i < j < n2.len() implies name_le(
                #[trigger] n2[i],
                #[trigger] n2[j],
            ) by {
                if j < pos {
                    assert(n2[i] == names[i] && n2[j] == names[j]);
                } else if j == pos {
                    assert(n2[i] == names[i]);
                } else if i == pos {
                    assert(n2[j] == names[j - 1]);
                    assert(!name_le(names[pos as int], e.name@));
                    lemma_name_le_total(names[pos as int], e.name@);
                    if j - 1 > pos {
                        lemma_name_le_trans(e.name@, names[pos as int], names[j - 1]);
                    }
                } else if i < pos {
                    assert(n2[i] == names[i] && n2[j] == names[j - 1]);
                } else {
                    assert(n2[i] == names[i - 1] && n2[j] == names[j - 1]);
                }
            }
            vstd::seq_lib::to_multiset_insert(old_out, pos as int, e);
            vstd::seq_lib::to_multiset_remove(before, 0);
            assert(before.to_multiset().count(before[0]) > 0) by {
                vstd::seq_lib::to_multiset_contains(before, before[0]);
            }
            assert(out@.to_multiset().add(rest@.to_multiset()) =~= old_out.to_multiset().add(
                before.to_multiset(),
            ));
        }
    }
    proof {
        vstd::seq_lib::to_multiset_len(rest@);
        assert(rest@.to_multiset() =~= vstd::multiset::Multiset::<Entry>::empty());
    }
    out
}

/// Calls `String::from_utf8` (std): the text of the bytes exactly when
/// they are valid UTF-8.
#[verifier::external_body]
fn utf8_text(bytes: &[u8]) -> (r: Option<String>)
    ensures
        r is Some <==> valid_utf8(bytes@),
        r matches Some(s) ==> s@ == decode_utf8(bytes@),
{
    String::from_utf8(bytes.to_vec()).ok()
}

/// Reads the TOC entry at `pos`: the name (UTF-8, whitelisted), then the
/// data range (inside the data area before the TOC) and its checksum.
/// Gives the entry and the position after it.
pub open spec fn spec_parse_one(exe: Seq<u8>, toc_offset: nat, toc: Seq<u8>, pos: nat) -> Result<
    ((Seq<char>, Seq<u8>), nat),
    PayloadErrorView,
> {
    let pos = pos as int;
    if pos + 2 > toc.len() {
        Err(PayloadErrorView::TocTruncated)
    } else {
        let name_len = le_val(toc.subrange(pos, pos + 2)) as int;
        let p = pos + 2;
        if p + name_len + 48 > toc.len() {
            Err(PayloadErrorView::EntryTruncated)
        } else {
            let nb = toc.subrange(p, p + name_len);
            if !valid_utf8(nb) {
                Err(PayloadErrorView::NameNotUtf8)
            } else {
                let name = decode_utf8(nb);
                match spec_validate_name(name) {
                    Some(e) => Err(e),
                    None => {
                        let q = p + name_len;
                        let offset = le_val(toc.subrange(q, q + 8)) as int;
                        let len = le_val(toc.subrange(q + 8, q + 16)) as int;
                        let want = toc.subrange(q + 16, q + 48);
                        if offset + len > toc_offset {
                            Err(PayloadErrorView::EntryOutOfRange(name))
                        } else {
                            let data = exe.subrange(offset, offset + len);
                            if sha256_digest(data)@ != want {
                                Err(PayloadErrorView::ChecksumMismatch(name))
                            } else {
                                Ok(((name, data), (q + 48) as nat))
                            }
                        }
                    },
                }
            }
        }
    }
}

/// Reads `k` TOC entries from `pos` on; gives them and the position after the last.
pub open spec fn spec_parse_entries(exe: Seq<u8>, toc_offset: nat, toc: Seq<u8>, pos: nat, k: nat) -> Result<
    (Seq<(Seq<char>, Seq<u8>)>, nat),
    PayloadErrorView,
>
    decreases k,
{
    if k == 0 {
        Ok((Seq::empty(), pos))
    } else {
        match spec_parse_one(exe, toc_offset, toc, pos) {
            Err(e) => Err(e),
            Ok((e, next)) => match spec_parse_entries(exe, toc_offset, toc, next, (k - 1) as nat) {
                Err(err) => Err(err),
                Ok((rest, end)) => Ok((seq![e] + rest, end)),
            },
        }
    }
}

/// Unpacking: no footer or another magic means no payload (`Ok(None)`);
/// a payload with the magic but a broken structure is refused.
pub open spec fn spec_unpack(exe: Seq<u8>) -> Result<Option<Seq<(Seq<char>, Seq<u8>)>>, PayloadErrorView> {
    if exe.len() < FOOTER_LEN {
        Ok(None)
    } else {
        let f = exe.subrange(exe.len() - 24, exe.len() as int);
        if f.subrange(0, 8) != MAGIC@ {
            Ok(None)
        } else {
            let version = le_val(f.subrange(8, 12));
            if version != VERSION {
                Err(PayloadErrorView::UnsupportedVersion(version as u32))
            } else {
                let count = le_val(f.subrange(12, 16));
                let toc_offset = le_val(f.subrange(16, 24));
                let toc_end = (exe.len() - 24) as nat;
                if toc_offset > toc_end {
                    Err(
                        PayloadErrorView::TocOutOfRange {
                            offset: toc_offset as u64,
                            len: toc_end as usize,
                        },
                    )
                } else {
                    let toc = exe.subrange(toc_offset as int, toc_end as int);
                    match spec_parse_entries(exe, toc_offset, toc, 0, count) {
                        Err(e) => Err(e),
                        Ok((es, end)) => if end != toc.len() {
                            Err(PayloadErrorView::TrailingBytes)
                        } else {
                            Ok(Some(es))
                        },
                    }
                }
            }
        }
    }
}

/// Entries `acc` in front of a parse result.
pub open spec fn prepend(
    acc: Seq<(Seq<char>, Seq<u8>)>,
    r: Result<(Seq<(Seq<char>, Seq<u8>)>, nat), PayloadErrorView>,
) -> Result<(Seq<(Seq<char>, Seq<u8>)>, nat), PayloadErrorView> {
    match r {
        Err(e) => Err(e),
        Ok((es, end)) => Ok((acc + es, end)),
    }
}

fn same_bytes(a: &[u8], b: &[u8]) -> (r: bool)
    ensures
        r == (a@ == b@),
{
    if a.len() != b.len() {
        return false;
    }
    let mut i: usize = 0;
    while i < a.len()
        invariant
            i <= a@.len(),
            a@.len() == b@.len(),
            forall|j: int| 0 <= j < i ==> a@[j] == b@[j],
        decreases a.len() - i,
    {
        if a[i] != b[i] {
            return false;
        }
        i = i + 1;
    }
    assert(a@ =~= b@);
    true
}

fn parse_one(exe: &[u8], toc_offset: usize, toc: &[u8], pos: usize) -> (r: Result<(Entry, usize), PayloadError>)
    requires
        pos <= toc@.len(),
        toc_offset <= exe@.len(),
    ensures
        match r {
            Ok((e, next)) => spec_parse_one(exe@, toc_offset as nat, toc@, pos as nat) == Ok::<
                ((Seq<char>, Seq<u8>), nat),
                PayloadErrorView,
            >(((e.name@, e.data@), next as nat)) && next <= toc@.len(),
            Err(e) => spec_parse_one(exe@, toc_offset as nat, toc@, pos as nat) == Err::<
                ((Seq<char>, Seq<u8>), nat),
                PayloadErrorView,
            >(error_view(e)),
        },
{
    let tlen = toc.len();
    if tlen - pos < 2 {
        return Err(PayloadError::TocTruncated);
    }
    let name_len = read_le(toc, pos, 2) as usize;
    proof {
        lemma_le_val_bound(toc@.subrange(pos as int, pos + 2));
        lemma_p256_8();
    }
    let p = pos + 2;
    if tlen - p < name_len || tlen - p - name_len < 48 {
        return Err(PayloadError::EntryTruncated);
    }
    let nb = slice_subrange(toc, p, p + name_len);
    let name = match utf8_text(nb) {
        None => {
            return Err(PayloadError::NameNotUtf8);
        },
        Some(n) => n,
    };
    match validate_name(name.as_str()) {
        Err(e) => {
            return Err(e);
        },
        Ok(()) => {},
    }
    let q = p + name_len;
    let offset = read_le(toc, q, 8);
    let len = read_le(toc, q + 8, 8);
    let want = slice_subrange(toc, q + 16, q + 48);
    if offset > toc_offset as u64 || len > toc_offset as u64 - offset {
        return Err(PayloadError::EntryOutOfRange(name));
    }
    let start = offset as usize;
    let end = start + len as usize;
    let data = slice_subrange(exe, start, end);
    let digest = sha256(data);
    match check_entry(name, data, &digest, want) {
        Ok(entry) => Ok((entry, q + 48)),
        Err(e) => Err(e),
    }
}

/// An entry whose data has the checksum its TOC records: `digest` is the
/// SHA-256 of `data`, `want` the recorded checksum. A mismatch refuses the
/// entry by its name.
pub fn check_entry(name: String, data: &[u8], digest: &[u8; 32], want: &[u8]) -> (r: Result<Entry, PayloadError>)
    ensures
        r is Ok <==> digest@ == want@,
        r matches Ok(e) ==> e.name@ == name@ && e.data@ == data@,
        r matches Err(e) ==> error_view(e) == PayloadErrorView::ChecksumMismatch(name@),
{
    if !same_bytes(digest.as_slice(), want) {
        return Err(PayloadError::ChecksumMismatch(name));
    }
    Ok(Entry { name, data: slice_to_vec(data) })
}

/// Reads the payload at the end of an executable.
#[verifier::loop_isolation(false)]
pub fn unpack(exe: &[u8]) -> (r: Result<Option<Vec<Entry>>, PayloadError>)
    ensures
        match r {
            Ok(None) => spec_unpack(exe@) == Ok::<Option<Seq<(Seq<char>, Seq<u8>)>>, PayloadErrorView>(
                None,
            ),
            Ok(Some(v)) => spec_unpack(exe@) == Ok::<
                Option<Seq<(Seq<char>, Seq<u8>)>>,
                PayloadErrorView,
            >(Some(entry_views(v@))),
            Err(e) => spec_unpack(exe@) == Err::<
                Option<Seq<(Seq<char>, Seq<u8>)>>,
                PayloadErrorView,
            >(error_view(e)),
        },
{
    let n = exe.len();
    if n < FOOTER_LEN {
        return Ok(None);
    }
    let footer = slice_subrange(exe, n - FOOTER_LEN, n);
    let ghost f = exe@.subrange(n - 24, n as int);
    assert(footer@ =~= f);
    let magic = slice_subrange(footer, 0, 8);
    assert(magic@ =~= f.subrange(0, 8));
    if !same_bytes(magic, MAGIC.as_slice()) {
        return Ok(None);
    }
    let version = read_le(footer, 8, 4);
    proof {
        lemma_le_val_bound(f.subrange(8, 12));
        lemma_le_val_bound(f.subrange(12, 16));
        lemma_p256_8();
    }
    if version != VERSION as u64 {
        return Err(PayloadError::UnsupportedVersion(version as u32));
    }
    let count = read_le(footer, 12, 4);
    let toc_offset = read_le(footer, 16, 8);
    let toc_end = n - FOOTER_LEN;
    if toc_offset > toc_end as u64 {
        return Err(PayloadError::TocOutOfRange { offset: toc_offset, len: toc_end });
    }
    let toc_off = toc_offset as usize;
    let toc = slice_subrange(exe, toc_off, toc_end);
    let ghost tv = toc@;
    let mut pos: usize = 0;
    let mut entries: Vec<Entry> = Vec::new();
    let mut k: u64 = 0;
    while k < count
        invariant
            k <= count,
            pos <= toc@.len(),
            toc_off <= exe@.len(),
            tv == toc@,
            spec_parse_entries(exe@, toc_off as nat, tv, 0, count as nat) == prepend(
                entry_views(entries@),
                spec_parse_entries(exe@, toc_off as nat, tv, pos as nat, (count - k) as nat),
            ),
        decreases count - k,
    {
        let ghost before = entry_views(entries@);
        match parse_one(exe, toc_off, toc, pos) {
            Err(e) => {
                assert(spec_parse_entries(exe@, toc_off as nat, tv, pos as nat, (count - k) as nat)
                    == Err::<(Seq<(Seq<char>, Seq<u8>)>, nat), PayloadErrorView>(error_view(e)));
                return Err(e);
            },
            Ok((e, next)) => {
                let ghost ev = (e.name@, e.data@);
                assert(spec_parse_entries(exe@, toc_off as nat, tv, pos as nat, (count - k) as nat)
                    == prepend(
                    seq![ev],
                    spec_parse_entries(exe@, toc_off as nat, tv, next as nat, (count - k - 1) as nat),
                ));
                entries.push(e);
                assert(entry_views(entries@) =~= before + seq![ev]);
                let ghost tail = spec_parse_entries(exe@, toc_off as nat, tv, next as nat, (count - k - 1) as nat);
                proof {
                    match tail {
                        Ok((es, end)) => {
                            assert(before + (seq![ev] + es) =~= (before + seq![ev]) + es);
                        },
                        Err(_) => {},
                    }
                }
                pos = next;
            },
        }
        k = k + 1;
    }
    assert(spec_parse_entries(exe@, toc_off as nat, tv, pos as nat, 0) == Ok::<
        (Seq<(Seq<char>, Seq<u8>)>, nat),
        PayloadErrorView,
    >((Seq::empty(), pos as nat)));
    assert(entry_views(entries@) + Seq::<(Seq<char>, Seq<u8>)>::empty() =~= entry_views(entries@));
    if pos != toc.len() {
        return Err(PayloadError::TrailingBytes);
    }
    Ok(Some(entries))
}


proof fn lemma_names_valid(es: Seq<(Seq<char>, Seq<u8>)>, i: int)
    requires
        first_name_error(es) is None,
        0 <= i < es.len(),
    ensures
        spec_validate_name(es[i].0) is None,
    decreases es.len(),
{
    if i < es.len() - 1 {
        lemma_names_valid(es.drop_last(), i);
    }
}

proof fn lemma_datas_prefix(es: Seq<(Seq<char>, Seq<u8>)>, k: int)
    requires
        0 <= k < es.len(),
    ensures
        datas(es.take(k + 1)) == datas(es.take(k)) + es[k].1,
        datas(es.take(k + 1)).len() <= datas(es).len(),
        datas(es).subrange(0, datas(es.take(k + 1)).len() as int) == datas(es.take(k + 1)),
    decreases es.len() - k,
{
    assert(es.take(k + 1).drop_last() =~= es.take(k));
    if k + 1 == es.len() {
        assert(es.take(k + 1) =~= es);
        assert(datas(es).subrange(0, datas(es).len() as int) =~= datas(es));
    } else {
        lemma_datas_prefix(es, k + 1);
        let a = datas(es.take(k + 1));
        let b = datas(es.take(k + 2));
        assert(b == a + es[k + 1].1);
        assert(datas(es).subrange(0, a.len() as int) =~= b.subrange(0, a.len() as int));
        assert(b.subrange(0, a.len() as int) =~= a);
    }
}

proof fn lemma_toc_prefix(base: nat, es: Seq<(Seq<char>, Seq<u8>)>, k: int)
    requires
        0 <= k < es.len(),
    ensures
        toc_of(base, es.take(k + 1)) == toc_of(base, es.take(k)) + toc_entry(
            es[k].0,
            base + datas(es.take(k)).len(),
            es[k].1,
        ),
        toc_of(base, es.take(k + 1)).len() <= toc_of(base, es).len(),
        toc_of(base, es).subrange(0, toc_of(base, es.take(k + 1)).len() as int) == toc_of(
            base,
            es.take(k + 1),
        ),
    decreases es.len() - k,
{
    assert(es.take(k + 1).drop_last() =~= es.take(k));
    if k + 1 == es.len() {
        assert(es.take(k + 1) =~= es);
        assert(toc_of(base, es).subrange(0, toc_of(base, es).len() as int) =~= toc_of(base, es));
    } else {
        lemma_toc_prefix(base, es, k + 1);
        let a = toc_of(base, es.take(k + 1));
        let b = toc_of(base, es.take(k + 2));
        assert(es.take(k + 2).drop_last() =~= es.take(k + 1));
        assert(toc_of(base, es).subrange(0, a.len() as int) =~= b.subrange(0, a.len() as int));
        assert(b.subrange(0, a.len() as int) =~= a);
    }
}

proof fn lemma_toc_empty(base: nat, es: Seq<(Seq<char>, Seq<u8>)>)
    ensures
        toc_of(base, es.take(0)) == Seq::<u8>::empty(),
        datas(es.take(0)) == Seq::<u8>::empty(),
{
    assert(es.take(0).len() == 0);
}

proof fn lemma_entry_layout(name: Seq<char>, off: nat, data: Seq<u8>)
    ensures
        ({
            let nb = encode_utf8(name);
            let e = toc_entry(name, off, data);
            let l = nb.len() as int;
            &&& e.len() == 50 + l
            &&& e.subrange(0, 2) == le_n(nb.len(), 2)
            &&& e.subrange(2, 2 + l) == nb
            &&& e.subrange(2 + l, 10 + l) == le_n(off, 8)
            &&& e.subrange(10 + l, 18 + l) == le_n(data.len() as nat, 8)
            &&& e.subrange(18 + l, 50 + l) == sha256_digest(data)@
        }),
{
    assert(sha256_digest(data)@.len() == 32);
    let nb = encode_utf8(name);
    let e = toc_entry(name, off, data);
    let l = nb.len() as int;
    lemma_le_n_len(nb.len(), 2);
    lemma_le_n_len(off, 8);
    lemma_le_n_len(data.len() as nat, 8);
    assert(e.subrange(0, 2) =~= le_n(nb.len(), 2));
    assert(e.subrange(2, 2 + l) =~= nb);
    assert(e.subrange(2 + l, 10 + l) =~= le_n(off, 8));
    assert(e.subrange(10 + l, 18 + l) =~= le_n(data.len() as nat, 8));
    assert(e.subrange(18 + l, 50 + l) =~= sha256_digest(data)@);
}

proof fn lemma_data_in_packed(setup: Seq<u8>, es: Seq<(Seq<char>, Seq<u8>)>, k: int)
    requires
        0 <= k < es.len(),
    ensures
        ({
            let exe = spec_pack_bytes(setup, es);
            let off = setup.len() + datas(es.take(k)).len();
            &&& off + es[k].1.len() <= setup.len() + datas(es).len()
            &&& exe.subrange(off as int, (off + es[k].1.len()) as int) == es[k].1
        }),
{
    lemma_datas_prefix(es, k);
    let exe = spec_pack_bytes(setup, es);
    let d = datas(es);
    let dk = datas(es.take(k));
    let dk1 = datas(es.take(k + 1));
    let data = es[k].1;
    let off = setup.len() + dk.len();
    assert(d.subrange(0, dk1.len() as int) == dk1);
    assert(exe.subrange(off as int, (off + data.len()) as int) =~= d.subrange(dk.len() as int, dk1.len() as int));
    assert(d.subrange(dk.len() as int, dk1.len() as int) =~= dk1.subrange(dk.len() as int, dk1.len() as int));
    assert(dk1.subrange(dk.len() as int, dk1.len() as int) =~= data);
}

proof fn lemma_parse_one_packed(setup: Seq<u8>, es: Seq<(Seq<char>, Seq<u8>)>, k: int)
    requires
        0 <= k < es.len(),
        first_name_error(es) is None,
        !name_too_long(es),
        setup.len() + datas(es).len() < p256(8),
    ensures
        ({
            let exe = spec_pack_bytes(setup, es);
            let t = (setup.len() + datas(es).len()) as nat;
            let toc = toc_of(setup.len(), es);
            spec_parse_one(exe, t, toc, toc_of(setup.len(), es.take(k)).len()) == Ok::<
                ((Seq<char>, Seq<u8>), nat),
                PayloadErrorView,
            >((es[k], toc_of(setup.len(), es.take(k + 1)).len()))
        }),
{
    let exe = spec_pack_bytes(setup, es);
    let t = (setup.len() + datas(es).len()) as nat;
    let base = setup.len();
    let toc = toc_of(base, es);
    lemma_toc_prefix(base, es, k);
    lemma_names_valid(es, k);
    lemma_data_in_packed(setup, es, k);
    let pos = toc_of(base, es.take(k)).len() as int;
    let name = es[k].0;
    let data = es[k].1;
    let nb = encode_utf8(name);
    let off = base + datas(es.take(k)).len();
    let entry = toc_entry(name, off, data);
    let next = toc_of(base, es.take(k + 1));
    assert(sha256_digest(es[k].1)@.len() == 32);
    lemma_entry_layout(name, off, data);
    assert(toc.subrange(pos, pos + entry.len()) =~= entry) by {
        assert(toc.subrange(0, next.len() as int) == next);
        assert(toc.subrange(pos, pos + entry.len()) =~= next.subrange(pos, pos + entry.len()));
    }
    assert(encode_utf8(es[k].0).len() <= 65535);
    lemma_p256_8();
    lemma_le_roundtrip(nb.len(), 2);
    lemma_le_roundtrip(off, 8);
    lemma_le_roundtrip(data.len() as nat, 8);
    vstd::utf8::encode_utf8_valid_utf8(name);
    vstd::utf8::encode_utf8_decode_utf8(name);
    let l = nb.len() as int;
    assert(toc.subrange(pos, pos + 2) =~= entry.subrange(0, 2));
    assert(toc.subrange(pos + 2, pos + 2 + l) =~= entry.subrange(2, 2 + l));
    assert(toc.subrange(pos + 2 + l, pos + 10 + l) =~= entry.subrange(2 + l, 10 + l));
    assert(toc.subrange(pos + 10 + l, pos + 18 + l) =~= entry.subrange(10 + l, 18 + l));
    assert(toc.subrange(pos + 18 + l, pos + 50 + l) =~= entry.subrange(18 + l, 50 + l));
    assert(es[k] == (name, data));
}

/// Reading the TOC of packed entries from the start of entry `k` gives
/// back the remaining entries and ends exactly at the end of the TOC.
proof fn lemma_parse_packed(setup: Seq<u8>, es: Seq<(Seq<char>, Seq<u8>)>, k: int)
    requires
        0 <= k <= es.len(),
        first_name_error(es) is None,
        !name_too_long(es),
        setup.len() + datas(es).len() < p256(8),
    ensures
        ({
            let exe = spec_pack_bytes(setup, es);
            let t = (setup.len() + datas(es).len()) as nat;
            let toc = toc_of(setup.len(), es);
            spec_parse_entries(exe, t, toc, toc_of(setup.len(), es.take(k)).len(), (es.len() - k) as nat)
                == Ok::<(Seq<(Seq<char>, Seq<u8>)>, nat), PayloadErrorView>((es.skip(k), toc.len()))
        }),
    decreases es.len() - k,
{
    if k == es.len() {
        assert(es.take(k) =~= es);
        assert(es.skip(k) =~= Seq::<(Seq<char>, Seq<u8>)>::empty());
    } else {
        lemma_parse_packed(setup, es, k + 1);
        lemma_parse_one_packed(setup, es, k);
        assert(es.skip(k) =~= seq![es[k]] + es.skip(k + 1));
    }
}

/// Unpacking what `pack` produced gives back the entries, in order, as long
/// as the container fits the 64-bit offsets and the count fits 32 bits.
pub proof fn lemma_pack_unpack(setup: Seq<u8>, es: Seq<(Seq<char>, Seq<u8>)>, packed: Seq<u8>)
    requires
        spec_pack(setup, es) == Ok::<Seq<u8>, PayloadErrorView>(packed),
        es.len() < 0x1_0000_0000,
        setup.len() + datas(es).len() < 0x1_0000_0000_0000_0000,
    ensures
        spec_unpack(packed) == Ok::<Option<Seq<(Seq<char>, Seq<u8>)>>, PayloadErrorView>(Some(es)),
{
    lemma_p256_8();
    lemma_parse_packed(setup, es, 0);
    lemma_toc_empty(setup.len(), es);
    assert(es.skip(0) =~= es);
    let t = (setup.len() + datas(es).len()) as nat;
    let toc = toc_of(setup.len(), es);
    let exe = packed;
    let n = exe.len() as int;
    lemma_le_n_len(VERSION as nat, 4);
    lemma_le_n_len(es.len(), 4);
    lemma_le_n_len(t, 8);
    lemma_le_roundtrip(VERSION as nat, 4);
    lemma_le_roundtrip(es.len(), 4);
    lemma_le_roundtrip(t, 8);
    let f = exe.subrange(n - 24, n);
    assert(f =~= MAGIC@ + le_n(VERSION as nat, 4) + le_n(es.len(), 4) + le_n(t, 8));
    assert(f.subrange(0, 8) =~= MAGIC@);
    assert(f.subrange(8, 12) =~= le_n(VERSION as nat, 4));
    assert(f.subrange(12, 16) =~= le_n(es.len(), 4));
    assert(f.subrange(16, 24) =~= le_n(t, 8));
    assert(exe.subrange(t as int, n - 24) =~= toc);
}

} // verus!
