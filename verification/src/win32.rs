//! UTF-16 strings for Win32 parameters.

use vstd::prelude::*;

use crate::text::chars_of;

verus! {

/// UTF-16 code units of one character: itself below `0x10000`, otherwise a
/// surrogate pair.
pub open spec fn char_units(c: char) -> Seq<u16> {
    let v = c as u32 as int;
    if v < 0x10000 {
        seq![v as u16]
    } else {
        seq![(0xD800 + (v - 0x10000) / 1024) as u16, (0xDC00 + (v - 0x10000) % 1024) as u16]
    }
}

/// UTF-16 encoding of a character sequence.
pub open spec fn utf16_of(s: Seq<char>) -> Seq<u16>
    decreases s.len(),
{
    if s.len() == 0 {
        Seq::empty()
    } else {
        utf16_of(s.drop_last()) + char_units(s.last())
    }
}

/// UTF-16 encoding of a string slice.
pub fn encode_utf16(s: &str) -> (r: Vec<u16>)
    ensures
        r@ == utf16_of(s@),
{
    let cs = chars_of(s);
    let mut out: Vec<u16> = Vec::new();
    let mut i: usize = 0;
    while i < cs.len()
        invariant
            i <= cs@.len(),
            cs@ == s@,
            out@ == utf16_of(cs@.take(i as int)),
        decreases cs.len() - i,
    {
        let c = cs[i];
        let v = c as u32;
        proof {
            vstd::utf8::char_is_scalar(c);
        }
        assert(cs@.take(i + 1).drop_last() =~= cs@.take(i as int));
        if v < 0x10000 {
            out.push(v as u16);
        } else {
            assert(v <= 0x10FFFF);
            let w = v - 0x10000;
            out.push((0xD800 + w / 1024) as u16);
            out.push((0xDC00 + w % 1024) as u16);
        }
        assert(out@ =~= utf16_of(cs@.take(i + 1)));
        i = i + 1;
    }
    assert(cs@.take(cs@.len() as int) =~= cs@);
    out
}

/// UTF-16 plus a terminating NUL (Win32 wide-string parameter).
pub fn wide(s: &str) -> (r: Vec<u16>)
    ensures
        r@ == utf16_of(s@).push(0u16),
{
    let mut out = encode_utf16(s);
    out.push(0);
    out
}

} // verus!
