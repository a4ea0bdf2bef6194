//! Character-level string helpers shared by the parsers and renderers.

use vstd::prelude::*;

verus! {

/// Decimal digits of a natural number, most significant first.
pub open spec fn spec_decimal(n: nat) -> Seq<char>
    decreases n,
{
    if n < 10 {
        seq![digit_char(n)]
    } else {
        spec_decimal(n / 10) + seq![digit_char(n % 10)]
    }
}

/// The ASCII digit for `d < 10`.
pub open spec fn digit_char(d: nat) -> char {
    (('0' as u32) + d) as char
}

/// The decimal text of `n` is made of digits and reads back as `n`; it has
/// one digit below ten and two below a hundred.
pub proof fn lemma_decimal_reads_back(n: nat)
    ensures
        digits_value(spec_decimal(n)) == n,
        forall|i: int| 0 <= i < spec_decimal(n).len() ==> is_digit(#[trigger] spec_decimal(n)[i]),
        spec_decimal(n).len() >= 1,
        n < 10 ==> spec_decimal(n).len() == 1,
        10 <= n < 100 ==> spec_decimal(n).len() == 2,
        10 <= n ==> spec_decimal(n).len() >= 2,
    decreases n,
{
    let s = spec_decimal(n);
    if n < 10 {
        assert(((('0' as u32) + n) as char) as u32 == 48 + n);
        assert(s.drop_last() =~= Seq::<char>::empty());
        assert(s.last() == digit_char(n));
        assert(digits_value(s) == digits_value(s.drop_last()) * 10 + ((s.last() as u32) - ('0' as u32)) as nat);
        assert(digits_value(Seq::<char>::empty()) == 0);
    } else {
        lemma_decimal_reads_back(n / 10);
        let d = n % 10;
        assert(((('0' as u32) + d) as char) as u32 == 48 + d);
        assert(s.drop_last() =~= spec_decimal(n / 10));
        assert(s.last() == digit_char(d));
        assert(digits_value(s) == digits_value(s.drop_last()) * 10 + ((s.last() as u32) - ('0' as u32)) as nat);
        assert((n / 10) * 10 + d == n);
        assert forall|i: int| 0 <= i < s.len() implies is_digit(#[trigger] s[i]) by {
            if i < s.len() - 1 {
                assert(s[i] == spec_decimal(n / 10)[i]);
            }
        }
    }
}

/// The ASCII digit for `d < 10`.
fn digit(d: u64) -> (c: char)
    requires
        d < 10,
    ensures
        c == digit_char(d as nat),
{
    if d == 0 {
        '0'
    } else if d == 1 {
        '1'
    } else if d == 2 {
        '2'
    } else if d == 3 {
        '3'
    } else if d == 4 {
        '4'
    } else if d == 5 {
        '5'
    } else if d == 6 {
        '6'
    } else if d == 7 {
        '7'
    } else if d == 8 {
        '8'
    } else {
        '9'
    }
}

/// The decimal text of a number, without sign or padding.
pub fn decimal(n: u64) -> (r: String)
    ensures
        r@ == spec_decimal(n as nat),
    decreases n,
{
    if n < 10 {
        let mut s = String::new();
        push_char(&mut s, digit(n));
        assert(s@ =~= spec_decimal(n as nat));
        s
    } else {
        let mut s = decimal(n / 10);
        push_char(&mut s, digit(n % 10));
        assert(s@ =~= spec_decimal(n as nat));
        s
    }
}

/// Calls `String::push` (std). Claims that the character is appended.
#[verifier::external_body]
pub fn push_char(s: &mut String, c: char)
    ensures
        final(s)@ == old(s)@.push(c),
{
    s.push(c)
}

/// Appends a string slice to a string.
pub fn push_str(out: &mut String, s: &str)
    ensures
        final(out)@ == old(out)@ + s@,
{
    out.append(s);
}

/// Whether two string slices hold the same text.
pub fn text_eq(a: &str, b: &str) -> (r: bool)
    ensures
        r == (a@ == b@),
{
    String::from_str(a) == String::from_str(b)
}

/// The characters of a string slice, in order.
pub fn chars_of(s: &str) -> (r: Vec<char>)
    ensures
        r@ == s@,
{
    let mut out: Vec<char> = Vec::new();
    for c in it: s.chars()
        invariant
            out@ == it.seq().take(it.index() as int),
    {
        out.push(c);
    }
    assert(out@ =~= s@);
    out
}


/// `i` is the first position of `c` in `s`.
pub open spec fn is_first(s: Seq<char>, c: char, i: int) -> bool {
    0 <= i < s.len() && s[i] == c && forall|j: int| 0 <= j < i ==> s[j] != c
}

/// `i` is the last position of `c` in `s`.
pub open spec fn is_last(s: Seq<char>, c: char, i: int) -> bool {
    0 <= i < s.len() && s[i] == c && forall|j: int| i < j < s.len() ==> s[j] != c
}

/// First position of `c` in `s`, if any.
pub open spec fn spec_find(s: Seq<char>, c: char) -> Option<int> {
    if s.contains(c) {
        Some(choose|i: int| is_first(s, c, i))
    } else {
        None
    }
}

/// Last position of `c` in `s`, if any.
pub open spec fn spec_rfind(s: Seq<char>, c: char) -> Option<int> {
    if s.contains(c) {
        Some(choose|i: int| is_last(s, c, i))
    } else {
        None
    }
}

/// Option of a machine index as an option of a mathematical index.
pub open spec fn opt_int(o: Option<usize>) -> Option<int> {
    match o {
        Some(i) => Some(i as int),
        None => None,
    }
}

/// First position of `c` in `s`.
pub fn find_char(s: &[char], c: char) -> (r: Option<usize>)
    ensures
        opt_int(r) == spec_find(s@, c),
        r matches Some(i) ==> is_first(s@, c, i as int),
        r is None ==> !s@.contains(c),
{
    let mut i: usize = 0;
    while i < s.len()
        invariant
            i <= s@.len(),
            forall|j: int| 0 <= j < i ==> s@[j] != c,
        decreases s.len() - i,
    {
        if s[i] == c {
            assert(is_first(s@, c, i as int));
            assert(s@.contains(c));
            assert((choose|k: int| is_first(s@, c, k)) == i as int);
            return Some(i);
        }
        i = i + 1;
    }
    None
}

/// Last position of `c` in `s`.
pub fn rfind_char(s: &[char], c: char) -> (r: Option<usize>)
    ensures
        opt_int(r) == spec_rfind(s@, c),
        r matches Some(i) ==> is_last(s@, c, i as int),
        r is None ==> !s@.contains(c),
{
    let mut i: usize = s.len();
    while i > 0
        invariant
            i <= s@.len(),
            forall|j: int| i <= j < s@.len() ==> s@[j] != c,
        decreases i,
    {
        if s[i - 1] == c {
            assert(is_last(s@, c, i - 1));
            assert(s@.contains(c));
            assert((choose|k: int| is_last(s@, c, k)) == i - 1);
            return Some(i - 1);
        }
        i = i - 1;
    }
    None
}

/// `sub` occurs in `s` at position `i`.
pub open spec fn occurs_at(s: Seq<char>, sub: Seq<char>, i: int) -> bool {
    0 <= i && i + sub.len() <= s.len() && s.subrange(i, i + sub.len()) == sub
}

/// `sub` occurs somewhere in `s`.
pub open spec fn contains_sub(s: Seq<char>, sub: Seq<char>) -> bool {
    exists|i: int| occurs_at(s, sub, i)
}

/// Whether `s` starts with `p`.
pub fn starts_with(s: &[char], p: &[char]) -> (r: bool)
    ensures
        r == p@.is_prefix_of(s@),
{
    if p.len() > s.len() {
        return false;
    }
    let mut i: usize = 0;
    while i < p.len()
        invariant
            i <= p@.len() <= s@.len(),
            forall|j: int| 0 <= j < i ==> s@[j] == p@[j],
        decreases p.len() - i,
    {
        if s[i] != p[i] {
            return false;
        }
        i = i + 1;
    }
    true
}

/// Whether `sub` occurs at position `at` of `s`.
fn matches_at(s: &[char], sub: &[char], at: usize) -> (r: bool)
    requires
        at + sub@.len() <= s@.len(),
    ensures
        r == occurs_at(s@, sub@, at as int),
{
    let n = s.len();
    let mut i: usize = 0;
    while i < sub.len()
        invariant
            n == s@.len(),
            i <= sub@.len(),
            at + sub@.len() <= s@.len(),
            forall|j: int| 0 <= j < i ==> s@[at + j] == sub@[j],
        decreases sub.len() - i,
    {
        assert(at + i < s@.len());
        if s[at + i] != sub[i] {
            assert(s@.subrange(at as int, at + sub@.len())[i as int] != sub@[i as int]);
            return false;
        }
        i = i + 1;
    }
    assert(s@.subrange(at as int, at + sub@.len()) =~= sub@);
    true
}

/// Whether `sub` occurs in `s`.
pub fn has_substr(s: &[char], sub: &[char]) -> (r: bool)
    ensures
        r == contains_sub(s@, sub@),
{
    if sub.len() > s.len() {
        return false;
    }
    if sub.len() == 0 {
        assert(s@.subrange(0, 0) =~= sub@);
        assert(occurs_at(s@, sub@, 0));
        return true;
    }
    let mut at: usize = 0;
    while at <= s.len() - sub.len()
        invariant
            0 < sub@.len() <= s@.len(),
            at <= s@.len() - sub@.len() + 1,
            forall|j: int| 0 <= j < at ==> !occurs_at(s@, sub@, j),
        decreases s.len() - at,
    {
        if matches_at(s, sub, at) {
            return true;
        }
        at = at + 1;
    }
    proof {
        lemma_no_occurrence(s@, sub@, at as int);
    }
    false
}

proof fn lemma_no_occurrence(s: Seq<char>, sub: Seq<char>, at: int)
    requires
        at + sub.len() > s.len(),
        forall|j: int| 0 <= j < at ==> !occurs_at(s, sub, j),
    ensures
        !contains_sub(s, sub),
{
    assert forall|i: int| !occurs_at(s, sub, i) by {
        if 0 <= i < at {
        }
    }
}

/// A string holding the given characters.
pub fn string_of(cs: &[char]) -> (r: String)
    ensures
        r@ == cs@,
{
    let mut out = String::new();
    let mut i: usize = 0;
    while i < cs.len()
        invariant
            i <= cs@.len(),
            out@ == cs@.take(i as int),
        decreases cs.len() - i,
    {
        push_char(&mut out, cs[i]);
        assert(cs@.take(i + 1) =~= cs@.take(i as int).push(cs@[i as int]));
        i = i + 1;
    }
    assert(cs@.take(cs@.len() as int) =~= cs@);
    out
}

/// ASCII whitespace as `char::is_ascii_whitespace` defines it.
pub open spec fn is_ascii_ws(c: char) -> bool {
    c == ' ' || c == '\t' || c == '\n' || c == '\x0C' || c == '\r'
}

/// Whether a character is ASCII whitespace.
pub fn ascii_ws(c: char) -> (r: bool)
    ensures
        r == is_ascii_ws(c),
{
    c == ' ' || c == '\t' || c == '\n' || c == '\x0C' || c == '\r'
}

/// Whether a character is an ASCII digit.
pub open spec fn is_digit(c: char) -> bool {
    '0' <= c <= '9'
}

/// Value of a string of decimal digits.
pub open spec fn digits_value(s: Seq<char>) -> nat
    decreases s.len(),
{
    if s.len() == 0 {
        0
    } else {
        digits_value(s.drop_last()) * 10 + ((s.last() as u32) - ('0' as u32)) as nat
    }
}

/// The text without one leading `+`.
pub open spec fn strip_plus(s: Seq<char>) -> Seq<char> {
    if s.len() > 0 && s[0] == '+' {
        s.drop_first()
    } else {
        s
    }
}

/// Unsigned integer syntax of `FromStr`: an optional `+`, then one or more digits.
pub open spec fn unsigned_digits(s: Seq<char>) -> Option<Seq<char>> {
    if strip_plus(s).len() > 0 && forall|i: int|
        0 <= i < strip_plus(s).len() ==> is_digit(#[trigger] strip_plus(s)[i]) {
        Some(strip_plus(s))
    } else {
        None
    }
}

/// `str::parse` of an unsigned integer no larger than `max`.
pub open spec fn spec_parse_unsigned(s: Seq<char>, max: nat) -> Option<nat> {
    match unsigned_digits(s) {
        Some(d) => if digits_value(d) <= max {
            Some(digits_value(d))
        } else {
            None
        },
        None => None,
    }
}

/// Parses an unsigned decimal integer no larger than `max`, as
/// `str::parse` does for an unsigned integer type whose maximum is `max`.
pub fn parse_unsigned(s: &[char], max: u64) -> (r: Option<u64>)
    ensures
        match r {
            Some(v) => spec_parse_unsigned(s@, max as nat) == Some(v as nat),
            None => spec_parse_unsigned(s@, max as nat) is None,
        },
{
    let start: usize = if s.len() > 0 && s[0] == '+' {
        1
    } else {
        0
    };
    let ghost d = strip_plus(s@);
    assert(d =~= s@.subrange(start as int, s@.len() as int));
    if start >= s.len() {
        return None;
    }
    let mut v: u64 = 0;
    let mut i: usize = start;
    while i < s.len()
        invariant
            start <= i <= s@.len(),
            d == strip_plus(s@),
            start == (if s@.len() > 0 && s@[0] == '+' {
                1int
            } else {
                0int
            }),
            d == s@.subrange(start as int, s@.len() as int),
            forall|j: int| start <= j < i ==> is_digit(s@[j]),
            v as nat == digits_value(s@.subrange(start as int, i as int)),
            v <= max,
        decreases s.len() - i,
    {
        let c = s[i];
        if !('0' <= c && c <= '9') {
            assert(!is_digit(strip_plus(s@)[i - start]));
            return None;
        }
        let dv: u64 = ((c as u32) - ('0' as u32)) as u64;
        assert(s@.subrange(start as int, i + 1).drop_last() =~= s@.subrange(start as int, i as int));
        let nv: u128 = (v as u128) * 10 + (dv as u128);
        if nv > max as u128 {
            proof {
                lemma_digits_exceed(s@, start as int, i as int, max as nat);
            }
            return None;
        }
        v = nv as u64;
        i = i + 1;
    }
    assert(s@.subrange(start as int, s@.len() as int) =~= d);
    Some(v)
}

/// Appending digits never makes the value smaller.
proof fn lemma_digits_monotone(s: Seq<char>, a: int, b: int, c: int)
    requires
        0 <= a <= b <= c <= s.len(),
        forall|j: int| a <= j < c ==> is_digit(s[j]),
    ensures
        digits_value(s.subrange(a, b)) <= digits_value(s.subrange(a, c)),
    decreases c - b,
{
    if b < c {
        lemma_digits_monotone(s, a, b, c - 1);
        assert(s.subrange(a, c).drop_last() =~= s.subrange(a, c - 1));
    }
}

/// Once the value of a digit prefix passes `max`, the whole digit string does too.
proof fn lemma_digits_exceed(s: Seq<char>, start: int, i: int, max: nat)
    requires
        0 <= start <= i < s.len(),
        start == (if s.len() > 0 && s[0] == '+' {
            1int
        } else {
            0int
        }),
        forall|j: int| start <= j <= i ==> is_digit(s[j]),
        digits_value(s.subrange(start, i + 1)) > max,
    ensures
        spec_parse_unsigned(s, max) is None,
{
    let d = strip_plus(s);
    if unsigned_digits(s) is Some {
        assert(d =~= s.subrange(start, s.len() as int));
        assert forall|j: int| start <= j < s.len() implies is_digit(s[j]) by {
            assert(is_digit(strip_plus(s)[j - start]));
        }
        lemma_digits_monotone(s, start, i + 1, s.len() as int);
    }
}

} // verus!
