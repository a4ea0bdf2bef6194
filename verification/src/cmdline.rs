//! First token of a Windows command line (the executable path).

use vstd::prelude::*;
use vstd::string::StrSliceExecFns;

use crate::http::take_tok;
use crate::text::{chars_of, find_char, spec_find};

verus! {

/// First token of a command line: after an opening quote, up to the next
/// quote (or the end); otherwise up to the first ASCII whitespace.
pub open spec fn spec_first_token(s: Seq<char>) -> Seq<char> {
    if s.len() > 0 && s[0] == '"' {
        let rest = s.drop_first();
        match spec_find(rest, '"') {
            Some(e) => rest.take(e),
            None => rest,
        }
    } else {
        s.take(take_tok(s, 0))
    }
}

/// Index just past the non-whitespace run at the start.
fn token_end(s: &[char]) -> (r: usize)
    ensures
        r as int == take_tok(s@, 0),
        r <= s@.len(),
{
    let mut j: usize = 0;
    while j < s.len() && !crate::text::ascii_ws(s[j])
        invariant
            j <= s@.len(),
            take_tok(s@, j as int) == take_tok(s@, 0),
        decreases s.len() - j,
    {
        j = j + 1;
    }
    j
}

/// The executable path of a service command line (quoted or not); empty
/// input gives an empty token.
pub fn first_token(line: &str) -> (r: &str)
    ensures
        r@ == spec_first_token(line@),
{
    let cs = chars_of(line);
    if cs.len() > 0 && cs[0] == '"' {
        let rest = vstd::slice::slice_subrange(cs.as_slice(), 1, cs.len());
        assert(rest@ =~= line@.drop_first());
        match find_char(rest, '"') {
            Some(e) => {
                let r = line.substring_char(1, e + 1);
                assert(r@ =~= line@.drop_first().take(e as int));
                r
            },
            None => {
                let r = line.substring_char(1, cs.len());
                assert(r@ =~= line@.drop_first());
                r
            },
        }
    } else {
        let e = token_end(cs.as_slice());
        line.substring_char(0, e)
    }
}

} // verus!
