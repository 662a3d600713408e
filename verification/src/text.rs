//! Small operations on text.

use vstd::prelude::*;

verus! {

/// A text with every double quote taken out.
pub open spec fn without_quotes(s: Seq<char>) -> Seq<char> {
    s.filter(|c: char| c != '"')
}

/// `String::push` appends one character.
pub assume_specification[ String::push ](s: &mut String, c: char)
    ensures
        final(s)@ == old(s)@.push(c),
;

/// Copies a text without its double quotes.
pub fn strip_quotes(s: &str) -> (r: String)
    ensures
        r@ == without_quotes(s@),
{
    let mut out = String::new();
    proof {
        reveal(Seq::filter);
    }
    for c in it: s.chars()
        invariant
            it.seq() == s@,
            out@ == without_quotes(s@.take(it.index() as int)),
    {
        proof {
            let n = it.index() as int;
            reveal(Seq::filter);
            assert(s@.take(n + 1).drop_last() == s@.take(n));
            assert(s@.take(n + 1).last() == c);
        }
        if c != '"' {
            out.push(c);
        }
    }
    proof {
        assert(s@.take(s@.len() as int) == s@);
    }
    out
}

} // verus!
