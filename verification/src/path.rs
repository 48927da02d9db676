//! Path strings with one canonical separator.

use vstd::prelude::*;
use vstd::string::axiom_spec_iter;

verus! {

/// The canonical separator: every backslash stands for it.
pub open spec fn canonical_char(c: char) -> char {
    if c == '\\' {
        '/'
    } else {
        c
    }
}

/// A path's text with every backslash replaced by a forward slash.
pub open spec fn normalized(path: Seq<char>) -> Seq<char> {
    Seq::new(path.len(), |i: int| canonical_char(path[i]))
}

/// Text that holds no backslash, so that normalizing leaves it as it is.
pub open spec fn is_normal(path: Seq<char>) -> bool {
    forall|i: int| 0 <= i < path.len() ==> path[i] != '\\'
}

/// `String::push` appends one character.
pub assume_specification[ String::push ](s: &mut String, c: char)
    ensures
        final(s)@ == old(s)@.push(c),
;

/// Normalizing yields normal text, and normal text is a fixed point.
pub proof fn lemma_normalized_is_normal(path: Seq<char>)
    ensures
        is_normal(normalized(path)),
        is_normal(path) ==> normalized(path) == path,
        normalized(normalized(path)) == normalized(path),
{
}

/// Rewrites `path` with forward slashes only.
pub fn normalize_separators(path: &str) -> (out: String)
    ensures
        out@ == normalized(path@),
{
    let mut out = String::new();
    let chars = path.chars();
    proof {
        axiom_spec_iter(path);
    }
    for c in it: chars
        invariant
            it.seq() == path@,
            out@ == normalized(path@.take(it.index())),
    {
        proof {
            assert(normalized(path@.take(it.index() + 1)) =~= normalized(
                path@.take(it.index()),
            ).push(canonical_char(c)));
        }
        out.push(if c == '\\' { '/' } else { c });
    }
    out
}

} // verus!
