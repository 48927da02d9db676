//! Glob compilation and matching, done by the `globset` crate.
//!
//! Nothing in this module is proved: it states what `globset` is trusted to
//! do. Patterns and paths reach it free of backslashes, so that what it
//! computes is the same on every platform.

use crate::path::is_normal;
use globset::GlobBuilder;
use globset::GlobSet;
use vstd::prelude::*;

verus! {

/// `globset::GlobSet`, a compiled set of globs. Nothing of its inside is
/// known here.
#[verifier::external_type_specification]
#[verifier::external_body]
pub struct ExGlobSet(globset::GlobSet);

/// `globset::Error`, the reason why a glob did not compile.
#[verifier::external_type_specification]
#[verifier::external_body]
pub struct ExGlobError(globset::Error);

/// The longest pattern, in characters, that is handed to `globset`: the
/// length of the longest path that common systems accept.
pub const MAX_PATTERN_LEN: usize = 4096;

/// The globs that a `globset::GlobSet` was built from, in order.
pub uninterp spec fn set_globs(set: GlobSet) -> Seq<Seq<char>>;

/// Whether `globset` parses and compiles `pattern`: what `compile_glob`
/// finds for a pattern with wildcards.
pub uninterp spec fn glob_parses(pattern: Seq<char>) -> bool;

/// Whether the compiled glob `pattern` matches `path`: what
/// `globset::GlobSet::is_match` answers for a pattern with wildcards.
pub uninterp spec fn glob_verdict(pattern: Seq<char>, path: Seq<char>) -> bool;

/// The characters that a glob may read as something other than themselves:
/// the wildcards, the opening bracket, the braces and the backslash.
pub open spec fn is_glob_meta(c: char) -> bool {
    c == '*' || c == '?' || c == '[' || c == '{' || c == '}' || c == '\\'
}

/// Text in which every character stands for itself.
pub open spec fn is_literal(text: Seq<char>) -> bool {
    forall|i: int| 0 <= i < text.len() ==> !is_glob_meta(#[trigger] text[i])
}

/// The suffix `/**`, which stands for everything below a directory.
pub open spec fn subtree_suffix() -> Seq<char> {
    seq!['/', '*', '*']
}

/// A pattern made of a literal directory followed by `/**`.
pub open spec fn is_subtree_glob(pattern: Seq<char>) -> bool {
    &&& pattern.len() >= 3
    &&& pattern.subrange(pattern.len() - 3, pattern.len() as int) == subtree_suffix()
    &&& is_literal(pattern.subrange(0, pattern.len() - 3))
}

/// The directory of a subtree glob, with its trailing separator.
pub open spec fn subtree_prefix(pattern: Seq<char>) -> Seq<char> {
    pattern.subrange(0, pattern.len() - 2)
}

/// A pattern in which some `[` has no `]` anywhere after it.
pub open spec fn has_unclosed_bracket(pattern: Seq<char>) -> bool {
    exists|i: int|
        0 <= i < pattern.len() && #[trigger] pattern[i] == '[' && forall|j: int|
            i < j < pattern.len() ==> pattern[j] != ']'
}

/// Whether `pattern` compiles. A literal and a subtree glob always do, and a
/// pattern with an unclosed bracket never does.
pub open spec fn glob_compiles(pattern: Seq<char>) -> bool {
    ||| is_literal(pattern)
    ||| is_subtree_glob(pattern)
    ||| !has_unclosed_bracket(pattern) && glob_parses(pattern)
}

/// Whether the glob `pattern` matches the whole of `path`.
///
/// A literal matches itself and nothing else; a subtree glob matches what
/// begins with its directory and a separator; any other pattern matches what
/// `globset` says it matches.
pub open spec fn glob_accepts(pattern: Seq<char>, path: Seq<char>) -> bool {
    if is_literal(pattern) {
        path == pattern
    } else if is_subtree_glob(pattern) {
        subtree_prefix(pattern).is_prefix_of(path)
    } else {
        glob_verdict(pattern, path)
    }
}

/// Parses `pattern` with `globset::GlobBuilder::build`, wildcards confined to
/// one path segment, and compiles it alone with `globset::GlobSet::new`.
///
/// Trusted: a literal and a subtree glob compile, a pattern with an unclosed
/// bracket does not, any other pattern does exactly when `glob_parses` says
/// so, and the set then holds that one pattern. The bound on the length keeps
/// the literal of a pattern far below the size at which the matchers inside
/// `globset` can no longer index it and panic.
#[verifier::external_body]
pub(crate) fn compile_glob(pattern: &str) -> (r: Result<GlobSet, globset::Error>)
    requires
        pattern@.len() <= MAX_PATTERN_LEN,
        is_normal(pattern@),
    ensures
        r is Ok <==> {
            ||| is_literal(pattern@)
            ||| is_subtree_glob(pattern@)
            ||| !has_unclosed_bracket(pattern@) && glob_parses(pattern@)
        },
        r matches Ok(set) ==> set_globs(set) == seq![pattern@],
{
    let glob = GlobBuilder::new(pattern).literal_separator(true).build()?;
    GlobSet::new([glob])
}

/// Matches `path` against a set of one glob with `globset::GlobSet::is_match`.
///
/// Trusted: a literal matches the path equal to it, a subtree glob the paths
/// that begin with its directory and a separator, and any other pattern the
/// paths that `glob_verdict` names.
#[verifier::external_body]
pub(crate) fn set_is_match(set: &GlobSet, path: &str) -> (hit: bool)
    requires
        set_globs(*set).len() == 1,
        is_normal(path@),
    ensures
        hit == ({
            let glob = set_globs(*set)[0];
            if is_literal(glob) {
                path@ == glob
            } else if is_subtree_glob(glob) {
                subtree_prefix(glob).is_prefix_of(path@)
            } else {
                glob_verdict(glob, path@)
            }
        }),
{
    set.is_match(path)
}

} // verus!
