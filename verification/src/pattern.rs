//! Patterns that a path is tested against: globs and exact names.

use crate::glob::compile_glob;
use crate::glob::glob_accepts;
use crate::glob::glob_compiles;
use crate::glob::has_unclosed_bracket;
use crate::glob::is_glob_meta;
use crate::glob::is_literal;
use crate::glob::is_subtree_glob;
use crate::glob::set_globs;
use crate::glob::set_is_match;
use crate::glob::MAX_PATTERN_LEN;
use crate::path::is_normal;
use crate::path::lemma_normalized_is_normal;
use crate::path::normalize_separators;
use crate::path::normalized;
use globset::GlobSet;
use vstd::prelude::*;
use vstd::string::StrSliceExecFns;

verus! {

/// What a pattern means: the text of a glob or of an exact name, both with
/// forward slashes only.
pub enum PatternSpec {
    Glob(Seq<char>),
    Exact(Seq<char>),
}

impl PatternSpec {
    /// Whether the pattern matches the whole of `path`, once its separators
    /// are normalized.
    pub open spec fn accepts(self, path: Seq<char>) -> bool {
        match self {
            PatternSpec::Glob(glob) => glob_accepts(glob, normalized(path)),
            PatternSpec::Exact(name) => normalized(path) == name,
        }
    }
}

/// Why a glob pattern was refused.
#[derive(Clone, Copy, Debug, PartialEq, Eq, Structural)]
pub enum PatternError {
    /// The pattern has more than `MAX_PATTERN_LEN` characters.
    TooLong,
    /// The pattern is not a glob that compiles.
    Malformed,
}

/// The outcome that `Pattern::glob` owes for a pattern text.
pub open spec fn glob_outcome(text: Seq<char>) -> Result<PatternSpec, PatternError> {
    if text.len() > MAX_PATTERN_LEN {
        Err(PatternError::TooLong)
    } else if !glob_compiles(normalized(text)) {
        Err(PatternError::Malformed)
    } else {
        Ok(PatternSpec::Glob(normalized(text)))
    }
}

/// A pattern ready for matching.
#[derive(Debug)]
pub struct Pattern {
    text: String,
    compiled: Option<GlobSet>,
}

impl View for Pattern {
    type V = PatternSpec;

    closed spec fn view(&self) -> PatternSpec {
        match self.compiled {
            Some(_) => PatternSpec::Glob(self.text@),
            None => PatternSpec::Exact(self.text@),
        }
    }
}

impl Pattern {
    /// The text is normalized, and a glob carries its own compiled form.
    #[verifier::type_invariant]
    spec fn compiled_from_text(&self) -> bool {
        &&& is_normal(self.text@)
        &&& self.compiled matches Some(set) ==> set_globs(set) == seq![self.text@]
    }

    /// A glob pattern: `**` crosses path segments, the other wildcards stay
    /// within one, and the whole path must match. Backslashes in `text` are
    /// read as separators.
    pub fn glob(text: &str) -> (r: Result<Pattern, PatternError>)
        ensures
            r matches Ok(p) ==> glob_outcome(text@) == Ok::<PatternSpec, PatternError>(p@),
            r matches Err(e) ==> glob_outcome(text@) == Err::<PatternSpec, PatternError>(e),
    {
        if text.unicode_len() > MAX_PATTERN_LEN {
            return Err(PatternError::TooLong);
        }
        let source = normalize_separators(text);
        proof {
            lemma_normalized_is_normal(text@);
        }
        match compile_glob(source.as_str()) {
            Ok(set) => Ok(Pattern { text: source, compiled: Some(set) }),
            Err(_) => Err(PatternError::Malformed),
        }
    }

    /// An exact pattern: it matches the one path that equals `text` once the
    /// separators of both are normalized.
    pub fn exact(text: &str) -> (p: Pattern)
        ensures
            p@ == PatternSpec::Exact(normalized(text@)),
    {
        let source = normalize_separators(text);
        proof {
            lemma_normalized_is_normal(text@);
        }
        Pattern { text: source, compiled: None }
    }

    /// Whether the pattern is a glob, as opposed to an exact name.
    pub fn is_glob(&self) -> (glob: bool)
        ensures
            glob == (self@ is Glob),
    {
        self.compiled.is_some()
    }

    /// The pattern's text, with forward slashes only.
    pub fn text(&self) -> (text: &str)
        ensures
            text@ == match self@ {
                PatternSpec::Glob(glob) => glob,
                PatternSpec::Exact(name) => name,
            },
    {
        self.text.as_str()
    }

    /// Whether the pattern matches `path`.
    pub fn matches(&self, path: &str) -> (hit: bool)
        ensures
            hit == self@.accepts(path@),
    {
        let subject = normalize_separators(path);
        proof {
            lemma_normalized_is_normal(path@);
        }
        self.matches_normal(&subject)
    }

    /// Whether the pattern matches a path that holds forward slashes only.
    pub(crate) fn matches_normal(&self, subject: &String) -> (hit: bool)
        requires
            is_normal(subject@),
        ensures
            hit == self@.accepts(subject@),
    {
        proof {
            use_type_invariant(self);
            lemma_normalized_is_normal(subject@);
        }
        match &self.compiled {
            Some(set) => set_is_match(set, subject.as_str()),
            None => *subject == self.text,
        }
    }
}

/// The style of the separators does not matter: a pattern reads a path
/// through its normal form only.
pub proof fn law_separators_do_not_matter(pattern: PatternSpec, path: Seq<char>)
    ensures
        pattern.accepts(normalized(path)) == pattern.accepts(path),
{
    lemma_normalized_is_normal(path);
}

/// A glob without wildcards matches what the exact pattern of the same text
/// matches: the one path equal to it.
pub proof fn law_literal_glob_matches_as_exact(text: Seq<char>, path: Seq<char>)
    requires
        is_literal(text),
    ensures
        PatternSpec::Glob(text).accepts(path) == PatternSpec::Exact(text).accepts(path),
{
}

/// A glob with an unclosed bracket is malformed.
pub proof fn law_unclosed_bracket_is_malformed(text: Seq<char>)
    requires
        text.len() <= MAX_PATTERN_LEN,
        has_unclosed_bracket(normalized(text)),
    ensures
        glob_outcome(text) == Err::<PatternSpec, PatternError>(PatternError::Malformed),
{
    let pattern = normalized(text);
    let i = choose|i: int|
        0 <= i < pattern.len() && #[trigger] pattern[i] == '[' && forall|j: int|
            i < j < pattern.len() ==> pattern[j] != ']';
    assert(is_glob_meta(pattern[i]));
    if is_subtree_glob(pattern) {
        assert(pattern[i] == pattern.subrange(0, pattern.len() - 3)[i]);
    }
}

} // verus!
