//! The exclusion filter: which changed paths are the deployment's own doing.

use crate::glob::has_unclosed_bracket;
use crate::glob::is_glob_meta;
use crate::glob::is_literal;
use crate::glob::is_subtree_glob;
use crate::glob::subtree_prefix;
use crate::glob::subtree_suffix;
use crate::glob::MAX_PATTERN_LEN;
use crate::path::lemma_normalized_is_normal;
use crate::path::normalize_separators;
use crate::path::normalized;
use crate::pattern::glob_outcome;
use crate::pattern::law_separators_do_not_matter;
use crate::pattern::law_unclosed_bracket_is_malformed;
use crate::pattern::Pattern;
use crate::pattern::PatternError;
use crate::pattern::PatternSpec;
use vstd::pervasive::unreached;
use vstd::prelude::*;
use vstd::string::StringExecFns;

verus! {

/// What a rule is matched on.
#[derive(Clone, Copy, Debug, PartialEq, Eq, Structural)]
pub enum MatchField {
    /// The changed path.
    Path,
}

/// What a match means.
#[derive(Clone, Copy, Debug, PartialEq, Eq, Structural)]
pub enum Sense {
    /// A matched path is not relevant.
    Exclude,
}

/// One rule of the filter.
#[derive(Debug)]
pub struct ExclusionRule {
    pub matcher: MatchField,
    pub pattern: Pattern,
    pub sense: Sense,
}

/// The input that a rule's pattern was made from.
#[derive(Clone, Copy, Debug, PartialEq, Eq, Structural)]
pub enum RuleSource {
    CacheDirectory,
    CacheFile,
}

/// The filter could not be built: the pattern made from `source` was refused.
#[derive(Clone, Copy, Debug, PartialEq, Eq, Structural)]
pub struct FilterConstructionError {
    pub source: RuleSource,
    pub error: PatternError,
}

/// The glob for everything below the version-control directory.
pub open spec fn vcs_glob() -> Seq<char> {
    ".git/**"@
}

/// The name of the file that a symlink probe leaves behind.
pub open spec fn sentinel_name() -> Seq<char> {
    "DOTTER_SYMLINK_TEST"@
}

/// The four rules for a cache directory and a cache file, in order.
pub open spec fn standard_rules(cache_dir: Seq<char>, cache_file: Seq<char>) -> Seq<PatternSpec> {
    seq![
        PatternSpec::Glob(normalized(cache_dir) + subtree_suffix()),
        PatternSpec::Glob(normalized(cache_file)),
        PatternSpec::Glob(vcs_glob()),
        PatternSpec::Exact(sentinel_name()),
    ]
}

/// What `ExclusionFilter::build` owes: the four rules, or the first pattern
/// that was refused.
pub open spec fn build_outcome(cache_dir: Seq<char>, cache_file: Seq<char>) -> Result<
    Seq<PatternSpec>,
    FilterConstructionError,
> {
    match glob_outcome(cache_dir + subtree_suffix()) {
        Err(error) => Err(FilterConstructionError { source: RuleSource::CacheDirectory, error }),
        Ok(_) => match glob_outcome(cache_file) {
            Err(error) => Err(FilterConstructionError { source: RuleSource::CacheFile, error }),
            Ok(_) => Ok(standard_rules(cache_dir, cache_file)),
        },
    }
}

/// A path is excluded when some rule matches it.
pub open spec fn excluded(rules: Seq<PatternSpec>, path: Seq<char>) -> bool {
    exists|i: int| 0 <= i < rules.len() && (#[trigger] rules[i]).accepts(path)
}

/// A batch is relevant when at least one of its paths is not excluded.
pub open spec fn relevant(rules: Seq<PatternSpec>, batch: Seq<Seq<char>>) -> bool {
    exists|j: int| 0 <= j < batch.len() && !excluded(rules, #[trigger] batch[j])
}

/// The rules that decide whether a batch of changed paths is relevant.
#[derive(Debug)]
pub struct ExclusionFilter {
    rules: Vec<ExclusionRule>,
}

impl View for ExclusionFilter {
    type V = Seq<PatternSpec>;

    closed spec fn view(&self) -> Seq<PatternSpec> {
        Seq::new(self.rules@.len(), |i: int| self.rules@[i].pattern@)
    }
}

impl ExclusionFilter {
    /// Builds the filter for a cache directory and a cache file: everything
    /// below the directory, the file itself, everything below `.git`, and the
    /// sentinel `DOTTER_SYMLINK_TEST`. Either all four rules are installed or
    /// none is.
    pub fn build(cache_dir: &str, cache_file: &str) -> (r: Result<
        ExclusionFilter,
        FilterConstructionError,
    >)
        ensures
            r matches Ok(filter) ==> build_outcome(cache_dir@, cache_file@) == Ok::<
                Seq<PatternSpec>,
                FilterConstructionError,
            >(filter@),
            r matches Err(e) ==> build_outcome(cache_dir@, cache_file@) == Err::<
                Seq<PatternSpec>,
                FilterConstructionError,
            >(e),
    {
        let mut dir_glob = cache_dir.to_owned();
        dir_glob.append("/**");
        proof {
            reveal_strlit("/**");
            reveal_strlit(".git/**");
            assert("/**"@ =~= subtree_suffix());
            lemma_normalized_concat(cache_dir@, subtree_suffix());
            lemma_vcs_glob();
        }
        let dir = match Pattern::glob(dir_glob.as_str()) {
            Ok(pattern) => pattern,
            Err(error) => {
                return Err(FilterConstructionError { source: RuleSource::CacheDirectory, error });
            },
        };
        let file = match Pattern::glob(cache_file) {
            Ok(pattern) => pattern,
            Err(error) => {
                return Err(FilterConstructionError { source: RuleSource::CacheFile, error });
            },
        };
        let vcs = match Pattern::glob(".git/**") {
            Ok(pattern) => pattern,
            Err(_) => unreached(),
        };
        let sentinel = Pattern::exact("DOTTER_SYMLINK_TEST");
        proof {
            lemma_sentinel_name();
        }
        let mut rules: Vec<ExclusionRule> = Vec::new();
        rules.push(ExclusionRule { matcher: MatchField::Path, pattern: dir, sense: Sense::Exclude });
        rules.push(ExclusionRule { matcher: MatchField::Path, pattern: file, sense: Sense::Exclude });
        rules.push(ExclusionRule { matcher: MatchField::Path, pattern: vcs, sense: Sense::Exclude });
        rules.push(
            ExclusionRule { matcher: MatchField::Path, pattern: sentinel, sense: Sense::Exclude },
        );
        let filter = ExclusionFilter { rules };
        proof {
            let expected = standard_rules(cache_dir@, cache_file@);
            assert(normalized(subtree_suffix()) =~= subtree_suffix());
            assert(filter@ =~= expected);
        }
        Ok(filter)
    }

    /// The rules, in the order in which they were installed.
    pub fn rules(&self) -> (rules: &Vec<ExclusionRule>)
        ensures
            rules@.len() == self@.len(),
            forall|i: int| 0 <= i < rules@.len() ==> (#[trigger] rules@[i]).pattern@ == self@[i],
    {
        &self.rules
    }

    /// Whether some rule matches `path`.
    pub fn is_excluded(&self, path: &str) -> (hit: bool)
        ensures
            hit == excluded(self@, path@),
    {
        let subject = normalize_separators(path);
        proof {
            lemma_normalized_is_normal(path@);
        }
        let n: usize = self.rules.len();
        let mut i: usize = 0;
        while i < n
            invariant
                n == self.rules@.len(),
                i <= n,
                subject@ == normalized(path@),
                forall|k: int| 0 <= k < i ==> !(#[trigger] self@[k]).accepts(path@),
            decreases n - i,
        {
            let hit = self.rules[i].pattern.matches_normal(&subject);
            proof {
                law_separators_do_not_matter(self@[i as int], path@);
            }
            if hit {
                return true;
            }
            i += 1;
        }
        false
    }

    /// Whether at least one path of `batch` is matched by no rule.
    pub fn is_relevant(&self, batch: &Vec<String>) -> (r: bool)
        ensures
            r == relevant(self@, batch.deep_view()),
    {
        let n: usize = batch.len();
        let mut j: usize = 0;
        while j < n
            invariant
                n == batch@.len(),
                j <= n,
                forall|k: int| 0 <= k < j ==> excluded(self@, #[trigger] batch.deep_view()[k]),
            decreases n - j,
        {
            if !self.is_excluded(batch[j].as_str()) {
                assert(!excluded(self@, batch.deep_view()[j as int]));
                return true;
            }
            j += 1;
        }
        false
    }
}

/// Whether `path` lies below the directory `dir`, separators aside.
pub open spec fn under_directory(dir: Seq<char>, path: Seq<char>) -> bool {
    (normalized(dir) + seq!['/']).is_prefix_of(normalized(path))
}

/// The paths that a deployment or its tooling writes: what lies below the
/// cache directory or below `.git`, the cache file, and the sentinel.
pub open spec fn self_generated(cache_dir: Seq<char>, cache_file: Seq<char>, path: Seq<char>) -> bool {
    ||| under_directory(cache_dir, path)
    ||| normalized(path) == normalized(cache_file)
    ||| under_directory(seq!['.', 'g', 'i', 't'], path)
    ||| normalized(path) == sentinel_name()
}

/// A batch in which every path is matched by some rule is not relevant.
pub proof fn law_excluded_batch_is_not_relevant(rules: Seq<PatternSpec>, batch: Seq<Seq<char>>)
    requires
        forall|j: int| 0 <= j < batch.len() ==> excluded(rules, #[trigger] batch[j]),
    ensures
        !relevant(rules, batch),
{
}

/// A path that the deployment or its tooling writes is excluded by the
/// standard rules. Where the path is named through the cache directory or
/// the cache file, that input has to be literal: with a wildcard in it, its
/// rule matches what the glob says and not the input's own text.
pub proof fn law_self_generated_path_is_excluded(
    cache_dir: Seq<char>,
    cache_file: Seq<char>,
    path: Seq<char>,
)
    requires
        self_generated(cache_dir, cache_file, path),
        under_directory(cache_dir, path) ==> is_literal(normalized(cache_dir)),
        normalized(path) == normalized(cache_file) ==> is_literal(normalized(cache_file)),
    ensures
        excluded(standard_rules(cache_dir, cache_file), path),
{
    lemma_vcs_glob();
    lemma_subtree_glob_is_not_literal(vcs_glob());
    if under_directory(cache_dir, path) {
        let glob = normalized(cache_dir) + subtree_suffix();
        assert(glob.subrange(glob.len() - 3, glob.len() as int) =~= subtree_suffix());
        lemma_subtree_glob_is_not_literal(glob);
    }
}

/// A batch that holds nothing but paths written by the deployment or its
/// tooling is never relevant, for a literal cache directory and cache file.
pub proof fn law_self_generated_batch_is_not_relevant(
    cache_dir: Seq<char>,
    cache_file: Seq<char>,
    batch: Seq<Seq<char>>,
)
    requires
        is_literal(normalized(cache_dir)),
        is_literal(normalized(cache_file)),
        forall|j: int|
            0 <= j < batch.len() ==> self_generated(cache_dir, cache_file, #[trigger] batch[j]),
    ensures
        !relevant(standard_rules(cache_dir, cache_file), batch),
{
    let rules = standard_rules(cache_dir, cache_file);
    assert forall|j: int| 0 <= j < batch.len() implies excluded(rules, #[trigger] batch[j]) by {
        law_self_generated_path_is_excluded(cache_dir, cache_file, batch[j]);
    }
}

/// One path that no rule matches makes the batch relevant, whatever else the
/// batch holds.
pub proof fn law_one_free_path_makes_relevant(
    rules: Seq<PatternSpec>,
    batch: Seq<Seq<char>>,
    j: int,
)
    requires
        0 <= j < batch.len(),
        !excluded(rules, batch[j]),
    ensures
        relevant(rules, batch),
{
}

/// Relevance of a joined batch is relevance of one of its parts: adding
/// paths, excluded or not, never makes a relevant batch irrelevant.
pub proof fn law_relevance_of_joined_batches(
    rules: Seq<PatternSpec>,
    first: Seq<Seq<char>>,
    second: Seq<Seq<char>>,
)
    ensures
        relevant(rules, first + second) == (relevant(rules, first) || relevant(rules, second)),
{
    let joined = first + second;
    if relevant(rules, first) {
        let j = choose|j: int| 0 <= j < first.len() && !excluded(rules, #[trigger] first[j]);
        assert(joined[j] == first[j]);
    }
    if relevant(rules, second) {
        let j = choose|j: int| 0 <= j < second.len() && !excluded(rules, #[trigger] second[j]);
        assert(joined[first.len() + j] == second[j]);
    }
    if relevant(rules, joined) {
        let j = choose|j: int| 0 <= j < joined.len() && !excluded(rules, #[trigger] joined[j]);
        if j < first.len() {
            assert(joined[j] == first[j]);
        } else {
            assert(joined[j] == second[j - first.len()]);
        }
    }
}

/// The order of the rules does not matter: two rule lists that hold the same
/// patterns exclude the same paths.
pub proof fn law_rule_order_is_immaterial(
    rules: Seq<PatternSpec>,
    reordered: Seq<PatternSpec>,
    path: Seq<char>,
)
    requires
        forall|p: PatternSpec| rules.contains(p) == reordered.contains(p),
    ensures
        excluded(rules, path) == excluded(reordered, path),
{
    if excluded(rules, path) {
        let i = choose|i: int| 0 <= i < rules.len() && (#[trigger] rules[i]).accepts(path);
        assert(reordered.contains(rules[i]));
    }
    if excluded(reordered, path) {
        let i = choose|i: int| 0 <= i < reordered.len() && (#[trigger] reordered[i]).accepts(path);
        assert(rules.contains(reordered[i]));
    }
}

/// The filter is built whenever the cache directory and the cache file are
/// literal and short enough.
pub proof fn law_literal_inputs_build(cache_dir: Seq<char>, cache_file: Seq<char>)
    requires
        is_literal(normalized(cache_dir)),
        is_literal(normalized(cache_file)),
        cache_dir.len() + 3 <= MAX_PATTERN_LEN,
        cache_file.len() <= MAX_PATTERN_LEN,
    ensures
        build_outcome(cache_dir, cache_file) == Ok::<Seq<PatternSpec>, FilterConstructionError>(
            standard_rules(cache_dir, cache_file),
        ),
{
    let dir = normalized(cache_dir);
    let glob = dir + subtree_suffix();
    lemma_normalized_concat(cache_dir, subtree_suffix());
    assert(normalized(subtree_suffix()) =~= subtree_suffix());
    assert(glob.subrange(glob.len() - 3, glob.len() as int) =~= subtree_suffix());
}

/// A cache directory with an unclosed bracket in it fails construction, and
/// so does a cache file that has one when the directory is sound.
pub proof fn law_unclosed_bracket_fails_construction(cache_dir: Seq<char>, cache_file: Seq<char>)
    requires
        cache_dir.len() + 3 <= MAX_PATTERN_LEN,
        cache_file.len() <= MAX_PATTERN_LEN,
    ensures
        has_unclosed_bracket(normalized(cache_dir)) ==> build_outcome(cache_dir, cache_file) == Err::<
            Seq<PatternSpec>,
            FilterConstructionError,
        >(
            FilterConstructionError {
                source: RuleSource::CacheDirectory,
                error: PatternError::Malformed,
            },
        ),
        has_unclosed_bracket(normalized(cache_file)) ==> build_outcome(cache_dir, cache_file)
            is Err,
{
    if has_unclosed_bracket(normalized(cache_dir)) {
        let dir = normalized(cache_dir);
        let glob = dir + subtree_suffix();
        let i = choose|i: int|
            0 <= i < dir.len() && #[trigger] dir[i] == '[' && forall|j: int|
                i < j < dir.len() ==> dir[j] != ']';
        lemma_normalized_concat(cache_dir, subtree_suffix());
        assert(normalized(subtree_suffix()) =~= subtree_suffix());
        assert(glob[i] == '[');
        assert forall|j: int| i < j < glob.len() implies glob[j] != ']' by {
            if j >= dir.len() {
                assert(glob[j] == subtree_suffix()[j - dir.len()]);
            }
        }
        law_unclosed_bracket_is_malformed(cache_dir + subtree_suffix());
    }
    if has_unclosed_bracket(normalized(cache_file)) {
        law_unclosed_bracket_is_malformed(cache_file);
    }
}

/// A subtree glob ends in a wildcard.
pub proof fn lemma_subtree_glob_is_not_literal(pattern: Seq<char>)
    requires
        is_subtree_glob(pattern),
    ensures
        !is_literal(pattern),
{
    let wildcard = pattern.len() - 1;
    assert(is_glob_meta(pattern[wildcard])) by {
        assert(pattern[wildcard] == pattern.subrange(pattern.len() - 3, pattern.len() as int)[2]);
    }
}

/// Normalizing a concatenation normalizes its parts.
pub proof fn lemma_normalized_concat(a: Seq<char>, b: Seq<char>)
    ensures
        normalized(a + b) == normalized(a) + normalized(b),
{
}

/// The version-control glob is the subtree glob of `.git`.
pub proof fn lemma_vcs_glob()
    ensures
        vcs_glob() == seq!['.', 'g', 'i', 't'] + subtree_suffix(),
        is_subtree_glob(vcs_glob()),
        subtree_prefix(vcs_glob()) == seq!['.', 'g', 'i', 't', '/'],
        normalized(vcs_glob()) == vcs_glob(),
        vcs_glob().len() <= MAX_PATTERN_LEN,
{
    reveal_strlit(".git/**");
    let g = vcs_glob();
    assert(g.subrange(g.len() - 3, g.len() as int) =~= subtree_suffix());
}

/// The sentinel's name holds no separator at all.
pub proof fn lemma_sentinel_name()
    ensures
        normalized(sentinel_name()) == sentinel_name(),
        sentinel_name().len() == 19,
{
    reveal_strlit("DOTTER_SYMLINK_TEST");
}

} // verus!
