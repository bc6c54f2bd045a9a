//! The compiled pattern set and the matcher.
//!
//! [`CompiledPatterns::new`] validates every compiled pattern up front, so a
//! run with invalid glob syntax fails before any filesystem work.  A
//! candidate path matches when it satisfies *any* pattern of the set
//! ([`set_matches`]), and [`select_files`] keeps, in order, the relative
//! paths of the non-directory entries that match — each exactly once, no
//! matter how many patterns it satisfies.

use vstd::prelude::*;

use crate::filter::{compile_patterns, compiled_pattern_views, FilterSpec};
use crate::globmatch::{glob_match, glob_match_file, glob_ok, glob_pattern_ok};

verus! {

/// A fatal pattern-compilation error: the run must abort before any
/// filesystem work.
#[derive(Debug)]
pub enum PatternError {
    /// A compiled pattern is not valid glob syntax; holds the pattern text.
    InvalidPattern(String),
}

impl PatternError {
    /// A human-readable description of the error.
    pub fn message(&self) -> (r: String)
        ensures
            self matches PatternError::InvalidPattern(p) ==> r@ == "invalid glob pattern: "@
                + p@,
    {
        match self {
            PatternError::InvalidPattern(p) => {
                let mut m = String::from_str("invalid glob pattern: ");
                m.append(p.as_str());
                m
            },
        }
    }
}

/// Every pattern of the set is valid glob syntax.
pub open spec fn all_patterns_ok(pats: Seq<Seq<char>>) -> bool {
    forall|i: int| 0 <= i < pats.len() ==> glob_ok(#[trigger] pats[i])
}

/// A path matches the set when it matches at least one of its patterns
/// (any-match semantics: logical OR, never AND).
pub open spec fn set_matches(pats: Seq<Seq<char>>, case_insensitive: bool, path: Seq<char>) -> bool {
    exists|i: int| 0 <= i < pats.len() && glob_match(#[trigger] pats[i], case_insensitive, path)
}

/// The compiled pattern set of one run: built once from a [`FilterSpec`],
/// read-only afterward.
pub struct CompiledPatterns {
    patterns: Vec<String>,
    case_insensitive: bool,
}

impl CompiledPatterns {
    /// The pattern texts of the set.
    pub closed spec fn pattern_views(self) -> Seq<Seq<char>> {
        self.patterns@.map_values(|p: String| p@)
    }

    /// Whether the set matches case-insensitively.
    pub closed spec fn ci(self) -> bool {
        self.case_insensitive
    }

    /// Compile the pattern set of a filter specification, validating each
    /// pattern: returns the set exactly when every pattern is valid glob
    /// syntax, and otherwise the first invalid pattern.
    pub fn new(fs: &FilterSpec) -> (r: Result<CompiledPatterns, PatternError>)
        ensures
            r is Ok <==> all_patterns_ok(compiled_pattern_views(*fs)),
            r matches Ok(cp) ==> cp.pattern_views() == compiled_pattern_views(*fs)
                && cp.ci() == fs.case_insensitive,
            r matches Err(PatternError::InvalidPattern(p)) ==> exists|i: int|
                0 <= i < compiled_pattern_views(*fs).len()
                    && p@ == compiled_pattern_views(*fs)[i]
                    && !glob_ok(#[trigger] compiled_pattern_views(*fs)[i])
                    && (forall|j: int| 0 <= j < i ==> glob_ok(
                        #[trigger] compiled_pattern_views(*fs)[j],
                    )),
    {
        let patterns = compile_patterns(fs);
        let ghost views = compiled_pattern_views(*fs);
        let mut i: usize = 0;
        while i < patterns.len()
            invariant
                views == compiled_pattern_views(*fs),
                patterns@.map_values(|p: String| p@) == views,
                0 <= i <= patterns.len(),
                forall|j: int| 0 <= j < i ==> glob_ok(#[trigger] views[j]),
            decreases patterns.len() - i,
        {
            if !glob_pattern_ok(patterns[i].as_str()) {
                let p = patterns[i].clone();
                proof {
                    assert(views[i as int] == patterns@[i as int]@);
                    assert(p@ == views[i as int]);
                    assert(!glob_ok(views[i as int]));
                    assert(!all_patterns_ok(views));
                }
                return Err(PatternError::InvalidPattern(p));
            }
            i += 1;
        }
        Ok(CompiledPatterns { patterns, case_insensitive: fs.case_insensitive })
    }

    /// Whether a non-directory entry's relative path matches any pattern of
    /// the set.
    pub fn is_match(&self, path: &str) -> (r: bool)
        ensures
            r == set_matches(self.pattern_views(), self.ci(), path@),
    {
        let mut i: usize = 0;
        while i < self.patterns.len()
            invariant
                0 <= i <= self.patterns.len(),
                forall|j: int| 0 <= j < i ==> !glob_match(
                    #[trigger] self.pattern_views()[j],
                    self.ci(),
                    path@,
                ),
            decreases self.patterns.len() - i,
        {
            if glob_match_file(self.patterns[i].as_str(), self.case_insensitive, path) {
                assert(glob_match(self.pattern_views()[i as int], self.ci(), path@));
                return true;
            }
            i += 1;
        }
        false
    }
}

/// The walk is bounded to this many levels below the dataset root, so
/// unexpectedly deep or cyclic trees (e.g. symlink loops) cannot recurse
/// unboundedly.
pub const MAX_WALK_DEPTH: usize = 5;

/// A filesystem node discovered during the walk: its path relative to the
/// dataset root, and whether it is a directory.  Directories are walked but
/// never themselves reported or materialized.
pub struct DatasetEntry {
    /// The path relative to the dataset root.
    pub rel_path: String,
    /// Whether the node is a directory.
    pub is_dir: bool,
}

/// The entry matches: it is not a directory and its relative path satisfies
/// at least one pattern of the set.
pub open spec fn entry_matches(pats: Seq<Seq<char>>, ci: bool, e: DatasetEntry) -> bool {
    !e.is_dir && set_matches(pats, ci, e.rel_path@)
}

/// The relative paths of the matching non-directory entries, in walk order,
/// one per matching entry.
pub open spec fn selected_paths(entries: Seq<DatasetEntry>, pats: Seq<Seq<char>>, ci: bool) -> Seq<
    String,
> {
    entries.filter(|e: DatasetEntry| entry_matches(pats, ci, e)).map_values(
        |e: DatasetEntry| e.rel_path,
    )
}

/// Appending one entry to the walk extends the selection by exactly that
/// entry's relative path when the entry matches, and by nothing otherwise:
/// every matching non-directory entry is counted exactly once, never
/// duplicated even if it matches several patterns of the set.
pub proof fn lemma_entry_counted_once(
    entries: Seq<DatasetEntry>,
    e: DatasetEntry,
    pats: Seq<Seq<char>>,
    ci: bool,
)
    ensures
        selected_paths(entries.push(e), pats, ci) == selected_paths(entries, pats, ci) + (
        if entry_matches(pats, ci, e) {
            seq![e.rel_path]
        } else {
            Seq::<String>::empty()
        }),
{
    reveal(Seq::filter);
    let pred = |x: DatasetEntry| entry_matches(pats, ci, x);
    let pushed = entries.push(e);
    assert(pushed.drop_last() =~= entries);
    assert(pushed.last() == e);
    if entry_matches(pats, ci, e) {
        assert(pushed.filter(pred) == entries.filter(pred).push(e));
        assert(selected_paths(pushed, pats, ci) =~= selected_paths(entries, pats, ci) + seq![
            e.rel_path,
        ]);
    } else {
        assert(pushed.filter(pred) == entries.filter(pred));
        assert(selected_paths(pushed, pats, ci) =~= selected_paths(entries, pats, ci)
            + Seq::<String>::empty());
    }
}

/// Select, in walk order, the relative paths of the non-directory entries
/// that match the pattern set.
pub fn select_files(entries: &Vec<DatasetEntry>, pats: &CompiledPatterns) -> (r: Vec<String>)
    ensures
        r@ == selected_paths(entries@, pats.pattern_views(), pats.ci()),
{
    let mut out: Vec<String> = Vec::new();
    let mut i: usize = 0;
    while i < entries.len()
        invariant
            0 <= i <= entries.len(),
            out@ == selected_paths(entries@.take(i as int), pats.pattern_views(), pats.ci()),
        decreases entries.len() - i,
    {
        let e = &entries[i];
        if !e.is_dir && pats.is_match(e.rel_path.as_str()) {
            out.push(e.rel_path.clone());
        }
        proof {
            assert(entries@.take(i + 1) =~= entries@.take(i as int).push(entries@[i as int]));
            lemma_entry_counted_once(
                entries@.take(i as int),
                entries@[i as int],
                pats.pattern_views(),
                pats.ci(),
            );
        }
        i += 1;
    }
    proof {
        assert(entries@.take(entries@.len() as int) =~= entries@);
    }
    out
}

/// Compile the pattern set of a filter specification and select the matching
/// entries in one step: the full matcher pipeline.  Fails, before looking at
/// any entry, exactly when a compiled pattern is invalid glob syntax.
pub fn matching_paths(fs: &FilterSpec, entries: &Vec<DatasetEntry>) -> (r: Result<
    Vec<String>,
    PatternError,
>)
    ensures
        r is Ok <==> all_patterns_ok(compiled_pattern_views(*fs)),
        r matches Ok(v) ==> v@ == selected_paths(
            entries@,
            compiled_pattern_views(*fs),
            fs.case_insensitive,
        ),
        r matches Err(PatternError::InvalidPattern(p)) ==> exists|i: int|
            0 <= i < compiled_pattern_views(*fs).len()
                && p@ == compiled_pattern_views(*fs)[i]
                && !glob_ok(#[trigger] compiled_pattern_views(*fs)[i])
                && (forall|j: int| 0 <= j < i ==> glob_ok(
                    #[trigger] compiled_pattern_views(*fs)[j],
                )),
{
    match CompiledPatterns::new(fs) {
        Ok(cp) => Ok(select_files(entries, &cp)),
        Err(e) => Err(e),
    }
}

/// With the top-level metadata filenames excluded, a path is matched only
/// through the two hierarchical path patterns: none of the five fixed
/// top-level filenames is in the matched set unless it independently
/// satisfies the subject/session/datatype/file patterns.
pub proof fn lemma_exclude_top_level_independent(fs: FilterSpec, path: Seq<char>)
    requires
        fs.exclude_top_level,
    ensures
        set_matches(compiled_pattern_views(fs), fs.case_insensitive, path) <==> (glob_match(
            crate::filter::pattern_without_session(fs),
            fs.case_insensitive,
            path,
        ) || glob_match(crate::filter::pattern_with_session(fs), fs.case_insensitive, path)),
{
    let pats = compiled_pattern_views(fs);
    assert(pats.len() == 2);
    assert(pats[0] == crate::filter::pattern_without_session(fs));
    assert(pats[1] == crate::filter::pattern_with_session(fs));
    if glob_match(crate::filter::pattern_without_session(fs), fs.case_insensitive, path) {
        assert(glob_match(pats[0], fs.case_insensitive, path));
    }
    if glob_match(crate::filter::pattern_with_session(fs), fs.case_insensitive, path) {
        assert(glob_match(pats[1], fs.case_insensitive, path));
    }
}

} // verus!
