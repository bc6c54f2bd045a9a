//! The materializer's planning logic.
//!
//! For every matched entry the run produces one [`Outcome`], decided by
//! [`decide_outcome`]: with no output root the entry is only listed (a
//! read-only run), with an already-existing destination it is skipped with a
//! warning, and otherwise it is copied or linked according to the run mode.
//! [`destination_for`] places the destination under the output root at the
//! entry's relative path, preserving the directory structure, and names the
//! parent directory that must exist before the file is written.

use vstd::prelude::*;

verus! {

/// The index of the last `/` in `s`, or `-1` when `s` holds none.
pub open spec fn last_slash(s: Seq<char>) -> int
    decreases s.len(),
{
    if s.len() == 0 {
        -1
    } else if s[s.len() - 1] == '/' {
        s.len() - 1
    } else {
        last_slash(s.drop_last())
    }
}

/// `last_slash` finds exactly the rightmost slash: a slash at `k` with none
/// after it pins the value to `k`.
pub proof fn lemma_last_slash_at(s: Seq<char>, k: int)
    requires
        0 <= k < s.len(),
        s[k] == '/',
        forall|j: int| k < j < s.len() ==> s[j] != '/',
    ensures
        last_slash(s) == k,
    decreases s.len(),
{
    if k == s.len() - 1 {
    } else {
        assert(s[s.len() - 1] != '/');
        assert(s.drop_last()[k] == '/');
        lemma_last_slash_at(s.drop_last(), k);
    }
}

/// A string without a slash has no last slash.
pub proof fn lemma_last_slash_none(s: Seq<char>)
    requires
        forall|j: int| 0 <= j < s.len() ==> s[j] != '/',
    ensures
        last_slash(s) == -1,
    decreases s.len(),
{
    if s.len() > 0 {
        lemma_last_slash_none(s.drop_last());
    }
}

/// A slash at position `k` bounds the last slash from below.
pub proof fn lemma_last_slash_ge(s: Seq<char>, k: int)
    requires
        0 <= k < s.len(),
        s[k] == '/',
    ensures
        last_slash(s) >= k,
    decreases s.len(),
{
    if s[s.len() - 1] == '/' {
    } else {
        assert(k < s.len() - 1);
        assert(s.drop_last()[k] == '/');
        lemma_last_slash_ge(s.drop_last(), k);
    }
}

/// Join a root path and a relative path with a single separator.
pub fn join_path(root: &str, rel: &str) -> (r: String)
    ensures
        r@ == root@ + "/"@ + rel@,
{
    let mut out = String::from_str(root);
    out.append("/");
    out.append(rel);
    out
}

/// The directory part of a path: everything before the last `/`, or nothing
/// when the path has no separator.
pub fn parent_dir(path: &str) -> (r: Option<String>)
    ensures
        r is Some <==> last_slash(path@) >= 0,
        r matches Some(p) ==> p@ == path@.take(last_slash(path@)),
{
    let len = path.unicode_len();
    let mut i: usize = len;
    while i > 0
        invariant
            0 <= i <= len,
            len == path@.len(),
            forall|j: int| i <= j < len ==> path@[j] != '/',
        decreases i,
    {
        if path.get_char(i - 1) == '/' {
            let p = path.substring_char(0, i - 1);
            proof {
                lemma_last_slash_at(path@, i - 1);
                assert(p@ =~= path@.take(i - 1));
            }
            return Some(String::from_str(p));
        }
        i -= 1;
    }
    proof {
        lemma_last_slash_none(path@);
    }
    None
}

/// Where a matched entry is materialized: the destination path under the
/// output root, and the directory that must exist before it is written.
pub struct Destination {
    /// The output root joined with the entry's relative path.
    pub full: String,
    /// The directory part of `full`.
    pub parent: String,
}

/// Compute the destination of a matched entry: the output root joined with
/// the relative path, so the relative directory structure is reproduced
/// under the output root, together with its parent directory.
pub fn destination_for(output_root: &str, rel_path: &str) -> (d: Destination)
    ensures
        d.full@ == output_root@ + "/"@ + rel_path@,
        d.parent@ == d.full@.take(last_slash(d.full@)),
        last_slash(d.full@) >= output_root@.len(),
{
    let full = join_path(output_root, rel_path);
    proof {
        reveal_strlit("/");
        assert(full@[output_root@.len() as int] == '/');
        lemma_last_slash_ge(full@, output_root@.len() as int);
    }
    let parent = match parent_dir(full.as_str()) {
        Some(p) => p,
        None => unreached(),
    };
    Destination { full, parent }
}

/// What the run does with one matched entry.
#[derive(Clone, Copy, PartialEq, Eq, Structural, Debug)]
pub enum Outcome {
    /// No output root was given: the relative path is only reported.
    ListedOnly,
    /// The destination already exists: skipped with a warning, never
    /// overwritten.
    SkippedExisting,
    /// The file's bytes are copied to the destination.
    Copied,
    /// A symbolic link to the source is created at the destination.
    Linked,
}

/// The outcome of one matched entry, decided from whether an output root was
/// given, whether the destination already exists, and the run mode.
pub open spec fn outcome_of(has_output: bool, dest_exists: bool, copy_mode: bool) -> Outcome {
    if !has_output {
        Outcome::ListedOnly
    } else if dest_exists {
        Outcome::SkippedExisting
    } else if copy_mode {
        Outcome::Copied
    } else {
        Outcome::Linked
    }
}

/// The outcome writes to the filesystem.
pub open spec fn mutates_filesystem(o: Outcome) -> bool {
    o == Outcome::Copied || o == Outcome::Linked
}

/// Decide what to do with one matched entry.
pub fn decide_outcome(has_output: bool, dest_exists: bool, copy_mode: bool) -> (r: Outcome)
    ensures
        r == outcome_of(has_output, dest_exists, copy_mode),
{
    if !has_output {
        Outcome::ListedOnly
    } else if dest_exists {
        Outcome::SkippedExisting
    } else if copy_mode {
        Outcome::Copied
    } else {
        Outcome::Linked
    }
}

/// The run's mode: bytes are copied when the user asked for it, and
/// unconditionally on a platform without symbolic-link support; linking is
/// never attempted there.
pub fn effective_copy_mode(copy_requested: bool, symlink_supported: bool) -> (r: bool)
    ensures
        r == (copy_requested || !symlink_supported),
{
    copy_requested || !symlink_supported
}

/// Symbolic-link creation failed before it was attempted.
#[derive(Clone, Copy, PartialEq, Eq, Structural, Debug)]
pub enum LinkError {
    /// The platform has no native symbolic-link support.
    Unsupported,
}

impl LinkError {
    /// A human-readable description of the error.
    pub fn message(&self) -> (r: String)
        ensures
            r@ == "symlink not supported on this platform"@,
    {
        String::from_str("symlink not supported on this platform")
    }
}

/// A symbolic link for the caller to create: at `dest`, pointing at
/// `source`.
#[derive(Debug)]
pub struct LinkRequest {
    /// The path the link points at.
    pub source: String,
    /// The path at which the link is created.
    pub dest: String,
}

/// The symbolic-link step of materialization, separated from the filesystem
/// call that performs it: on a platform with native symlink support the
/// result names the link to create, and on one without, no link may be
/// attempted and the step fails at once with the unsupported-operation
/// error.
pub fn symlink(source: &str, dest: &str, supported: bool) -> (r: Result<LinkRequest, LinkError>)
    ensures
        r is Ok <==> supported,
        r matches Ok(l) ==> l.source@ == source@ && l.dest@ == dest@,
        r matches Err(e) ==> e == LinkError::Unsupported,
{
    if supported {
        Ok(LinkRequest { source: String::from_str(source), dest: String::from_str(dest) })
    } else {
        Err(LinkError::Unsupported)
    }
}

/// The outcomes of a whole run over the matched entries, given for each
/// whether its destination already exists.
pub open spec fn run_outcomes(has_output: bool, dest_exists: Seq<bool>, copy_mode: bool) -> Seq<
    Outcome,
> {
    dest_exists.map_values(|e: bool| outcome_of(has_output, e, copy_mode))
}

/// A list-only run (no output root) never mutates the filesystem: every
/// entry's outcome is listed-only, whatever exists at any destination and
/// whatever the run mode.
pub proof fn lemma_list_only_never_mutates(dest_exists: Seq<bool>, copy_mode: bool)
    ensures
        forall|i: int|
            0 <= i < dest_exists.len() ==> #[trigger] run_outcomes(false, dest_exists, copy_mode)[i]
                == Outcome::ListedOnly,
        forall|i: int|
            0 <= i < dest_exists.len() ==> !mutates_filesystem(
                #[trigger] run_outcomes(false, dest_exists, copy_mode)[i],
            ),
{
}

/// Re-running against a previously populated output root is idempotent: when
/// every destination already exists, the run performs zero writes and skips
/// every entry with exactly one warning each.
pub proof fn lemma_rerun_idempotent(dest_exists: Seq<bool>, copy_mode: bool)
    requires
        forall|i: int| 0 <= i < dest_exists.len() ==> dest_exists[i],
    ensures
        forall|i: int|
            0 <= i < dest_exists.len() ==> #[trigger] run_outcomes(true, dest_exists, copy_mode)[i]
                == Outcome::SkippedExisting,
        forall|i: int|
            0 <= i < dest_exists.len() ==> !mutates_filesystem(
                #[trigger] run_outcomes(true, dest_exists, copy_mode)[i],
            ),
{
}

} // verus!
