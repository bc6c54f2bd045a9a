//! The trusted boundary to the glob-matching engine.
//!
//! Pattern syntax and matching are delegated to the `ignore` crate's
//! override matcher (gitignore-style globs with the whitelist meaning
//! inverted), configured exactly as the walker-facing callers of that crate
//! configure it: unclosed character classes rejected, matching rooted at the
//! dataset root, and case sensitivity chosen per run.  Both results are pure
//! functions of the texts involved, so each is given a name here and every
//! contract above this module speaks only through those names.

use vstd::prelude::*;

verus! {

/// Whether the glob engine accepts `pattern` as valid glob syntax.
pub uninterp spec fn glob_ok(pattern: Seq<char>) -> bool;

/// Whether a non-directory entry at relative path `path` matches the single
/// glob `pattern` (case-insensitively when `case_insensitive` is set).  An
/// invalid pattern matches nothing.
pub uninterp spec fn glob_match(pattern: Seq<char>, case_insensitive: bool, path: Seq<char>) -> bool;

/// Relies on `ignore::overrides::OverrideBuilder::add`, which parses the
/// pattern as one gitignore-style glob (with unclosed character classes
/// rejected) and reports invalid syntax as an error.
#[verifier::external_body]
pub fn glob_pattern_ok(pattern: &str) -> (r: bool)
    ensures
        r == glob_ok(pattern@),
{
    let mut builder = ignore::overrides::OverrideBuilder::new(".");
    builder.add(pattern).is_ok()
}

/// Relies on `ignore::overrides::Override::matched`: a file path matches
/// when the built override set whitelists it.  The matcher is rooted at `.`
/// so the given path is matched as-is, relative to the dataset root; the
/// entry is matched as a file, not a directory.  A pattern the engine
/// rejects matches nothing.
#[verifier::external_body]
pub fn glob_match_file(pattern: &str, case_insensitive: bool, path: &str) -> (r: bool)
    ensures
        r == glob_match(pattern@, case_insensitive, path@),
{
    let mut builder = ignore::overrides::OverrideBuilder::new(".");
    if builder.case_insensitive(case_insensitive).is_err() {
        return false;
    }
    if builder.add(pattern).is_err() {
        return false;
    }
    match builder.build() {
        Ok(overrides) => {
            matches!(overrides.matched(path, false), ignore::Match::Whitelist(_))
        },
        Err(_) => false,
    }
}

} // verus!
