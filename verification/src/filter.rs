//! The filter specification and the pattern compiler.
//!
//! A [`FilterSpec`] carries the four user-supplied glob fragments (each
//! defaulting to the match-all wildcard `*`) together with the run flags.
//! [`compile_patterns`] turns it into the ordered list of glob patterns that
//! the matcher tests candidate paths against: the session-less layout
//! `sub-<subject>/<datatype>/<file>`, the session-having layout
//! `sub-<subject>/ses-<session>/<datatype>/<file>`, and, unless excluded,
//! the five fixed top-level metadata filenames.

use vstd::prelude::*;

verus! {

/// The immutable description of one subsetting run: the four glob fragments
/// and the flags that shape matching and materialization.
pub struct FilterSpec {
    /// Glob fragment for the subject component (without the `sub-` prefix).
    pub subject: String,
    /// Glob fragment for the session component (without the `ses-` prefix).
    pub session: String,
    /// Glob fragment for the datatype component (e.g. `anat`, `func`).
    pub datatype: String,
    /// Glob fragment for the filename component.
    pub file: String,
    /// Omit the fixed top-level metadata filenames from the pattern set.
    pub exclude_top_level: bool,
    /// Match all patterns case-insensitively.
    pub case_insensitive: bool,
    /// Copy file bytes instead of creating symbolic links.
    pub copy: bool,
}

/// The fragment a user supplied, or the match-all wildcard when none was.
pub open spec fn fragment_or_wildcard(fragment: Option<String>) -> Seq<char> {
    match fragment {
        Option::Some(s) => s@,
        Option::None => "*"@,
    }
}

/// The session-less path pattern `sub-<subject>/<datatype>/<file>`.
pub open spec fn pattern_without_session(fs: FilterSpec) -> Seq<char> {
    "sub-"@ + fs.subject@ + "/"@ + fs.datatype@ + "/"@ + fs.file@
}

/// The session-having path pattern
/// `sub-<subject>/ses-<session>/<datatype>/<file>`.
pub open spec fn pattern_with_session(fs: FilterSpec) -> Seq<char> {
    "sub-"@ + fs.subject@ + "/ses-"@ + fs.session@ + "/"@ + fs.datatype@ + "/"@ + fs.file@
}

/// The five fixed top-level dataset metadata filenames.
pub open spec fn top_level_names() -> Seq<Seq<char>> {
    seq![
        "CHANGES"@,
        "dataset_description.json"@,
        "participants.tsv"@,
        "participants.json"@,
        "README"@,
    ]
}

/// The full compiled pattern set of a filter specification: the two
/// hierarchical path patterns, followed by the top-level metadata filenames
/// unless those are excluded.
pub open spec fn compiled_pattern_views(fs: FilterSpec) -> Seq<Seq<char>> {
    if fs.exclude_top_level {
        seq![pattern_without_session(fs), pattern_with_session(fs)]
    } else {
        seq![pattern_without_session(fs), pattern_with_session(fs)] + top_level_names()
    }
}

impl FilterSpec {
    /// Build a filter specification from optional user fragments; an absent
    /// fragment always defaults to the match-all wildcard, never to
    /// "no match".
    pub fn from_options(
        subject: Option<String>,
        session: Option<String>,
        datatype: Option<String>,
        file: Option<String>,
        exclude_top_level: bool,
        case_insensitive: bool,
        copy: bool,
    ) -> (r: FilterSpec)
        ensures
            r.subject@ == fragment_or_wildcard(subject),
            r.session@ == fragment_or_wildcard(session),
            r.datatype@ == fragment_or_wildcard(datatype),
            r.file@ == fragment_or_wildcard(file),
            r.exclude_top_level == exclude_top_level,
            r.case_insensitive == case_insensitive,
            r.copy == copy,
    {
        FilterSpec {
            subject: unwrap_fragment(subject),
            session: unwrap_fragment(session),
            datatype: unwrap_fragment(datatype),
            file: unwrap_fragment(file),
            exclude_top_level,
            case_insensitive,
            copy,
        }
    }
}

/// The supplied fragment, or a fresh `*` when none was supplied.
fn unwrap_fragment(fragment: Option<String>) -> (r: String)
    ensures
        r@ == fragment_or_wildcard(fragment),
{
    match fragment {
        Option::Some(s) => s,
        Option::None => String::from_str("*"),
    }
}

/// Compile the ordered pattern list of a filter specification.  The result
/// holds exactly the pattern texts of [`compiled_pattern_views`]: the two
/// path patterns first, then, unless excluded, the five top-level filenames.
pub fn compile_patterns(fs: &FilterSpec) -> (r: Vec<String>)
    ensures
        r@.map_values(|p: String| p@) == compiled_pattern_views(*fs),
{
    let mut out: Vec<String> = Vec::new();

    let mut p0 = String::from_str("sub-");
    p0.append(fs.subject.as_str());
    p0.append("/");
    p0.append(fs.datatype.as_str());
    p0.append("/");
    p0.append(fs.file.as_str());
    out.push(p0);

    let mut p1 = String::from_str("sub-");
    p1.append(fs.subject.as_str());
    p1.append("/ses-");
    p1.append(fs.session.as_str());
    p1.append("/");
    p1.append(fs.datatype.as_str());
    p1.append("/");
    p1.append(fs.file.as_str());
    out.push(p1);

    if !fs.exclude_top_level {
        out.push(String::from_str("CHANGES"));
        out.push(String::from_str("dataset_description.json"));
        out.push(String::from_str("participants.tsv"));
        out.push(String::from_str("participants.json"));
        out.push(String::from_str("README"));
    }

    proof {
        assert(out@.map_values(|p: String| p@) =~= compiled_pattern_views(*fs));
    }
    out
}

} // verus!
