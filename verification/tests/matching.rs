use bids_subset::filter::FilterSpec;
use bids_subset::matcher::{matching_paths, CompiledPatterns, DatasetEntry};

fn spec_default() -> FilterSpec {
    FilterSpec::from_options(None, None, None, None, false, false, false)
}

fn file(rel: &str) -> DatasetEntry {
    DatasetEntry { rel_path: rel.to_string(), is_dir: false }
}

fn dir(rel: &str) -> DatasetEntry {
    DatasetEntry { rel_path: rel.to_string(), is_dir: true }
}

#[test]
fn subject_layout_matches() {
    let pats = CompiledPatterns::new(&spec_default()).unwrap();
    assert!(pats.is_match("sub-01/anat/sub-01_T1w.nii.gz"));
    assert!(pats.is_match("sub-01/ses-02/func/bold.nii.gz"));
    assert!(!pats.is_match("not-a-subject/anat/x.nii.gz"));
    assert!(!pats.is_match("stray_file.txt"));
}

#[test]
fn top_level_names_match_by_themselves() {
    let pats = CompiledPatterns::new(&spec_default()).unwrap();
    assert!(pats.is_match("dataset_description.json"));
    assert!(pats.is_match("README"));
    assert!(pats.is_match("CHANGES"));
    assert!(pats.is_match("participants.tsv"));
    assert!(pats.is_match("participants.json"));
}

#[test]
fn session_fragment_constrains_the_session() {
    let mut fs = spec_default();
    fs.session = "02".to_string();
    fs.exclude_top_level = true;
    let pats = CompiledPatterns::new(&fs).unwrap();
    assert!(pats.is_match("sub-01/ses-02/anat/x.nii.gz"));
    assert!(!pats.is_match("sub-01/ses-03/anat/x.nii.gz"));
    // The session-less layout stays independently sufficient.
    assert!(pats.is_match("sub-01/anat/x.nii.gz"));
}

#[test]
fn case_insensitive_flag_applies_to_all_patterns() {
    let mut fs = spec_default();
    fs.subject = "01".to_string();
    let insensitive = {
        let mut f = spec_default();
        f.subject = "01".to_string();
        f.case_insensitive = true;
        f
    };
    let exact = CompiledPatterns::new(&fs).unwrap();
    let folded = CompiledPatterns::new(&insensitive).unwrap();
    assert!(!exact.is_match("SUB-01/ANAT/X.NII.GZ"));
    assert!(folded.is_match("SUB-01/ANAT/X.NII.GZ"));
    assert!(folded.is_match("Dataset_Description.JSON"));
}

#[test]
fn subject_filter_selects_one_subject() {
    // Root with sub-01 and sub-02 anatomy files, filtered to subject 01.
    let mut fs = spec_default();
    fs.subject = "01".to_string();
    let entries = vec![
        dir("sub-01"),
        dir("sub-01/anat"),
        file("sub-01/anat/sub-01_T1w.nii.gz"),
        dir("sub-02"),
        dir("sub-02/anat"),
        file("sub-02/anat/sub-02_T1w.nii.gz"),
    ];
    let selected = matching_paths(&fs, &entries).unwrap();
    assert_eq!(selected, vec!["sub-01/anat/sub-01_T1w.nii.gz".to_string()]);
    assert_eq!(selected.len(), 1);
}

#[test]
fn lone_metadata_file_is_listed_once() {
    // Root containing only dataset_description.json at top level.
    let entries = vec![file("dataset_description.json")];
    let selected = matching_paths(&spec_default(), &entries).unwrap();
    assert_eq!(selected, vec!["dataset_description.json".to_string()]);
    assert_eq!(selected.len(), 1);

    let mut excluded = spec_default();
    excluded.exclude_top_level = true;
    let none = matching_paths(&excluded, &entries).unwrap();
    assert_eq!(none.len(), 0);
}

#[test]
fn exclude_top_level_omits_present_metadata() {
    let entries = vec![
        file("CHANGES"),
        file("dataset_description.json"),
        file("participants.tsv"),
        file("participants.json"),
        file("README"),
        dir("sub-01"),
        dir("sub-01/anat"),
        file("sub-01/anat/x.nii.gz"),
    ];
    let mut fs = spec_default();
    let all = matching_paths(&fs, &entries).unwrap();
    assert_eq!(all.len(), 6);

    fs.exclude_top_level = true;
    let only_subject = matching_paths(&fs, &entries).unwrap();
    assert_eq!(only_subject, vec!["sub-01/anat/x.nii.gz".to_string()]);
}

#[test]
fn directories_are_never_reported() {
    let entries = vec![dir("sub-01"), dir("sub-01/anat"), dir("sub-01/anat/oddly.named.dir")];
    let selected = matching_paths(&spec_default(), &entries).unwrap();
    assert_eq!(selected.len(), 0);
}

#[test]
fn matched_entry_is_counted_once_across_patterns() {
    // A path that satisfies both the session-less and (after wildcarding)
    // the top-level patterns still appears exactly once.
    let mut fs = spec_default();
    fs.file = "README".to_string();
    let entries = vec![file("README"), dir("sub-01"), dir("sub-01/x"), file("sub-01/x/README")];
    let selected = matching_paths(&fs, &entries).unwrap();
    assert_eq!(
        selected,
        vec!["README".to_string(), "sub-01/x/README".to_string()]
    );
}

#[test]
fn invalid_pattern_fails_before_any_entry() {
    let mut fs = spec_default();
    fs.datatype = "[".to_string();
    let entries = vec![file("dataset_description.json")];
    assert!(matching_paths(&fs, &entries).is_err());
}
