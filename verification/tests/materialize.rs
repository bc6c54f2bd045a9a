use bids_subset::materialize::{
    decide_outcome, destination_for, effective_copy_mode, join_path, parent_dir, symlink,
    LinkError, Outcome,
};
use bids_subset::summary::{format_count, summary_line};

#[test]
fn join_preserves_relative_structure() {
    assert_eq!(join_path("out", "sub-01/anat/x.nii.gz"), "out/sub-01/anat/x.nii.gz");
    assert_eq!(join_path("/data/out", "README"), "/data/out/README");
}

#[test]
fn parent_is_everything_before_the_last_slash() {
    assert_eq!(parent_dir("a/b/c"), Some("a/b".to_string()));
    assert_eq!(parent_dir("out/README"), Some("out".to_string()));
    assert_eq!(parent_dir("/x"), Some("".to_string()));
    assert_eq!(parent_dir("README"), None);
}

#[test]
fn destination_sits_under_the_output_root() {
    let d = destination_for("out", "sub-01/anat/sub-01_T1w.nii.gz");
    assert_eq!(d.full, "out/sub-01/anat/sub-01_T1w.nii.gz");
    assert_eq!(d.parent, "out/sub-01/anat");

    let top = destination_for("out", "dataset_description.json");
    assert_eq!(top.full, "out/dataset_description.json");
    assert_eq!(top.parent, "out");
}

#[test]
fn list_only_runs_never_write() {
    assert_eq!(decide_outcome(false, false, false), Outcome::ListedOnly);
    assert_eq!(decide_outcome(false, true, true), Outcome::ListedOnly);
}

#[test]
fn existing_destinations_are_skipped_not_overwritten() {
    assert_eq!(decide_outcome(true, true, false), Outcome::SkippedExisting);
    assert_eq!(decide_outcome(true, true, true), Outcome::SkippedExisting);
}

#[test]
fn fresh_destinations_follow_the_run_mode() {
    assert_eq!(decide_outcome(true, false, true), Outcome::Copied);
    assert_eq!(decide_outcome(true, false, false), Outcome::Linked);
}

#[test]
fn platforms_without_symlinks_always_copy() {
    assert!(!effective_copy_mode(false, true));
    assert!(effective_copy_mode(true, true));
    assert!(effective_copy_mode(false, false));
    assert!(effective_copy_mode(true, false));
}

#[test]
fn symlink_is_planned_only_where_supported() {
    let req = symlink("/data/sub-01/anat/x.nii.gz", "out/sub-01/anat/x.nii.gz", true).unwrap();
    assert_eq!(req.source, "/data/sub-01/anat/x.nii.gz");
    assert_eq!(req.dest, "out/sub-01/anat/x.nii.gz");

    let err = symlink("/data/x", "out/x", false).unwrap_err();
    assert_eq!(err, LinkError::Unsupported);
    assert_eq!(err.message(), "symlink not supported on this platform");
}

#[test]
fn counts_format_in_decimal() {
    assert_eq!(format_count(0), "0");
    assert_eq!(format_count(7), "7");
    assert_eq!(format_count(10), "10");
    assert_eq!(format_count(120), "120");
    assert_eq!(format_count(98765), "98765");
}

#[test]
fn summary_with_output_root() {
    let out = "out".to_string();
    assert_eq!(
        summary_line(1, false, Some(&out), "3ms"),
        "1 files linked to 'out' in 3ms."
    );
    assert_eq!(
        summary_line(12, true, Some(&out), "1.5s"),
        "12 files copied to 'out' in 1.5s."
    );
}

#[test]
fn summary_without_output_root() {
    assert_eq!(summary_line(0, false, None, "40us"), "0 files matched in 40us.");
    assert_eq!(summary_line(3, true, None, "2ms"), "3 files matched in 2ms.");
}
