use file_sync::engine::WriteOutcome;
use file_sync::errors::SyncError;
use file_sync::fs_model::FsModel;
use file_sync::ingest::{apply_upload, RawField};
use file_sync::paths::{backup_dir_path, parent_dir, snapshot_path};
use file_sync::schema::{Action, UploadForm};
use file_sync::text::split_string;
use file_sync::validate::{validate_target_path, validate_upload_args};

#[test]
fn empty_target_path_rejected() {
    assert_eq!(validate_target_path(""), Err(SyncError::InvalidPath));
    assert_eq!(SyncError::InvalidPath.message(), "target_file_path is empty");
}

#[test]
fn bare_filename_rejected() {
    assert_eq!(validate_target_path("justfile"), Err(SyncError::InsufficientPathDepth));
    assert_eq!(SyncError::InsufficientPathDepth.message(), "require level of dir is more than 2");
}

#[test]
fn root_level_file_rejected() {
    assert_eq!(validate_target_path("/etc"), Err(SyncError::InsufficientPathDepth));
}

#[test]
fn two_segment_paths_accepted() {
    assert_eq!(validate_target_path("a/b"), Ok(()));
    assert_eq!(validate_target_path("/etc/hosts"), Ok(()));
    assert_eq!(validate_target_path("a//b"), Ok(()));
}

#[test]
fn validate_upload_args_checks_the_form_target() {
    let ok = UploadForm {
        action: Action::Safe,
        content: b"x".to_vec(),
        target_file_path: "dir/f.txt".to_string(),
    };
    assert_eq!(validate_upload_args(&ok), Ok(()));
    let bad = UploadForm {
        action: Action::Safe,
        content: b"x".to_vec(),
        target_file_path: "shallow".to_string(),
    };
    assert_eq!(validate_upload_args(&bad), Err(SyncError::InsufficientPathDepth));
}

#[test]
fn shallow_upload_rejected_before_any_mutation() {
    let mut fs = FsModel::new();
    let fields = vec![
        RawField { name: "file".to_string(), value: b"content".to_vec() },
        RawField { name: "target_file_path".to_string(), value: b"justfile".to_vec() },
    ];
    let r: Result<WriteOutcome, SyncError> = apply_upload(&mut fs, &fields, "20240101_120000");
    assert_eq!(r, Err(SyncError::InsufficientPathDepth));
    assert!(fs.get("justfile").is_none());
    assert!(fs.get(".justfile").is_none());
}

#[test]
fn backup_dir_derivation_matches_layout() {
    assert_eq!(backup_dir_path("dir/f.txt"), "dir/.f");
    assert_eq!(backup_dir_path("/var/data/f.txt"), "/var/data/.f");
    assert_eq!(backup_dir_path("a/b/c.tar.gz"), "a/b/.c.tar");
    assert_eq!(backup_dir_path("home/user/.bashrc"), "home/user/..bashrc");
    assert_eq!(backup_dir_path("dir/noext"), "dir/.noext");
    assert_eq!(backup_dir_path("dir/f.txt/"), "dir/.f");
}

#[test]
fn snapshot_path_appends_name_and_timestamp() {
    assert_eq!(
        snapshot_path("dir/f.txt", "20240102_080000"),
        "dir/.f/f.txt.20240102_080000"
    );
    assert_eq!(snapshot_path("a/b/c", "19991231_235959"), "a/b/.c/c.19991231_235959");
}

#[test]
fn parent_dir_ignores_trailing_separators() {
    assert_eq!(parent_dir("a/b/c.txt"), "a/b");
    assert_eq!(parent_dir("a/b/"), "a");
    assert_eq!(parent_dir("solo"), "");
}

#[test]
fn split_string_keeps_empty_segments() {
    let parts = split_string("a,,b,", ',');
    let views: Vec<&str> = parts.iter().map(|s| s.as_str()).collect();
    assert_eq!(views, vec!["a", "", "b", ""]);
    let single = split_string("plain", ',');
    let views2: Vec<&str> = single.iter().map(|s| s.as_str()).collect();
    assert_eq!(views2, vec!["plain"]);
}
