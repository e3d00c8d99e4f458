use file_sync::engine::{
    create_and_write, force_write, safe_create_backup_dir, safe_write, WriteOutcome,
};
use file_sync::errors::SyncError;
use file_sync::fs_model::{FsEntry, FsModel};
use file_sync::schema::{Action, UploadForm};

fn form(action: Action, content: &[u8], target: &str) -> UploadForm {
    UploadForm { action, content: content.to_vec(), target_file_path: target.to_string() }
}

fn file_bytes(fs: &FsModel, path: &str) -> Option<Vec<u8>> {
    match fs.get(path) {
        Some(FsEntry::File(d)) => Some(d.clone()),
        _ => None,
    }
}

fn is_dir(fs: &FsModel, path: &str) -> bool {
    matches!(fs.get(path), Some(FsEntry::Dir))
}

#[test]
fn safe_write_creates_without_backup() {
    let mut fs = FsModel::new();
    let f = form(Action::Safe, b"hello", "dir/f.txt");
    let r = safe_write(&mut fs, &f, "20240101_120000");
    assert_eq!(r, Ok(WriteOutcome::Written));
    assert_eq!(file_bytes(&fs, "dir/f.txt"), Some(b"hello".to_vec()));
    assert!(is_dir(&fs, "dir/.f"));
    assert!(fs.get("dir/.f/f.txt.20240101_120000").is_none());
}

#[test]
fn safe_write_identical_content_is_idempotent() {
    let mut fs = FsModel::new();
    let f = form(Action::Safe, b"same bytes", "dir/f.txt");
    let first = safe_write(&mut fs, &f, "20240101_120000");
    assert_eq!(first, Ok(WriteOutcome::Written));
    let second = safe_write(&mut fs, &f, "20240101_120001");
    assert_eq!(second, Ok(WriteOutcome::Unchanged));
    assert_eq!(file_bytes(&fs, "dir/f.txt"), Some(b"same bytes".to_vec()));
    assert!(fs.get("dir/.f/f.txt.20240101_120000").is_none());
    assert!(fs.get("dir/.f/f.txt.20240101_120001").is_none());
}

#[test]
fn safe_write_backs_up_prior_version_on_change() {
    let mut fs = FsModel::new();
    fs.set_file("dir/f.txt", b"old content A".to_vec());
    let f = form(Action::Safe, b"new content B", "dir/f.txt");
    let r = safe_write(&mut fs, &f, "20240102_080000");
    assert_eq!(r, Ok(WriteOutcome::Written));
    assert_eq!(
        file_bytes(&fs, "dir/.f/f.txt.20240102_080000"),
        Some(b"old content A".to_vec())
    );
    assert_eq!(file_bytes(&fs, "dir/f.txt"), Some(b"new content B".to_vec()));
    assert!(is_dir(&fs, "dir/.f"));
}

#[test]
fn force_write_never_backs_up() {
    let mut fs = FsModel::new();
    fs.set_file("dir/f.txt", b"old content A".to_vec());
    let f = form(Action::Force, b"forced C", "dir/f.txt");
    let r = force_write(&mut fs, &f);
    assert_eq!(r, Ok(WriteOutcome::Written));
    assert_eq!(file_bytes(&fs, "dir/f.txt"), Some(b"forced C".to_vec()));
    assert!(fs.get("dir/.f").is_none());
}

#[test]
fn force_write_identical_content_still_writes() {
    let mut fs = FsModel::new();
    fs.set_file("dir/f.txt", b"same".to_vec());
    let f = form(Action::Force, b"same", "dir/f.txt");
    let r = force_write(&mut fs, &f);
    assert_eq!(r, Ok(WriteOutcome::Written));
    assert_eq!(file_bytes(&fs, "dir/f.txt"), Some(b"same".to_vec()));
    assert!(fs.get("dir/.f").is_none());
}

#[test]
fn force_write_onto_directory_fails() {
    let mut fs = FsModel::new();
    fs.set_dir("dir/f.txt");
    let f = form(Action::Force, b"anything", "dir/f.txt");
    assert_eq!(force_write(&mut fs, &f), Err(SyncError::WriteFailed));
    assert!(is_dir(&fs, "dir/f.txt"));
}

#[test]
fn safe_write_conflicting_backup_dir_rejected() {
    let mut fs = FsModel::new();
    fs.set_file("dir/.f", b"a regular file in the way".to_vec());
    fs.set_file("dir/f.txt", b"old content A".to_vec());
    let f = form(Action::Safe, b"new content B", "dir/f.txt");
    assert_eq!(safe_write(&mut fs, &f, "20240101_120000"), Err(SyncError::BackupDirConflict));
    // the target is untouched
    assert_eq!(file_bytes(&fs, "dir/f.txt"), Some(b"old content A".to_vec()));
    assert!(fs.get("dir/.f/f.txt.20240101_120000").is_none());
}

#[test]
fn safe_write_conflict_checked_even_for_new_file() {
    let mut fs = FsModel::new();
    fs.set_file("dir/.f", b"in the way".to_vec());
    let f = form(Action::Safe, b"fresh", "dir/f.txt");
    assert_eq!(safe_write(&mut fs, &f, "20240101_120000"), Err(SyncError::BackupDirConflict));
    assert!(fs.get("dir/f.txt").is_none());
}

#[test]
fn safe_write_onto_directory_fails_as_backup_error() {
    let mut fs = FsModel::new();
    fs.set_dir("dir/f.txt");
    let f = form(Action::Safe, b"anything", "dir/f.txt");
    assert_eq!(safe_write(&mut fs, &f, "20240101_120000"), Err(SyncError::BackupWriteFailed));
    assert!(is_dir(&fs, "dir/f.txt"));
}

#[test]
fn safe_create_backup_dir_is_idempotent() {
    let mut fs = FsModel::new();
    assert_eq!(safe_create_backup_dir(&mut fs, "dir/.f"), Ok(()));
    assert!(is_dir(&fs, "dir/.f"));
    assert_eq!(safe_create_backup_dir(&mut fs, "dir/.f"), Ok(()));
    assert!(is_dir(&fs, "dir/.f"));
}

#[test]
fn safe_create_backup_dir_reports_conflict() {
    let mut fs = FsModel::new();
    fs.set_file("dir/.f", b"file".to_vec());
    assert_eq!(safe_create_backup_dir(&mut fs, "dir/.f"), Err(SyncError::BackupDirConflict));
}

#[test]
fn create_and_write_records_parent_directory() {
    let mut fs = FsModel::new();
    assert_eq!(create_and_write(&mut fs, "pulled/data.bin", &vec![0u8, 255, 7]), Ok(()));
    assert_eq!(file_bytes(&fs, "pulled/data.bin"), Some(vec![0u8, 255, 7]));
    assert!(is_dir(&fs, "pulled"));
}

#[test]
fn create_and_write_onto_directory_fails() {
    let mut fs = FsModel::new();
    fs.set_dir("pulled/data.bin");
    assert_eq!(
        create_and_write(&mut fs, "pulled/data.bin", &b"x".to_vec()),
        Err(SyncError::WriteFailed)
    );
}

#[test]
fn outcome_messages_distinguish_results() {
    assert_eq!(WriteOutcome::Unchanged.message_for(Action::Safe), "file is not changed.");
    assert_eq!(WriteOutcome::Written.message_for(Action::Safe), "safe write ok");
    assert_eq!(WriteOutcome::Written.message_for(Action::Force), "force write ok");
}
