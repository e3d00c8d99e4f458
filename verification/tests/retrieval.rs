use file_sync::engine::{download_file, validate_args, WriteOutcome};
use file_sync::errors::SyncError;
use file_sync::fs_model::FsModel;
use file_sync::ingest::{apply_upload, RawField};
use file_sync::schema::DownloadReq;

fn field(name: &str, value: &[u8]) -> RawField {
    RawField { name: name.to_string(), value: value.to_vec() }
}

fn req(path: &str) -> DownloadReq {
    DownloadReq { file_path: path.to_string() }
}

#[test]
fn download_returns_what_was_uploaded() {
    let mut fs = FsModel::new();
    let fields = vec![
        field("action", b"safe"),
        field("file", b"round trip payload"),
        field("target_file_path", b"data/doc.txt"),
    ];
    let up = apply_upload(&mut fs, &fields, "20240101_120000");
    assert_eq!(up, Ok(WriteOutcome::Written));
    let down = download_file(&fs, &req("data/doc.txt"));
    assert_eq!(down, Ok(b"round trip payload".to_vec()));
}

#[test]
fn download_roundtrip_preserves_binary_bytes() {
    let mut fs = FsModel::new();
    let payload: Vec<u8> = vec![0, 1, 2, 255, 254, 128, 0, 10, 13, 26];
    let fields = vec![
        field("file", &payload),
        field("target_file_path", b"bin/blob"),
    ];
    assert_eq!(apply_upload(&mut fs, &fields, "20240101_120000"), Ok(WriteOutcome::Written));
    assert_eq!(download_file(&fs, &req("bin/blob")), Ok(payload));
}

#[test]
fn download_missing_path_is_client_error() {
    let fs = FsModel::new();
    let r = download_file(&fs, &req("no/such.file"));
    assert_eq!(r, Err(SyncError::SourceNotFound));
    assert_eq!(SyncError::SourceNotFound.message(), "not found path");
}

#[test]
fn download_empty_path_is_client_error() {
    let fs = FsModel::new();
    assert_eq!(download_file(&fs, &req("")), Err(SyncError::EmptySourcePath));
    assert_eq!(SyncError::EmptySourcePath.message(), "invalid file path");
}

#[test]
fn download_directory_is_client_error() {
    let mut fs = FsModel::new();
    fs.set_dir("a/b");
    assert_eq!(download_file(&fs, &req("a/b")), Err(SyncError::SourceNotFound));
}

#[test]
fn validate_args_mirrors_download_errors() {
    let mut fs = FsModel::new();
    assert_eq!(validate_args(&fs, ""), Err(SyncError::EmptySourcePath));
    assert_eq!(validate_args(&fs, "a/b"), Err(SyncError::SourceNotFound));
    fs.set_file("a/b", b"x".to_vec());
    assert_eq!(validate_args(&fs, "a/b"), Ok(()));
}
