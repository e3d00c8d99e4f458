use vstd::prelude::*;

verus! {

/// Every failure the write, ingestion and retrieval paths can report.
///
/// All of these surface to the caller as a client-error response with a
/// descriptive message; none of them is fatal to the process.
#[derive(Clone, Copy, Debug, PartialEq, Eq, Structural)]
pub enum SyncError {
    /// The target path of an upload is empty.
    InvalidPath,
    /// The target path has fewer than two non-empty segments.
    InsufficientPathDepth,
    /// The backup directory path exists but is not a directory.
    BackupDirConflict,
    /// Copying the prior version into the backup directory failed.
    BackupWriteFailed,
    /// Writing the new content to the target path failed.
    WriteFailed,
    /// The requested source path does not name a regular file.
    SourceNotFound,
    /// The requested source path is empty.
    EmptySourcePath,
    /// A multipart field that must hold text did not decode.
    MalformedMultipartField,
}

impl SyncError {
    /// The human-readable message surfaced with a failure response.
    pub fn message(&self) -> (r: &'static str)
        ensures
            *self == SyncError::InvalidPath ==> r@ == "target_file_path is empty"@,
            *self == SyncError::InsufficientPathDepth ==> r@ == "require level of dir is more than 2"@,
            *self == SyncError::BackupDirConflict ==> r@ == "backup dir is conflicted"@,
            *self == SyncError::BackupWriteFailed ==> r@ == "copy backup err"@,
            *self == SyncError::WriteFailed ==> r@ == "write file err"@,
            *self == SyncError::SourceNotFound ==> r@ == "not found path"@,
            *self == SyncError::EmptySourcePath ==> r@ == "invalid file path"@,
            *self == SyncError::MalformedMultipartField ==> r@ == "read content disposition err"@,
    {
        match self {
            SyncError::InvalidPath => "target_file_path is empty",
            SyncError::InsufficientPathDepth => "require level of dir is more than 2",
            SyncError::BackupDirConflict => "backup dir is conflicted",
            SyncError::BackupWriteFailed => "copy backup err",
            SyncError::WriteFailed => "write file err",
            SyncError::SourceNotFound => "not found path",
            SyncError::EmptySourcePath => "invalid file path",
            SyncError::MalformedMultipartField => "read content disposition err",
        }
    }
}

} // verus!
