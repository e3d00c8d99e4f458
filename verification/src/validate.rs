//! Structural validation of a target path, performed before any
//! filesystem state is touched.

use vstd::prelude::*;
use crate::errors::SyncError;
use crate::schema::UploadForm;
use crate::text::{count_nonempty, count_nonempty_parts, split_on, split_string};

verus! {

/// Whether a target path may be written at all: it must be non-empty and,
/// split on its separator, must yield at least two non-empty segments, so
/// that a file is never written directly into a filesystem root.
pub open spec fn validate_path_spec(p: Seq<char>) -> Result<(), SyncError> {
    if p.len() == 0 {
        Err(SyncError::InvalidPath)
    } else if count_nonempty(split_on(p, '/')) < 2 {
        Err(SyncError::InsufficientPathDepth)
    } else {
        Ok(())
    }
}

/// Validate a target path string.  Pure: no filesystem state is read.
pub fn validate_target_path(p: &str) -> (r: Result<(), SyncError>)
    ensures
        r == validate_path_spec(p@),
{
    if p.is_empty() {
        return Err(SyncError::InvalidPath);
    }
    let parts = split_string(p, '/');
    let n = count_nonempty_parts(&parts);
    if n < 2 {
        Err(SyncError::InsufficientPathDepth)
    } else {
        Ok(())
    }
}

/// Validate the target path of a parsed upload form.
pub fn validate_upload_args(form: &UploadForm) -> (r: Result<(), SyncError>)
    ensures
        r == validate_path_spec(form.target_file_path@),
{
    validate_target_path(form.target_file_path.as_str())
}

} // verus!
