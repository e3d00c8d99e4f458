//! The write policy engine and the retrieval responder.
//!
//! A *safe* write first compares the incoming content with what is on
//! disk and stops when nothing changed; otherwise it makes sure the
//! backup directory exists, snapshots the prior version there, and only
//! then truncates and writes the target.  A *force* write truncates and
//! writes unconditionally, with no comparison and no backup.  Every
//! transition is specified as a function of the filesystem map, and the
//! executable engine is proved to follow it exactly.

use vstd::prelude::*;
use crate::errors::SyncError;
use crate::fingerprint::if_content_md5_equal;
use crate::fs_model::{FsEntry, FsEntryV, FsModel, file_data_at, is_dir_at, is_file_at};
use crate::paths::{backup_dir_of, backup_dir_path, parent_dir, parent_of, snapshot_path, snapshot_path_of};
use crate::schema::{Action, DownloadReq, UploadForm};
use crate::text::clone_bytes;

verus! {

/// How a successful write finished: the target was already up to date,
/// or its content was (re)written.
#[derive(Clone, Copy, Debug, PartialEq, Eq, Structural)]
pub enum WriteOutcome {
    Unchanged,
    Written,
}

impl WriteOutcome {
    /// The success message reported for this outcome under `action`.
    pub fn message_for(&self, action: Action) -> (r: &'static str)
        ensures
            *self == WriteOutcome::Unchanged ==> r@ == "file is not changed."@,
            *self == WriteOutcome::Written && action == Action::Safe ==> r@ == "safe write ok"@,
            *self == WriteOutcome::Written && action == Action::Force ==> r@
                == "force write ok"@,
    {
        match self {
            WriteOutcome::Unchanged => "file is not changed.",
            WriteOutcome::Written => match action {
                Action::Safe => "safe write ok",
                Action::Force => "force write ok",
            },
        }
    }
}

/// What ensuring the backup directory does to the tree: fail on a
/// conflicting regular file, keep an existing directory, create a
/// missing one.  Idempotent, and a no-op whenever it does not create.
pub open spec fn ensure_backup_dir_spec(fs: Map<Seq<char>, FsEntryV>, dir: Seq<char>) -> (
    Map<Seq<char>, FsEntryV>,
    Result<(), SyncError>,
) {
    if is_file_at(fs, dir) {
        (fs, Err(SyncError::BackupDirConflict))
    } else if fs.contains_key(dir) {
        (fs, Ok(()))
    } else {
        (fs.insert(dir, FsEntryV::Dir), Ok(()))
    }
}

/// What a safe write of `content` to `target` does to the tree when the
/// snapshot timestamp reads `ts`.
///
/// In order: an existing file with identical bytes means "unchanged" and
/// the tree is untouched; a regular file where the backup directory
/// belongs aborts the write with the tree untouched; otherwise the
/// backup directory is ensured, an existing prior version is snapshotted
/// beside it, and the content is written.  A directory sitting at the
/// target cannot be snapshotted, so that write fails after the backup
/// directory was ensured, leaving the target untouched.
pub open spec fn safe_write_spec(
    fs: Map<Seq<char>, FsEntryV>,
    target: Seq<char>,
    content: Seq<u8>,
    ts: Seq<char>,
) -> (Map<Seq<char>, FsEntryV>, Result<WriteOutcome, SyncError>) {
    if is_file_at(fs, target) && file_data_at(fs, target) == content {
        (fs, Ok(WriteOutcome::Unchanged))
    } else {
        let bd = backup_dir_of(target);
        let ensured = ensure_backup_dir_spec(fs, bd);
        if ensured.1 is Err {
            (fs, Err(SyncError::BackupDirConflict))
        } else if is_file_at(fs, target) {
            let sp = snapshot_path_of(target, ts);
            (
                ensured.0.insert(sp, FsEntryV::File(file_data_at(fs, target))).insert(
                    target,
                    FsEntryV::File(content),
                ),
                Ok(WriteOutcome::Written),
            )
        } else if fs.contains_key(target) {
            (ensured.0, Err(SyncError::BackupWriteFailed))
        } else {
            (ensured.0.insert(target, FsEntryV::File(content)), Ok(WriteOutcome::Written))
        }
    }
}

/// What a force write of `content` to `target` does to the tree: no
/// comparison, no backup, just a truncate-and-write that only a
/// directory sitting at the target can defeat.
pub open spec fn force_write_spec(
    fs: Map<Seq<char>, FsEntryV>,
    target: Seq<char>,
    content: Seq<u8>,
) -> (Map<Seq<char>, FsEntryV>, Result<WriteOutcome, SyncError>) {
    if is_dir_at(fs, target) {
        (fs, Err(SyncError::WriteFailed))
    } else {
        (fs.insert(target, FsEntryV::File(content)), Ok(WriteOutcome::Written))
    }
}

/// What serving `source` back returns: the file's bytes, or the error
/// owed for an empty path or a path that names no regular file.
pub open spec fn download_spec(fs: Map<Seq<char>, FsEntryV>, source: Seq<char>) -> Result<
    Seq<u8>,
    SyncError,
> {
    if source.len() == 0 {
        Err(SyncError::EmptySourcePath)
    } else if is_file_at(fs, source) {
        Ok(file_data_at(fs, source))
    } else {
        Err(SyncError::SourceNotFound)
    }
}

/// Decide what to do with the backup directory, given what a stat of
/// its path showed: a non-directory entry there is a conflict, an
/// absent entry must be created (`Ok(true)`), an existing directory is
/// kept as it is (`Ok(false)`).
pub fn backup_dir_action(exists: bool, dir: bool) -> (r: Result<bool, SyncError>)
    ensures
        exists && !dir ==> r == Err::<bool, SyncError>(SyncError::BackupDirConflict),
        exists && dir ==> r == Ok::<bool, SyncError>(false),
        !exists ==> r == Ok::<bool, SyncError>(true),
{
    if exists && !dir {
        Err(SyncError::BackupDirConflict)
    } else {
        Ok(!exists)
    }
}

/// Make sure the backup directory at `dir_path` exists: fail with
/// [`SyncError::BackupDirConflict`] if a regular file sits there, keep
/// an existing directory, create a missing one.
pub fn safe_create_backup_dir(fs: &mut FsModel, dir_path: &str) -> (r: Result<(), SyncError>)
    ensures
        ({
            let ensured = ensure_backup_dir_spec(old(fs)@, dir_path@);
            final(fs)@ == ensured.0 && r == ensured.1
        }),
{
    let mut present = false;
    let mut conflicting = false;
    match fs.get(dir_path) {
        Some(e) => {
            present = true;
            match e {
                FsEntry::File(_) => {
                    conflicting = true;
                },
                FsEntry::Dir => {},
            }
        },
        None => {},
    }
    if conflicting {
        Err(SyncError::BackupDirConflict)
    } else if present {
        Ok(())
    } else {
        fs.set_dir(dir_path);
        Ok(())
    }
}

/// Apply the safe write policy for `form` with snapshot timestamp `now`.
///
/// Follows [`safe_write_spec`] exactly: unchanged content is reported
/// without touching the tree, a backup-directory conflict aborts before
/// any mutation, and an existing prior version is snapshotted before the
/// target is overwritten.
pub fn safe_write(fs: &mut FsModel, form: &UploadForm, now: &str) -> (r: Result<
    WriteOutcome,
    SyncError,
>)
    ensures
        ({
            let stepped = safe_write_spec(old(fs)@, form.target_file_path@, form.content@, now@);
            final(fs)@ == stepped.0 && r == stepped.1
        }),
{
    let target = form.target_file_path.as_str();
    let mut target_is_dir = false;
    let mut existing: Option<Vec<u8>> = None;
    match fs.get(target) {
        Some(e) => match e {
            FsEntry::File(d) => {
                existing = Some(clone_bytes(d));
            },
            FsEntry::Dir => {
                target_is_dir = true;
            },
        },
        None => {},
    }
    match &existing {
        Some(old_bytes) => {
            if if_content_md5_equal(&form.content, old_bytes) {
                return Ok(WriteOutcome::Unchanged);
            }
        },
        None => {},
    }
    let bd = backup_dir_path(target);
    if let Err(e) = safe_create_backup_dir(fs, bd.as_str()) {
        return Err(e);
    }
    match existing {
        Some(old_bytes) => {
            let sp = snapshot_path(target, now);
            fs.set_file(sp.as_str(), old_bytes);
            fs.set_file(target, clone_bytes(&form.content));
            Ok(WriteOutcome::Written)
        },
        None => {
            if target_is_dir {
                Err(SyncError::BackupWriteFailed)
            } else {
                fs.set_file(target, clone_bytes(&form.content));
                Ok(WriteOutcome::Written)
            }
        },
    }
}

/// Apply the force write policy for `form`: truncate and write, creating
/// the file if absent, with no comparison and no backup.
pub fn force_write(fs: &mut FsModel, form: &UploadForm) -> (r: Result<WriteOutcome, SyncError>)
    ensures
        ({
            let stepped = force_write_spec(old(fs)@, form.target_file_path@, form.content@);
            final(fs)@ == stepped.0 && r == stepped.1
        }),
{
    let target = form.target_file_path.as_str();
    let mut target_is_dir = false;
    match fs.get(target) {
        Some(e) => match e {
            FsEntry::Dir => {
                target_is_dir = true;
            },
            FsEntry::File(_) => {},
        },
        None => {},
    }
    if target_is_dir {
        Err(SyncError::WriteFailed)
    } else {
        fs.set_file(target, clone_bytes(&form.content));
        Ok(WriteOutcome::Written)
    }
}

/// Write `contents` to `path`, first recording the parent directory if
/// it is absent, as a client does for a file it pulled.
pub fn create_and_write(fs: &mut FsModel, path: &str, contents: &Vec<u8>) -> (r: Result<
    (),
    SyncError,
>)
    ensures
        ({
            let p = parent_of(path@);
            let prepared = if p.len() > 0 && !old(fs)@.contains_key(p) {
                old(fs)@.insert(p, FsEntryV::Dir)
            } else {
                old(fs)@
            };
            if is_dir_at(old(fs)@, path@) {
                final(fs)@ == prepared && r == Err::<(), SyncError>(SyncError::WriteFailed)
            } else {
                final(fs)@ == prepared.insert(path@, FsEntryV::File(contents@)) && r == Ok::<
                    (),
                    SyncError,
                >(())
            }
        }),
{
    let mut target_is_dir = false;
    match fs.get(path) {
        Some(e) => match e {
            FsEntry::Dir => {
                target_is_dir = true;
            },
            FsEntry::File(_) => {},
        },
        None => {},
    }
    let p = parent_dir(path);
    if !p.as_str().is_empty() {
        let mut have_parent = false;
        match fs.get(p.as_str()) {
            Some(_) => {
                have_parent = true;
            },
            None => {},
        }
        if !have_parent {
            fs.set_dir(p.as_str());
        }
    }
    if target_is_dir {
        Err(SyncError::WriteFailed)
    } else {
        fs.set_file(path, clone_bytes(contents));
        Ok(())
    }
}

/// Check that `source_file_path` names a file that can be served: it
/// must be non-empty and a regular file must sit at it.
pub fn validate_args(fs: &FsModel, source_file_path: &str) -> (r: Result<(), SyncError>)
    ensures
        r is Ok <==> download_spec(fs@, source_file_path@) is Ok,
        r matches Err(e) ==> download_spec(fs@, source_file_path@) == Err::<Seq<u8>, SyncError>(
            e,
        ),
{
    if source_file_path.is_empty() {
        return Err(SyncError::EmptySourcePath);
    }
    let mut found = false;
    match fs.get(source_file_path) {
        Some(e) => match e {
            FsEntry::File(_) => {
                found = true;
            },
            FsEntry::Dir => {},
        },
        None => {},
    }
    if found {
        Ok(())
    } else {
        Err(SyncError::SourceNotFound)
    }
}

/// Serve the bytes of the file at `req.file_path` back to the caller.
///
/// Owed exactly by [`download_spec`]: the file's bytes when a regular
/// file sits at a non-empty path, [`SyncError::EmptySourcePath`] for an
/// empty path, and [`SyncError::SourceNotFound`] otherwise.  Never
/// panics, whatever the request says.
pub fn download_file(fs: &FsModel, req: &DownloadReq) -> (r: Result<Vec<u8>, SyncError>)
    ensures
        match r {
            Ok(d) => download_spec(fs@, req.file_path@) == Ok::<Seq<u8>, SyncError>(d@),
            Err(e) => download_spec(fs@, req.file_path@) == Err::<Seq<u8>, SyncError>(e),
        },
{
    if let Err(e) = validate_args(fs, req.file_path.as_str()) {
        return Err(e);
    }
    match fs.get(req.file_path.as_str()) {
        Some(e) => match e {
            FsEntry::File(d) => Ok(clone_bytes(d)),
            FsEntry::Dir => Err(SyncError::SourceNotFound),
        },
        None => Err(SyncError::SourceNotFound),
    }
}

} // verus!
