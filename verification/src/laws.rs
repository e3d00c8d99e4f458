//! The laws of the write policies and the retrieval path, proved over
//! the spec-level transitions of [`crate::engine`] and
//! [`crate::ingest`].

use vstd::prelude::*;
use crate::engine::{download_spec, force_write_spec, safe_write_spec, WriteOutcome};
use crate::errors::SyncError;
use crate::fs_model::{file_data_at, is_file_at, FsEntryV};
use crate::ingest::{parse_form_spec, upload_spec, RawFieldV};
use crate::paths::{backup_dir_of, snapshot_path_of, strip_trailing_sep};
use crate::text::{count_nonempty, split_on};
use crate::validate::validate_path_spec;

verus! {

/// Idempotence of the safe write: once a safe write of `content` to
/// `target` has succeeded, repeating it — at any later timestamp —
/// changes nothing and reports "unchanged".  In particular the second
/// run creates no further snapshot, and the target holds exactly
/// `content` after either run.
pub proof fn lemma_safe_write_idempotent(
    fs: Map<Seq<char>, FsEntryV>,
    target: Seq<char>,
    content: Seq<u8>,
    ts1: Seq<char>,
    ts2: Seq<char>,
)
    requires
        safe_write_spec(fs, target, content, ts1).1 is Ok,
    ensures
        ({
            let fs1 = safe_write_spec(fs, target, content, ts1).0;
            &&& is_file_at(fs1, target)
            &&& file_data_at(fs1, target) == content
            &&& safe_write_spec(fs1, target, content, ts2) == (
                fs1,
                Ok::<WriteOutcome, SyncError>(WriteOutcome::Unchanged),
            )
        }),
{
}

/// Backup on change: safe-writing different bytes over an existing file
/// snapshots the prior bytes under the backup directory and leaves the
/// target holding the new bytes; the tree changes nowhere else.  Stated
/// for plain target paths, written without a trailing separator.
pub proof fn lemma_backup_on_change(
    fs: Map<Seq<char>, FsEntryV>,
    target: Seq<char>,
    content: Seq<u8>,
    ts: Seq<char>,
)
    requires
        is_file_at(fs, target),
        file_data_at(fs, target) != content,
        !is_file_at(fs, backup_dir_of(target)),
        target == strip_trailing_sep(target),
    ensures
        ({
            let stepped = safe_write_spec(fs, target, content, ts);
            let sp = snapshot_path_of(target, ts);
            &&& stepped.1 == Ok::<WriteOutcome, SyncError>(WriteOutcome::Written)
            &&& stepped.0 == fs.insert(backup_dir_of(target), FsEntryV::Dir).insert(
                sp,
                FsEntryV::File(file_data_at(fs, target)),
            ).insert(target, FsEntryV::File(content))
            &&& is_file_at(stepped.0, sp)
            &&& file_data_at(stepped.0, sp) == file_data_at(fs, target)
            &&& is_file_at(stepped.0, target)
            &&& file_data_at(stepped.0, target) == content
        }),
{
    let bd = backup_dir_of(target);
    let sp = snapshot_path_of(target, ts);
    // The snapshot is strictly longer than the target path, so the final
    // write of the target cannot shadow it.
    reveal_strlit("/.");
    reveal_strlit("/");
    reveal_strlit(".");
    crate::paths::lemma_last_index_of(target, '/');
    crate::paths::lemma_last_index_of(crate::paths::file_name_of(target), '.');
    assert(sp.len() > target.len());
    assert(sp != target);
    if fs.contains_key(bd) {
        assert(fs.insert(bd, FsEntryV::Dir) =~= fs);
    }
    let stepped = safe_write_spec(fs, target, content, ts);
    assert(stepped.0 =~= fs.insert(bd, FsEntryV::Dir).insert(
        sp,
        FsEntryV::File(file_data_at(fs, target)),
    ).insert(target, FsEntryV::File(content)));
}

/// No backup on create: safe-writing to a path where no entry exists
/// creates the file with the given content and the backup directory
/// beside it, and nothing else — in particular, zero snapshots.
pub proof fn lemma_no_backup_on_create(
    fs: Map<Seq<char>, FsEntryV>,
    target: Seq<char>,
    content: Seq<u8>,
    ts: Seq<char>,
)
    requires
        !fs.contains_key(target),
        !is_file_at(fs, backup_dir_of(target)),
    ensures
        ({
            let stepped = safe_write_spec(fs, target, content, ts);
            &&& stepped.1 == Ok::<WriteOutcome, SyncError>(WriteOutcome::Written)
            &&& stepped.0 == fs.insert(backup_dir_of(target), FsEntryV::Dir).insert(
                target,
                FsEntryV::File(content),
            )
            &&& is_file_at(stepped.0, target)
            &&& file_data_at(stepped.0, target) == content
        }),
{
    let bd = backup_dir_of(target);
    if fs.contains_key(bd) {
        assert(fs.insert(bd, FsEntryV::Dir) =~= fs);
    }
    let stepped = safe_write_spec(fs, target, content, ts);
    assert(stepped.0 =~= fs.insert(bd, FsEntryV::Dir).insert(target, FsEntryV::File(content)));
}

/// Force bypass: force-writing `content` over an existing file leaves
/// the target holding `content` and changes the tree nowhere else —
/// zero snapshots — whether or not the old and new bytes agree.
pub proof fn lemma_force_bypass(fs: Map<Seq<char>, FsEntryV>, target: Seq<char>, content: Seq<u8>)
    requires
        is_file_at(fs, target),
    ensures
        ({
            let stepped = force_write_spec(fs, target, content);
            &&& stepped.1 == Ok::<WriteOutcome, SyncError>(WriteOutcome::Written)
            &&& stepped.0 == fs.insert(target, FsEntryV::File(content))
            &&& is_file_at(stepped.0, target)
            &&& file_data_at(stepped.0, target) == content
        }),
{
}

/// Path depth rejection: when the fields of an upload fold to a target
/// path with fewer than two non-empty segments, the upload is rejected
/// before any filesystem mutation, whatever the fields said otherwise.
pub proof fn lemma_path_depth_rejection(
    fs: Map<Seq<char>, FsEntryV>,
    fields: Seq<RawFieldV>,
    ts: Seq<char>,
)
    requires
        parse_form_spec(fields) matches Ok(form) && count_nonempty(
            split_on(form.target_file_path, '/'),
        ) < 2,
    ensures
        ({
            let stepped = upload_spec(fs, fields, ts);
            &&& stepped.0 == fs
            &&& stepped.1 matches Err(e) && (e == SyncError::InvalidPath
                || e == SyncError::InsufficientPathDepth)
        }),
{
}

/// Backup conflict: when a regular file occupies the backup directory
/// path, a safe write fails with `BackupDirConflict` and the tree — the
/// target in particular — is untouched.  The one input this cannot
/// speak of is identical content, which reports "unchanged" before the
/// backup directory is ever consulted.
pub proof fn lemma_backup_conflict(
    fs: Map<Seq<char>, FsEntryV>,
    target: Seq<char>,
    content: Seq<u8>,
    ts: Seq<char>,
)
    requires
        is_file_at(fs, backup_dir_of(target)),
        !(is_file_at(fs, target) && file_data_at(fs, target) == content),
    ensures
        safe_write_spec(fs, target, content, ts) == (
            fs,
            Err::<WriteOutcome, SyncError>(SyncError::BackupDirConflict),
        ),
{
}

/// Download round-trip, safe policy: downloading the path a safe write
/// just succeeded on returns exactly the uploaded bytes.
pub proof fn lemma_download_roundtrip_safe(
    fs: Map<Seq<char>, FsEntryV>,
    target: Seq<char>,
    content: Seq<u8>,
    ts: Seq<char>,
)
    requires
        validate_path_spec(target) is Ok,
        safe_write_spec(fs, target, content, ts).1 is Ok,
    ensures
        download_spec(safe_write_spec(fs, target, content, ts).0, target) == Ok::<
            Seq<u8>,
            SyncError,
        >(content),
{
}

/// Download round-trip, whole pipeline: when an upload succeeded,
/// downloading the target path its fields named returns exactly the
/// content bytes its fields carried.
pub proof fn lemma_download_roundtrip_upload(
    fs: Map<Seq<char>, FsEntryV>,
    fields: Seq<RawFieldV>,
    ts: Seq<char>,
)
    requires
        upload_spec(fs, fields, ts).1 is Ok,
    ensures
        ({
            let form = parse_form_spec(fields)->Ok_0;
            download_spec(upload_spec(fs, fields, ts).0, form.target_file_path) == Ok::<
                Seq<u8>,
                SyncError,
            >(form.content)
        }),
{
    let form = parse_form_spec(fields)->Ok_0;
    match form.action {
        crate::schema::Action::Safe => {
            lemma_download_roundtrip_safe(fs, form.target_file_path, form.content, ts);
        },
        crate::schema::Action::Force => {
            lemma_download_roundtrip_force(fs, form.target_file_path, form.content);
        },
    }
}

/// Download round-trip, force policy: downloading the path a force
/// write just succeeded on returns exactly the uploaded bytes.
pub proof fn lemma_download_roundtrip_force(
    fs: Map<Seq<char>, FsEntryV>,
    target: Seq<char>,
    content: Seq<u8>,
)
    requires
        validate_path_spec(target) is Ok,
        force_write_spec(fs, target, content).1 is Ok,
    ensures
        download_spec(force_write_spec(fs, target, content).0, target) == Ok::<
            Seq<u8>,
            SyncError,
        >(content),
{
}

} // verus!
