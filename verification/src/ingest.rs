//! The ingestion pipeline: folding the fields of one multipart upload
//! into an [`UploadForm`] and driving the write policy engine with it.
//!
//! Each field arrives as a name and the raw bytes accumulated for it.
//! The `action` and `target_file_path` fields carry text and must decode
//! as UTF-8; the `file` field stays an opaque byte sequence throughout,
//! so arbitrary binary content survives the pipeline.  Unrecognised
//! field names are ignored, not rejected.  Once all fields are folded,
//! the target path is validated before any filesystem state is touched.

use vstd::prelude::*;
use vstd::utf8::{decode_utf8, valid_utf8};
use crate::clock::local_timestamp;
use crate::engine::{force_write, force_write_spec, safe_write, safe_write_spec, WriteOutcome};
use crate::errors::SyncError;
use crate::fs_model::{FsEntryV, FsModel};
use crate::schema::{action_of, empty_form, Action, UploadForm, UploadFormV};
use crate::text::{clone_bytes, str_eq};
use crate::validate::{validate_path_spec, validate_upload_args};

verus! {

/// One multipart field, accumulated in full before it is interpreted:
/// its name and its raw bytes.
pub struct RawField {
    pub name: String,
    pub value: Vec<u8>,
}

/// The mathematical view of a [`RawField`].
pub struct RawFieldV {
    pub name: Seq<char>,
    pub value: Seq<u8>,
}

impl View for RawField {
    type V = RawFieldV;

    open spec fn view(&self) -> RawFieldV {
        RawFieldV { name: self.name@, value: self.value@ }
    }
}

/// The views of a sequence of fields.
pub open spec fn field_views(fields: Seq<RawField>) -> Seq<RawFieldV> {
    fields.map_values(|f: RawField| f@)
}

/// How one field updates the form.  `action` and `target_file_path`
/// must decode as UTF-8 text; `file` is kept as raw bytes; any other
/// name leaves the form untouched.
pub open spec fn apply_field_spec(form: UploadFormV, field: RawFieldV) -> Result<
    UploadFormV,
    SyncError,
> {
    if field.name == "action"@ {
        if valid_utf8(field.value) {
            Ok(UploadFormV { action: action_of(decode_utf8(field.value)), ..form })
        } else {
            Err(SyncError::MalformedMultipartField)
        }
    } else if field.name == "file"@ {
        Ok(UploadFormV { content: field.value, ..form })
    } else if field.name == "target_file_path"@ {
        if valid_utf8(field.value) {
            Ok(UploadFormV { target_file_path: decode_utf8(field.value), ..form })
        } else {
            Err(SyncError::MalformedMultipartField)
        }
    } else {
        Ok(form)
    }
}

/// Fold the fields into the form in order; a later field overrides an
/// earlier one of the same name.
pub open spec fn fold_fields_spec(form: UploadFormV, fields: Seq<RawFieldV>) -> Result<
    UploadFormV,
    SyncError,
> decreases fields.len(),
{
    if fields.len() == 0 {
        Ok(form)
    } else {
        match apply_field_spec(form, fields[0]) {
            Err(e) => Err(e),
            Ok(f2) => fold_fields_spec(f2, fields.drop_first()),
        }
    }
}

/// The form an upload's fields reconcile to, starting from the default.
pub open spec fn parse_form_spec(fields: Seq<RawFieldV>) -> Result<UploadFormV, SyncError> {
    fold_fields_spec(empty_form(), fields)
}

/// Relies on String::from_utf8: it succeeds exactly on valid UTF-8 and
/// the returned string holds the characters the bytes encode.
#[verifier::external_body]
fn bytes_to_string(v: Vec<u8>) -> (r: Option<String>)
    ensures
        r is Some <==> valid_utf8(v@),
        r matches Some(s) ==> s@ == decode_utf8(v@),
{
    match String::from_utf8(v) {
        Ok(s) => Some(s),
        Err(_) => None,
    }
}

/// Fold accumulated multipart fields into an [`UploadForm`].
pub fn parse_form(fields: &Vec<RawField>) -> (r: Result<UploadForm, SyncError>)
    ensures
        ({
            let parsed = parse_form_spec(field_views(fields@));
            match r {
                Ok(f) => parsed == Ok::<UploadFormV, SyncError>(f@),
                Err(e) => parsed == Err::<UploadFormV, SyncError>(e),
            }
        }),
{
    let mut form = UploadForm::default();
    let mut i: usize = 0;
    proof {
        assert(field_views(fields@).skip(0) =~= field_views(fields@));
    }
    while i < fields.len()
        invariant
            i <= fields@.len(),
            fold_fields_spec(empty_form(), field_views(fields@)) == fold_fields_spec(
                form@,
                field_views(fields@).skip(i as int),
            ),
        decreases fields@.len() - i,
    {
        proof {
            let fv = field_views(fields@);
            assert(fv.skip(i as int)[0] == fields@[i as int]@);
            assert(fv.skip(i as int).drop_first() =~= fv.skip(i + 1));
        }
        let field = &fields[i];
        if str_eq(field.name.as_str(), "action") {
            match bytes_to_string(clone_bytes(&field.value)) {
                Some(s) => {
                    form.action = Action::from_str(s.as_str());
                },
                None => {
                    return Err(SyncError::MalformedMultipartField);
                },
            }
        } else if str_eq(field.name.as_str(), "file") {
            form.content = clone_bytes(&field.value);
        } else if str_eq(field.name.as_str(), "target_file_path") {
            match bytes_to_string(clone_bytes(&field.value)) {
                Some(s) => {
                    form.target_file_path = s;
                },
                None => {
                    return Err(SyncError::MalformedMultipartField);
                },
            }
        }
        i = i + 1;
    }
    proof {
        assert(field_views(fields@).skip(fields@.len() as int) =~= Seq::<RawFieldV>::empty());
    }
    Ok(form)
}

/// Everything one upload does to the tree once its fields are
/// accumulated, with `ts` as the snapshot timestamp: fold the fields,
/// validate the target path, then apply the selected write policy.  Any
/// parse or validation failure leaves the tree untouched.
pub open spec fn upload_spec(
    fs: Map<Seq<char>, FsEntryV>,
    fields: Seq<RawFieldV>,
    ts: Seq<char>,
) -> (Map<Seq<char>, FsEntryV>, Result<WriteOutcome, SyncError>) {
    match parse_form_spec(fields) {
        Err(e) => (fs, Err(e)),
        Ok(form) => match validate_path_spec(form.target_file_path) {
            Err(e) => (fs, Err(e)),
            Ok(_) => match form.action {
                Action::Safe => safe_write_spec(fs, form.target_file_path, form.content, ts),
                Action::Force => force_write_spec(fs, form.target_file_path, form.content),
            },
        },
    }
}

/// Handle one upload deterministically, with `now` as the snapshot
/// timestamp.
pub fn apply_upload(fs: &mut FsModel, fields: &Vec<RawField>, now: &str) -> (r: Result<
    WriteOutcome,
    SyncError,
>)
    ensures
        ({
            let stepped = upload_spec(old(fs)@, field_views(fields@), now@);
            final(fs)@ == stepped.0 && r == stepped.1
        }),
{
    let form = match parse_form(fields) {
        Ok(f) => f,
        Err(e) => {
            return Err(e);
        },
    };
    if let Err(e) = validate_upload_args(&form) {
        return Err(e);
    }
    match form.action {
        Action::Safe => safe_write(fs, &form, now),
        Action::Force => force_write(fs, &form),
    }
}

/// Handle one upload, stamping any snapshot with the wall clock.  The
/// timestamp depends on the clock, so the contract holds for whatever
/// string the clock produced.
pub fn upload(fs: &mut FsModel, fields: &Vec<RawField>) -> (r: Result<WriteOutcome, SyncError>)
    ensures
        exists|ts: Seq<char>|
            {
                let stepped = #[trigger] upload_spec(old(fs)@, field_views(fields@), ts);
                final(fs)@ == stepped.0 && r == stepped.1
            },
{
    let now = local_timestamp();
    let r = apply_upload(fs, fields, now.as_str());
    proof {
        let stepped = upload_spec(old(fs)@, field_views(fields@), now@);
        assert(fs@ == stepped.0 && r == stepped.1);
    }
    r
}

} // verus!
