//! The data model of one upload or download request.

use vstd::prelude::*;
use crate::text::str_eq;

verus! {

/// The write policy requested by an upload.
///
/// `Safe` compares the incoming content with what is on disk, skips the
/// write when nothing changed and snapshots the prior version first;
/// `Force` overwrites unconditionally.
#[derive(Clone, Copy, Debug, PartialEq, Eq, Structural)]
pub enum Action {
    Safe,
    Force,
}

/// The action selected by a textual field value.  Only the exact string
/// `"force"` selects [`Action::Force`]; every other value, the empty
/// string and unknown words included, falls back to [`Action::Safe`].
pub open spec fn action_of(s: Seq<char>) -> Action {
    if s == "force"@ {
        Action::Force
    } else {
        Action::Safe
    }
}

impl Action {
    /// Lenient parse of an `action` field value: unrecognised values are
    /// accepted and select the safe policy rather than failing.
    pub fn from_str(action: &str) -> (r: Action)
        ensures
            r == action_of(action@),
    {
        if str_eq(action, "force") {
            Action::Force
        } else {
            Action::Safe
        }
    }

    /// The canonical field value naming this action.
    pub fn as_str(&self) -> (r: &'static str)
        ensures
            *self == Action::Safe ==> r@ == "safe"@,
            *self == Action::Force ==> r@ == "force"@,
    {
        match self {
            Action::Safe => "safe",
            Action::Force => "force",
        }
    }
}

impl Default for Action {
    /// An upload that names no action gets the safe policy.
    fn default() -> (r: Self)
        ensures
            r == Action::Safe,
    {
        Action::Safe
    }
}

/// Error type reserved for callers that insist on a strict action parse;
/// the lenient [`Action::from_str`] never produces it.
#[derive(Clone, Copy, Debug, PartialEq, Eq, Structural)]
pub struct NotActionError;

impl NotActionError {
    /// The human-readable description of this error.
    pub fn message(&self) -> (r: &'static str)
        ensures
            r@ == "not support action error"@,
    {
        "not support action error"
    }
}

/// The reconciled result of parsing one upload: which policy to apply,
/// the raw content bytes, and the path the content is destined for.
#[derive(Debug)]
pub struct UploadForm {
    pub action: Action,
    pub content: Vec<u8>,
    pub target_file_path: String,
}

/// The mathematical view of an [`UploadForm`].
pub struct UploadFormV {
    pub action: Action,
    pub content: Seq<u8>,
    pub target_file_path: Seq<char>,
}

impl View for UploadForm {
    type V = UploadFormV;

    open spec fn view(&self) -> UploadFormV {
        UploadFormV {
            action: self.action,
            content: self.content@,
            target_file_path: self.target_file_path@,
        }
    }
}

/// The form every upload starts from before any field is applied.
pub open spec fn empty_form() -> UploadFormV {
    UploadFormV { action: Action::Safe, content: Seq::empty(), target_file_path: Seq::empty() }
}

impl Default for UploadForm {
    fn default() -> (r: Self)
        ensures
            r@ == empty_form(),
    {
        UploadForm { action: Action::Safe, content: Vec::new(), target_file_path: String::new() }
    }
}

/// The body of a download request: which file to serve back.
#[derive(Debug)]
pub struct DownloadReq {
    pub file_path: String,
}

/// Arguments of the client's connectivity test subcommand.
#[derive(Debug)]
pub struct TestArgs {
    pub ping: bool,
}

/// Arguments of the client's pull subcommand.
#[derive(Debug)]
pub struct PullArgs {
    pub file_mappings: String,
}

} // verus!
