//! Content fingerprinting.
//!
//! A digest is computed for each comparison so operators can correlate
//! writes, but equality of content is always decided on the raw bytes:
//! a digest collision must never make two different contents look
//! "unchanged".

use vstd::prelude::*;
use crate::text::bytes_eq;

verus! {

/// The 16-byte digest that `md5::compute` assigns to a byte sequence.
pub uninterp spec fn md5_of(content: Seq<u8>) -> Seq<u8>;

/// Relies on md5::compute: a 16-byte digest of the input, depending on
/// the input bytes alone.
#[verifier::external_body]
fn compute_md5(content: &Vec<u8>) -> (r: Vec<u8>)
    ensures
        r@ == md5_of(content@),
        r@.len() == 16,
{
    md5::compute(content.as_slice()).0.to_vec()
}

/// The digest of a byte content, exposed for observability only; it is
/// never the test by which content is judged equal.
pub fn fingerprint(content: &Vec<u8>) -> (r: Vec<u8>)
    ensures
        r@ == md5_of(content@),
        r@.len() == 16,
{
    compute_md5(content)
}

/// Decide whether the incoming content equals what is on disk.  The two
/// digests are computed for observability, but the verdict is byte
/// equality, so a digest collision can never be mistaken for
/// "unchanged".
pub fn if_content_md5_equal(new_content: &Vec<u8>, old_content: &Vec<u8>) -> (r: bool)
    ensures
        r == (new_content@ == old_content@),
{
    let _new_md5 = compute_md5(new_content);
    let _old_md5 = compute_md5(old_content);
    bytes_eq(new_content, old_content)
}

} // verus!
