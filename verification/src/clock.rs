//! The timestamp that names backup snapshots.

use vstd::prelude::*;

verus! {

/// Relies on chrono::Local::now and chrono's strftime formatter: the
/// current local time rendered as `%Y%m%d_%H%M%S`, a sortable
/// second-granularity timestamp.  The result depends on the wall clock,
/// so nothing is assumed about its value; every caller must hold for
/// whatever string comes back.
#[verifier::external_body]
pub(crate) fn local_timestamp() -> (r: String) {
    chrono::Local::now().format("%Y%m%d_%H%M%S").to_string()
}

} // verus!
