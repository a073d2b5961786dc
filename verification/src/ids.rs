//! Generation of fresh job identifiers.

use vstd::prelude::*;

verus! {

/// Relies on `uuid::Uuid::new_v4` and its hyphenated `Display` form: a
/// fresh random version-4 identifier, printed as 36 characters. Nothing is
/// assumed about which identifier comes out, only its printed length.
#[verifier::external_body]
pub(crate) fn fresh_job_id() -> (r: String)
    ensures
        r@.len() == 36,
{
    uuid::Uuid::new_v4().to_string()
}

} // verus!
