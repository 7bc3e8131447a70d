use vstd::prelude::*;

verus! {

/// Identifiers of projects, users and sessions are `uuid::Uuid` values; this
/// crate only carries them from one step to the next.
#[verifier::external_type_specification]
#[verifier::external_body]
pub struct ExUuid(uuid::Uuid);

} // verus!
