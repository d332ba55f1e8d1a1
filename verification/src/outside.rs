use vstd::prelude::*;

verus! {

/// `uuid::Uuid`, carried through the library as an opaque identifier.
#[verifier::external_type_specification]
#[verifier::external_body]
pub struct ExUuid(uuid::Uuid);

} // verus!
