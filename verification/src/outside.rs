//! Types of other crates that the library carries through without looking
//! inside them.

use vstd::prelude::*;

verus! {

/// `uuid::Uuid`, the identifier of submissions, problems, users and test
/// cases. The library stores identifiers, hands them on and compares them
/// for equality.
#[verifier::external_type_specification]
#[verifier::external_body]
pub struct ExUuid(uuid::Uuid);

/// `Uuid::eq`, which `uuid` derives over the bytes of the identifier: two
/// identifiers are equal exactly if they are the same value.
pub assume_specification[ <uuid::Uuid as PartialEq>::eq ](a: &uuid::Uuid, b: &uuid::Uuid) -> (r:
    bool)
    ensures
        r == (*a == *b),
;

} // verus!
