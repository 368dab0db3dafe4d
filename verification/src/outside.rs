//! Types of the `openapiv3` crate that the library carries through its
//! functions. Verus sees none of their fields.

use vstd::prelude::*;

verus! {

/// `openapiv3::Schema`.
#[verifier::external_type_specification]
#[verifier::external_body]
pub struct ExSchema(openapiv3::Schema);

/// `openapiv3::Ref`, of which `openapiv3::RefOr` is an alias.
#[verifier::external_type_specification]
#[verifier::external_body]
#[verifier::reject_recursive_types(T)]
pub struct ExRef<T>(openapiv3::Ref<T>);

/// `openapiv3::Parameter`.
#[verifier::external_type_specification]
#[verifier::external_body]
pub struct ExParameter(openapiv3::Parameter);

/// `openapiv3::Operation`; its responses are named in `responses`.
#[verifier::external_type_specification]
#[verifier::external_body]
pub struct ExOperation(openapiv3::Operation);

/// `openapiv3::Response`.
#[verifier::external_type_specification]
#[verifier::external_body]
pub struct ExResponse(openapiv3::Response);

} // verus!
