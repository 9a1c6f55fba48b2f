//! Types of the host SDK that the contract interfaces hand through untouched.

use vstd::prelude::*;

verus! {

/// `near_sdk::PromiseOrValue`: what a contract method that may defer its answer returns,
/// the answer itself or a promise that the host resolves later. The library hands such
/// values through and never looks inside.
#[verifier::external_type_specification]
#[verifier::external_body]
#[verifier::reject_recursive_types(T)]
pub struct ExPromiseOrValue<T>(near_sdk::PromiseOrValue<T>);

} // verus!
