//! The error types of other crates that the library's failures carry along.
//! The library reads nothing inside them: it hands them on to its caller.

use vstd::prelude::*;

verus! {

/// `reqwest::Error`: why a request could not be sent or its reply not read.
#[verifier::external_type_specification]
#[verifier::external_body]
pub struct ExTransportError(reqwest::Error);

/// `serde_json::Error`: why a reply was not the JSON that was expected.
#[verifier::external_type_specification]
#[verifier::external_body]
pub struct ExJsonError(serde_json::Error);

/// `std::num::ParseFloatError`: why a text was not read as a temperature.
#[verifier::external_type_specification]
#[verifier::external_body]
pub struct ExTemperatureError(std::num::ParseFloatError);

} // verus!
