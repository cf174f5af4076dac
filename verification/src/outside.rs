//! Outside types that values of this crate carry through unchanged.

use vstd::prelude::*;

verus! {

/// `reqwest::Error`, carried by the transport variant of the crate's error.
#[verifier::external_type_specification]
#[verifier::external_body]
pub struct ExTransportFailure(reqwest::Error);

/// `serde_json::Error`, carried by the decode variant of the crate's error.
#[verifier::external_type_specification]
#[verifier::external_body]
pub struct ExJsonFailure(serde_json::Error);

/// `std::time::SystemTime`, a reading of the system clock.
#[verifier::external_type_specification]
#[verifier::external_body]
pub struct ExClockReading(std::time::SystemTime);

} // verus!
