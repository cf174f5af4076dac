//! Ranks endpoint: `GET /ranks/masters`.

use vstd::prelude::*;

use crate::http::Request;
use crate::resources::{fixed_request, is_request};

verus! {

/// Accessor for ranks endpoints.
pub struct RanksResource {}

impl RanksResource {
    /// The accessor.
    pub fn new() -> RanksResource {
        RanksResource {  }
    }

    /// The master-rank addresses (unwrapped from `{"addresses": …}`).
    pub fn masters(&self) -> MastersBuilder {
        MastersBuilder {  }
    }
}

/// Builder for [`RanksResource::masters`].
pub struct MastersBuilder {}

impl MastersBuilder {
    /// The request: `GET /ranks/masters`.
    pub fn request(&self) -> (r: Request)
        ensures
            is_request(r, "/ranks/masters"@, Seq::empty()),
    {
        fixed_request("/ranks/masters")
    }
}

} // verus!
