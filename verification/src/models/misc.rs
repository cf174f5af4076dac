//! Miscellaneous models.

use vstd::prelude::*;

verus! {

/// Public configuration flags from `GET /config/public`.
#[derive(Debug, Clone, PartialEq, Eq)]
pub struct PublicConfig {
    pub open_to_all: bool,
}

} // verus!
