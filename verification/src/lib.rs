//! Verified core of an async client for the PixieChess HTTP API.
//!
//! The library holds everything the client decides: the request each
//! endpoint builder describes (path and query parameters), the client
//! configuration (default headers, base URL), the mapping of HTTP status
//! codes to errors, the page walk behind every auto-paginating endpoint,
//! and the calendar-date rules of the response models.

use vstd::prelude::*;

pub mod error;
mod outside;
pub mod text;
pub mod clock;
pub mod pagination;
pub mod http;
pub mod resources;
pub mod client;
pub mod models;

pub use client::{PixieChessClient, PixieChessClientBuilder};
pub use error::{ClientError, Result};
pub use http::{DEFAULT_BASE_URL, DEFAULT_USER_AGENT};

verus! {

} // verus!
