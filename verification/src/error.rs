//! Error type and `Result` alias used throughout the crate.

use vstd::prelude::*;

use crate::text::{decimal_text, u64_text};

verus! {

/// Errors returned by every public operation in this crate.
#[derive(Debug)]
pub enum ClientError {
    /// The server responded `404 Not Found`; the string is the response body.
    NotFound(String),
    /// The server responded with a `4xx` (other than `404`) or `5xx`, or a
    /// configuration value was rejected (status `0`).
    Api {
        /// HTTP status code (`0` for configuration errors).
        status: u16,
        /// Response body or diagnostic text.
        message: String,
    },
    /// Underlying transport or HTTP-layer failure.
    Http(reqwest::Error),
    /// JSON deserialization failed for a typed call.
    Decode(serde_json::Error),
}

impl ClientError {
    /// The error's message, as its `Display` writes it: `"not found: {body}"`,
    /// `"HTTP {status}: {message}"`, or the message of the transport or
    /// decoding error it carries.
    pub fn message(&self) -> (s: String)
        ensures
            self matches ClientError::NotFound(body) ==> s@ == "not found: "@ + body@,
            self matches ClientError::Api { status, message } ==> s@ == "HTTP "@ + decimal_text(
                status as nat,
            ) + ": "@ + message@,
            self matches ClientError::Http(e) ==> vstd::string::to_string_from_display_ensures(
                e,
                s,
            ),
            self matches ClientError::Decode(e) ==> vstd::string::to_string_from_display_ensures(
                e,
                s,
            ),
    {
        match self {
            ClientError::NotFound(body) => String::from_str("not found: ").concat(body.as_str()),
            ClientError::Api { status, message } => {
                let code = u64_text(*status as u64);
                String::from_str("HTTP ").concat(code.as_str()).concat(": ").concat(message.as_str())
            },
            ClientError::Http(e) => e.to_string(),
            ClientError::Decode(e) => e.to_string(),
        }
    }
}

/// Convenience alias for `std::result::Result<T, ClientError>`.
pub type Result<T> = std::result::Result<T, ClientError>;

} // verus!
