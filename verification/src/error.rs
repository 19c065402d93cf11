//! Errors raised by the library's own checks.
use vstd::prelude::*;

verus! {

/// Errors raised while building requests, reading configuration or decoding
/// JSON.
#[derive(Debug)]
pub enum OpenRouterError {
    /// A value the caller must supply is missing or invalid.
    ConfigError(String),
    /// The operation needs an API key (or management key) that the client
    /// does not hold.
    KeyNotConfigured,
    /// A builder was asked to build before a required field was set; holds
    /// the field's name.
    UninitializedField(String),
    /// A JSON text could not be parsed, produced, or read as the expected
    /// type.
    Serialization(serde_json::Error),
    /// The HTTP client could not be created.
    Http(reqwest::Error),
    /// The server answered with a status other than a success; holds the
    /// status code and the body of the reply.
    Api { status: u16, body: String },
}

} // verus!
