//! The one error type that crosses the library's boundary.

use vstd::prelude::*;

verus! {

/// Every way in which a forecast request can fail.
#[derive(Debug)]
pub enum ForecastError {
    /// The request URI could not be parsed into a request target; the
    /// parser's description of the failure.
    Uri(String),
    /// The network call, or reading the response body, failed; the backend's
    /// description of the failure.
    Transport(String),
    /// The response body is not a valid JSON document.
    Decode(serde_json::Error),
}

} // verus!
