//! Turning the request parameters into a request target.

use crate::error::ForecastError;
use crate::utils::{simple_uri, uri};
use vstd::prelude::*;

verus! {

/// Whether `http`'s URI parser accepts the text `s`.
pub uninterp spec fn uri_accepts(s: Seq<char>) -> bool;

/// Relies on `http::Uri::from_str` (re-exported by hyper): it parses the text
/// alone, so whether it succeeds is a function of the text. The error is
/// handed on as its message.
#[verifier::external_body]
fn parse_target(s: &str) -> (r: Result<hyper::Uri, String>)
    ensures
        r is Ok <==> uri_accepts(s@),
{
    match <hyper::Uri as std::str::FromStr>::from_str(s) {
        Ok(target) => Ok(target),
        Err(why) => Err(why.to_string()),
    }
}

/// The request target of a forecast request without options.
///
/// This is the first step of every fetch and makes no network call: text
/// that is no valid request target (a token with a space, say) ends the
/// fetch here with [`ForecastError::Uri`].
pub fn request_target(token: &str, lat: &str, long: &str) -> (r: Result<hyper::Uri, ForecastError>)
    ensures
        r is Ok <==> uri_accepts(simple_uri(token@, lat@, long@)),
        r is Err ==> r matches Err(ForecastError::Uri(_)),
{
    let url = uri(token, lat, long);
    match parse_target(url.as_str()) {
        Ok(target) => Ok(target),
        Err(why) => Err(ForecastError::Uri(why)),
    }
}

} // verus!
