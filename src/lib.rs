//! Client-side request pipeline for the Dark Sky forecast API.
//!
//! The library builds request targets, accumulates response bodies and decodes
//! them, with every failure mapped into one [`ForecastError`] type. Issuing the
//! request itself is left to the HTTP backend that the caller picks.

pub mod body;
pub mod error;
pub mod options;
mod outside;
pub mod request;
pub mod utils;

pub use body::{decode, BodyEvent, BodyReader, BodyStep};
pub use error::ForecastError;
pub use options::QueryOptions;
pub use request::request_target;
pub use utils::{uri, uri_optioned, API_URL};
