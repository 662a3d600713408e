//! Postcode and geolocation lookups for the UK, as answered by postcodes.io.
//!
//! The crate holds everything about a lookup except the network round trip:
//! [`Request`] says what to send, and the functions of [`Postcode`] and
//! [`validate`] turn what came back into an answer.

pub mod error;
pub mod json;
pub mod laws;
pub mod record;
pub mod reply;
pub mod request;
pub mod text;

pub use error::Error;
pub use record::{Codes, Double, Postcode};
pub use reply::validate;
pub use request::{Method, Request};
