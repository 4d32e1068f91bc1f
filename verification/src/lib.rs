//! Typed decoding of the replies of an IP geolocation service.
//!
//! The library writes the target of a query ([`request_target`],
//! [`request_uri`]) and reads the body of the reply ([`collect_body`],
//! [`decode`]) into a [`Response`]. Sending the request is left to the
//! caller.

pub mod body;
pub mod failure;
pub mod json;
pub mod laws;
pub mod lookup;
pub mod request;
pub mod response;

pub use body::{collect_body, decode};
pub use failure::{Failure, Stage};
pub use request::{request_target, request_uri};
pub use response::{Coordinates, NameAndCode, Response};
