//! The envelopes a call moves: a payload with its metadata, and the
//! opaque body that crosses the transport boundary.

pub mod body;
pub mod request;
pub mod response;

pub use body::Body;
pub use request::Request;
pub use response::Response;
