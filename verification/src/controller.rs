//! The call pipelines on both endpoints: encode, carry, decode.

pub mod client;
pub mod server;
