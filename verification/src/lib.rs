//! A unary RPC framework core: status taxonomy with its HTTP/2 wire
//! encoding, typed metadata, message envelopes, the client and server
//! call pipelines, and the string logic of the service code generator.

pub mod base64;
pub mod codec;
pub mod codegen;
pub mod common;
pub mod controller;
pub mod headers;
pub mod metadata;
pub mod percent;
pub mod runtime;
pub mod status;
pub mod strutil;
pub mod transport;

pub use codegen::{configure, Builder};
pub use common::{Body, Request, Response};
pub use controller::client;
pub use controller::server;
pub use runtime::{Service, SimpleInstantService, TransportError};
pub use status::{Code, Status};
