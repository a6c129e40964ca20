//! The code generator's decisions: service and method paths, name
//! casing, attribute matching, and the builder that configures a
//! generation run.  Emitting the generated source text itself is the
//! host program's concern.

pub mod generator;
pub mod service;

pub use generator::{configure, Builder};
pub use service::{match_name, method_path, naive_snake_case, Attributes};
