//! Typed client core for the VictorOps public REST API.
//!
//! The library decides everything about an exchange that does not need the
//! network: the request line, headers and body of each operation, how a
//! response status is classified, and how list responses are searched.

pub mod client;
pub mod error;
pub mod lookup;
pub mod request;
pub mod text;
pub mod types;

pub use error::{ApiResult, Error};
pub use request::Client;
