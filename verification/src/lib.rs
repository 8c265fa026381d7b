//! Verified client logic for a home router's local management API.
//!
//! The library holds the protocol logic: deriving the API base URL from the
//! router's self-description, the device-authorization poll decisions, the
//! token-store document codec, the HMAC challenge-response password, and the
//! decoding of the protocol's JSON documents. All network and file I/O lives
//! outside the library; callers hand bodies in and take values back.

pub mod authz;
pub mod clock;
pub mod config;
pub mod endpoint;
pub mod errors;
pub mod executor;
pub mod hex;
pub mod json;
pub mod numfmt;
pub mod session;
pub mod strutil;
pub mod types;
