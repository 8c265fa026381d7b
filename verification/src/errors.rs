//! The error taxonomy of the client.
//!
//! Transport variants are made by the caller that performs the I/O; the
//! library's own functions only ever return the decode-side variants, as
//! their contracts state.

use vstd::prelude::*;

verus! {

/// The advertised version string had no extractable major component.
#[derive(Clone, Copy, Debug, PartialEq, Eq, Structural)]
pub struct InvalidVersionError;

/// Endpoint discovery failed.
#[derive(Clone, Copy, Debug, PartialEq, Eq, Structural)]
pub enum DiscoveryError {
    /// The bootstrap address could not be reached.
    Transport,
    /// The self-description document could not be decoded.
    MalformedBody,
    /// The version string had no extractable major component.
    InvalidVersion,
}

/// The device-authorization grant failed.
#[derive(Clone, Copy, Debug, PartialEq, Eq, Structural)]
pub enum AuthorizationError {
    /// A request during the grant handshake could not be carried out.
    Transport,
    /// A reply during the grant handshake could not be decoded.
    MalformedBody,
}

/// The challenge/session exchange failed.
#[derive(Clone, Copy, Debug, PartialEq, Eq, Structural)]
pub enum SessionError {
    /// A request during the exchange could not be carried out.
    Transport,
    /// A reply during the exchange could not be decoded.
    MalformedBody,
}

/// An authenticated call failed.
#[derive(Clone, Copy, Debug, PartialEq, Eq, Structural)]
pub enum RequestError {
    /// The request could not be carried out.
    Transport,
    /// The response envelope could not be decoded.
    MalformedBody,
}

/// The configuration file could not be written.
#[derive(Clone, Copy, Debug, PartialEq, Eq, Structural)]
pub enum PersistError {
    WriteFailed,
}

} // verus!
