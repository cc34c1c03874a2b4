//! The failures that the operations of this crate report.

use vstd::prelude::*;

verus! {

/// A model or speaker model could not be loaded: the engine gave no handle.
#[derive(Debug, Clone, Copy, PartialEq, Eq, Structural)]
pub struct ModelLoadError;

/// A configuration that cannot describe a session.
#[derive(Debug, Clone, Copy, PartialEq, Eq, Structural)]
pub enum ConfigError {
    /// The sampling frequency is not greater than zero.
    InvalidSamplingFrequency,
    /// A grammar and a speaker model were both asked for.
    ConflictingOptions,
}

/// The engine refused to create a session from the parameters it was given.
#[derive(Debug, Clone, Copy, PartialEq, Eq, Structural)]
pub struct SessionCreateError;

/// An operation was asked of a session in a state that does not allow it.
#[derive(Debug, Clone, Copy, PartialEq, Eq, Structural)]
pub struct InvalidStateError;

/// A reply of the engine did not have the shape that was agreed on.
#[derive(Debug, Clone, Copy, PartialEq, Eq, Structural)]
pub struct DecodeProtocolError;

/// What can go wrong when a result is asked of a session.
#[derive(Debug, Clone, Copy, PartialEq, Eq, Structural)]
pub enum SessionError {
    /// The session has been finalized.
    InvalidState(InvalidStateError),
    /// The engine's reply could not be decoded.
    DecodeProtocol(DecodeProtocolError),
}

} // verus!
