//! Session lifecycle and streaming protocol around a speech decoding engine.
//!
//! The engine itself (model loading, inference, lattice search) lives behind a
//! native boundary that this crate never crosses. What is here is the layer
//! around it, written so that every decision is a function of plain values:
//! which sessions may be created from which configuration, when audio may be
//! fed, how the engine's replies are read, and when a handle is given back.
//! The caller performs the native calls and hands their replies in.

pub mod config;
pub mod error;
pub mod json;
pub mod model;
pub mod session;
pub mod speaker;
pub mod transcription;

pub use config::{
    SessionVariant, VoskSessionConfig, VoskSessionConfigBuilder, DEFAULT_SAMPLING_FREQ,
};
pub use error::{
    ConfigError, DecodeProtocolError, InvalidStateError, ModelLoadError, SessionCreateError,
    SessionError,
};
pub use model::VoskModel;
pub use session::{SessionRequest, SessionState, VoskSession};
pub use speaker::SpeakerModel;
pub use transcription::{TranscriptionPartialResult, TranscriptionResult, TranscriptionWord};
