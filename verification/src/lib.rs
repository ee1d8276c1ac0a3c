//! Backend selection and playback-sink contracts for native audio output.
//!
//! The library enumerates the audio output technologies a player build can
//! drive, resolves a default backend by a fixed priority order, and states
//! the protocol that every output handle and playback sink must obey:
//! fixed device properties, replaceable sources, and a permanently inert
//! state after `close`. A fully verified null driver, which accepts the
//! whole protocol and discards the audio, accompanies the contracts.

pub mod backend;
pub mod error;
pub mod null;
pub mod output;

pub use backend::Backend;
pub use backend::BackendSet;
pub use error::Error;
pub use null::NullOutput;
pub use null::NullSink;
pub use null::SilenceSource;
pub use output::AudioOutput;
pub use output::AudioSink;
pub use output::AudioSource;
pub use output::SinkState;
