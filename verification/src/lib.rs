//! Verified control-and-event core for a streaming-playback bridge.
//!
//! The library models the orchestration layer between a background engine
//! runtime and a synchronous caller: a bounded event channel with a poll
//! adapter, one-shot synchronizations for session bootstrap and token
//! exchange, a player facade that validates commands, and an explicit error
//! taxonomy. The engine itself (session handshake, audio decoding, remote
//! control) is an external collaborator; the host embedding drives it and
//! feeds its outcomes to the functions here.

pub mod bootstrap;
pub mod channel;
pub mod errors;
pub mod events;
pub mod oneshot;
pub mod player;
pub mod token;
pub mod track;
