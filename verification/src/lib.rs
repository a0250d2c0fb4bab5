//! Core of a chat-to-speech narrator: a per-guild session registry, an
//! ordered dictionary of text substitutions, speaker-change attribution,
//! synthesis-provider dispatch, and audio artifact naming.

pub mod artifact;
pub mod attribution;
pub mod credential;
pub mod dictionary;
pub mod pipeline;
pub mod provider;
pub mod registry;
pub mod session;
pub mod text;
