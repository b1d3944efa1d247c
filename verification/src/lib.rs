//! Request handling, audio admission and transcript assembly for a local
//! speech-to-text sidecar, and the decision logic of its command-line client.

pub mod text;
pub mod backend;
pub mod audio;
pub mod wire;
pub mod server;
pub mod stub;
pub mod whisper;
pub mod cli;
pub mod laws;
