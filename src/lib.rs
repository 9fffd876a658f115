//! Transcription of uploaded audio by an external speech-to-text engine:
//! where the audio, the engine and its model are found, how the engine is
//! called, and how its transcript is recovered. Filesystem access and the
//! process itself are left to the caller, which hands in what it observed.
pub mod config;
pub mod decimal;
pub mod error;
pub mod extract;
pub mod invoke;
pub mod paths;
pub mod resolve;
