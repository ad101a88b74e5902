//! Core of a live speech-transcription pipeline.
//!
//! A hardware-driven capture callback produces chunks of mono audio; a
//! non-real-time loop feeds them to an incremental recognition engine and
//! renders partial and finalized transcriptions on a single terminal line.
//! This crate holds the verified heart of that pipeline: resolution of a
//! mono capture configuration, the FIFO transfer channel between producer
//! and consumer, the interpretation of the engine's per-chunk decoding
//! states as transcription events, and the model of the terminal line the
//! events are rendered to.

pub mod channel;
pub mod config;
pub mod display;
pub mod events;
pub mod session;
