//! Core of a media-trimming pipeline: argument builders for the external
//! encoder, player and denoiser, a parser for the encoder's loudness
//! diagnostics, scratch-file path computation, structured errors, and the
//! orchestrator that sequences the conditional stages.
//!
//! Decibel quantities are held in thousandths of a decibel, and times in
//! milliseconds, so every computation here is exact integer arithmetic.
pub mod args;
pub mod config;
pub mod errors;
pub mod numfmt;
pub mod pipeline;
pub mod scratch;
pub mod timefmt;
pub mod volume;
