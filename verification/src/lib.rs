//! Core logic of a push-to-talk voice-capture orchestrator.
//!
//! While a hotkey is held, audio is captured; on release the capture is
//! downmixed, resampled and serialized as a mono 16-bit PCM artifact, handed
//! to a speech-to-text engine, optionally cleaned through a language-model
//! rewrite, and delivered to output sinks (keystroke injection, clipboard).
//!
//! This crate holds the verified decision and data logic: the session state
//! machine, the audio sample pipeline, the WAV serialization, the cleanup
//! retry policy, and the output fan-out rules. Device, network and file I/O
//! live outside, in thin adapters that feed these functions plain values.

pub mod audio;
pub mod input;
pub mod model;
pub mod output;
pub mod post_process;
pub mod session;
pub mod text;
pub mod wav;
