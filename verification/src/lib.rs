//! WhisperMe: local speech-to-text for Linux.
//!
//! This crate holds the decision logic of the dictation daemon and its tools:
//! configuration reading and the file the configuration dialog saves, the
//! socket protocol, the daemon's recording state machine, the transcription
//! emission rules, audio framing, keyboard event encoding for ydotoold and
//! layout detection, monitor selection, the recording indicator's event
//! handling and the model catalogue.
//! Audio capture, the Whisper engine, rendering and all I/O live in the
//! application around it.

pub mod catalogue;
pub mod cli;
pub mod config;
pub mod daemon;
pub mod dialog;
pub mod framing;
pub mod indicator;
pub mod keyboard;
pub mod layout_query;
pub mod monitor;
pub mod output;
pub mod socket;
pub mod spectrum;
pub mod text;
pub mod transcription;
