//! The core of a push-to-talk dictation tool.
//!
//! While a trigger key is held the tool records the microphone; on release
//! it has the recording transcribed and types the text into the window that
//! had the focus.  This crate holds the decisions of that path: the session
//! state machine, the audio engine's bookkeeping and its decimation, the
//! text injector's plans, and the workflow that leads from the release of
//! the trigger to the end of the session.  Devices, files, the network and
//! the windowing host are the caller's: every component here says what is to
//! be done and takes in what came of it.

pub mod audio;
pub mod decimate;
pub mod events;
pub mod focus;
pub mod history;
pub mod injection;
pub mod injection_proofs;
pub mod session;
pub mod settings;
pub mod text;
pub mod transcription;
pub mod update;
pub mod workflow;
pub mod workflow_proofs;
