//! The verified core of Voxely, a voice dictation app: the session state
//! machine, retry scheduling, text insertion planning, history retention,
//! settings rules and the other decisions the app makes, each with a
//! contract.
use vstd::prelude::*;

pub mod text;
pub mod clock;
pub mod error;
pub mod logging;
pub mod app;
pub mod notify;
pub mod history;
pub mod audio;
pub mod transcription;
pub mod settings;
pub mod updates;
pub mod windows_int;
pub mod dsp;
