//! Core of a dictation pipeline: bounded audio buffering, voice-activity
//! hysteresis, retry backoff and the recording session state machine.

pub mod audio_capture;
pub mod detector;
pub mod format;
pub mod math;
pub mod models;
pub mod output;
pub mod pipeline;
pub mod prompts;
pub mod providers;
pub mod recordings;
pub mod request_log;
pub mod retry;
pub mod text;
pub mod vad;
pub mod wav;
