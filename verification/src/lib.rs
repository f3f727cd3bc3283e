//! The decision and data logic of the meeting recorder: audio level
//! monitoring state, the transcription queue and sentence accumulator,
//! worker and recording-session policies, tray and window choices.

pub mod audio_monitor;
pub mod text;
pub mod clock;
pub mod transcription;
pub mod wav;
pub mod recording;
pub mod backend;
pub mod tray;
pub mod window_manager;
