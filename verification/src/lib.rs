//! Voice dictation core: audio conditioning, the recording session state
//! machine, focus resolution, text delivery and transcription dispatch,
//! each with machine-checked contracts.

pub mod audio;
pub mod error;
pub mod recording;
pub mod text;
pub mod hotkey;
pub mod focus;
pub mod text_insertion;
pub mod stt;
pub mod enhancement;
pub mod permissions;
pub mod security;
pub mod settings;
pub mod providers;
pub mod health;
