//! Verified core of a local-first dictation app: shortcut parsing and
//! canonical formatting, hotkey state tracking, prompt construction,
//! model naming and cache-path rules.

pub mod text;
pub mod shortcut;
pub mod shortcut_laws;
pub mod settings;
pub mod hotkey;
pub mod keymap;
pub mod llm;
pub mod text_processor;
pub mod stt;
pub mod transcription;
pub mod desktop;
pub mod analytics;
pub mod platform;
