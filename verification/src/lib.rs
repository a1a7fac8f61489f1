//! Deterministic text pipeline and delivery decisions of the AudioBud dictation app.
pub mod unicode;
pub mod actions;
pub mod audio;
pub mod cli;
pub mod clipboard;
pub mod clipboard_snapshot;
pub mod command;
pub mod commands;
pub mod delivery_queue;
pub mod dictation_context;
pub mod engine_limits;
pub mod key_chord;
pub mod history;
pub mod language;
pub mod learned;
pub mod learnable;
pub mod extract;
pub mod main_window;
pub mod numbers;
pub mod output_profile;
pub mod replacements;
pub mod personalization;
pub mod post_process;
pub mod settings;
pub mod spoken_punctuation;
pub mod text;
pub mod transcription;
pub mod watchdog;
