//! Hermes: the decision logic of a push-to-talk dictation tray app, verified.

pub mod config;
pub mod diagnostics;
pub mod dictation;
pub mod hotkey;
pub mod paths;
pub mod platform;
pub mod stt;
pub mod text;
pub mod typing;
