//! The verified core of mugon, a tray utility that mutes and push-to-talks the
//! microphone.

pub mod audio;
pub mod autostart;
pub mod commands;
pub mod config;
pub mod dispatch;
pub mod hotkey;
pub mod modes;
pub mod notify;
pub mod scalar;
pub mod span;
pub mod startup;
pub mod state;
pub mod text;
pub mod tray;
