//! Core logic of the Luma selection translator: drag detection and window
//! placement geometry, clipboard capture decisions, settings validation and
//! the translation request/response rules.

pub mod geometry;
pub mod watcher;
pub mod text;
pub mod settings;
pub mod translator;
pub mod capture;
pub mod windows_capture;
pub mod copy_keys;
pub mod icon;
pub mod commands;
