//! Polls code-hosting accounts for open pull requests and decides when a
//! pending review request for a watched login deserves a notification.

pub mod config;
pub mod console;
pub mod matcher;
pub mod plugins;
pub mod poll;
pub mod text;
