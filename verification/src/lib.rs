//! A one-shot notification dispatcher: optionally run a shell command,
//! resolve the notification content from configuration, command outcome and
//! explicit overrides, and deliver it through one of several channels
//! (desktop popup, audible beep, console echo, email).

pub mod command;
pub mod common;
pub mod config;
pub mod dispatch;
pub mod notify;
