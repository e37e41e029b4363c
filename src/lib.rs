//! Clipboard-to-chat pipeline: configuration validation, clipboard content
//! normalisation, chat-completion request construction and response handling.

pub mod error;
pub mod text;
pub mod config;
pub mod clipboard;
pub mod request;
pub mod response;
