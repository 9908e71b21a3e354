//! Weather forecast model, the forecast service's JSON document, and the
//! rendering of a forecast into a chat-webhook message.

pub mod config;
pub mod document;
pub mod error;
pub mod forecast;
pub mod handler;
pub mod json;
pub mod laws;
pub mod message;
