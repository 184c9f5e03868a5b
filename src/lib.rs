//! Conversation state, streaming and request handling for a single-model chat service.

pub mod history;
pub mod error;
pub mod text;
pub mod device;
pub mod engine;
pub mod streaming;
pub mod service;
