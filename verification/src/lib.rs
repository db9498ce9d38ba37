//! Verified core of a chat-completion gateway: backend selection, schema
//! translation, stream normalisation and bearer-token verification.
//!
//! The library decides and translates; it performs no input or output. The
//! program around it fetches key sets, resolves secrets, calls backends and
//! reads the clock, and hands what it got to the functions here.

pub mod auth;
pub mod config;
pub mod entities;
pub mod llm_delegate;
pub mod secret_manager;
pub mod supported_llm;
pub mod text;
