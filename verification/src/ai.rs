//! Conversations with language models: their data, the errors of providers and
//! the secrets that providers need.

pub mod domain;
pub mod error;
pub mod provider;
pub mod secret;
