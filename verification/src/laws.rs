//! What holds of the library's operations, stated over what goes into a call and
//! what comes out of it.
//!
//! A law that speaks of one call, or of several in a row, has what the calls were
//! given and what they returned as its parameters.

pub mod agent;
pub mod command;
pub mod failures;
pub mod files;
pub mod migration;
pub mod plain;
pub mod records;
pub mod sandbox;
pub mod settings;
pub mod store;
pub mod text;
