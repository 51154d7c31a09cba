//! What is stored, and how storing it can fail.

pub mod error;
pub mod types;

pub use error::PersistenceError;
pub use types::{
    Attachment, PermissionDecision, PermissionGrant, PermissionScope, Session, SessionMode,
};
