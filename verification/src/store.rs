//! The decisions of the stores: what is written and read, what is refused, when
//! a failed write is tried again, and how failures are reported.
//!
//! Nothing here touches a database or a file. Whoever does hands in what came
//! back and gets told what to do next.

pub mod attachment;
pub mod chat;
pub mod data_dirs;
pub mod database;
pub mod migration;
pub mod permission;
pub mod report;
pub mod session;
pub mod settings_store;
pub mod sql;
pub mod turn;
pub mod watcher;
pub mod workspace;
pub mod writer;
