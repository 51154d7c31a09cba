//! The core of OpenSpace, a desktop AI assistant.
//!
//! The crate holds the plain data that every part of the program speaks of
//! (identifiers, chats, turns, tools, commands, key bindings, themes, settings)
//! and the rules over it: how text is read and written, what the sandbox lets
//! through, when a budget is spent, how settings change and who hears of it.
//!
//! [`store`] holds the rules of the data on disk: what a row of each table means,
//! which migrations run and in what order, how a busy database is retried, and
//! how the settings file is replaced and watched. Nothing here touches a disk or a
//! clock. Work that has to is laid out as a state machine, which names the next
//! action and takes back what came of it.

pub mod agent;
pub mod ai;
pub mod command;
pub mod effect;
pub mod error;
pub mod foreign;
pub mod id;
pub mod json;
pub mod keybinding;
pub mod laws;
pub mod numeral;
pub mod path;
pub mod persistence;
pub mod sandbox;
pub mod settings;
pub mod store;
pub mod text;
pub mod theme;
pub mod time;
pub mod tool;
pub mod workspace;
