//! An encrypted credential vault: a master password unlocks a vault key, and
//! the vault key seals the entries that the vault keeps.

pub mod analysis;
pub mod backup;
pub mod commands;
pub mod credentials;
pub mod encoding;
pub mod encryption;
pub mod entry;
pub mod generator;
pub mod manager;
pub mod service;
pub mod user;
