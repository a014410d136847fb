//! An offline secret vault: key derivation, authenticated encryption of
//! vault items, the in-memory key session and the rules of each vault
//! command, with their contracts proved by Verus.

pub mod error;
pub mod encoding;
pub mod crypto;
pub mod session;
pub mod item;
pub mod commands;
