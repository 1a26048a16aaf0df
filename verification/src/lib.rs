//! The decision logic of a Discord bot that links Discord accounts to
//! generals.io usernames: the slash-command table and its dispatch, the
//! registration checks, the profile lookups and the text of every reply.
//!
//! Network, database and Discord gateway work is done by the caller; the
//! functions here take what came back as plain values and say what to do next.

pub mod commands;
pub mod database;
pub mod embeds;
pub mod options;
pub mod profile;
pub mod register;
pub mod text;
