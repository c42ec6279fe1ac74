//! The logic of a Discord bot, apart from Discord: the store and the cache of
//! each guild's command prefix, and what the bot's commands compute between
//! what they are given and what they send.
//!
//! The prefix store is the table `Prefix(guild_id TEXT PRIMARY KEY, prefix
//! TEXT)`; [`store`] holds its rows and its statements, [`cache`] the copy in
//! memory that every message is read with, [`admin`] the command that writes
//! both, and [`laws`] what holds of the two together. The other modules hold
//! the commands by their groups; they answer in the plain values of [`embed`]
//! and write numbers and texts with [`numeral`] and [`text`].
//!
//! Nothing here talks to Discord, to the database or to the network: the
//! caller does, and hands over plain values.

pub mod admin;
pub mod cache;
pub mod checks;
pub mod embed;
pub mod fun;
pub mod general;
pub mod laws;
pub mod moderation;
pub mod numeral;
pub mod owner;
pub mod store;
pub mod text;
pub mod util;
pub mod voice;
pub mod weeb;
