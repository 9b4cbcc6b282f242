//! Rule matching and reaction deduplication for a chat bot that reacts to
//! messages with emoji.
//!
//! The library decides which reactions a message gets: it keeps the per-guild
//! anti-evasion state, filters stored rules by scope and expiry, evaluates
//! their content filters and folds the matching reaction batches into a
//! duplicate-free, ordered list. Talking to the gateway and to the database is
//! left to the caller.

pub mod action;
pub mod attack;
pub mod clock;
pub mod command;
pub mod config;
pub mod filter;
pub mod handler;
pub mod segment;
pub mod target;
pub mod reaction_set;
pub mod regional;
