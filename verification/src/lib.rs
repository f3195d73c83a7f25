//! A chat-command dispatcher whose core is currency conversion: resolving
//! per-user defaults, caching exchange rates and historical series, and
//! rendering both as embeds.

pub mod command;
pub mod commands;
pub mod embed;
pub mod error;
pub mod helpers;
pub mod interaction;
pub mod number;
pub mod text;
