//! The commands that the dispatcher knows.

pub mod hey;
pub mod jisho;
pub mod xe;
