//! What the commands lean on: the dictionary client and the currency
//! exchange client with its stores and caches.

pub mod calendar;
pub mod preferences;
pub mod rate_cache;
pub mod store;
pub mod timeseries;
pub mod timeseries_cache;
pub mod xe_client;
pub mod jisho_client;
