//! Keeps one DNS address record at a provider pointed at the host's current
//! public IPv4 address: the record and request it writes, how the provider's
//! answer is read, the startup settings, and the decisions of the polling loop.

pub mod config;
pub mod driver;
pub mod record;
pub mod request;
pub mod response;
