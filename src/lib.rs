//! A façade over a key/value and hash store reached through a bounded pool
//! of connections: the messages it exchanges with its callers, the store
//! command each operation issues, how a reply becomes a response, and the
//! life of one call from acquiring a connection to its single outcome.
pub mod call;
pub mod command;
pub mod laws;
pub mod messages;
pub mod reply;
pub mod store;
pub mod pool;
