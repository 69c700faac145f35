//! Stream demultiplexer and event dispatcher for the Binance realtime feed.
//!
//! Frames arrive as UTF-8 text. Each frame is classified by the first
//! discriminator token it contains, optionally unwrapped from the
//! multiplexed-endpoint envelope, decoded against its schema, and routed to
//! the handler registered for its event family.

pub mod scan;
pub mod classify;
pub mod envelope;
pub mod events;
pub mod jsonval;
pub mod decode;
pub mod endpoint;
pub mod dispatch;
