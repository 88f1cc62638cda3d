//! An asynchronous, severity-gated logging core.
//!
//! Application code emits severity-tagged [`record::Record`]s; a call-site
//! gate compares the requested [`level::Level`] against a configured
//! threshold before a record is even constructed, and accepted records are
//! handed to a bounded FIFO hand-off queue that a single consumer drains in
//! order and renders through a pluggable [`logger::Logger`].

pub mod dispatch;
pub mod facade;
pub mod filter;
pub mod gate;
pub mod handoff;
pub mod level;
pub mod logger;
pub mod record;
