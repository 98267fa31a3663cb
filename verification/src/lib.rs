//! Request/reply correlation and latency sampling for a JSON-RPC client that
//! multiplexes many calls over one connection.
//!
//! The crate holds the decisions of such a client as plain functions with
//! machine-checked contracts: which id a call gets, which waiter a reply
//! belongs to, what an inbound frame is, which latency figures a finished
//! roundtrip yields, how a sample is persisted and read back, and what a
//! summary of the persisted samples reports. Sockets, clocks and files stay
//! with the caller.

pub mod config;
pub mod correlation;
pub mod frame;
pub mod json;
pub mod latency;
pub mod reader;
pub mod record;
pub mod report;
pub mod request;
pub mod script;
pub mod summary;
pub mod tick;
