//! Connection lifecycle engine for a TCP port-forwarding proxy.
//!
//! The library models the proxy's decision logic: per-connection state
//! (connecting, relaying, closed), timeout policy, connection-ID assignment,
//! and the accept-loop/shutdown bookkeeping that drains in-flight connections
//! before exit. The surrounding program performs the socket operations and
//! feeds the resulting events back into these state machines.

pub mod config;
pub mod conn;
pub mod engine;
pub mod relay;
