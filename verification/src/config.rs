//! The validated configuration the engine consumes.
//!
//! Addresses are held as plain values (octets or segments plus a port);
//! parsing and validation of the textual form happen outside the engine,
//! which only consumes the finished value. Durations are held in
//! milliseconds. A `session_timeout_ms` of zero means the session is
//! unbounded; `connect_timeout_ms` always has a positive value.

use vstd::prelude::*;

verus! {

/// An IP address as plain values: four octets, or eight 16-bit segments.
#[derive(Clone, Copy, Debug, PartialEq, Eq, Structural)]
pub enum IpAddress {
    V4 { a: u8, b: u8, c: u8, d: u8 },
    V6 { s0: u16, s1: u16, s2: u16, s3: u16, s4: u16, s5: u16, s6: u16, s7: u16 },
}

/// A socket endpoint: an IP address and a port.
#[derive(Clone, Copy, Debug, PartialEq, Eq, Structural)]
pub struct Endpoint {
    pub ip: IpAddress,
    pub port: u16,
}

/// Default bound on establishing the outbound connection: five seconds.
pub const DEFAULT_CONNECT_TIMEOUT_MS: u64 = 5000;

/// Session timeout value that disables the session bound.
pub const SESSION_UNBOUNDED_MS: u64 = 0;

/// Immutable configuration: where to listen, where to forward, and the two
/// independent timeout budgets.
#[derive(Clone, Copy, Debug, PartialEq, Eq, Structural)]
pub struct Config {
    /// Local address on which client connections are accepted.
    pub listen: Endpoint,
    /// Remote address every accepted connection is relayed to.
    pub remote: Endpoint,
    /// Maximum time allowed for establishing the outbound connection.
    /// Always positive.
    pub connect_timeout_ms: u64,
    /// Maximum total lifetime of an established relay; zero disables the
    /// limit.
    pub session_timeout_ms: u64,
}

impl Config {
    /// A configuration is valid when its connect timeout is positive;
    /// the session timeout may be any value (zero meaning unbounded).
    pub open spec fn valid(self) -> bool {
        self.connect_timeout_ms > 0
    }

    /// Whether the session timeout is disabled.
    pub open spec fn session_unbounded(self) -> bool {
        self.session_timeout_ms == SESSION_UNBOUNDED_MS
    }

    /// Builds a configuration from already-validated parts.
    pub fn new(listen: Endpoint, remote: Endpoint, connect_timeout_ms: u64, session_timeout_ms: u64) -> (r: Config)
        requires
            connect_timeout_ms > 0,
        ensures
            r == (Config { listen, remote, connect_timeout_ms, session_timeout_ms }),
            r.valid(),
    {
        Config { listen, remote, connect_timeout_ms, session_timeout_ms }
    }

    /// Builds a configuration with the default connect timeout and the
    /// session bound disabled.
    pub fn with_defaults(listen: Endpoint, remote: Endpoint) -> (r: Config)
        ensures
            r.listen == listen,
            r.remote == remote,
            r.connect_timeout_ms == DEFAULT_CONNECT_TIMEOUT_MS,
            r.session_unbounded(),
            r.valid(),
    {
        Config {
            listen,
            remote,
            connect_timeout_ms: DEFAULT_CONNECT_TIMEOUT_MS,
            session_timeout_ms: SESSION_UNBOUNDED_MS,
        }
    }

    /// Whether a session that has been open for `elapsed_ms` must be
    /// forcibly terminated: only when the session bound is enabled and has
    /// elapsed.
    pub fn session_expired(&self, elapsed_ms: u64) -> (r: bool)
        ensures
            r <==> (!self.session_unbounded() && elapsed_ms >= self.session_timeout_ms),
    {
        self.session_timeout_ms != SESSION_UNBOUNDED_MS && elapsed_ms >= self.session_timeout_ms
    }
}

} // verus!
