//! Per-connection lifecycle: `Connecting` to `Relaying` to `Closed`.
//!
//! A `Connection` records one accepted client paired with its eventual
//! remote connection: its identifier, its phase, per-direction byte
//! counters and end-of-stream flags. The surrounding program performs the
//! socket operations and reports each outcome as a `ConnEvent`; `step`
//! computes the next state. No phase is re-entered and `Closed` is
//! terminal.

use crate::config::Config;
use vstd::prelude::*;

verus! {

/// Why a connection reached `Closed`. Distinguishes the failure paths so
/// the corresponding observation can be emitted: a connect refusal or
/// error, a connect timeout, a normal end-of-stream completion, a session
/// timeout, or a mid-relay I/O error.
#[derive(Clone, Copy, Debug, PartialEq, Eq, Structural)]
pub enum CloseKind {
    /// The outbound connect was refused or failed before the timeout.
    ConnectFailed,
    /// The connect timeout elapsed before the outbound connect finished.
    ConnectTimedOut,
    /// Both directions reached end-of-stream and were fully drained.
    Normal,
    /// The session timeout elapsed while still relaying.
    SessionTimedOut,
    /// A read or write on either socket failed during the relay.
    IoError,
}

/// The lifecycle phase of a connection.
#[derive(Clone, Copy, Debug, PartialEq, Eq, Structural)]
pub enum Phase {
    /// The outbound connect to the remote is in flight.
    Connecting,
    /// Bytes are being copied in both directions.
    Relaying,
    /// Terminal: both sockets are (being) closed.
    Closed { kind: CloseKind },
}

/// An outcome of the surrounding program's socket work, reported to `step`.
#[derive(Clone, Copy, Debug, PartialEq, Eq, Structural)]
pub enum ConnEvent {
    /// The outbound connect succeeded before the connect timeout.
    ConnectOk,
    /// The outbound connect was refused or failed before the timeout.
    ConnectFailed,
    /// The connect timeout elapsed first.
    ConnectTimedOut,
    /// `n` bytes were copied from the client to the remote.
    ClientBytes { n: u64 },
    /// `n` bytes were copied from the remote to the client.
    RemoteBytes { n: u64 },
    /// The client closed its write end; that direction is drained.
    ClientEof,
    /// The remote closed its write end; that direction is drained.
    RemoteEof,
    /// A read or write failed during the relay.
    IoFailed,
    /// The session timer fired while the relay was still open.
    SessionTimerFired,
}

/// One accepted client socket paired with its eventual remote socket.
#[derive(Clone, Copy, Debug, PartialEq, Eq, Structural)]
pub struct Connection {
    /// Identifier assigned at accept time, used to correlate observations.
    pub id: u64,
    /// Current lifecycle phase.
    pub phase: Phase,
    /// Bytes copied from the client to the remote so far.
    pub client_to_remote: u64,
    /// Bytes copied from the remote to the client so far.
    pub remote_to_client: u64,
    /// Whether the client side has signalled end-of-stream.
    pub client_eof: bool,
    /// Whether the remote side has signalled end-of-stream.
    pub remote_eof: bool,
}

impl Connection {
    /// The state a connection starts in: connecting, nothing relayed yet.
    pub open spec fn fresh(id: u64) -> Connection {
        Connection {
            id,
            phase: Phase::Connecting,
            client_to_remote: 0,
            remote_to_client: 0,
            client_eof: false,
            remote_eof: false,
        }
    }

    /// While still connecting, no byte has been relayed and no side has
    /// reached end-of-stream.
    pub open spec fn wf(self) -> bool {
        self.phase is Connecting ==> {
            &&& self.client_to_remote == 0
            &&& self.remote_to_client == 0
            &&& !self.client_eof
            &&& !self.remote_eof
        }
    }

    /// The event's byte count still fits in the direction's counter.
    pub open spec fn event_fits(self, ev: ConnEvent) -> bool {
        &&& (ev matches ConnEvent::ClientBytes { n } ==> self.client_to_remote + n <= u64::MAX)
        &&& (ev matches ConnEvent::RemoteBytes { n } ==> self.remote_to_client + n <= u64::MAX)
    }

    /// Creates the connection record for a newly accepted client.
    pub fn open(id: u64) -> (r: Connection)
        ensures
            r == Connection::fresh(id),
    {
        Connection {
            id,
            phase: Phase::Connecting,
            client_to_remote: 0,
            remote_to_client: 0,
            client_eof: false,
            remote_eof: false,
        }
    }

    /// Applies one event, returning the next state; equal to `spec_step`.
    pub fn step(self, cfg: Config, ev: ConnEvent) -> (r: Connection)
        requires
            self.event_fits(ev),
        ensures
            r == spec_step(self, cfg, ev),
    {
        match self.phase {
            Phase::Connecting => match ev {
                ConnEvent::ConnectOk => Connection { phase: Phase::Relaying, ..self },
                ConnEvent::ConnectFailed => Connection {
                    phase: Phase::Closed { kind: CloseKind::ConnectFailed },
                    ..self
                },
                ConnEvent::ConnectTimedOut => Connection {
                    phase: Phase::Closed { kind: CloseKind::ConnectTimedOut },
                    ..self
                },
                _ => self,
            },
            Phase::Relaying => match ev {
                ConnEvent::ClientBytes { n } => {
                    if self.client_eof {
                        self
                    } else {
                        Connection { client_to_remote: self.client_to_remote + n, ..self }
                    }
                },
                ConnEvent::RemoteBytes { n } => {
                    if self.remote_eof {
                        self
                    } else {
                        Connection { remote_to_client: self.remote_to_client + n, ..self }
                    }
                },
                ConnEvent::ClientEof => Connection {
                    client_eof: true,
                    phase: if self.remote_eof {
                        Phase::Closed { kind: CloseKind::Normal }
                    } else {
                        Phase::Relaying
                    },
                    ..self
                },
                ConnEvent::RemoteEof => Connection {
                    remote_eof: true,
                    phase: if self.client_eof {
                        Phase::Closed { kind: CloseKind::Normal }
                    } else {
                        Phase::Relaying
                    },
                    ..self
                },
                ConnEvent::IoFailed => Connection {
                    phase: Phase::Closed { kind: CloseKind::IoError },
                    ..self
                },
                ConnEvent::SessionTimerFired => {
                    if cfg.session_timeout_ms == 0 {
                        self
                    } else {
                        Connection { phase: Phase::Closed { kind: CloseKind::SessionTimedOut }, ..self }
                    }
                },
                _ => self,
            },
            Phase::Closed { .. } => self,
        }
    }

    /// The final per-direction byte counts, reported only for a connection
    /// that closed normally; on any other path the counters are not final
    /// statistics.
    pub fn final_stats(&self) -> (r: Option<(u64, u64)>)
        ensures
            match r {
                Some(counts) => {
                    &&& self.phase == (Phase::Closed { kind: CloseKind::Normal })
                    &&& counts.0 == self.client_to_remote
                    &&& counts.1 == self.remote_to_client
                },
                None => self.phase != (Phase::Closed { kind: CloseKind::Normal }),
            },
    {
        match self.phase {
            Phase::Closed { kind: CloseKind::Normal } => Some(
                (self.client_to_remote, self.remote_to_client),
            ),
            _ => None,
        }
    }

    /// Whether the connection has reached its terminal phase.
    pub fn is_closed(&self) -> (r: bool)
        ensures
            r <==> self.phase is Closed,
    {
        match self.phase {
            Phase::Closed { .. } => true,
            _ => false,
        }
    }
}

/// The transition relation of the lifecycle: what one event does to a
/// connection under a given configuration. Events that cannot occur in the
/// current phase, or that concern a direction already at end-of-stream,
/// leave the state unchanged; every event on a closed connection does too.
pub open spec fn spec_step(c: Connection, cfg: Config, ev: ConnEvent) -> Connection {
    match c.phase {
        Phase::Connecting => match ev {
            ConnEvent::ConnectOk => Connection { phase: Phase::Relaying, ..c },
            ConnEvent::ConnectFailed => Connection {
                phase: Phase::Closed { kind: CloseKind::ConnectFailed },
                ..c
            },
            ConnEvent::ConnectTimedOut => Connection {
                phase: Phase::Closed { kind: CloseKind::ConnectTimedOut },
                ..c
            },
            _ => c,
        },
        Phase::Relaying => match ev {
            ConnEvent::ClientBytes { n } => if c.client_eof {
                c
            } else {
                Connection { client_to_remote: (c.client_to_remote + n) as u64, ..c }
            },
            ConnEvent::RemoteBytes { n } => if c.remote_eof {
                c
            } else {
                Connection { remote_to_client: (c.remote_to_client + n) as u64, ..c }
            },
            ConnEvent::ClientEof => Connection {
                client_eof: true,
                phase: if c.remote_eof {
                    Phase::Closed { kind: CloseKind::Normal }
                } else {
                    Phase::Relaying
                },
                ..c
            },
            ConnEvent::RemoteEof => Connection {
                remote_eof: true,
                phase: if c.client_eof {
                    Phase::Closed { kind: CloseKind::Normal }
                } else {
                    Phase::Relaying
                },
                ..c
            },
            ConnEvent::IoFailed => Connection { phase: Phase::Closed { kind: CloseKind::IoError }, ..c },
            ConnEvent::SessionTimerFired => if cfg.session_unbounded() {
                c
            } else {
                Connection { phase: Phase::Closed { kind: CloseKind::SessionTimedOut }, ..c }
            },
            _ => c,
        },
        Phase::Closed { .. } => c,
    }
}

/// Phases in the order they are entered; used to state that no phase is
/// re-entered.
pub open spec fn phase_rank(p: Phase) -> int {
    match p {
        Phase::Connecting => 0,
        Phase::Relaying => 1,
        Phase::Closed { .. } => 2,
    }
}

/// A step never moves a connection to an earlier phase: the lifecycle runs
/// `Connecting`, `Relaying`, `Closed` and no phase is re-entered.
pub proof fn lemma_phase_monotone(c: Connection, cfg: Config, ev: ConnEvent)
    ensures
        phase_rank(spec_step(c, cfg, ev).phase) >= phase_rank(c.phase),
{
}

/// `Closed` is terminal: no event changes a closed connection.
pub proof fn lemma_closed_terminal(c: Connection, cfg: Config, ev: ConnEvent)
    requires
        c.phase is Closed,
    ensures
        spec_step(c, cfg, ev) == c,
{
}

/// Every step preserves well-formedness and never changes the identifier.
pub proof fn lemma_step_wf(c: Connection, cfg: Config, ev: ConnEvent)
    requires
        c.wf(),
    ensures
        spec_step(c, cfg, ev).wf(),
        spec_step(c, cfg, ev).id == c.id,
{
}

/// A refused (or otherwise failed) outbound connect closes the connection
/// with the connect-failure kind and zero bytes relayed in either
/// direction.
pub proof fn lemma_connect_refused_relays_nothing(c: Connection, cfg: Config)
    requires
        c.wf(),
        c.phase is Connecting,
    ensures
        spec_step(c, cfg, ConnEvent::ConnectFailed).phase == (Phase::Closed {
            kind: CloseKind::ConnectFailed,
        }),
        spec_step(c, cfg, ConnEvent::ConnectFailed).client_to_remote == 0,
        spec_step(c, cfg, ConnEvent::ConnectFailed).remote_to_client == 0,
{
}

/// A connect attempt on which the connect timeout fires first closes the
/// connection with the timeout kind and zero bytes relayed; the
/// observation is distinguished from a refusal.
pub proof fn lemma_connect_timeout_relays_nothing(c: Connection, cfg: Config)
    requires
        c.wf(),
        c.phase is Connecting,
    ensures
        spec_step(c, cfg, ConnEvent::ConnectTimedOut).phase == (Phase::Closed {
            kind: CloseKind::ConnectTimedOut,
        }),
        spec_step(c, cfg, ConnEvent::ConnectTimedOut).client_to_remote == 0,
        spec_step(c, cfg, ConnEvent::ConnectTimedOut).remote_to_client == 0,
{
}

/// With the session bound enabled, the session timer firing mid-relay
/// forcibly closes the connection, with the session-timeout kind — not the
/// normal-completion kind.
pub proof fn lemma_session_timeout_closes(c: Connection, cfg: Config)
    requires
        c.phase is Relaying,
        !cfg.session_unbounded(),
    ensures
        spec_step(c, cfg, ConnEvent::SessionTimerFired).phase == (Phase::Closed {
            kind: CloseKind::SessionTimedOut,
        }),
{
}

/// With the session bound disabled, the session timer firing changes
/// nothing: the relay is bounded only by its natural end.
pub proof fn lemma_session_unbounded_never_expires(c: Connection, cfg: Config)
    requires
        cfg.session_unbounded(),
    ensures
        spec_step(c, cfg, ConnEvent::SessionTimerFired) == c,
{
}

} // verus!
