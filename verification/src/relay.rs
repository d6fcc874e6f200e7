//! Whole-relay accounting: what a run of events does to a connection.
//!
//! A relay is a sequence of per-direction byte transfers and end-of-stream
//! signals. `run` folds `spec_step` over such a sequence; the lemmas here
//! state that a relay that ends with both directions drained closes
//! normally and reports exactly the bytes each side sent.

use crate::config::Config;
use crate::conn::{spec_step, ConnEvent, Connection, CloseKind, Phase};
use vstd::prelude::*;

verus! {

/// The connection reached by applying the events in order.
pub open spec fn run(c: Connection, cfg: Config, evs: Seq<ConnEvent>) -> Connection
    decreases evs.len(),
{
    if evs.len() == 0 {
        c
    } else {
        run(spec_step(c, cfg, evs.first()), cfg, evs.drop_first())
    }
}

/// Total bytes the client sent, over a sequence of events.
pub open spec fn client_bytes_total(evs: Seq<ConnEvent>) -> nat
    decreases evs.len(),
{
    if evs.len() == 0 {
        0
    } else {
        (match evs.first() {
            ConnEvent::ClientBytes { n } => n as nat,
            _ => 0,
        }) + client_bytes_total(evs.drop_first())
    }
}

/// Total bytes the remote sent, over a sequence of events.
pub open spec fn remote_bytes_total(evs: Seq<ConnEvent>) -> nat
    decreases evs.len(),
{
    if evs.len() == 0 {
        0
    } else {
        (match evs.first() {
            ConnEvent::RemoteBytes { n } => n as nat,
            _ => 0,
        }) + remote_bytes_total(evs.drop_first())
    }
}

/// Whether the sequence contains the client's end-of-stream signal.
pub open spec fn trace_closes_client(evs: Seq<ConnEvent>) -> bool
    decreases evs.len(),
{
    if evs.len() == 0 {
        false
    } else {
        evs.first() is ClientEof || trace_closes_client(evs.drop_first())
    }
}

/// Whether the sequence contains the remote's end-of-stream signal.
pub open spec fn trace_closes_remote(evs: Seq<ConnEvent>) -> bool
    decreases evs.len(),
{
    if evs.len() == 0 {
        false
    } else {
        evs.first() is RemoteEof || trace_closes_remote(evs.drop_first())
    }
}

/// What a relay can produce while `client_open` and `remote_open` describe
/// which directions have not yet signalled end-of-stream: bytes flow only
/// on an open direction, and each direction signals end-of-stream at most
/// once. Each direction stops independently; a half-closed connection
/// still drains the other direction.
pub open spec fn relay_trace_wf(client_open: bool, remote_open: bool, evs: Seq<ConnEvent>) -> bool
    decreases evs.len(),
{
    if evs.len() == 0 {
        true
    } else {
        match evs.first() {
            ConnEvent::ClientBytes { .. } => client_open && relay_trace_wf(
                client_open,
                remote_open,
                evs.drop_first(),
            ),
            ConnEvent::RemoteBytes { .. } => remote_open && relay_trace_wf(
                client_open,
                remote_open,
                evs.drop_first(),
            ),
            ConnEvent::ClientEof => client_open && relay_trace_wf(
                false,
                remote_open,
                evs.drop_first(),
            ),
            ConnEvent::RemoteEof => remote_open && relay_trace_wf(
                client_open,
                false,
                evs.drop_first(),
            ),
            _ => false,
        }
    }
}

/// Running a well-formed relay trace accumulates the byte counters exactly,
/// marks a direction drained exactly when its end-of-stream signal occurs,
/// keeps the identifier, and closes the connection — normally — exactly
/// when both directions have been drained.
pub proof fn lemma_relay_accumulates(c: Connection, cfg: Config, evs: Seq<ConnEvent>)
    requires
        c.phase is Relaying,
        !(c.client_eof && c.remote_eof),
        relay_trace_wf(!c.client_eof, !c.remote_eof, evs),
        c.client_to_remote + client_bytes_total(evs) <= u64::MAX,
        c.remote_to_client + remote_bytes_total(evs) <= u64::MAX,
    ensures
        ({
            let r = run(c, cfg, evs);
            &&& r.id == c.id
            &&& r.client_to_remote == c.client_to_remote + client_bytes_total(evs)
            &&& r.remote_to_client == c.remote_to_client + remote_bytes_total(evs)
            &&& r.client_eof == (c.client_eof || trace_closes_client(evs))
            &&& r.remote_eof == (c.remote_eof || trace_closes_remote(evs))
            &&& r.phase == if (c.client_eof || trace_closes_client(evs)) && (c.remote_eof
                || trace_closes_remote(evs)) {
                Phase::Closed { kind: CloseKind::Normal }
            } else {
                Phase::Relaying
            }
        }),
    decreases evs.len(),
{
    if evs.len() > 0 {
        let c2 = spec_step(c, cfg, evs.first());
        let rest = evs.drop_first();
        match evs.first() {
            ConnEvent::ClientEof => {
                if c.remote_eof {
                    lemma_drained_trace_is_empty(rest);
                    assert(run(c2, cfg, rest) == c2);
                } else {
                    lemma_relay_accumulates(c2, cfg, rest);
                }
            },
            ConnEvent::RemoteEof => {
                if c.client_eof {
                    lemma_drained_trace_is_empty(rest);
                    assert(run(c2, cfg, rest) == c2);
                } else {
                    lemma_relay_accumulates(c2, cfg, rest);
                }
            },
            _ => {
                lemma_relay_accumulates(c2, cfg, rest);
            },
        }
    }
}

/// Once both directions have signalled end-of-stream, nothing further can
/// occur in a well-formed relay trace.
proof fn lemma_drained_trace_is_empty(evs: Seq<ConnEvent>)
    requires
        relay_trace_wf(false, false, evs),
    ensures
        evs.len() == 0,
{
}

/// A successful end-to-end session reports exact final statistics: a fresh
/// connection whose connect succeeds and whose relay drains both
/// directions ends closed normally, with the client-to-remote counter
/// equal to the total the client sent and the remote-to-client counter
/// equal to the total the remote sent.
pub proof fn lemma_normal_close_reports_exact_counts(id: u64, cfg: Config, evs: Seq<ConnEvent>)
    requires
        relay_trace_wf(true, true, evs),
        trace_closes_client(evs),
        trace_closes_remote(evs),
        client_bytes_total(evs) <= u64::MAX,
        remote_bytes_total(evs) <= u64::MAX,
    ensures
        ({
            let r = run(spec_step(Connection::fresh(id), cfg, ConnEvent::ConnectOk), cfg, evs);
            &&& r.phase == (Phase::Closed { kind: CloseKind::Normal })
            &&& r.client_to_remote == client_bytes_total(evs)
            &&& r.remote_to_client == remote_bytes_total(evs)
            &&& r.id == id
        }),
{
    let c = spec_step(Connection::fresh(id), cfg, ConnEvent::ConnectOk);
    lemma_relay_accumulates(c, cfg, evs);
}

} // verus!
