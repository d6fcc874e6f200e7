//! Accept-loop and shutdown bookkeeping.
//!
//! The `Engine` owns the only state shared across connections: the
//! monotonically increasing connection-ID counter, the accepting flag, and
//! the set of identifiers of handlers that have been launched and have not
//! yet finished. The surrounding program reports each accept outcome,
//! the termination signal, and each handler completion as a `LoopEvent`;
//! `step` updates the state and answers with the action to perform.
//! `EngineState` is the mathematical model of that state, and
//! `engine_step` its transition relation; the trace lemmas below are
//! stated over them.

use vstd::prelude::*;

verus! {

/// An outcome the surrounding program reports to the engine.
#[derive(Clone, Copy, Debug, PartialEq, Eq, Structural)]
pub enum LoopEvent {
    /// A client connection was accepted.
    Accepted,
    /// One accept call failed; a transient condition, logged as a warning.
    AcceptFailed,
    /// The termination signal arrived.
    Signal,
    /// The handler with this identifier reached its terminal phase.
    HandlerDone { id: u64 },
}

/// What the surrounding program must do next.
#[derive(Clone, Copy, Debug, PartialEq, Eq, Structural)]
pub enum LoopAction {
    /// Launch a connection handler under this identifier and keep going.
    Spawn { id: u64 },
    /// Keep going: accept again if still accepting, otherwise keep
    /// waiting for the remaining handlers.
    Continue,
    /// Every launched handler has finished and no new work is admitted:
    /// report shutdown complete and exit with status zero.
    Exit,
}

/// The mathematical model of the engine's state.
pub struct EngineState {
    /// The next connection identifier to assign.
    pub next_id: u64,
    /// Whether new connections are still admitted.
    pub accepting: bool,
    /// Identifiers of launched handlers that have not finished yet.
    pub live: Seq<u64>,
}

/// Live identifiers are pairwise distinct and below the counter.
pub open spec fn state_wf(s: EngineState) -> bool {
    &&& forall|i: int, j: int| 0 <= i < j < s.live.len() ==> s.live[i] != s.live[j]
    &&& forall|i: int| 0 <= i < s.live.len() ==> s.live[i] < s.next_id
}

/// Drained: no new work is admitted and every handler has finished.
pub open spec fn state_drained(s: EngineState) -> bool {
    !s.accepting && s.live.len() == 0
}

/// The transition relation: what one event does to the engine and which
/// action it calls for. An accept that races past the termination signal
/// is not admitted; a failed accept changes nothing (the loop goes on);
/// the signal only stops acceptance, leaving every live handler to run to
/// its own completion; a handler completion retires its identifier. The
/// exit action is called for exactly when the resulting state is drained.
pub open spec fn engine_step(s: EngineState, ev: LoopEvent) -> (EngineState, LoopAction) {
    match ev {
        LoopEvent::Accepted => if s.accepting {
            (
                EngineState {
                    next_id: (s.next_id + 1) as u64,
                    accepting: true,
                    live: s.live.push(s.next_id),
                },
                LoopAction::Spawn { id: s.next_id },
            )
        } else {
            (s, if state_drained(s) { LoopAction::Exit } else { LoopAction::Continue })
        },
        LoopEvent::AcceptFailed => (
            s,
            if state_drained(s) { LoopAction::Exit } else { LoopAction::Continue },
        ),
        LoopEvent::Signal => {
            let s2 = EngineState { accepting: false, ..s };
            (s2, if state_drained(s2) { LoopAction::Exit } else { LoopAction::Continue })
        },
        LoopEvent::HandlerDone { id } => {
            let s2 = EngineState { live: retire(s.live, id), ..s };
            (s2, if state_drained(s2) { LoopAction::Exit } else { LoopAction::Continue })
        },
    }
}

/// The live identifiers with the first occurrence of `id` removed; the
/// same sequence when `id` is not among them.
pub open spec fn retire(live: Seq<u64>, id: u64) -> Seq<u64>
    decreases live.len(),
{
    if live.len() == 0 {
        Seq::empty()
    } else if live.first() == id {
        live.drop_first()
    } else {
        seq![live.first()] + retire(live.drop_first(), id)
    }
}

/// Removing the first occurrence of a value at its known index is the
/// index-level removal.
proof fn lemma_retire_at_first_index(s: Seq<u64>, v: u64, idx: int)
    requires
        0 <= idx < s.len(),
        s[idx] == v,
        forall|k: int| 0 <= k < idx ==> s[k] != v,
    ensures
        retire(s, v) == s.remove(idx),
    decreases s.len(),
{
    if idx == 0 {
        assert(s.remove(0) =~= s.drop_first());
    } else {
        lemma_retire_at_first_index(s.drop_first(), v, idx - 1);
        assert(s.remove(idx) =~= seq![s.first()] + s.drop_first().remove(idx - 1));
    }
}

/// Retiring an identifier that is not live changes nothing.
proof fn lemma_retire_absent(s: Seq<u64>, v: u64)
    requires
        forall|k: int| 0 <= k < s.len() ==> s[k] != v,
    ensures
        retire(s, v) == s,
    decreases s.len(),
{
    if s.len() > 0 {
        lemma_retire_absent(s.drop_first(), v);
        assert(seq![s.first()] + s.drop_first() =~= s);
    }
}

/// The state reached by applying the events in order.
pub open spec fn engine_run(s: EngineState, evs: Seq<LoopEvent>) -> EngineState
    decreases evs.len(),
{
    if evs.len() == 0 {
        s
    } else {
        engine_run(engine_step(s, evs.first()).0, evs.drop_first())
    }
}

/// The identifiers handed to launched handlers, in launch order, over a
/// run of events.
pub open spec fn spawned_ids(s: EngineState, evs: Seq<LoopEvent>) -> Seq<u64>
    decreases evs.len(),
{
    if evs.len() == 0 {
        Seq::empty()
    } else {
        (match engine_step(s, evs.first()).1 {
            LoopAction::Spawn { id } => seq![id],
            _ => Seq::empty(),
        }) + spawned_ids(engine_step(s, evs.first()).0, evs.drop_first())
    }
}

/// Whether the events contain an accepted connection.
pub open spec fn trace_has_accept(evs: Seq<LoopEvent>) -> bool
    decreases evs.len(),
{
    if evs.len() == 0 {
        false
    } else {
        evs.first() is Accepted || trace_has_accept(evs.drop_first())
    }
}

/// Retiring an identifier introduces no element and never grows the set.
proof fn lemma_retire_keeps_only(s: Seq<u64>, v: u64)
    ensures
        forall|x: u64| #[trigger] retire(s, v).contains(x) ==> s.contains(x),
        retire(s, v).len() <= s.len(),
    decreases s.len(),
{
    if s.len() > 0 {
        lemma_retire_keeps_only(s.drop_first(), v);
        assert forall|x: u64| #[trigger] retire(s, v).contains(x) implies s.contains(x) by {
            let rem = retire(s, v);
            let k: int = choose|k: int| 0 <= k < rem.len() && rem[k] == x;
            if s.first() == v {
                assert(s[k + 1] == x);
            } else if k == 0 {
                assert(s[0] == x);
            } else {
                assert(retire(s.drop_first(), v)[k - 1] == x);
                assert(retire(s.drop_first(), v).contains(x));
                let m: int = choose|m: int|
                    0 <= m < s.drop_first().len() && s.drop_first()[m] == x;
                assert(s[m + 1] == x);
            }
        }
    }
}

/// Whether the events contain the termination signal.
pub open spec fn trace_has_signal(evs: Seq<LoopEvent>) -> bool
    decreases evs.len(),
{
    if evs.len() == 0 {
        false
    } else {
        evs.first() is Signal || trace_has_signal(evs.drop_first())
    }
}

/// The loop never stops spontaneously: on a run without the termination
/// signal the engine keeps accepting — failed accepts included — and so
/// is never drained and never owes the exit action.
pub proof fn lemma_no_spontaneous_stop(s: EngineState, evs: Seq<LoopEvent>)
    requires
        s.accepting,
        !trace_has_signal(evs),
    ensures
        engine_run(s, evs).accepting,
        !state_drained(engine_run(s, evs)),
    decreases evs.len(),
{
    if evs.len() > 0 {
        lemma_no_spontaneous_stop(engine_step(s, evs.first()).0, evs.drop_first());
    }
}

/// Retiring a live identifier retires exactly one handler; retiring an
/// unknown one retires none.
pub proof fn lemma_retire_len(s: Seq<u64>, v: u64)
    ensures
        s.contains(v) ==> retire(s, v).len() == s.len() - 1,
        !s.contains(v) ==> retire(s, v) == s,
    decreases s.len(),
{
    if s.len() > 0 {
        lemma_retire_len(s.drop_first(), v);
        if s.first() == v {
            assert(s.contains(v)) by {
                assert(s[0] == v);
            }
        } else {
            if s.contains(v) {
                let k: int = choose|k: int| 0 <= k < s.len() && s[k] == v;
                assert(s.drop_first()[k - 1] == v);
                assert(s.drop_first().contains(v));
            } else {
                assert(seq![s.first()] + s.drop_first() =~= s);
            }
        }
    }
}

/// Retiring preserves pairwise distinctness of the identifiers.
proof fn lemma_retire_distinct(s: Seq<u64>, v: u64)
    requires
        forall|i: int, j: int| 0 <= i < j < s.len() ==> s[i] != s[j],
    ensures
        forall|i: int, j: int|
            0 <= i < j < retire(s, v).len() ==> retire(s, v)[i] != retire(s, v)[j],
    decreases s.len(),
{
    if s.len() > 0 {
        lemma_retire_distinct(s.drop_first(), v);
        lemma_retire_keeps_only(s.drop_first(), v);
        if s.first() != v {
            let rem = retire(s, v);
            assert forall|i: int, j: int| 0 <= i < j < rem.len() implies rem[i] != rem[j] by {
                if i == 0 {
                    let sub = retire(s.drop_first(), v);
                    assert(rem[j] == sub[j - 1]);
                    assert(sub.contains(sub[j - 1]));
                    let m: int = choose|m: int|
                        0 <= m < s.drop_first().len() && s.drop_first()[m] == sub[j - 1];
                    assert(s[m + 1] == sub[j - 1]);
                } else {
                    assert(rem[i] == retire(s.drop_first(), v)[i - 1]);
                    assert(rem[j] == retire(s.drop_first(), v)[j - 1]);
                }
            }
        }
    }
}

/// Every transition preserves the engine invariant, so at every reachable
/// state the live identifiers stay pairwise distinct and below the
/// counter.
pub proof fn lemma_step_preserves_wf(s: EngineState, ev: LoopEvent)
    requires
        state_wf(s),
        s.accepting && ev is Accepted ==> s.next_id < u64::MAX,
    ensures
        state_wf(engine_step(s, ev).0),
        s.next_id <= engine_step(s, ev).0.next_id <= s.next_id + 1,
{
    match ev {
        LoopEvent::HandlerDone { id } => {
            lemma_retire_distinct(s.live, id);
            lemma_retire_keeps_only(s.live, id);
            let rem = retire(s.live, id);
            assert forall|i: int| 0 <= i < rem.len() implies rem[i] < s.next_id by {
                assert(rem.contains(rem[i]));
                let m: int = choose|m: int| 0 <= m < s.live.len() && s.live[m] == rem[i];
            }
        },
        _ => (),
    }
}

/// The engine invariant holds at the end of any run that keeps the
/// counter within its width.
pub proof fn lemma_run_preserves_wf(s: EngineState, evs: Seq<LoopEvent>)
    requires
        state_wf(s),
        s.next_id + evs.len() <= u64::MAX,
    ensures
        state_wf(engine_run(s, evs)),
    decreases evs.len(),
{
    if evs.len() > 0 {
        lemma_step_preserves_wf(s, evs.first());
        lemma_run_preserves_wf(engine_step(s, evs.first()).0, evs.drop_first());
    }
}

/// At any well-formed engine state, the identifiers of the live —
/// concurrently running — handlers are pairwise distinct.
pub proof fn lemma_live_ids_pairwise_distinct(s: EngineState, i: int, j: int)
    requires
        state_wf(s),
        0 <= i < s.live.len(),
        0 <= j < s.live.len(),
        i != j,
    ensures
        s.live[i] != s.live[j],
{
}

/// One step after the termination signal: acceptance never resumes, no
/// handler is launched, and the live identifiers only shrink.
proof fn lemma_step_after_signal(s: EngineState, ev: LoopEvent)
    requires
        !s.accepting,
    ensures
        !engine_step(s, ev).0.accepting,
        !(engine_step(s, ev).1 is Spawn),
        forall|x: u64| #[trigger]
            engine_step(s, ev).0.live.contains(x) ==> s.live.contains(x),
{
    match ev {
        LoopEvent::HandlerDone { id } => lemma_retire_keeps_only(s.live, id),
        _ => (),
    }
}

/// After the termination signal no new connection is admitted, however
/// the run goes on: acceptance never resumes, and every identifier still
/// live was already live when the signal took effect — existing handlers
/// are only retired, never added to.
pub proof fn lemma_no_admission_after_signal(s: EngineState, evs: Seq<LoopEvent>)
    requires
        !s.accepting,
    ensures
        !engine_run(s, evs).accepting,
        forall|x: u64| #[trigger]
            engine_run(s, evs).live.contains(x) ==> s.live.contains(x),
    decreases evs.len(),
{
    if evs.len() > 0 {
        let s2 = engine_step(s, evs.first()).0;
        lemma_step_after_signal(s, evs.first());
        lemma_no_admission_after_signal(s2, evs.drop_first());
    }
}

/// The exit action is called for exactly when every launched handler has
/// finished and no new work is admitted: the process exits only after all
/// in-flight connections have reached their terminal phase.
pub proof fn lemma_exit_iff_drained(s: EngineState, ev: LoopEvent)
    ensures
        engine_step(s, ev).1 is Exit <==> state_drained(engine_step(s, ev).0),
{
}

/// The termination signal stops acceptance at once and leaves every live
/// handler in place to run to its own completion; exit is owed at the
/// signal itself only when nothing was in flight.
pub proof fn lemma_signal_stops_acceptance(s: EngineState)
    ensures
        !engine_step(s, LoopEvent::Signal).0.accepting,
        engine_step(s, LoopEvent::Signal).0.live == s.live,
        engine_step(s, LoopEvent::Signal).0.next_id == s.next_id,
        engine_step(s, LoopEvent::Signal).1 is Exit <==> s.live.len() == 0,
{
}

/// Identifiers are handed out in strictly increasing order, so the
/// identifiers of concurrently accepted connections are pairwise
/// distinct, over any run that keeps the counter within its width.
pub proof fn lemma_spawned_ids_strictly_increasing(s: EngineState, evs: Seq<LoopEvent>)
    requires
        s.next_id + evs.len() <= u64::MAX,
    ensures
        engine_run(s, evs).next_id >= s.next_id,
        forall|i: int|
            0 <= i < spawned_ids(s, evs).len() ==> s.next_id <= #[trigger] spawned_ids(s, evs)[i]
                < engine_run(s, evs).next_id,
        forall|i: int, j: int|
            0 <= i < j < spawned_ids(s, evs).len() ==> spawned_ids(s, evs)[i] < spawned_ids(
                s,
                evs,
            )[j],
    decreases evs.len(),
{
    if evs.len() > 0 {
        let s2 = engine_step(s, evs.first()).0;
        lemma_spawned_ids_strictly_increasing(s2, evs.drop_first());
        let pre = (match engine_step(s, evs.first()).1 {
            LoopAction::Spawn { id } => seq![id],
            _ => Seq::<u64>::empty(),
        });
        let rest = spawned_ids(s2, evs.drop_first());
        let all = spawned_ids(s, evs);
        let bound = engine_run(s, evs).next_id;
        assert(all == pre + rest);
        assert forall|i: int| 0 <= i < all.len() implies s.next_id <= #[trigger] all[i]
            < bound by {
            if i < pre.len() {
                assert(all[i] == pre[i]);
            } else {
                assert(all[i] == rest[i - pre.len()]);
            }
        }
        assert forall|i: int, j: int| 0 <= i < j < all.len() implies all[i] < all[j] by {
            if j < pre.len() {
            } else if i < pre.len() {
                assert(all[i] == pre[i]);
                assert(all[j] == rest[j - pre.len()]);
            } else {
                assert(all[i] == rest[i - pre.len()]);
                assert(all[j] == rest[j - pre.len()]);
            }
        }
    }
}

/// No handler exists before a connection has been accepted: a run without
/// an accepted connection launches nothing, so nothing can be relayed
/// before the listener has accepted.
pub proof fn lemma_no_handler_before_accept(s: EngineState, evs: Seq<LoopEvent>)
    requires
        s.live.len() == 0,
        !trace_has_accept(evs),
    ensures
        engine_run(s, evs).live.len() == 0,
    decreases evs.len(),
{
    if evs.len() > 0 {
        let s2 = engine_step(s, evs.first()).0;
        match evs.first() {
            LoopEvent::HandlerDone { id } => lemma_retire_keeps_only(s.live, id),
            _ => (),
        }
        lemma_no_handler_before_accept(s2, evs.drop_first());
    }
}

/// The engine as the program holds it.
pub struct Engine {
    /// The next connection identifier to assign.
    pub next_id: u64,
    /// Whether new connections are still admitted.
    pub accepting: bool,
    /// Identifiers of launched handlers that have not finished yet.
    pub live: Vec<u64>,
}

impl Engine {
    /// The model this engine stands for.
    pub open spec fn abs(self) -> EngineState {
        EngineState { next_id: self.next_id, accepting: self.accepting, live: self.live@ }
    }

    /// Well-formed: the model invariant holds.
    pub open spec fn wf(self) -> bool {
        state_wf(self.abs())
    }

    /// A fresh engine: accepting, no handler launched, counter at one.
    pub fn new() -> (r: Engine)
        ensures
            r.wf(),
            r.accepting,
            r.next_id == 1,
            r.abs().live == Seq::<u64>::empty(),
    {
        Engine { next_id: 1, accepting: true, live: Vec::new() }
    }

    /// Whether new connections are still admitted.
    pub fn is_accepting(&self) -> (r: bool)
        ensures
            r == self.accepting,
    {
        self.accepting
    }

    /// How many launched handlers have not finished yet.
    pub fn live_count(&self) -> (r: usize)
        ensures
            r == self.abs().live.len(),
    {
        self.live.len()
    }

    /// Applies one event; the state and the returned action are exactly
    /// those of the transition relation `engine_step`.
    pub fn step(&mut self, ev: LoopEvent) -> (act: LoopAction)
        requires
            old(self).wf(),
            old(self).accepting && ev is Accepted ==> old(self).next_id < u64::MAX,
        ensures
            final(self).wf(),
            final(self).abs() == engine_step(old(self).abs(), ev).0,
            act == engine_step(old(self).abs(), ev).1,
    {
        match ev {
            LoopEvent::Accepted => {
                if self.accepting {
                    let id = self.next_id;
                    self.next_id = self.next_id + 1;
                    self.live.push(id);
                    proof {
                        assert forall|i: int, j: int|
                            0 <= i < j < self.live@.len() implies self.live@[i]
                            != self.live@[j] by {}
                    }
                    LoopAction::Spawn { id }
                } else {
                    self.done_action()
                }
            },
            LoopEvent::AcceptFailed => self.done_action(),
            LoopEvent::Signal => {
                self.accepting = false;
                self.done_action()
            },
            LoopEvent::HandlerDone { id } => {
                let ghost s0 = self.live@;
                let n = self.live.len();
                let mut idx: usize = 0;
                while idx < n && self.live[idx] != id
                    invariant
                        n == self.live@.len(),
                        0 <= idx <= n,
                        forall|k: int| 0 <= k < idx ==> self.live@[k] != id,
                        self.live@ == s0,
                        self.accepting == old(self).accepting,
                        self.next_id == old(self).next_id,
                    decreases n - idx,
                {
                    idx = idx + 1;
                }
                if idx < n {
                    proof {
                        lemma_retire_at_first_index(s0, id, idx as int);
                        s0.remove_ensures(idx as int);
                    }
                    self.live.remove(idx);
                    proof {
                        let rem = self.live@;
                        assert forall|i: int, j: int| 0 <= i < j < rem.len() implies rem[i]
                            != rem[j] by {
                            assert(rem[i] == if i < idx as int { s0[i] } else { s0[i + 1] });
                            assert(rem[j] == if j < idx as int { s0[j] } else { s0[j + 1] });
                        }
                        assert forall|i: int| 0 <= i < rem.len() implies rem[i]
                            < self.next_id by {
                            assert(rem[i] == if i < idx as int { s0[i] } else { s0[i + 1] });
                        }
                    }
                } else {
                    proof {
                        lemma_retire_absent(s0, id);
                    }
                }
                self.done_action()
            },
        }
    }

    /// The action owed when no handler was launched by this event: exit
    /// exactly when the engine is drained, otherwise carry on.
    fn done_action(&self) -> (act: LoopAction)
        ensures
            act == if state_drained(self.abs()) { LoopAction::Exit } else { LoopAction::Continue },
    {
        if !self.accepting && self.live.len() == 0 {
            LoopAction::Exit
        } else {
            LoopAction::Continue
        }
    }
}

} // verus!
