//! Start and stop decisions of the sidecar supervisor.
//!
//! Spawning and killing are I/O done by the shell; the functions here make
//! every decision around them. A start is idempotent: a slot that already
//! holds a handle is left alone and the caller is told so. A stop empties the
//! slot and reports `Stopped` whenever something was there to terminate,
//! whatever becomes of the kill itself.

use vstd::prelude::*;

use crate::store::{ProcessHandle, ProcessHandleStore, Slot};

verus! {

/// What a start request came to.
pub enum SupervisorResult {
    /// The slot was empty and now holds the freshly spawned process.
    Started,
    /// The slot already held a process; nothing was spawned.
    AlreadyRunning,
    /// The slot was empty, the spawn failed, and the slot stays empty.
    SpawnFailed(String),
}

/// What a stop request came to.
#[derive(Clone, Copy, PartialEq, Eq, Structural, Debug)]
pub enum StopResult {
    /// The slot held a process; it was removed and handed over for killing.
    Stopped,
    /// The slot was already empty.
    NotRunning,
}

/// What the caller of `begin_start` must do next.
#[derive(Clone, Copy, PartialEq, Eq, Structural, Debug)]
pub enum StartStep {
    /// The slot is empty: spawn, then record the outcome with `commit_start`.
    SpawnNeeded,
    /// The slot is occupied: do not spawn.
    AlreadyRunning,
}

/// One whole start request as a transition of the store: `spawn` stands for
/// the outcome the shell's spawn call would have, had the slot been empty.
pub open spec fn start_transition(
    s: ProcessHandleStore,
    slot: Slot,
    spawn: Result<ProcessHandle, String>,
) -> (ProcessHandleStore, SupervisorResult) {
    if s.slot_of(slot) is Some {
        (s, SupervisorResult::AlreadyRunning)
    } else {
        match spawn {
            Ok(h) => (s.with_slot(slot, Some(h)), SupervisorResult::Started),
            Err(e) => (s, SupervisorResult::SpawnFailed(e)),
        }
    }
}

/// One whole stop request as a transition of the store: the new store, the
/// result reported, and the handle the shell must now kill, if any.
pub open spec fn stop_transition(s: ProcessHandleStore, slot: Slot) -> (
    ProcessHandleStore,
    StopResult,
    Option<ProcessHandle>,
) {
    (
        s.with_slot(slot, None),
        if s.slot_of(slot) is Some {
            StopResult::Stopped
        } else {
            StopResult::NotRunning
        },
        s.slot_of(slot),
    )
}

/// First half of a start request: decide, under the store's lock, whether a
/// spawn is due. The store is not changed.
pub fn begin_start(store: &ProcessHandleStore, slot: Slot) -> (r: StartStep)
    ensures
        r == StartStep::SpawnNeeded <==> store.slot_of(slot) is None,
{
    match store.get(slot) {
        Some(_) => StartStep::AlreadyRunning,
        None => StartStep::SpawnNeeded,
    }
}

/// Second half of a start request: record what the spawn came to. On `Ok` the
/// handle is bound to the slot; on `Err` the slot stays empty and the reason
/// is passed back for the caller to surface. No retry is attempted.
pub fn commit_start(
    store: &mut ProcessHandleStore,
    slot: Slot,
    spawn: Result<ProcessHandle, String>,
) -> (r: SupervisorResult)
    requires
        old(store).slot_of(slot) is None,
    ensures
        *final(store) == start_transition(*old(store), slot, spawn).0,
        r == start_transition(*old(store), slot, spawn).1,
{
    match spawn {
        Ok(h) => {
            store.set(slot, h);
            SupervisorResult::Started
        }
        Err(e) => SupervisorResult::SpawnFailed(e),
    }
}

/// A stop request: empty the slot and hand back whatever it held, for the
/// shell to kill best-effort. `Stopped` is reported exactly when a handle was
/// present; a failing kill changes nothing about that, since the desired end
/// state — an empty slot — is reached either way.
pub fn stop(store: &mut ProcessHandleStore, slot: Slot) -> (r: (StopResult, Option<ProcessHandle>))
    ensures
        *final(store) == stop_transition(*old(store), slot).0,
        r.0 == stop_transition(*old(store), slot).1,
        r.1 == stop_transition(*old(store), slot).2,
        r.0 == StopResult::NotRunning <==> old(store).slot_of(slot) is None,
{
    match store.take(slot) {
        Some(h) => (StopResult::Stopped, Some(h)),
        None => (StopResult::NotRunning, None),
    }
}

/// The text the tunnel toggle command reports for a stop request.
pub fn tunnel_stop_message(r: StopResult) -> (m: &'static str)
    ensures
        r == StopResult::Stopped ==> m@ == "Tunnel Stopped"@,
        r == StopResult::NotRunning ==> m@ == "Tunnel was not running"@,
{
    match r {
        StopResult::Stopped => "Tunnel Stopped",
        StopResult::NotRunning => "Tunnel was not running",
    }
}

/// The text the tunnel toggle command reports for a start request: a success
/// line for a spawned or already running tunnel, and the spawn failure's
/// reason as the error otherwise.
pub fn tunnel_start_message(r: SupervisorResult) -> (m: Result<&'static str, String>)
    ensures
        r is Started ==> m is Ok && m->Ok_0@ == "Tunnel Starting..."@,
        r is AlreadyRunning ==> m is Ok && m->Ok_0@ == "Tunnel already running"@,
        r matches SupervisorResult::SpawnFailed(e) ==> (m matches Err(e2) && e2 == e),
{
    match r {
        SupervisorResult::Started => Ok("Tunnel Starting..."),
        SupervisorResult::AlreadyRunning => Ok("Tunnel already running"),
        SupervisorResult::SpawnFailed(e) => Err(e),
    }
}

/// Law: starting the same slot twice without an intervening stop spawns at
/// most once. The first start binds the spawned handle; the second reports
/// `AlreadyRunning` and changes nothing, whatever its spawn would have given.
pub proof fn lemma_start_idempotent(
    s0: ProcessHandleStore,
    slot: Slot,
    h: ProcessHandle,
    spawn2: Result<ProcessHandle, String>,
)
    requires
        s0.slot_of(slot) is None,
    ensures
        ({
            let (s1, r1) = start_transition(s0, slot, Ok(h));
            let (s2, r2) = start_transition(s1, slot, spawn2);
            &&& r1 == SupervisorResult::Started
            &&& r2 == SupervisorResult::AlreadyRunning
            &&& s2 == s1
            &&& s1.slot_of(slot) == Some(h)
        }),
{
}

/// Law: two start requests racing for one empty slot serialize through the
/// store's exclusive lock, and whichever runs second observes the slot
/// occupied. In either order the pair yields exactly one `Started` and one
/// `AlreadyRunning`, and exactly one process ends up bound.
pub proof fn lemma_start_excludes_second(
    s0: ProcessHandleStore,
    slot: Slot,
    h_first: ProcessHandle,
    h_second: ProcessHandle,
)
    requires
        s0.slot_of(slot) is None,
    ensures
        ({
            let (s1, r1) = start_transition(s0, slot, Ok(h_first));
            let (s2, r2) = start_transition(s1, slot, Ok(h_second));
            &&& r1 == SupervisorResult::Started
            &&& r2 == SupervisorResult::AlreadyRunning
            &&& s2.slot_of(slot) == Some(h_first)
        }),
{
}

/// Law: a stop on an empty slot reports `NotRunning`, hands nothing over,
/// and leaves the store as it was.
pub proof fn lemma_stop_empty(s0: ProcessHandleStore, slot: Slot)
    requires
        s0.slot_of(slot) is None,
    ensures
        ({
            let (s1, r, victim) = stop_transition(s0, slot);
            &&& r == StopResult::NotRunning
            &&& victim is None
            &&& s1 == s0
        }),
{
    assert(s0.with_slot(slot, None) == s0);
}

} // verus!
