//! The exit-time guard: empty every slot and hand the handles over for
//! termination.

use vstd::prelude::*;

use crate::store::{ProcessHandle, ProcessHandleStore, Slot};

verus! {

/// Everything the guard must terminate, in slot order: the primary service's
/// handle first, then the tunnel's.
pub open spec fn handles_to_kill(s: ProcessHandleStore) -> Seq<ProcessHandle> {
    (match s.slot_of(Slot::PrimaryService) {
        Some(h) => seq![h],
        None => seq![],
    }) + (match s.slot_of(Slot::Tunnel) {
        Some(h) => seq![h],
        None => seq![],
    })
}

/// On the application-exit notification: take ownership of every stored
/// handle and return them for the shell to kill, each kill best-effort and
/// its failure never propagated. Afterwards every slot reads empty, whatever
/// the store held before. The guard does not wait for relay tasks: killing a
/// process ends its output stream, which lets its relay loop finish on its
/// own.
pub fn drain_for_exit(store: &mut ProcessHandleStore) -> (victims: Vec<ProcessHandle>)
    ensures
        *final(store) == (ProcessHandleStore { primary: None, tunnel: None }),
        forall|s: Slot| final(store).slot_of(s) is None,
        victims@ == handles_to_kill(*old(store)),
{
    let mut victims: Vec<ProcessHandle> = Vec::new();
    if let Some(h) = store.take(Slot::PrimaryService) {
        victims.push(h);
    }
    if let Some(h) = store.take(Slot::Tunnel) {
        victims.push(h);
    }
    proof {
        assert(victims@ =~= handles_to_kill(*old(store)));
    }
    victims
}

} // verus!
