//! The process-wide store holding zero or one handle per supervised slot.

use vstd::prelude::*;

verus! {

/// A named logical role to which at most one running process is bound at a
/// time: the local service binary or the tunneling binary.
#[derive(Clone, Copy, PartialEq, Eq, Structural, Debug)]
pub enum Slot {
    PrimaryService,
    Tunnel,
}

/// Ownership of one running external process, reduced to the identifier the
/// supervision logic needs. The operating-system handle itself stays with the
/// shell that spawned the process; the shell maps this identifier back to it
/// when asked to kill.
#[derive(Clone, Copy, PartialEq, Eq, Structural, Debug)]
pub struct ProcessHandle {
    pub pid: u32,
}

/// Zero or one handle per slot. The shell guards the whole store with one
/// exclusive lock, so each method below is one atomic step of the store; no
/// I/O happens between acquiring the lock and releasing it.
pub struct ProcessHandleStore {
    pub primary: Option<ProcessHandle>,
    pub tunnel: Option<ProcessHandle>,
}

impl ProcessHandleStore {
    /// The handle bound to a slot, if any.
    pub open spec fn slot_of(self, slot: Slot) -> Option<ProcessHandle> {
        match slot {
            Slot::PrimaryService => self.primary,
            Slot::Tunnel => self.tunnel,
        }
    }

    /// The store with one slot rebound and every other slot unchanged.
    pub open spec fn with_slot(self, slot: Slot, h: Option<ProcessHandle>) -> ProcessHandleStore {
        match slot {
            Slot::PrimaryService => ProcessHandleStore { primary: h, ..self },
            Slot::Tunnel => ProcessHandleStore { tunnel: h, ..self },
        }
    }

    /// A store with every slot empty.
    pub fn new() -> (r: ProcessHandleStore)
        ensures
            r == (ProcessHandleStore { primary: None, tunnel: None }),
            forall|s: Slot| r.slot_of(s) is None,
    {
        ProcessHandleStore { primary: None, tunnel: None }
    }

    /// The handle currently bound to `slot`, if any; the store is unchanged.
    pub fn get(&self, slot: Slot) -> (r: Option<ProcessHandle>)
        ensures
            r == self.slot_of(slot),
    {
        match slot {
            Slot::PrimaryService => self.primary,
            Slot::Tunnel => self.tunnel,
        }
    }

    /// Binds `h` to `slot`; any handle previously bound there is dropped.
    pub fn set(&mut self, slot: Slot, h: ProcessHandle)
        ensures
            *final(self) == old(self).with_slot(slot, Some(h)),
    {
        match slot {
            Slot::PrimaryService => {
                self.primary = Some(h);
            }
            Slot::Tunnel => {
                self.tunnel = Some(h);
            }
        }
    }

    /// Atomically removes and returns whatever `slot` held.
    pub fn take(&mut self, slot: Slot) -> (r: Option<ProcessHandle>)
        ensures
            r == old(self).slot_of(slot),
            *final(self) == old(self).with_slot(slot, None),
    {
        match slot {
            Slot::PrimaryService => {
                let r = self.primary;
                self.primary = None;
                r
            }
            Slot::Tunnel => {
                let r = self.tunnel;
                self.tunnel = None;
                r
            }
        }
    }
}

} // verus!
