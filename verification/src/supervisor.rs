//! The supervised-process handle slot.
//!
//! The launcher owns at most one live backend process at a time. Its handle
//! (here, the child's process id as a plain value) lives in a single optional
//! slot: absent at startup, filled once right after a successful spawn, and
//! taken — exactly once — when the window is destroyed, at which point the
//! caller kills and reaps the process the returned action names. The slot
//! itself never performs I/O; it decides, and the caller acts.

use vstd::prelude::*;

verus! {

/// What the caller must do after asking for termination.
#[derive(Clone, Copy, PartialEq, Eq, Structural, Debug)]
pub enum TerminateAction {
    /// A process was owned: kill it and block until the OS has reaped it.
    KillAndReap { pid: u64 },
    /// The slot was already empty: nothing to do.
    AlreadyGone,
}

/// What terminating does to a slot holding `h`: the slot empties, and a kill
/// is requested exactly when a handle was present.
pub open spec fn terminate_spec(h: Option<u64>) -> (Option<u64>, TerminateAction) {
    match h {
        Some(pid) => (None, TerminateAction::KillAndReap { pid }),
        None => (None, TerminateAction::AlreadyGone),
    }
}

/// The single optional slot owning the backend process handle.
pub struct SidecarSlot {
    handle: Option<u64>,
}

impl SidecarSlot {
    /// The handle currently owned, if any.
    pub closed spec fn stored(&self) -> Option<u64> {
        self.handle
    }

    /// A fresh slot: no process is owned at startup.
    pub fn new() -> (s: Self)
        ensures
            s.stored() is None,
    {
        SidecarSlot { handle: None }
    }

    /// Stores the handle of a freshly spawned process, replacing whatever was
    /// there (on the intended lifecycle, nothing ever is).
    pub fn store(&mut self, pid: u64)
        ensures
            final(self).stored() == Some(pid),
    {
        self.handle = Some(pid);
    }

    /// Whether the slot currently owns a process handle.
    pub fn is_empty(&self) -> (r: bool)
        ensures
            r == (self.stored() is None),
    {
        self.handle.is_none()
    }

    /// Takes the handle out for termination. The slot is empty afterwards,
    /// and the returned action names the owned process exactly when one was
    /// present — so a second call can never ask for a second kill.
    pub fn terminate(&mut self) -> (a: TerminateAction)
        ensures
            final(self).stored() is None,
            (final(self).stored(), a) == terminate_spec(old(self).stored()),
            old(self).stored() is None ==> a == TerminateAction::AlreadyGone,
    {
        match self.handle.take() {
            Some(pid) => TerminateAction::KillAndReap { pid },
            None => TerminateAction::AlreadyGone,
        }
    }
}

/// Termination is idempotent: whatever the slot held, terminating leaves it
/// empty, and terminating again finds nothing — no second kill is ever
/// requested, and the slot stays empty.
pub proof fn lemma_terminate_idempotent(h: Option<u64>)
    ensures
        terminate_spec(h).0 is None,
        terminate_spec(terminate_spec(h).0).0 is None,
        terminate_spec(terminate_spec(h).0).1 == TerminateAction::AlreadyGone,
{
}

} // verus!
