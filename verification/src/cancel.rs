//! A slot for the handle of the one task that may run at a time.

use futures_util::future::AbortHandle;
use vstd::prelude::*;

verus! {

/// The handle of an abortable task of `futures_util`. Nothing of its inside is
/// known here: a handle is kept, handed on, and used to abort its task.
#[verifier::external_type_specification]
#[verifier::external_body]
pub struct ExAbortHandle(AbortHandle);

/// Calls `AbortHandle::abort` of `futures_util`, which tells the task of the
/// handle to stop and returns at once. Nothing is claimed of it.
#[verifier::external_body]
fn abort_task(handle: &AbortHandle) {
    handle.abort()
}

/// Why a handle was not taken into the slot.
#[derive(Clone, Copy, Debug, PartialEq, Eq)]
pub enum SlotError {
    /// The slot holds the handle of a task already.
    AlreadyExisted,
}

/// The slot of a task of which at most one runs at a time: it holds the handle
/// of the one that runs, if any.
pub struct CancelSlot {
    handle: Option<AbortHandle>,
}

impl View for CancelSlot {
    type V = Option<AbortHandle>;

    closed spec fn view(&self) -> Option<AbortHandle> {
        self.handle
    }
}

impl CancelSlot {
    /// A slot with no task.
    pub fn new() -> (slot: CancelSlot)
        ensures
            slot@ is None,
    {
        CancelSlot { handle: None }
    }

    /// Whether the slot holds the handle of a task.
    pub fn is_occupied(&self) -> (occupied: bool)
        ensures
            occupied == self@ is Some,
    {
        self.handle.is_some()
    }

    /// Puts the handle of a new task into the slot, and hands out the one that
    /// was there: its task has been superseded.
    pub fn install(&mut self, handle: AbortHandle) -> (superseded: Option<AbortHandle>)
        ensures
            final(self)@ == Some(handle),
            superseded == old(self)@,
    {
        let superseded = self.handle.take();
        self.handle = Some(handle);
        superseded
    }

    /// Puts the handle of a new task into the slot and aborts the task that was
    /// there, if any.
    pub fn replace(&mut self, handle: AbortHandle)
        ensures
            final(self)@ == Some(handle),
    {
        let superseded = self.install(handle);
        if let Some(stale) = superseded {
            abort_task(&stale);
        }
    }

    /// Puts the handle of a new task into the slot if the slot is empty, and
    /// refuses it otherwise: the slot then stays as it is.
    pub fn start(&mut self, handle: AbortHandle) -> (started: Result<(), SlotError>)
        ensures
            old(self)@ is None ==> started is Ok && final(self)@ == Some(handle),
            old(self)@ is Some ==> started == Err::<(), SlotError>(SlotError::AlreadyExisted)
                && final(self)@ == old(self)@,
    {
        if self.handle.is_some() {
            return Err(SlotError::AlreadyExisted);
        }
        self.handle = Some(handle);
        Ok(())
    }

    /// Takes the handle out of the slot, which is empty afterwards.
    pub fn take(&mut self) -> (taken: Option<AbortHandle>)
        ensures
            final(self)@ is None,
            taken == old(self)@,
    {
        self.handle.take()
    }

    /// Aborts the task of the slot, if there is one, and empties the slot.
    /// Says whether there was one.
    pub fn abort(&mut self) -> (aborted: bool)
        ensures
            final(self)@ is None,
            aborted == old(self)@ is Some,
    {
        match self.take() {
            Some(handle) => {
                abort_task(&handle);
                true
            },
            None => false,
        }
    }
}

} // verus!
