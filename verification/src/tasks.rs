//! The task-lifecycle manager's slots: each slot owns at most one handle to a
//! running supervisor task and supports idempotent swap-and-cancel, so that
//! repeated connect commands never leave two live tasks of one role.

use vstd::prelude::*;

verus! {

/// Relies on tokio's `JoinHandle`: an owned, opaque handle to one spawned
/// task; the library only stores handles and asks tokio to abort them.
#[verifier::external_type_specification]
#[verifier::external_body]
#[verifier::reject_recursive_types(T)]
pub struct ExJoinHandle<T>(tokio::task::JoinHandle<T>);

/// Relies on tokio's `JoinError`, named by `JoinHandle`'s trait impls; the
/// library never touches a value of it.
#[verifier::external_type_specification]
#[verifier::external_body]
pub struct ExJoinError(tokio::task::JoinError);

/// Relies on tokio's `JoinHandle::abort`: signals best-effort cooperative
/// cancellation of the task behind the handle and returns nothing; no value
/// of this library is read or written.
pub assume_specification<T>[ tokio::task::JoinHandle::<T>::abort ](
    handle: &tokio::task::JoinHandle<T>,
);

/// One named slot of the task-lifecycle manager.
pub struct TaskSlot {
    pub handle: Option<tokio::task::JoinHandle<()>>,
}

impl TaskSlot {
    /// An empty slot: no task was ever installed.
    pub fn new() -> (r: TaskSlot)
        ensures
            r.handle is None,
    {
        TaskSlot { handle: None }
    }

    /// Installs a newly started task as the slot's single installed task. A
    /// previously installed handle is cancelled before the new one is
    /// installed, so two installs in a row leave exactly the second task in
    /// the slot and the first one cancelled.
    pub fn install(&mut self, new_task: tokio::task::JoinHandle<()>)
        ensures
            final(self).handle == Some(new_task),
    {
        let previous = self.handle.take();
        if let Some(h) = previous {
            h.abort();
        }
        self.handle = Some(new_task);
    }

    /// Cancels the installed task, if any; the handle stays installed, and
    /// repeated cancellation is a no-op at the task level.
    pub fn cancel(&self)
    {
        if let Some(h) = &self.handle {
            h.abort();
        }
    }

    /// Whether some task handle is installed.
    pub fn is_installed(&self) -> (r: bool)
        ensures
            r == (self.handle is Some),
    {
        self.handle.is_some()
    }
}

} // verus!
