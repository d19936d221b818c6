//! Poll lifecycle controller: keeps at most one polling task alive.

use vstd::prelude::*;

verus! {

/// The handle of the running polling task, if there is one. `H` is whatever
/// the runtime hands out for a spawned task.
#[derive(Debug)]
pub struct PollingState<H> {
    pub task_handle: Option<H>,
}

/// The handle held after a start: the one already there, else the fresh one.
pub open spec fn after_start<H>(held: Option<H>, fresh: H) -> Option<H> {
    match held {
        Some(h) => Some(h),
        None => Some(fresh),
    }
}

/// What a stop hands back for aborting, and what is held after it.
pub open spec fn after_stop<H>(held: Option<H>) -> (Option<H>, Option<H>) {
    (held, None)
}

/// The number of live polling tasks that a held handle stands for.
pub open spec fn active_tasks<H>(held: Option<H>) -> nat {
    if held is Some {
        1
    } else {
        0
    }
}

impl<H> PollingState<H> {
    /// True while a polling task is held.
    pub open spec fn is_running(&self) -> bool {
        self.task_handle is Some
    }

    /// A controller with no task.
    pub fn new() -> (state: PollingState<H>)
        ensures
            !state.is_running(),
    {
        PollingState { task_handle: None }
    }

    /// Tells whether a polling task is held.
    pub fn running(&self) -> (yes: bool)
        ensures
            yes == self.is_running(),
    {
        self.task_handle.is_some()
    }

    /// Starts polling unless it already runs. With no task held, `spawn` is
    /// called and its handle kept, and nothing comes back. With a task held,
    /// `spawn` is not called: it comes back unused, and the held handle stays.
    /// Either way exactly one task is held afterwards.
    pub fn start<F: FnOnce() -> H>(&mut self, spawn: F) -> (unused: Option<F>)
        requires
            spawn.requires(()),
        ensures
            old(self).is_running() ==> unused == Some(spawn) && final(self).task_handle == old(
                self,
            ).task_handle,
            !old(self).is_running() ==> unused is None && final(self).task_handle is Some
                && spawn.ensures((), final(self).task_handle->0),
            active_tasks(final(self).task_handle) == 1,
    {
        if self.task_handle.is_some() {
            Some(spawn)
        } else {
            let handle = spawn();
            self.task_handle = Some(handle);
            None
        }
    }

    /// Stops polling: hands back the held handle, for the caller to abort, and
    /// holds none afterwards. With no task held it changes nothing.
    pub fn stop(&mut self) -> (handle: Option<H>)
        ensures
            (handle, final(self).task_handle) == after_stop(old(self).task_handle),
            active_tasks(final(self).task_handle) == 0,
    {
        self.task_handle.take()
    }
}

/// Stopping twice is stopping once: after a stop nothing is held, so a second
/// stop finds no task to abort and changes nothing.
pub proof fn lemma_stop_is_idempotent<H>(held: Option<H>)
    ensures
        after_stop(after_stop(held).1) == (None::<H>, None::<H>),
        after_stop(after_stop(held).1).1 == after_stop(held).1,
        active_tasks(after_stop(held).1) == 0,
{
}

/// Starting twice is starting once: the second start keeps the first task's
/// handle, so exactly one task is live.
pub proof fn lemma_start_is_idempotent<H>(held: Option<H>, first: H, second: H)
    ensures
        after_start(after_start(held, first), second) == after_start(held, first),
        active_tasks(after_start(after_start(held, first), second)) == 1,
        held is None ==> after_start(after_start(held, first), second) == Some(first),
{
}

} // verus!
