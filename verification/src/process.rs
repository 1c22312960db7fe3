//! A handle on one spawned operating-system process.

use vstd::prelude::*;

verus! {

/// Wraps the process id of one spawned external process.  The handle is
/// consumed by the first `kill`: the caller that receives `Some(pid)` owes the
/// operating system exactly one termination signal for it, and every later
/// `kill` is a silent no-op.  The view of a handle is the process id it still
/// holds, if any.
#[derive(Clone, Copy, Debug)]
pub struct ProcessHandle {
    pid: Option<u64>,
}

impl View for ProcessHandle {
    type V = Option<u64>;

    closed spec fn view(&self) -> Option<u64> {
        self.pid
    }
}

impl ProcessHandle {
    /// Wrap a process the shell has just spawned under this id.
    pub fn attached(pid: u64) -> (r: Self)
        ensures
            r@ == Some(pid),
    {
        ProcessHandle { pid: Some(pid) }
    }

    /// Consume the handle.  The returned id, if any, is to be signalled once;
    /// a handle that was already consumed yields nothing, so a second kill
    /// can never produce a second signal.
    pub fn kill(&mut self) -> (r: Option<u64>)
        ensures
            final(self)@ == None::<u64>,
            r == old(self)@,
    {
        let r = self.pid;
        self.pid = None;
        r
    }

    /// Whether the handle still holds a process.
    pub fn is_live(&self) -> (r: bool)
        ensures
            r == (self@ is Some),
    {
        self.pid.is_some()
    }

    /// The process id still held, if any.
    pub fn pid(&self) -> (r: Option<u64>)
        ensures
            r == self@,
    {
        self.pid
    }
}

} // verus!
