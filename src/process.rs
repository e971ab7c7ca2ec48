use vstd::prelude::*;

verus! {

/// A launched command: the leader of its own session, so its process-group
/// id is its pid.
#[derive(Clone, Copy, Debug, PartialEq, Eq)]
pub struct Process {
    pub pid: i32,
}

/// What a stop in progress does next.
#[derive(Clone, Copy, Debug, PartialEq, Eq)]
pub enum StopStep {
    /// The leader has been reaped: the stop is over.
    Done,
    /// Keep waiting for the leader to exit.
    Wait,
    /// The grace period is over: kill the whole group by force.
    Kill,
}

impl Process {
    pub fn new(pid: i32) -> (r: Process)
        ensures
            r.pid == pid,
    {
        Process { pid }
    }

    /// The next step of a stop: once the group was asked to terminate, wait
    /// for the leader; when it has not exited after `timeout_ms`, kill the
    /// group by force, once, and then wait for the leader.
    pub fn stop_step(exited: bool, elapsed_ms: u64, timeout_ms: u64, killed: bool) -> (r: StopStep)
        ensures
            exited ==> r == StopStep::Done,
            !exited && !killed && elapsed_ms >= timeout_ms ==> r == StopStep::Kill,
            !exited && (killed || elapsed_ms < timeout_ms) ==> r == StopStep::Wait,
    {
        if exited {
            StopStep::Done
        } else if !killed && elapsed_ms >= timeout_ms {
            StopStep::Kill
        } else {
            StopStep::Wait
        }
    }
}

} // verus!
