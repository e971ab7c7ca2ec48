use vstd::prelude::*;

verus! {

/// An input of the supervisor's control loop.
#[derive(Clone, Debug, PartialEq, Eq)]
pub enum Event {
    /// Only wakes the loop, so that it sees a stop request at once.
    WakeUp,
    /// A file under the watch root was created, written or removed.
    FileChanged(String),
    /// Some child process exited: one child is to be reaped.
    ChildExited,
}

/// The kind of a file-system notification.
#[derive(Clone, Copy, Debug, PartialEq, Eq)]
pub enum WatchKind {
    Create,
    Write,
    Remove,
    /// Renames, rescans, metadata changes and errors.
    Other,
}

/// A signal that the supervisor listens for.
#[derive(Clone, Copy, Debug, PartialEq, Eq)]
pub enum SignalKind {
    /// A child process changed state.
    ChildExited,
    /// A request to terminate.
    Terminate,
    /// An interrupt from the terminal.
    Interrupt,
}

impl Event {
    /// The event for a file-system notification about `path`: creations,
    /// writes and removals count, the rest is ignored.
    pub fn from_watch(kind: WatchKind, path: String) -> (r: Option<Event>)
        ensures
            r == (match kind {
                WatchKind::Other => None,
                _ => Some(Event::FileChanged(path)),
            }),
    {
        match kind {
            WatchKind::Other => None,
            _ => Some(Event::FileChanged(path)),
        }
    }

    /// The event for a signal: an exited child asks for a reap, a termination
    /// request only wakes the loop (the stop flag carries the request).
    pub fn from_signal(signal: SignalKind) -> (r: Event)
        ensures
            r == (match signal {
                SignalKind::ChildExited => Event::ChildExited,
                _ => Event::WakeUp,
            }),
    {
        match signal {
            SignalKind::ChildExited => Event::ChildExited,
            _ => Event::WakeUp,
        }
    }
}

} // verus!
