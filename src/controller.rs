use vstd::prelude::*;

use crate::event::SignalKind;

verus! {

/// An input of the minimal init process, which only reaps children until it
/// is told to shut down.
#[derive(Clone, Copy, Debug, PartialEq, Eq)]
pub enum Event {
    /// Some child process exited.
    ChildExited,
    /// A request to terminate.
    Shutdown,
}

/// What the init loop does after an event.
#[derive(Clone, Copy, Debug, PartialEq, Eq)]
pub enum Flow {
    /// Reap one exited child, then keep going.
    Reap,
    /// Leave the loop.
    Stop,
}

/// The decisions of the minimal init process.
#[derive(Clone, Copy, Debug, PartialEq, Eq)]
pub struct Controller {}

impl Event {
    /// The event for a signal: an exited child, or a request to terminate.
    pub fn from_signal(signal: SignalKind) -> (r: Event)
        ensures
            r == (match signal {
                SignalKind::ChildExited => Event::ChildExited,
                _ => Event::Shutdown,
            }),
    {
        match signal {
            SignalKind::ChildExited => Event::ChildExited,
            _ => Event::Shutdown,
        }
    }
}

impl Controller {
    pub fn new() -> (r: Controller)
        ensures
            r == (Controller {}),
    {
        Controller {}
    }

    /// An exited child is reaped and the loop goes on; a shutdown request
    /// ends it.
    pub fn handle_event(&self, event: Event) -> (r: Flow)
        ensures
            r == (match event {
                Event::ChildExited => Flow::Reap,
                Event::Shutdown => Flow::Stop,
            }),
    {
        match event {
            Event::ChildExited => Flow::Reap,
            Event::Shutdown => Flow::Stop,
        }
    }
}

} // verus!
