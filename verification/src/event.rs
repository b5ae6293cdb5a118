//! The event loop as its handlers see it: what it listens to, and whether and
//! why it has been told to stop.
use vstd::prelude::*;

use crate::message::{CommandStatus, IoError};

verus! {

/// Something the monitor listens to has become ready.
#[derive(Clone, Copy, PartialEq, Eq, Structural, Debug)]
pub enum MonitorEvent {
    /// A signal was received.
    Signal,
    /// The error pipe of the command can be read.
    ReadableErrPipe,
    /// The backchannel to the parent can be read.
    ReadableBackchannel,
}

/// Why the event loop stopped.
#[derive(Clone, Copy, PartialEq, Eq, Structural, Debug)]
pub enum StopReason {
    /// Something went wrong.
    Break(IoError),
    /// The command is no more.
    Exit(CommandStatus),
}

/// The state of the event loop.
#[derive(Debug)]
pub struct EventRegistry {
    /// What the loop listens to, in the order of registration.
    pub events: Vec<MonitorEvent>,
    /// Why the loop is to stop, once it is.
    pub stop: Option<StopReason>,
}

impl EventRegistry {
    /// A loop that listens to nothing yet and is not told to stop.
    pub fn new() -> (registry: EventRegistry)
        ensures
            registry.events@ == Seq::<MonitorEvent>::empty(),
            registry.stop is None,
    {
        EventRegistry { events: Vec::new(), stop: None }
    }

    /// Listens to one more event.
    pub fn register_event(&mut self, event: MonitorEvent)
        ensures
            final(self).events@ == old(self).events@.push(event),
            final(self).stop == old(self).stop,
    {
        self.events.push(event);
    }

    /// Tells the loop to stop because of `err`.
    pub fn set_break(&mut self, err: IoError)
        ensures
            final(self).events == old(self).events,
            final(self).stop == Some(StopReason::Break(err)),
    {
        self.stop = Some(StopReason::Break(err));
    }

    /// Tells the loop to stop because the command ended with `status`.
    pub fn set_exit(&mut self, status: CommandStatus)
        ensures
            final(self).events == old(self).events,
            final(self).stop == Some(StopReason::Exit(status)),
    {
        self.stop = Some(StopReason::Exit(status));
    }
}

} // verus!
