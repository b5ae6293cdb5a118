//! What the monitor and its parent tell each other over the backchannel.
use vstd::prelude::*;

use crate::signal::SignalNumber;

verus! {

/// The identifier of a process or of a process group.
pub type ProcessId = i32;

/// What the monitor reads of an input or output error.
#[derive(Clone, Copy, PartialEq, Eq, Structural, Debug)]
pub struct IoError {
    /// The error number of the operating system, if the error came from there.
    pub raw_os_error: Option<i32>,
    /// Whether the operation was interrupted by a signal and may be tried again.
    pub interrupted: bool,
}

/// How the command fares.
#[derive(Clone, Copy, PartialEq, Eq, Structural, Debug)]
pub enum CommandStatus {
    /// It exited with this code.
    Exit(i32),
    /// This signal terminated it.
    Term(SignalNumber),
    /// This signal stopped it.
    Stop(SignalNumber),
}

/// A message from the parent to the monitor.
#[derive(Clone, Copy, PartialEq, Eq, Structural, Debug)]
pub enum MonitorMessage {
    /// The green light: execute the command.
    ExecCommand,
    /// Pass this signal, or pseudo signal, on to the command.
    Signal(SignalNumber),
}

/// A message from the monitor to the parent.
#[derive(Clone, Copy, PartialEq, Eq, Structural, Debug)]
pub enum ParentMessage {
    /// An operation failed with this error number.
    IoError(i32),
    /// The command changed its status.
    CommandStatus(CommandStatus),
    /// The command was started and has this identifier.
    CommandPid(ProcessId),
}

impl ParentMessage {
    /// The message that reports `err`: there is one if and only if the error
    /// carries an error number of the operating system.
    pub open spec fn reporting(err: IoError) -> Option<ParentMessage> {
        match err.raw_os_error {
            Some(code) => Some(ParentMessage::IoError(code)),
            None => None,
        }
    }

    /// Turns an error into a message. An error without an error number has no
    /// message and is handed back.
    pub fn try_from_io(err: IoError) -> (result: Result<ParentMessage, IoError>)
        ensures
            match Self::reporting(err) {
                Some(message) => result == Ok::<ParentMessage, IoError>(message),
                None => result == Err::<ParentMessage, IoError>(err),
            },
    {
        match err.raw_os_error {
            Some(code) => Ok(ParentMessage::IoError(code)),
            None => Err(err),
        }
    }
}

impl From<CommandStatus> for ParentMessage {
    fn from(status: CommandStatus) -> (message: ParentMessage) {
        ParentMessage::CommandStatus(status)
    }
}

impl vstd::std_specs::convert::FromSpecImpl<CommandStatus> for ParentMessage {
    open spec fn obeys_from_spec() -> bool {
        true
    }

    open spec fn from_spec(status: CommandStatus) -> ParentMessage {
        ParentMessage::CommandStatus(status)
    }
}

} // verus!
