//! The life of the monitor process from its launch to its exit, and that of the
//! child process in which it executes the command.
//!
//! Both are told what came of the last request to the operating system and
//! answer with the next one.
use vstd::prelude::*;

use crate::error_code::{bytes_of, ByteOrder};
use crate::event::{EventRegistry, MonitorEvent, StopReason};
use crate::message::{IoError, MonitorMessage, ParentMessage, ProcessId};
use crate::monitor::{Action, MonitorClosure, Platform, WaitOptions};

verus! {

/// On which side of a fork a process finds itself.
#[derive(Clone, Copy, PartialEq, Eq, Structural, Debug)]
pub enum ForkResult {
    /// In the process that forked, with the identifier of the new one.
    Parent(ProcessId),
    /// In the new process.
    Child,
}

/// What came of the last request, while the monitor starts up.
#[derive(Clone, Copy, Debug)]
pub enum StartupEvent {
    /// Nothing was requested yet.
    Launched,
    /// The signal handlers were to be installed.
    HandlersInstalled(Result<(), IoError>),
    /// A session was to be started.
    SessionStarted(Result<(), IoError>),
    /// The pseudo-terminal was to become the controlling one.
    TerminalTaken(Result<(), IoError>),
    /// The error pipe was to be opened.
    ErrorPipeOpened(Result<(), IoError>),
    /// A message was to be received from the parent.
    MessageReceived(Result<MonitorMessage, IoError>),
    /// The process was to be forked.
    Forked(Result<ForkResult, IoError>),
}

/// What the monitor requests next, while it starts up.
#[derive(Clone, Copy, PartialEq, Eq, Structural, Debug)]
pub enum StartupCall {
    /// Install the signal handlers.
    InstallHandlers,
    /// Start a new terminal session with the monitor as its leader.
    StartSession,
    /// Make the follower side of the pseudo-terminal the controlling terminal.
    TakeTerminal,
    /// Open the pipe through which the command reports that it could not be
    /// executed.
    OpenErrorPipe,
    /// Receive a message from the parent.
    ReceiveMessage,
    /// Fork.
    Fork,
    /// Monitor this command: the startup is over.
    Monitor(ProcessId),
    /// Execute the command in this process: the startup is over.
    ExecCommand,
    /// Give up with this error.
    Fail(IoError),
}

/// `next` if all went well, else the failure.
pub open spec fn proceed(outcome: Result<(), IoError>, next: StartupCall) -> StartupCall {
    match outcome {
        Ok(_) => next,
        Err(err) => StartupCall::Fail(err),
    }
}

/// What follows each event of the startup.
///
/// Every step has to succeed before the next one, and the first failure is the
/// end. Only the wait for the parent's green light is taken up again when it was
/// interrupted, and the process does not fork before that.
pub open spec fn startup_next(event: StartupEvent) -> StartupCall {
    match event {
        StartupEvent::Launched => StartupCall::InstallHandlers,
        StartupEvent::HandlersInstalled(outcome) => proceed(outcome, StartupCall::StartSession),
        StartupEvent::SessionStarted(outcome) => proceed(outcome, StartupCall::TakeTerminal),
        StartupEvent::TerminalTaken(outcome) => proceed(outcome, StartupCall::OpenErrorPipe),
        StartupEvent::ErrorPipeOpened(outcome) => proceed(outcome, StartupCall::ReceiveMessage),
        StartupEvent::MessageReceived(Ok(_)) => StartupCall::Fork,
        StartupEvent::MessageReceived(Err(err)) => if err.interrupted {
            StartupCall::ReceiveMessage
        } else {
            StartupCall::Fail(err)
        },
        StartupEvent::Forked(Ok(ForkResult::Parent(pid))) => StartupCall::Monitor(pid),
        StartupEvent::Forked(Ok(ForkResult::Child)) => StartupCall::ExecCommand,
        StartupEvent::Forked(Err(err)) => StartupCall::Fail(err),
    }
}

/// Takes the startup of the monitor one step further.
///
/// The backchannel keeps messages in order, so the first one can only be the
/// parent's green light to execute the command: it is not looked at here.
pub fn exec_monitor(event: StartupEvent) -> (call: StartupCall)
    ensures
        call == startup_next(event),
{
    match event {
        StartupEvent::Launched => StartupCall::InstallHandlers,
        StartupEvent::HandlersInstalled(Ok(_)) => StartupCall::StartSession,
        StartupEvent::SessionStarted(Ok(_)) => StartupCall::TakeTerminal,
        StartupEvent::TerminalTaken(Ok(_)) => StartupCall::OpenErrorPipe,
        StartupEvent::ErrorPipeOpened(Ok(_)) => StartupCall::ReceiveMessage,
        StartupEvent::MessageReceived(Ok(_)) => StartupCall::Fork,
        StartupEvent::Forked(Ok(ForkResult::Parent(command_pid))) => StartupCall::Monitor(
            command_pid,
        ),
        StartupEvent::Forked(Ok(ForkResult::Child)) => StartupCall::ExecCommand,
        StartupEvent::MessageReceived(Err(err)) => {
            if err.interrupted {
                StartupCall::ReceiveMessage
            } else {
                StartupCall::Fail(err)
            }
        },
        StartupEvent::HandlersInstalled(Err(err)) => StartupCall::Fail(err),
        StartupEvent::SessionStarted(Err(err)) => StartupCall::Fail(err),
        StartupEvent::TerminalTaken(Err(err)) => StartupCall::Fail(err),
        StartupEvent::ErrorPipeOpened(Err(err)) => StartupCall::Fail(err),
        StartupEvent::Forked(Err(err)) => StartupCall::Fail(err),
    }
}

/// The actions with which the monitoring of a command begins: the parent learns
/// its identifier, the command gets a process group of its own, and this group
/// the foreground if the command is to run there.
pub open spec fn opening_actions(command_pid: ProcessId, foreground: bool) -> Seq<Action> {
    seq![
        Action::Send(ParentMessage::CommandPid(command_pid)),
        Action::SetProcessGroup { pid: command_pid, pgrp: command_pid },
    ] + if foreground {
        seq![Action::SetForeground(command_pid)]
    } else {
        seq![]
    }
}

/// Begins to monitor the command that was just forked.
pub fn begin_monitoring(
    command_pid: ProcessId,
    monitor_pgrp: ProcessId,
    foreground: bool,
    platform: Platform,
    registry: &mut EventRegistry,
) -> (result: (MonitorClosure, Vec<Action>))
    ensures
        result.0 == MonitorClosure::started(command_pid, monitor_pgrp, platform),
        result.1@ == opening_actions(command_pid, foreground),
        final(registry).events@ == old(registry).events@ + seq![
            MonitorEvent::ReadableErrPipe,
            MonitorEvent::ReadableBackchannel,
            MonitorEvent::Signal,
        ],
        final(registry).stop == old(registry).stop,
{
    let mut actions: Vec<Action> = Vec::new();
    actions.push(Action::Send(ParentMessage::CommandPid(command_pid)));
    let (closure, mut group_actions) = MonitorClosure::new(
        command_pid,
        monitor_pgrp,
        platform,
        registry,
    );
    actions.append(&mut group_actions);
    if foreground {
        actions.push(Action::SetForeground(closure.command_pgrp));
    }
    assert(actions@ =~= opening_actions(command_pid, foreground));
    (closure, actions)
}

/// The message that tells the parent why the event loop stopped, if there is
/// one.
pub open spec fn closing_message(reason: StopReason) -> Option<ParentMessage> {
    match reason {
        StopReason::Break(err) => ParentMessage::reporting(err),
        StopReason::Exit(status) => Some(ParentMessage::CommandStatus(status)),
    }
}

/// The actions with which the monitor ends.
///
/// The command is terminated with its process group and waited for if it is
/// still running. The monitor then takes the terminal, so that the command's
/// children don't receive a hangup when it exits, tells the parent why it
/// stopped, and exits.
pub open spec fn closing_actions(closure: MonitorClosure, reason: StopReason) -> Seq<Action> {
    (match closure.command_pid {
        Some(pid) => seq![
            Action::Terminate { pid, use_killpg: true },
            Action::Reap { pid, options: WaitOptions { untraced: false, no_hang: false } },
        ],
        None => seq![],
    }) + seq![Action::SetForeground(closure.monitor_pgrp)] + (match closing_message(reason) {
        Some(message) => seq![Action::Send(message)],
        None => seq![],
    }) + seq![Action::Exit(1)]
}

/// Ends the monitor once its event loop stopped.
pub fn shut_down(closure: &MonitorClosure, reason: StopReason) -> (actions: Vec<Action>)
    ensures
        actions@ == closing_actions(*closure, reason),
{
    let mut actions: Vec<Action> = Vec::new();
    // Terminate the command if it's not terminated.
    if let Some(pid) = closure.command_pid {
        actions.push(Action::Terminate { pid, use_killpg: true });
        actions.push(Action::Reap { pid, options: WaitOptions::new() });
    }
    // Take the controlling terminal.
    actions.push(Action::SetForeground(closure.monitor_pgrp));
    match reason {
        StopReason::Break(err) => {
            if let Ok(message) = ParentMessage::try_from_io(err) {
                actions.push(Action::Send(message));
            }
        },
        StopReason::Exit(command_status) => {
            actions.push(Action::Send(ParentMessage::from(command_status)));
        },
    }
    actions.push(Action::Exit(1));
    assert(actions@ =~= closing_actions(*closure, reason));
    actions
}

/// Why a wait for a process gave no status.
#[derive(Clone, Copy, PartialEq, Eq, Structural, Debug)]
pub enum WaitError {
    /// The wait failed.
    Io(IoError),
    /// There is nothing to report yet.
    NotReady,
}

/// Decides if the wait for the terminated command goes on: only after an
/// interruption.
pub fn must_wait_again(outcome: Result<(), WaitError>) -> (again: bool)
    ensures
        again == (outcome matches Err(WaitError::Io(err)) && err.interrupted),
{
    match outcome {
        Err(WaitError::Io(err)) => err.interrupted,
        _ => false,
    }
}

/// What came of the last request, in the child process.
#[derive(Clone, Copy, Debug)]
pub enum ChildEvent {
    /// Nothing was requested yet.
    Forked,
    /// The child was to get a process group of its own, whether it did or not.
    GroupSet,
    /// The foreground process group was asked for.
    Foreground(Result<ProcessId, IoError>),
    /// The child slept.
    Slept,
}

/// What the child process requests next.
#[derive(Clone, Copy, PartialEq, Eq, Structural, Debug)]
pub enum ChildCall {
    /// Put the child itself into this process group.
    SetOwnGroup(ProcessId),
    /// Ask for the foreground process group of the pseudo-terminal.
    GetForeground,
    /// Sleep for this many microseconds.
    Sleep(u64),
    /// Execute the command.
    Exec,
}

/// What follows each event in the child process `command_pid`.
///
/// It moves into its own process group. If it is to run in the foreground, it
/// waits until the monitor has put it there. Then it executes the command.
pub open spec fn child_next(event: ChildEvent, command_pid: ProcessId, foreground: bool) -> ChildCall {
    match event {
        ChildEvent::Forked => ChildCall::SetOwnGroup(command_pid),
        ChildEvent::GroupSet => if foreground {
            ChildCall::GetForeground
        } else {
            ChildCall::Exec
        },
        ChildEvent::Foreground(found) => if found == Ok::<ProcessId, IoError>(command_pid) {
            ChildCall::Exec
        } else {
            ChildCall::Sleep(1)
        },
        ChildEvent::Slept => ChildCall::GetForeground,
    }
}

/// Takes the child process `command_pid` one step further.
pub fn exec_command(event: ChildEvent, command_pid: ProcessId, foreground: bool) -> (call: ChildCall)
    ensures
        call == child_next(event, command_pid, foreground),
{
    match event {
        ChildEvent::Forked => ChildCall::SetOwnGroup(command_pid),
        ChildEvent::GroupSet => {
            // Wait for the monitor to set us as the foreground group if we are in the
            // foreground.
            if foreground {
                ChildCall::GetForeground
            } else {
                ChildCall::Exec
            }
        },
        ChildEvent::Foreground(Ok(pid)) => {
            if pid == command_pid {
                ChildCall::Exec
            } else {
                ChildCall::Sleep(1)
            }
        },
        ChildEvent::Foreground(Err(_)) => ChildCall::Sleep(1),
        ChildEvent::Slept => ChildCall::GetForeground,
    }
}

/// What the child writes to the error pipe when the command could not be
/// executed: the error number, if there is one.
pub fn report_exec_failure(err: IoError, byte_order: ByteOrder) -> (report: Option<[u8; 4]>)
    ensures
        match err.raw_os_error {
            Some(code) => report is Some && report->0@ == bytes_of(byte_order, code),
            None => report is None,
        },
{
    match err.raw_os_error {
        Some(error_code) => Some(byte_order.encode(error_code)),
        None => None,
    }
}

/// What the child does once the command could not be executed: it writes the
/// error number to the error pipe if there is one, and exits with status one. It
/// sends no message to the parent.
pub fn exec_failed(err: IoError, byte_order: ByteOrder) -> (actions: Vec<Action>)
    ensures
        match err.raw_os_error {
            Some(code) => {
                &&& actions@.len() == 2
                &&& actions@[0] is WriteErrorPipe
                &&& actions@[0]->WriteErrorPipe_0@ == bytes_of(byte_order, code)
                &&& actions@[1] == Action::Exit(1)
            },
            None => actions@ == seq![Action::Exit(1)],
        },
        forall|i: int| 0 <= i < actions@.len() ==> !(#[trigger] actions@[i] is Send),
{
    let mut actions: Vec<Action> = Vec::new();
    if let Some(bytes) = report_exec_failure(err, byte_order) {
        actions.push(Action::WriteErrorPipe(bytes));
    }
    actions.push(Action::Exit(1));
    actions
}

} // verus!
