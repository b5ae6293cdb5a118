//! The monitor: the process that runs between the parent and the command, and
//! what it does with each thing that happens while the command runs.
//!
//! A handler is given what was read from the operating system and answers with
//! the actions to perform, in order. Whether an action succeeds makes no
//! difference to what comes after it.
use vstd::prelude::*;

use crate::error_code::{value_of, ByteOrder};
use crate::event::{EventRegistry, MonitorEvent, StopReason};
use crate::message::{CommandStatus, IoError, MonitorMessage, ParentMessage, ProcessId};
use crate::signal::{SignalInfo, SignalNumber, SignalNumbers, SIGCONT_BG, SIGCONT_FG};

verus! {

/// How to wait for a process.
#[derive(Clone, Copy, PartialEq, Eq, Structural, Debug)]
pub struct WaitOptions {
    /// Return for a stopped process too.
    pub untraced: bool,
    /// Return at once if there is nothing to report.
    pub no_hang: bool,
}

impl WaitOptions {
    /// Waits until the process has ended.
    pub fn new() -> (options: WaitOptions)
        ensures
            options == (WaitOptions { untraced: false, no_hang: false }),
    {
        WaitOptions { untraced: false, no_hang: false }
    }
}

/// Something the monitor, or its child, has the operating system do.
#[derive(Clone, Copy, PartialEq, Eq, Debug)]
pub enum Action {
    /// Send a message to the parent over the backchannel.
    Send(ParentMessage),
    /// Put a process into a process group.
    SetProcessGroup { pid: ProcessId, pgrp: ProcessId },
    /// Make a process group the foreground one of the pseudo-terminal.
    SetForeground(ProcessId),
    /// Send a signal to a process.
    Kill { pid: ProcessId, signal: SignalNumber },
    /// Terminate a process, or its whole process group, for good.
    Terminate { pid: ProcessId, use_killpg: bool },
    /// Ask for a change of status of a process, and report it to `on_exit`,
    /// `on_term` or `on_stop`.
    CheckStatus { pid: ProcessId, options: WaitOptions },
    /// Wait for the end of a process, for as long as `must_wait_again` says so.
    Reap { pid: ProcessId, options: WaitOptions },
    /// Write these bytes to the error pipe.
    WriteErrorPipe([u8; 4]),
    /// Leave the process with this exit code.
    Exit(i32),
}

/// What the monitor knows of the machine that it runs on.
#[derive(Clone, Copy, PartialEq, Eq, Structural, Debug)]
pub struct Platform {
    /// The numbers of the signals.
    pub signals: SignalNumbers,
    /// The order of the bytes in the error pipe.
    pub byte_order: ByteOrder,
}

impl Platform {
    /// The machine that the program runs on.
    pub fn host() -> (platform: Platform)
        ensures
            platform.signals.of_host(),
            platform.signals.in_use(),
            platform.signals.valid(),
            platform.byte_order.of_host(),
    {
        Platform { signals: SignalNumbers::host(), byte_order: ByteOrder::native() }
    }
}

/// What was read from a source that had become ready.
#[derive(Clone, Copy, Debug)]
pub enum Delivery {
    /// A signal, and the process group of its sender if that could be found.
    Signal { received: Result<SignalInfo, IoError>, sender_group: Option<ProcessId> },
    /// The bytes from the error pipe.
    ErrPipe(Result<[u8; 4], IoError>),
    /// A message from the backchannel.
    Backchannel(Result<MonitorMessage, IoError>),
}

/// Decides if the signal sent by the process `signaler_pid` is self-terminating.
///
/// It is if `signaler_pid` is the command, or is in the process group of the
/// command and the command is its leader. `signaler_group` is the process group of
/// `signaler_pid`, if it could be found.
pub fn is_self_terminating(
    signaler_pid: ProcessId,
    command_pid: ProcessId,
    command_pgrp: ProcessId,
    signaler_group: Option<ProcessId>,
) -> (terminating: bool)
    ensures
        terminating == self_terminating(signaler_pid, command_pid, command_pgrp, signaler_group),
{
    if signaler_pid != 0 {
        if signaler_pid == command_pid {
            return true;
        }
        if command_pgrp == command_pid {
            if let Some(signaler_pgrp) = signaler_group {
                if signaler_pgrp == command_pgrp {
                    return true;
                }
            }
        }
    }
    false
}

/// A signal is self-terminating if it has a sender and this is the command, or a
/// member of the command's process group while the command leads it.
pub open spec fn self_terminating(
    signaler_pid: ProcessId,
    command_pid: ProcessId,
    command_pgrp: ProcessId,
    signaler_group: Option<ProcessId>,
) -> bool {
    signaler_pid != 0 && (signaler_pid == command_pid || (command_pgrp == command_pid
        && signaler_group == Some(command_pgrp)))
}

/// The state of the monitor while the command runs.
#[derive(Clone, Copy, PartialEq, Eq, Structural, Debug)]
pub struct MonitorClosure {
    /// The command, as long as it is running.
    pub command_pid: Option<ProcessId>,
    /// The process group to bring to the foreground when the command continues
    /// there.
    pub command_pgrp: ProcessId,
    /// The process group of the monitor itself.
    pub monitor_pgrp: ProcessId,
    /// The machine.
    pub platform: Platform,
}

/// The options of every wait for the command while it is monitored: stops are
/// reported, and the wait returns at once.
pub open spec fn monitoring_options() -> WaitOptions {
    WaitOptions { untraced: true, no_hang: true }
}

/// Whether no message asks to execute the command a second time.
pub open spec fn expected_message(received: Result<MonitorMessage, IoError>) -> bool {
    received != Ok::<MonitorMessage, IoError>(MonitorMessage::ExecCommand)
}

/// Whether the outcome of a read ends the event loop: any error does, unless
/// the read was merely interrupted.
pub open spec fn stop_after_read<T>(
    outcome: Result<T, IoError>,
    before: Option<StopReason>,
) -> Option<StopReason> {
    match outcome {
        Err(err) if !err.interrupted => Some(StopReason::Break(err)),
        _ => before,
    }
}

impl MonitorClosure {
    /// The monitor of a command that was just started, in a process group of
    /// its own.
    pub open spec fn started(
        command_pid: ProcessId,
        monitor_pgrp: ProcessId,
        platform: Platform,
    ) -> MonitorClosure {
        MonitorClosure {
            command_pid: Some(command_pid),
            command_pgrp: command_pid,
            monitor_pgrp,
            platform,
        }
    }

    /// Starts to monitor the command: listens to the error pipe, the
    /// backchannel and the signals, and puts the command in its own process
    /// group.
    pub fn new(
        command_pid: ProcessId,
        monitor_pgrp: ProcessId,
        platform: Platform,
        registry: &mut EventRegistry,
    ) -> (result: (MonitorClosure, Vec<Action>))
        ensures
            result.0 == Self::started(command_pid, monitor_pgrp, platform),
            result.1@ == seq![Action::SetProcessGroup { pid: command_pid, pgrp: command_pid }],
            final(registry).events@ == old(registry).events@ + seq![
                MonitorEvent::ReadableErrPipe,
                MonitorEvent::ReadableBackchannel,
                MonitorEvent::Signal,
            ],
            final(registry).stop == old(registry).stop,
    {
        registry.register_event(MonitorEvent::ReadableErrPipe);
        registry.register_event(MonitorEvent::ReadableBackchannel);
        registry.register_event(MonitorEvent::Signal);
        let command_pgrp: ProcessId = command_pid;
        let mut actions: Vec<Action> = Vec::new();
        actions.push(Action::SetProcessGroup { pid: command_pid, pgrp: command_pgrp });
        let closure = MonitorClosure {
            command_pid: Some(command_pid),
            command_pgrp,
            monitor_pgrp,
            platform,
        };
        (closure, actions)
    }

    /// How `signal` is passed on to the command `pid`.
    ///
    /// An alarm terminates the command. The two pseudo signals continue it, after
    /// the foreground was given to the command or to the monitor. Any other
    /// signal is sent as it is.
    pub open spec fn signal_delivery(self, signal: SignalNumber, pid: ProcessId) -> Seq<Action> {
        if signal == self.platform.signals.alrm {
            seq![Action::Terminate { pid, use_killpg: false }]
        } else if signal == SIGCONT_FG {
            seq![
                Action::SetForeground(self.command_pgrp),
                Action::Kill { pid, signal: self.platform.signals.cont },
            ]
        } else if signal == SIGCONT_BG {
            seq![
                Action::SetForeground(self.monitor_pgrp),
                Action::Kill { pid, signal: self.platform.signals.cont },
            ]
        } else {
            seq![Action::Kill { pid, signal }]
        }
    }

    /// Sends a signal to the command.
    pub fn send_signal(&self, signal: SignalNumber, command_pid: ProcessId) -> (actions: Vec<
        Action,
    >)
        ensures
            actions@ == self.signal_delivery(signal, command_pid),
    {
        let mut actions: Vec<Action> = Vec::new();
        if signal == self.platform.signals.alrm {
            actions.push(Action::Terminate { pid: command_pid, use_killpg: false });
        } else if signal == SIGCONT_FG {
            // Continue with the command as the foreground process group.
            actions.push(Action::SetForeground(self.command_pgrp));
            actions.push(Action::Kill { pid: command_pid, signal: self.platform.signals.cont });
        } else if signal == SIGCONT_BG {
            // Continue with the monitor as the foreground process group.
            actions.push(Action::SetForeground(self.monitor_pgrp));
            actions.push(Action::Kill { pid: command_pid, signal: self.platform.signals.cont });
        } else {
            actions.push(Action::Kill { pid: command_pid, signal });
        }
        actions
    }

    /// What a read from the backchannel leads to: a signal is passed on to the
    /// command if it is still running.
    pub open spec fn backchannel_actions(
        self,
        received: Result<MonitorMessage, IoError>,
    ) -> Seq<Action> {
        match (received, self.command_pid) {
            (Ok(MonitorMessage::Signal(signal)), Some(pid)) => self.signal_delivery(signal, pid),
            _ => seq![],
        }
    }

    /// Handles what was read from the backchannel.
    pub fn read_backchannel(
        &self,
        received: Result<MonitorMessage, IoError>,
        registry: &mut EventRegistry,
    ) -> (actions: Vec<Action>)
        requires
            expected_message(received),
        ensures
            actions@ == self.backchannel_actions(received),
            final(registry).events == old(registry).events,
            final(registry).stop == stop_after_read(received, old(registry).stop),
    {
        match received {
            Err(err) => {
                if !err.interrupted {
                    // There's something wrong with the backchannel.
                    registry.set_break(err);
                }
                Vec::new()
            },
            Ok(MonitorMessage::Signal(signal)) => match self.command_pid {
                Some(command_pid) => self.send_signal(signal, command_pid),
                None => Vec::new(),
            },
            Ok(MonitorMessage::ExecCommand) => Vec::new(),
        }
    }

    /// What a read from the error pipe leads to: the error code that the bytes
    /// lay out is reported to the parent.
    pub open spec fn errpipe_actions(self, read: Result<[u8; 4], IoError>) -> Seq<Action> {
        match read {
            Ok(bytes) => seq![
                Action::Send(ParentMessage::IoError(value_of(self.platform.byte_order, bytes@))),
            ],
            Err(_) => seq![],
        }
    }

    /// Handles what was read from the error pipe: an error code from the command
    /// is forwarded to the parent.
    pub fn read_errpipe(&self, read: Result<[u8; 4], IoError>, registry: &mut EventRegistry) -> (
    actions: Vec<Action>)
        ensures
            actions@ == self.errpipe_actions(read),
            final(registry).events == old(registry).events,
            final(registry).stop == stop_after_read(read, old(registry).stop),
    {
        let mut actions: Vec<Action> = Vec::new();
        match read {
            Err(err) => {
                if !err.interrupted {
                    registry.set_break(err);
                }
            },
            Ok(bytes) => {
                let error_code: i32 = self.platform.byte_order.decode(bytes);
                actions.push(Action::Send(ParentMessage::IoError(error_code)));
            },
        }
        actions
    }

    /// What a signal to the monitor leads to, as long as the command is running.
    ///
    /// When a child changed its status, the command is asked for it. A signal
    /// with which the command would signal itself is skipped. All others are
    /// passed on to the command.
    pub open spec fn signal_actions(
        self,
        received: Result<SignalInfo, IoError>,
        sender_group: Option<ProcessId>,
    ) -> Seq<Action> {
        match (received, self.command_pid) {
            (Ok(info), Some(pid)) => if info.signal == self.platform.signals.chld {
                seq![Action::CheckStatus { pid, options: monitoring_options() }]
            } else if info.user_signaled && self_terminating(
                info.pid,
                pid,
                self.command_pgrp,
                sender_group,
            ) {
                seq![]
            } else {
                self.signal_delivery(info.signal, pid)
            },
            _ => seq![],
        }
    }

    /// Handles a signal to the monitor. `sender_group` is the process group of
    /// the process that sent it, if it could be found.
    pub fn on_signal(
        &self,
        received: Result<SignalInfo, IoError>,
        sender_group: Option<ProcessId>,
    ) -> (actions: Vec<Action>)
        ensures
            actions@ == self.signal_actions(received, sender_group),
    {
        let info = match received {
            Ok(info) => info,
            Err(_) => return Vec::new(),
        };
        // Don't do anything if the command has terminated already.
        let command_pid: ProcessId = match self.command_pid {
            Some(command_pid) => command_pid,
            None => return Vec::new(),
        };
        if info.signal == self.platform.signals.chld {
            let mut actions: Vec<Action> = Vec::new();
            actions.push(
                Action::CheckStatus { pid: command_pid, options: Self::wait_options() },
            );
            actions
        } else if info.user_signaled && is_self_terminating(
            info.pid,
            command_pid,
            self.command_pgrp,
            sender_group,
        ) {
            // Skip the signal if it was sent by the user and it is self-terminating.
            Vec::new()
        } else {
            self.send_signal(info.signal, command_pid)
        }
    }

    /// The options with which the command is asked for its status.
    pub fn wait_options() -> (options: WaitOptions)
        ensures
            options == monitoring_options(),
    {
        let mut options = WaitOptions::new();
        options.untraced = true;
        options.no_hang = true;
        options
    }

    /// What `delivery` leads to.
    pub open spec fn event_actions(self, delivery: Delivery) -> Seq<Action> {
        match delivery {
            Delivery::Signal { received, sender_group } => self.signal_actions(
                received,
                sender_group,
            ),
            Delivery::ErrPipe(read) => self.errpipe_actions(read),
            Delivery::Backchannel(received) => self.backchannel_actions(received),
        }
    }

    /// Why the event loop is to stop once `delivery` was handled.
    pub open spec fn stop_after_event(
        delivery: Delivery,
        before: Option<StopReason>,
    ) -> Option<StopReason> {
        match delivery {
            Delivery::Signal { .. } => before,
            Delivery::ErrPipe(read) => stop_after_read(read, before),
            Delivery::Backchannel(received) => stop_after_read(received, before),
        }
    }

    /// Handles whatever was read.
    pub fn on_event(&self, delivery: Delivery, registry: &mut EventRegistry) -> (actions: Vec<
        Action,
    >)
        requires
            delivery matches Delivery::Backchannel(received) ==> expected_message(received),
        ensures
            actions@ == self.event_actions(delivery),
            final(registry).events == old(registry).events,
            final(registry).stop == Self::stop_after_event(delivery, old(registry).stop),
    {
        match delivery {
            Delivery::Signal { received, sender_group } => self.on_signal(received, sender_group),
            Delivery::ErrPipe(read) => self.read_errpipe(read, registry),
            Delivery::Backchannel(received) => self.read_backchannel(received, registry),
        }
    }

    /// The monitor after the command ended: no command is running.
    pub open spec fn after_end(self) -> MonitorClosure {
        MonitorClosure { command_pid: None, ..self }
    }

    /// The command exited: it is no longer running and the event loop is done.
    pub fn on_exit(&mut self, exit_code: i32, registry: &mut EventRegistry)
        ensures
            *final(self) == old(self).after_end(),
            final(registry).events == old(registry).events,
            final(registry).stop == Some(StopReason::Exit(CommandStatus::Exit(exit_code))),
    {
        registry.set_exit(CommandStatus::Exit(exit_code));
        self.command_pid = None;
    }

    /// A signal terminated the command: it is no longer running and the event
    /// loop is done.
    pub fn on_term(&mut self, signal: SignalNumber, registry: &mut EventRegistry)
        ensures
            *final(self) == old(self).after_end(),
            final(registry).events == old(registry).events,
            final(registry).stop == Some(StopReason::Exit(CommandStatus::Term(signal))),
    {
        registry.set_exit(CommandStatus::Term(signal));
        self.command_pid = None;
    }

    /// The monitor after the command stopped while `foreground` was the
    /// foreground process group: it is remembered, unless it is the monitor's
    /// own or could not be found.
    pub open spec fn after_stop(self, foreground: Option<ProcessId>) -> MonitorClosure {
        match foreground {
            Some(pgrp) if pgrp != self.monitor_pgrp => MonitorClosure {
                command_pgrp: pgrp,
                ..self
            },
            _ => self,
        }
    }

    /// A signal stopped the command. `foreground` is the foreground process group
    /// of the pseudo-terminal, if it could be found. The parent is told of the
    /// stop.
    pub fn on_stop(&mut self, signal: SignalNumber, foreground: Option<ProcessId>) -> (actions: Vec<
        Action,
    >)
        ensures
            *final(self) == old(self).after_stop(foreground),
            actions@ == seq![
                Action::Send(ParentMessage::CommandStatus(CommandStatus::Stop(signal))),
            ],
    {
        // Save the foreground process group so it can be restored later.
        if let Some(pgrp) = foreground {
            if pgrp != self.monitor_pgrp {
                self.command_pgrp = pgrp;
            }
        }
        let mut actions: Vec<Action> = Vec::new();
        actions.push(Action::Send(ParentMessage::from(CommandStatus::Stop(signal))));
        actions
    }
}

} // verus!
