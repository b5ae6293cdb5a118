//! What each call of the monitor, and of the child in which it executes the
//! command, gives for its arguments.
use vstd::prelude::*;

use crate::error_code::{law_bytes_are_digits, law_error_code_survives, ByteOrder};
use crate::event::{EventRegistry, MonitorEvent, StopReason};
use crate::exec_monitor::{
    begin_monitoring, exec_command, exec_failed, exec_monitor, must_wait_again,
    report_exec_failure, shut_down, ChildCall, ChildEvent, ForkResult, StartupCall, StartupEvent,
    WaitError,
};
use crate::message::{CommandStatus, IoError, MonitorMessage, ParentMessage, ProcessId};
use crate::monitor::{is_self_terminating, Action, Delivery, MonitorClosure, Platform, WaitOptions};
use crate::monitor_laws::{Happening, MonitorState};
use crate::signal::{SignalInfo, SignalNumber};

verus! {

/// A registry listens to each event once it was registered, behind those before
/// it, and is not told to stop for that.
pub proof fn law_registered_events_are_kept(registry: &mut EventRegistry, event: MonitorEvent)
    requires
        call_ensures(EventRegistry::register_event, (registry, event), ()),
    ensures
        final(registry).events@.len() == old(registry).events@.len() + 1,
        final(registry).events@.last() == event,
        forall|i: int|
            0 <= i < old(registry).events@.len() ==> final(registry).events@[i] == #[trigger] old(registry).events@[i],
        final(registry).stop == old(registry).stop,
{
}

/// A break and an exit tell the loop why to stop, the last one counts, and the
/// loop goes on listening to the same events.
pub proof fn law_break_tells_why(registry: &mut EventRegistry, err: IoError)
    requires
        call_ensures(EventRegistry::set_break, (registry, err), ()),
    ensures
        final(registry).stop == Some(StopReason::Break(err)),
        final(registry).events@ == old(registry).events@,
{
}

/// See [`law_break_tells_why`].
pub proof fn law_exit_tells_why(registry: &mut EventRegistry, status: CommandStatus)
    requires
        call_ensures(EventRegistry::set_exit, (registry, status), ()),
    ensures
        final(registry).stop == Some(StopReason::Exit(status)),
        final(registry).events@ == old(registry).events@,
{
}

/// A new loop listens to nothing and goes on.
pub proof fn law_new_registry_is_empty(registry: EventRegistry)
    requires
        call_ensures(EventRegistry::new, (), registry),
    ensures
        registry.events@.len() == 0,
        registry.stop is None,
{
}

/// An error becomes a message if and only if it has an error number, which the
/// message then holds. Otherwise it is handed back.
pub proof fn law_error_number_is_the_message(err: IoError, result: Result<ParentMessage, IoError>)
    requires
        call_ensures(ParentMessage::try_from_io, (err,), result),
    ensures
        err.raw_os_error matches Some(code) ==> result == Ok::<ParentMessage, IoError>(
            ParentMessage::IoError(code),
        ),
        err.raw_os_error is None ==> result == Err::<ParentMessage, IoError>(err),
{
}

/// A sender is taken for the command itself if and only if it is known, and it is
/// the command or in the process group that the command leads.
pub proof fn law_self_termination(
    signaler: ProcessId,
    command: ProcessId,
    command_group: ProcessId,
    signaler_group: Option<ProcessId>,
    terminating: bool,
)
    requires
        call_ensures(
            is_self_terminating,
            (signaler, command, command_group, signaler_group),
            terminating,
        ),
    ensures
        signaler == 0 ==> !terminating,
        signaler != 0 && signaler == command ==> terminating,
        signaler != 0 && signaler != command ==> (terminating <==> signaler_group == Some(command)
            && command_group == command),
{
}

/// Sending a signal to a command does what the signal asks for.
pub proof fn law_signal_is_delivered(
    closure: MonitorClosure,
    signal: SignalNumber,
    pid: ProcessId,
    actions: Vec<Action>,
)
    requires
        call_ensures(MonitorClosure::send_signal, (&closure, signal, pid), actions),
    ensures
        signal != closure.platform.signals.alrm && signal != -2 && signal != -3 ==> actions@
            == seq![Action::Kill { pid, signal }],
        signal == closure.platform.signals.alrm ==> actions@ == seq![
            Action::Terminate { pid, use_killpg: false },
        ],
        signal != closure.platform.signals.alrm && signal == -2 ==> actions@ == seq![
            Action::SetForeground(closure.command_pgrp),
            Action::Kill { pid, signal: closure.platform.signals.cont },
        ],
        signal != closure.platform.signals.alrm && signal == -3 ==> actions@ == seq![
            Action::SetForeground(closure.monitor_pgrp),
            Action::Kill { pid, signal: closure.platform.signals.cont },
        ],
{
}

/// A read from the backchannel that failed breaks the loop, unless it was
/// interrupted. One that gave a signal leaves the loop alone and has the signal
/// sent to the command, as long as there is one.
pub proof fn law_backchannel_is_handled(
    closure: MonitorClosure,
    received: Result<MonitorMessage, IoError>,
    registry: &mut EventRegistry,
    actions: Vec<Action>,
    signal: SignalNumber,
    pid: ProcessId,
    delivered: Vec<Action>,
)
    requires
        call_ensures(MonitorClosure::read_backchannel, (&closure, received, registry), actions),
        call_ensures(MonitorClosure::send_signal, (&closure, signal, pid), delivered),
    ensures
        final(registry).events@ == old(registry).events@,
        received matches Err(err) ==> actions@.len() == 0,
        received matches Err(err) ==> final(registry).stop == if err.interrupted {
            old(registry).stop
        } else {
            Some(StopReason::Break(err))
        },
        received is Ok ==> final(registry).stop == old(registry).stop,
        received == Ok::<MonitorMessage, IoError>(MonitorMessage::Signal(signal)) ==> {
            &&& closure.command_pid == Some(pid) ==> actions@ == delivered@
            &&& closure.command_pid is None ==> actions@.len() == 0
        },
{
}

/// A read from the error pipe that failed breaks the loop, unless it was
/// interrupted. One that gave bytes leaves the loop alone and has exactly one
/// message sent: the number with these bytes for digits.
pub proof fn law_error_pipe_is_handled(
    closure: MonitorClosure,
    read: Result<[u8; 4], IoError>,
    registry: &mut EventRegistry,
    actions: Vec<Action>,
    code: i32,
    bytes: [u8; 4],
)
    requires
        call_ensures(MonitorClosure::read_errpipe, (&closure, read, registry), actions),
        call_ensures(ByteOrder::encode, (closure.platform.byte_order, code), bytes),
    ensures
        final(registry).events@ == old(registry).events@,
        read matches Err(err) ==> actions@.len() == 0,
        read matches Err(err) ==> final(registry).stop == if err.interrupted {
            old(registry).stop
        } else {
            Some(StopReason::Break(err))
        },
        read is Ok ==> final(registry).stop == old(registry).stop,
        read == Ok::<[u8; 4], IoError>(bytes) ==> actions@ == seq![
            Action::Send(ParentMessage::IoError(code)),
        ],
{
    law_error_code_survives(closure.platform.byte_order, code);
}

/// A signal to the monitor leads to nothing if it was lost, if there is no command
/// or if the command sent it to itself. One about a child has the command asked for
/// its status. Any other is sent to the command.
pub proof fn law_signal_is_handled(
    closure: MonitorClosure,
    received: Result<SignalInfo, IoError>,
    group: Option<ProcessId>,
    actions: Vec<Action>,
    signal: SignalNumber,
    pid: ProcessId,
    delivered: Vec<Action>,
)
    requires
        call_ensures(MonitorClosure::on_signal, (&closure, received, group), actions),
        call_ensures(MonitorClosure::send_signal, (&closure, signal, pid), delivered),
    ensures
        received is Err || closure.command_pid is None ==> actions@.len() == 0,
        received is Ok && closure.command_pid == Some(pid) && received->Ok_0.signal == signal ==> ({
            let info = received->Ok_0;
            let from_itself = info.user_signaled && info.pid != 0 && (info.pid == pid || (group
                == Some(pid) && closure.command_pgrp == pid));
            let about_child = signal == closure.platform.signals.chld;
            let options = (WaitOptions { untraced: true, no_hang: true });
            &&& about_child ==> actions@ == seq![Action::CheckStatus { pid, options }]
            &&& !about_child && from_itself ==> actions@.len() == 0
            &&& !about_child && !from_itself ==> actions@ == delivered@
        }),
{
}

/// An event is handled as the handler for its source handles what was read there.
pub proof fn law_event_goes_to_its_handler(
    closure: MonitorClosure,
    delivery: Delivery,
    registry: &mut EventRegistry,
    actions: Vec<Action>,
)
    requires
        call_ensures(MonitorClosure::on_event, (&closure, delivery, registry), actions),
    ensures
        final(registry).events@ == old(registry).events@,
        delivery matches Delivery::Signal { received, sender_group } ==> {
            &&& actions@ == closure.signal_actions(received, sender_group)
            &&& final(registry).stop == old(registry).stop
        },
        delivery matches Delivery::ErrPipe(read) ==> actions@ == closure.errpipe_actions(read),
        delivery matches Delivery::Backchannel(received) ==> actions@
            == closure.backchannel_actions(received),
        delivery matches Delivery::ErrPipe(Err(err)) ==> final(registry).stop
            == if err.interrupted {
            old(registry).stop
        } else {
            Some(StopReason::Break(err))
        },
        delivery matches Delivery::Backchannel(Err(err)) ==> final(registry).stop
            == if err.interrupted {
            old(registry).stop
        } else {
            Some(StopReason::Break(err))
        },
        delivery matches Delivery::ErrPipe(Ok(_)) ==> final(registry).stop == old(registry).stop,
        delivery matches Delivery::Backchannel(Ok(_)) ==> final(registry).stop == old(registry).stop,
        // The life of the monitor is made of these calls.
        (MonitorState { closure, stop: old(registry).stop }).step(Happening::Event(delivery)) == (
        MonitorState { closure, stop: final(registry).stop }),
        (MonitorState { closure, stop: old(registry).stop }).actions(Happening::Event(delivery))
            == actions@,
{
}

/// When the command exited, the monitor forgets it and nothing else, and the loop
/// is told the exit code.
pub proof fn law_exit_is_noted(
    closure: &mut MonitorClosure,
    code: i32,
    registry: &mut EventRegistry,
)
    requires
        call_ensures(MonitorClosure::on_exit, (closure, code, registry), ()),
    ensures
        final(closure).command_pid is None,
        final(closure).command_pgrp == old(closure).command_pgrp,
        final(closure).monitor_pgrp == old(closure).monitor_pgrp,
        final(closure).platform == old(closure).platform,
        final(registry).stop == Some(StopReason::Exit(CommandStatus::Exit(code))),
        final(registry).events@ == old(registry).events@,
        (MonitorState { closure: *old(closure), stop: old(registry).stop }).step(
            Happening::Exit(code),
        ) == (MonitorState { closure: *final(closure), stop: final(registry).stop }),
{
}

/// When a signal terminated the command, the monitor forgets it and nothing else,
/// and the loop is told the signal.
pub proof fn law_termination_is_noted(
    closure: &mut MonitorClosure,
    signal: SignalNumber,
    registry: &mut EventRegistry,
)
    requires
        call_ensures(MonitorClosure::on_term, (closure, signal, registry), ()),
    ensures
        final(closure).command_pid is None,
        final(closure).command_pgrp == old(closure).command_pgrp,
        final(closure).monitor_pgrp == old(closure).monitor_pgrp,
        final(closure).platform == old(closure).platform,
        final(registry).stop == Some(StopReason::Exit(CommandStatus::Term(signal))),
        final(registry).events@ == old(registry).events@,
        (MonitorState { closure: *old(closure), stop: old(registry).stop }).step(
            Happening::Term(signal),
        ) == (MonitorState { closure: *final(closure), stop: final(registry).stop }),
{
}

/// When a signal stopped the command, the parent is told the signal, and the
/// foreground process group is remembered unless it is unknown or the monitor's.
pub proof fn law_stop_is_noted(
    closure: &mut MonitorClosure,
    signal: SignalNumber,
    foreground: Option<ProcessId>,
    actions: Vec<Action>,
    stop: Option<StopReason>,
)
    requires
        call_ensures(MonitorClosure::on_stop, (closure, signal, foreground), actions),
    ensures
        actions@ == seq![Action::Send(ParentMessage::CommandStatus(CommandStatus::Stop(signal)))],
        final(closure).command_pid == old(closure).command_pid,
        final(closure).monitor_pgrp == old(closure).monitor_pgrp,
        final(closure).platform == old(closure).platform,
        foreground matches Some(pgrp) ==> pgrp != old(closure).monitor_pgrp ==> final(closure).command_pgrp == pgrp,
        foreground is None || foreground == Some(old(closure).monitor_pgrp) ==> final(closure).command_pgrp == old(closure).command_pgrp,
        (MonitorState { closure: *old(closure), stop }).step(Happening::Stop(signal, foreground)) == (
        MonitorState { closure: *final(closure), stop }),
        (MonitorState { closure: *old(closure), stop }).actions(Happening::Stop(signal, foreground))
            == actions@,
{
}

/// A new monitor knows its command, takes the command to lead a process group of
/// its own and has it put there, and listens to all that can happen.
pub proof fn law_new_monitor(
    pid: ProcessId,
    monitor_pgrp: ProcessId,
    platform: Platform,
    registry: &mut EventRegistry,
    result: (MonitorClosure, Vec<Action>),
)
    requires
        call_ensures(MonitorClosure::new, (pid, monitor_pgrp, platform, registry), result),
    ensures
        result.0.command_pid == Some(pid),
        result.0.command_pgrp == pid,
        result.0.monitor_pgrp == monitor_pgrp,
        result.0.platform == platform,
        result.1@ == seq![Action::SetProcessGroup { pid, pgrp: pid }],
        final(registry).stop == old(registry).stop,
        final(registry).events@ == old(registry).events@.push(MonitorEvent::ReadableErrPipe).push(
            MonitorEvent::ReadableBackchannel,
        ).push(MonitorEvent::Signal),
{
    assert(final(registry).events@ =~= old(registry).events@.push(
        MonitorEvent::ReadableErrPipe,
    ).push(MonitorEvent::ReadableBackchannel).push(MonitorEvent::Signal));
}

/// Monitoring begins with a new monitor. The parent is told of the command first,
/// then the command gets its process group, and last the foreground if it is to
/// run there.
pub proof fn law_monitoring_begins(
    pid: ProcessId,
    monitor_pgrp: ProcessId,
    foreground: bool,
    platform: Platform,
    registry: &mut EventRegistry,
    result: (MonitorClosure, Vec<Action>),
)
    requires
        call_ensures(
            begin_monitoring,
            (pid, monitor_pgrp, foreground, platform, registry),
            result,
        ),
    ensures
        result.0.command_pid == Some(pid),
        result.0.command_pgrp == pid,
        result.0.monitor_pgrp == monitor_pgrp,
        result.0.platform == platform,
        old(registry).stop is None ==> MonitorState::initial(pid, monitor_pgrp, platform) == (
        MonitorState { closure: result.0, stop: final(registry).stop }),
        !foreground ==> result.1@ == seq![
            Action::Send(ParentMessage::CommandPid(pid)),
            Action::SetProcessGroup { pid, pgrp: pid },
        ],
        foreground ==> result.1@ == seq![
            Action::Send(ParentMessage::CommandPid(pid)),
            Action::SetProcessGroup { pid, pgrp: pid },
            Action::SetForeground(pid),
        ],
        final(registry).stop == old(registry).stop,
        final(registry).events@ == old(registry).events@.push(MonitorEvent::ReadableErrPipe).push(
            MonitorEvent::ReadableBackchannel,
        ).push(MonitorEvent::Signal),
{
    assert(final(registry).events@ =~= old(registry).events@.push(
        MonitorEvent::ReadableErrPipe,
    ).push(MonitorEvent::ReadableBackchannel).push(MonitorEvent::Signal));
}

/// The end of the monitor, in order: a command that is still running is terminated
/// with its process group and waited for, the monitor takes the foreground, the
/// parent is told why the loop stopped if that can be told, and the monitor exits.
pub proof fn law_shutdown_in_order(closure: MonitorClosure, reason: StopReason, actions: Vec<Action>)
    requires
        call_ensures(shut_down, (&closure, reason), actions),
    ensures
        ({
            let count: int = if closure.command_pid is Some {
                2
            } else {
                0
            };
            &&& closure.command_pid matches Some(pid) ==> {
                &&& actions@[0] == (Action::Terminate { pid, use_killpg: true })
                &&& actions@[1] == (Action::Reap {
                    pid,
                    options: WaitOptions { untraced: false, no_hang: false },
                })
            }
            &&& actions@.skip(count) == match reason {
                StopReason::Exit(status) => seq![
                    Action::SetForeground(closure.monitor_pgrp),
                    Action::Send(ParentMessage::CommandStatus(status)),
                    Action::Exit(1),
                ],
                StopReason::Break(err) => match err.raw_os_error {
                    Some(code) => seq![
                        Action::SetForeground(closure.monitor_pgrp),
                        Action::Send(ParentMessage::IoError(code)),
                        Action::Exit(1),
                    ],
                    None => seq![Action::SetForeground(closure.monitor_pgrp), Action::Exit(1)],
                },
            }
        }),
{
    let count: int = if closure.command_pid is Some {
        2
    } else {
        0
    };
    let rest = actions@.skip(count);
    match reason {
        StopReason::Exit(status) => {
            assert(rest =~= seq![
                Action::SetForeground(closure.monitor_pgrp),
                Action::Send(ParentMessage::CommandStatus(status)),
                Action::Exit(1),
            ]);
        },
        StopReason::Break(err) => match err.raw_os_error {
            Some(code) => {
                assert(rest =~= seq![
                    Action::SetForeground(closure.monitor_pgrp),
                    Action::Send(ParentMessage::IoError(code)),
                    Action::Exit(1),
                ]);
            },
            None => {
                assert(rest =~= seq![Action::SetForeground(closure.monitor_pgrp), Action::Exit(1)]);
            },
        },
    }
}

/// A wait is taken up again if and only if it failed and was interrupted.
pub proof fn law_waits_again_when_interrupted(
    err: IoError,
    failed: bool,
    not_ready: bool,
    succeeded: bool,
)
    requires
        call_ensures(must_wait_again, (Err(WaitError::Io(err)),), failed),
        call_ensures(must_wait_again, (Err(WaitError::NotReady),), not_ready),
        call_ensures(must_wait_again, (Ok(()),), succeeded),
    ensures
        failed == err.interrupted,
        !not_ready,
        !succeeded,
{
}

/// A wait for the end of a process reports nothing but that, and waits for it. The
/// command is asked for its status otherwise.
pub proof fn law_ways_to_wait(patient: WaitOptions, asking: WaitOptions)
    requires
        call_ensures(WaitOptions::new, (), patient),
        call_ensures(MonitorClosure::wait_options, (), asking),
    ensures
        !patient.untraced && !patient.no_hang,
        asking.untraced && asking.no_hang,
{
}

/// The startup goes from one step to the next as long as all goes well, and fails
/// with the error of the step that went wrong. Only the wait for the parent's
/// message is taken up again, whenever it was interrupted. The process that forked
/// monitors the one that it forked, and this executes the command.
pub proof fn law_startup_steps(event: StartupEvent, call: StartupCall)
    requires
        call_ensures(exec_monitor, (event,), call),
    ensures
        event is Launched ==> call == StartupCall::InstallHandlers,
        event matches StartupEvent::HandlersInstalled(Ok(_)) ==> call == StartupCall::StartSession,
        event matches StartupEvent::SessionStarted(Ok(_)) ==> call == StartupCall::TakeTerminal,
        event matches StartupEvent::TerminalTaken(Ok(_)) ==> call == StartupCall::OpenErrorPipe,
        event matches StartupEvent::ErrorPipeOpened(Ok(_)) ==> call == StartupCall::ReceiveMessage,
        event matches StartupEvent::MessageReceived(Ok(_)) ==> call == StartupCall::Fork,
        event matches StartupEvent::Forked(Ok(ForkResult::Parent(pid))) ==> call
            == StartupCall::Monitor(pid),
        event matches StartupEvent::Forked(Ok(ForkResult::Child)) ==> call
            == StartupCall::ExecCommand,
        event matches StartupEvent::HandlersInstalled(Err(err)) ==> call == StartupCall::Fail(err),
        event matches StartupEvent::SessionStarted(Err(err)) ==> call == StartupCall::Fail(err),
        event matches StartupEvent::TerminalTaken(Err(err)) ==> call == StartupCall::Fail(err),
        event matches StartupEvent::ErrorPipeOpened(Err(err)) ==> call == StartupCall::Fail(err),
        event matches StartupEvent::Forked(Err(err)) ==> call == StartupCall::Fail(err),
        event matches StartupEvent::MessageReceived(Err(err)) ==> call == if err.interrupted {
            StartupCall::ReceiveMessage
        } else {
            StartupCall::Fail(err)
        },
{
}

/// The child gets a process group of its own. In the background it then executes
/// the command. In the foreground it asks for the foreground process group, sleeps
/// for a microsecond and asks again, until it finds its own.
pub proof fn law_child_steps(event: ChildEvent, pid: ProcessId, foreground: bool, call: ChildCall)
    requires
        call_ensures(exec_command, (event, pid, foreground), call),
    ensures
        event is Forked ==> call == ChildCall::SetOwnGroup(pid),
        event is GroupSet && !foreground ==> call == ChildCall::Exec,
        event is GroupSet && foreground ==> call == ChildCall::GetForeground,
        event is Slept ==> call == ChildCall::GetForeground,
        event matches ChildEvent::Foreground(Ok(found)) ==> call == if found == pid {
            ChildCall::Exec
        } else {
            ChildCall::Sleep(1)
        },
        event matches ChildEvent::Foreground(Err(_)) ==> call == ChildCall::Sleep(1),
{
}

/// A child that could not execute the command says so in the error pipe if there
/// is an error number, exits with status one, and does nothing else. What it wrote
/// are the digits of the error number.
pub proof fn law_failed_child_reports_and_exits(
    err: IoError,
    order: ByteOrder,
    actions: Vec<Action>,
    report: Option<[u8; 4]>,
)
    requires
        call_ensures(exec_failed, (err, order), actions),
        call_ensures(report_exec_failure, (err, order), report),
    ensures
        actions@.last() == Action::Exit(1),
        err.raw_os_error is None ==> actions@.len() == 1 && report is None,
        err.raw_os_error matches Some(code) ==> {
            &&& actions@.len() == 2
            &&& report is Some
            &&& actions@[0] matches Action::WriteErrorPipe(bytes)
            &&& bytes@ == report->0@
            &&& bytes@.len() == 4
            &&& ({
                let digits = match order {
                    ByteOrder::Little => bytes@,
                    ByteOrder::Big => bytes@.reverse(),
                };
                digits[0] + 256 * digits[1] + 65536 * digits[2] + 16777216 * digits[3] == if code
                    < 0 {
                    code + 4294967296
                } else {
                    code as int
                }
            })
        },
{
    if let Some(code) = err.raw_os_error {
        law_bytes_are_digits(code);
    }
}

/// The error that kept the child from executing the command is what the monitor
/// tells the parent, once it has read what the child wrote.
pub proof fn law_parent_learns_of_failed_child(
    closure: MonitorClosure,
    err: IoError,
    written: Vec<Action>,
    bytes: [u8; 4],
    registry: &mut EventRegistry,
    actions: Vec<Action>,
)
    requires
        call_ensures(exec_failed, (err, closure.platform.byte_order), written),
        written@[0] == Action::WriteErrorPipe(bytes),
        call_ensures(MonitorClosure::read_errpipe, (&closure, Ok(bytes), registry), actions),
        err.raw_os_error is Some,
    ensures
        actions@ == seq![Action::Send(ParentMessage::IoError(err.raw_os_error->0))],
        final(registry).stop == old(registry).stop,
{
    law_error_code_survives(closure.platform.byte_order, err.raw_os_error->0);
}

/// What the monitor knows of the machine is what the system says of it.
pub proof fn law_platform_is_that_of_the_host(platform: Platform)
    requires
        call_ensures(Platform::host, (), platform),
    ensures
        platform.signals.of_host(),
        platform.byte_order.of_host(),
        platform.signals.alrm == 14,
        platform.signals.chld != platform.signals.ttin,
        platform.signals.chld != platform.signals.ttou,
        platform.signals.chld != platform.signals.cont,
        platform.signals.cont > 0 && platform.signals.chld > 0,
{
}

} // verus!
