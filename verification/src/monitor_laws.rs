//! What holds of the monitor over its whole life.
use vstd::prelude::*;

use crate::error_code::{
    bytes_of, law_bytes_are_digits, law_bytes_survive, law_error_code_survives, value_of, ByteOrder,
};
use crate::event::StopReason;
use crate::exec_monitor::{
    child_next, closing_actions, startup_next, ChildCall, ChildEvent, StartupCall, StartupEvent,
};
use crate::message::{CommandStatus, IoError, MonitorMessage, ParentMessage, ProcessId};
use crate::monitor::{Action, Delivery, MonitorClosure, Platform, WaitOptions};
use crate::signal::{SignalInfo, SignalNumber, SIGCONT_BG, SIGCONT_FG};

verus! {

/// Something that happens to the monitor while its event loop runs.
pub enum Happening {
    /// Something was read.
    Event(Delivery),
    /// The command exited.
    Exit(i32),
    /// A signal terminated the command.
    Term(SignalNumber),
    /// A signal stopped the command, with this foreground process group.
    Stop(SignalNumber, Option<ProcessId>),
}

/// The monitor and the state of its event loop.
pub struct MonitorState {
    pub closure: MonitorClosure,
    pub stop: Option<StopReason>,
}

impl MonitorState {
    /// The state in which the event loop begins.
    pub open spec fn initial(
        command_pid: ProcessId,
        monitor_pgrp: ProcessId,
        platform: Platform,
    ) -> MonitorState {
        MonitorState {
            closure: MonitorClosure::started(command_pid, monitor_pgrp, platform),
            stop: None,
        }
    }

    /// The state after `happening`, as the handlers of the monitor leave it.
    pub open spec fn step(self, happening: Happening) -> MonitorState {
        match happening {
            Happening::Event(delivery) => MonitorState {
                closure: self.closure,
                stop: MonitorClosure::stop_after_event(delivery, self.stop),
            },
            Happening::Exit(code) => MonitorState {
                closure: self.closure.after_end(),
                stop: Some(StopReason::Exit(CommandStatus::Exit(code))),
            },
            Happening::Term(signal) => MonitorState {
                closure: self.closure.after_end(),
                stop: Some(StopReason::Exit(CommandStatus::Term(signal))),
            },
            Happening::Stop(_, foreground) => MonitorState {
                closure: self.closure.after_stop(foreground),
                stop: self.stop,
            },
        }
    }

    /// The actions that `happening` leads to, as the handlers of the monitor
    /// answer.
    pub open spec fn actions(self, happening: Happening) -> Seq<Action> {
        match happening {
            Happening::Event(delivery) => self.closure.event_actions(delivery),
            Happening::Exit(_) => seq![],
            Happening::Term(_) => seq![],
            Happening::Stop(signal, _) => seq![
                Action::Send(ParentMessage::CommandStatus(CommandStatus::Stop(signal))),
            ],
        }
    }

    /// The state after all that happened, in order.
    pub open spec fn run(self, happenings: Seq<Happening>) -> MonitorState
        decreases happenings.len(),
    {
        if happenings.len() == 0 {
            self
        } else {
            self.run(happenings.drop_last()).step(happenings.last())
        }
    }
}

/// Whether the command came to its end.
pub open spec fn ends_command(happening: Happening) -> bool {
    happening is Exit || happening is Term
}

/// The monitor holds the identifier of the command if and only if the command
/// is still running.
pub proof fn law_command_known_while_running(
    command_pid: ProcessId,
    monitor_pgrp: ProcessId,
    platform: Platform,
    happenings: Seq<Happening>,
)
    ensures
        ({
            let known = MonitorState::initial(command_pid, monitor_pgrp, platform).run(
                happenings,
            ).closure.command_pid;
            if exists|i: int| 0 <= i < happenings.len() && ends_command(#[trigger] happenings[i]) {
                known is None
            } else {
                known == Some(command_pid)
            }
        }),
    decreases happenings.len(),
{
    if happenings.len() > 0 {
        let earlier = happenings.drop_last();
        law_command_known_while_running(command_pid, monitor_pgrp, platform, earlier);
        assert(forall|i: int| 0 <= i < earlier.len() ==> earlier[i] == happenings[i]);
        if ends_command(happenings.last()) {
            assert(ends_command(happenings[happenings.len() - 1]));
        }
        if exists|i: int| 0 <= i < earlier.len() && ends_command(#[trigger] earlier[i]) {
            let i = choose|i: int| 0 <= i < earlier.len() && ends_command(#[trigger] earlier[i]);
            assert(ends_command(happenings[i]));
        }
    }
}

/// The event loop is told of the end of the command only when the command has
/// ended, and it does not go on without a command.
pub proof fn law_exit_means_command_ended(
    command_pid: ProcessId,
    monitor_pgrp: ProcessId,
    platform: Platform,
    happenings: Seq<Happening>,
)
    ensures
        ({
            let state = MonitorState::initial(command_pid, monitor_pgrp, platform).run(happenings);
            &&& state.stop matches Some(StopReason::Exit(_)) ==> state.closure.command_pid is None
            &&& state.closure.command_pid is None ==> state.stop is Some
        }),
    decreases happenings.len(),
{
    if happenings.len() > 0 {
        law_exit_means_command_ended(
            command_pid,
            monitor_pgrp,
            platform,
            happenings.drop_last(),
        );
    }
}

/// Whatever goes wrong with the backchannel or the error pipe breaks the event
/// loop with that error, whether it has an error number or not. Only an
/// interruption changes nothing. Neither leads to any action.
pub proof fn law_failed_read_breaks_the_loop(state: MonitorState, err: IoError)
    ensures
        ({
            let backchannel = Happening::Event(Delivery::Backchannel(Err(err)));
            let error_pipe = Happening::Event(Delivery::ErrPipe(Err(err)));
            &&& !err.interrupted ==> state.step(backchannel).stop == Some(StopReason::Break(err))
            &&& !err.interrupted ==> state.step(error_pipe).stop == Some(StopReason::Break(err))
            &&& err.interrupted ==> state.step(backchannel).stop == state.stop
            &&& err.interrupted ==> state.step(error_pipe).stop == state.stop
            &&& state.actions(backchannel).len() == 0
            &&& state.actions(error_pipe).len() == 0
        }),
{
}

/// The event loop stops for a failed read and for the end of the command, and for
/// nothing else.
pub proof fn law_nothing_else_stops_the_loop(
    state: MonitorState,
    received: Result<SignalInfo, IoError>,
    group: Option<ProcessId>,
    bytes: [u8; 4],
    message: MonitorMessage,
    signal: SignalNumber,
)
    ensures
        state.step(
            Happening::Event(Delivery::Signal { received, sender_group: group }),
        ).stop == state.stop,
        state.step(Happening::Event(Delivery::ErrPipe(Ok(bytes)))).stop == state.stop,
        state.step(Happening::Event(Delivery::Backchannel(Ok(message)))).stop == state.stop,
        state.step(Happening::Stop(signal, group)).stop == state.stop,
{
}

/// What is read changes nothing in the monitor itself. The end of the command
/// makes it forget the command, and a stop at most the process group to bring to
/// the foreground again.
pub proof fn law_monitor_changes_little(state: MonitorState, happening: Happening)
    ensures
        ({
            let (before, after) = (state.closure, state.step(happening).closure);
            &&& after.monitor_pgrp == before.monitor_pgrp
            &&& after.platform == before.platform
            &&& happening is Event ==> after == before
            &&& happening is Exit || happening is Term ==> after.command_pid is None
                && after.command_pgrp == before.command_pgrp
            &&& happening is Stop ==> after.command_pid == before.command_pid
            &&& happening matches Happening::Stop(_, None) ==> after.command_pgrp
                == before.command_pgrp
            &&& happening matches Happening::Stop(_, Some(pgrp)) ==> after.command_pgrp == if pgrp
                == before.monitor_pgrp {
                before.command_pgrp
            } else {
                pgrp
            }
        }),
{
}

/// A signal from the parent reaches a running command: an alarm terminates it, the
/// pseudo signals continue it once the command or the monitor has the foreground,
/// and every other signal is sent as it is.
pub proof fn law_parent_signals_reach_the_command(
    state: MonitorState,
    pid: ProcessId,
    signal: SignalNumber,
)
    requires
        state.closure.command_pid == Some(pid),
    ensures
        ({
            let actions = state.actions(
                Happening::Event(Delivery::Backchannel(Ok(MonitorMessage::Signal(signal)))),
            );
            let (alarm, cont) = (
                state.closure.platform.signals.alrm,
                state.closure.platform.signals.cont,
            );
            &&& signal != alarm && signal != -2 && signal != -3 ==> actions == seq![
                Action::Kill { pid, signal },
            ]
            &&& signal == alarm ==> actions == seq![Action::Terminate { pid, use_killpg: false }]
            &&& signal == -2 && signal != alarm ==> actions == seq![
                Action::SetForeground(state.closure.command_pgrp),
                Action::Kill { pid, signal: cont },
            ]
            &&& signal == -3 && signal != alarm ==> actions == seq![
                Action::SetForeground(state.closure.monitor_pgrp),
                Action::Kill { pid, signal: cont },
            ]
        }),
{
}

/// A signal that the monitor receives reaches a running command just as one from
/// the parent does, unless it is about a child, or the command signals itself: then
/// a process sent it that is the command, or a member of the process group that the
/// command leads.
pub proof fn law_received_signals_reach_the_command(
    state: MonitorState,
    pid: ProcessId,
    info: SignalInfo,
    group: Option<ProcessId>,
)
    requires
        state.closure.command_pid == Some(pid),
        info.signal != state.closure.platform.signals.chld,
    ensures
        ({
            let actions = state.actions(
                Happening::Event(Delivery::Signal { received: Ok(info), sender_group: group }),
            );
            let signal = info.signal;
            let from_itself = info.user_signaled && info.pid != 0 && (info.pid == pid || (group
                == Some(pid) && state.closure.command_pgrp == pid));
            &&& from_itself ==> actions.len() == 0
            &&& !from_itself ==> actions == state.actions(
                Happening::Event(Delivery::Backchannel(Ok(MonitorMessage::Signal(signal)))),
            )
            &&& !from_itself && signal != state.closure.platform.signals.alrm && signal != -2
                && signal != -3 ==> actions == seq![Action::Kill { pid, signal }]
            &&& !from_itself && signal == state.closure.platform.signals.alrm ==> actions == seq![
                Action::Terminate { pid, use_killpg: false },
            ]
        }),
{
}

/// Whenever a child changed its status, whoever says so, a running command is asked
/// for its own: stops count, and the monitor does not wait.
pub proof fn law_child_status_is_asked_for(
    state: MonitorState,
    pid: ProcessId,
    info: SignalInfo,
    group: Option<ProcessId>,
)
    requires
        state.closure.command_pid == Some(pid),
        info.signal == state.closure.platform.signals.chld,
    ensures
        state.actions(
            Happening::Event(Delivery::Signal { received: Ok(info), sender_group: group }),
        ) == seq![
            Action::CheckStatus { pid, options: WaitOptions { untraced: true, no_hang: true } },
        ],
{
}

/// A signal that could not be received leads to nothing.
pub proof fn law_lost_signal_does_nothing(
    state: MonitorState,
    err: IoError,
    group: Option<ProcessId>,
)
    ensures
        ({
            let lost = Happening::Event(
                Delivery::Signal { received: Err(err), sender_group: group },
            );
            state.actions(lost).len() == 0 && state.step(lost) == state
        }),
{
}

/// Once the command has ended, signals lead to nothing, wherever they come from.
/// What comes through the error pipe is still reported.
pub proof fn law_signals_end_with_the_command(
    state: MonitorState,
    info: SignalInfo,
    group: Option<ProcessId>,
    signal: SignalNumber,
    bytes: [u8; 4],
)
    requires
        state.closure.command_pid is None,
    ensures
        state.actions(
            Happening::Event(Delivery::Signal { received: Ok(info), sender_group: group }),
        ).len() == 0,
        state.actions(
            Happening::Event(Delivery::Backchannel(Ok(MonitorMessage::Signal(signal)))),
        ).len() == 0,
        state.actions(Happening::Event(Delivery::ErrPipe(Ok(bytes)))).len() == 1,
{
}

/// What the bytes in the error pipe say is reported to the parent, and nothing else
/// is done: the number that has these digits to the base 256.
pub proof fn law_error_pipe_is_reported(state: MonitorState, bytes: [u8; 4], code: i32)
    requires
        ({
            let (first, last) = match state.closure.platform.byte_order {
                ByteOrder::Little => (0int, 3int),
                ByteOrder::Big => (3int, 0int),
            };
            let (second, third) = match state.closure.platform.byte_order {
                ByteOrder::Little => (1int, 2int),
                ByteOrder::Big => (2int, 1int),
            };
            bytes@[first] + 256 * bytes@[second] + 65536 * bytes@[third] + 16777216 * bytes@[last]
                == if code < 0 {
                code + 4294967296
            } else {
                code as int
            }
        }),
    ensures
        state.actions(Happening::Event(Delivery::ErrPipe(Ok(bytes)))) == seq![
            Action::Send(ParentMessage::IoError(code)),
        ],
{
    let order = state.closure.platform.byte_order;
    let found = value_of(order, bytes@);
    law_bytes_survive(order, bytes@);
    law_bytes_are_digits(found);
}

/// A stop of the command is reported to the parent, and its end is not, until the
/// monitor itself ends.
pub proof fn law_stops_are_reported_at_once(
    state: MonitorState,
    signal: SignalNumber,
    group: Option<ProcessId>,
    code: i32,
)
    ensures
        state.actions(Happening::Stop(signal, group)) == seq![
            Action::Send(ParentMessage::CommandStatus(CommandStatus::Stop(signal))),
        ],
        state.actions(Happening::Exit(code)).len() == 0,
        state.actions(Happening::Term(signal)).len() == 0,
{
}

/// Whether an action reaches for the command or for its terminal.
pub open spec fn touches_command(action: Action) -> bool {
    action is Kill || action is Terminate || action is SetForeground || action is CheckStatus
}

/// Once the command has ended, nothing that happens makes the monitor send a
/// signal, change the foreground or ask for the command's status.
pub proof fn law_ended_command_is_left_alone(state: MonitorState, happening: Happening, i: int)
    requires
        state.closure.command_pid is None,
        0 <= i < state.actions(happening).len(),
    ensures
        !touches_command(state.actions(happening)[i]),
{
}

/// Signals go to the command and to no other process.
pub proof fn law_signals_go_to_the_command(state: MonitorState, happening: Happening, i: int)
    requires
        0 <= i < state.actions(happening).len(),
    ensures
        match state.actions(happening)[i] {
            Action::Kill { pid, .. } => state.closure.command_pid == Some(pid),
            Action::Terminate { pid, .. } => state.closure.command_pid == Some(pid),
            Action::CheckStatus { pid, .. } => state.closure.command_pid == Some(pid),
            _ => true,
        },
{
}

/// The pseudo signals of the backchannel never reach the operating system.
pub proof fn law_pseudo_signals_are_never_sent(state: MonitorState, happening: Happening, i: int)
    requires
        state.closure.platform.signals.valid(),
        0 <= i < state.actions(happening).len(),
    ensures
        state.actions(happening)[i] matches Action::Kill { signal, .. } ==> signal != SIGCONT_FG
            && signal != SIGCONT_BG,
{
}

/// The monitor keeps to its own process group and machine, and never takes its
/// own process group for that of the command.
pub proof fn law_process_groups_stay_apart(
    command_pid: ProcessId,
    monitor_pgrp: ProcessId,
    platform: Platform,
    happenings: Seq<Happening>,
)
    ensures
        ({
            let closure = MonitorState::initial(command_pid, monitor_pgrp, platform).run(
                happenings,
            ).closure;
            &&& closure.monitor_pgrp == monitor_pgrp
            &&& closure.platform == platform
            &&& command_pid != monitor_pgrp ==> closure.command_pgrp != monitor_pgrp
        }),
    decreases happenings.len(),
{
    if happenings.len() > 0 {
        law_process_groups_stay_apart(
            command_pid,
            monitor_pgrp,
            platform,
            happenings.drop_last(),
        );
    }
}

/// The foreground process group that was found when the command stopped is the
/// one that is restored when the parent continues the command in the foreground.
pub proof fn law_stop_then_continue_restores_foreground(
    state: MonitorState,
    signal: SignalNumber,
    pgrp: ProcessId,
    pid: ProcessId,
)
    requires
        state.closure.command_pid == Some(pid),
        state.closure.platform.signals.valid(),
        pgrp != state.closure.monitor_pgrp,
    ensures
        state.step(Happening::Stop(signal, Some(pgrp))).actions(
            Happening::Event(Delivery::Backchannel(Ok(MonitorMessage::Signal(SIGCONT_FG)))),
        ) == seq![
            Action::SetForeground(pgrp),
            Action::Kill { pid, signal: state.closure.platform.signals.cont },
        ],
{
}

/// Whatever error kept the child from executing the command, its error number
/// is what the monitor reports to the parent.
pub proof fn law_exec_failure_reaches_parent(closure: MonitorClosure, code: i32, report: [u8; 4])
    requires
        report@ == bytes_of(closure.platform.byte_order, code),
    ensures
        closure.errpipe_actions(Ok(report)) == seq![Action::Send(ParentMessage::IoError(code))],
{
    law_error_code_survives(closure.platform.byte_order, code);
}

/// When the monitor ends, it terminates the command unless the command has ended
/// by itself.
pub proof fn law_shutdown_terminates_running_command(
    command_pid: ProcessId,
    monitor_pgrp: ProcessId,
    platform: Platform,
    happenings: Seq<Happening>,
    reason: StopReason,
)
    ensures
        ({
            let closure = MonitorState::initial(command_pid, monitor_pgrp, platform).run(
                happenings,
            ).closure;
            let ended = exists|i: int|
                0 <= i < happenings.len() && ends_command(#[trigger] happenings[i]);
            let actions = closing_actions(closure, reason);
            if ended {
                forall|i: int| 0 <= i < actions.len() ==> !(#[trigger] actions[i] is Terminate)
            } else {
                actions[0] == (Action::Terminate { pid: command_pid, use_killpg: true })
            }
        }),
{
    law_command_known_while_running(command_pid, monitor_pgrp, platform, happenings);
}

/// When the monitor ends, it has taken the terminal before it tells the parent
/// anything, and exiting is the last thing that it does.
pub proof fn law_terminal_taken_before_exit(closure: MonitorClosure, reason: StopReason, i: int)
    requires
        0 <= i < closing_actions(closure, reason).len(),
        closing_actions(closure, reason)[i] is Send || closing_actions(closure, reason)[i] is Exit,
    ensures
        exists|j: int|
            0 <= j < i && #[trigger] closing_actions(closure, reason)[j] == Action::SetForeground(
                closure.monitor_pgrp,
            ),
        closing_actions(closure, reason).last() == Action::Exit(1),
        closing_actions(closure, reason)[i] is Exit ==> i == closing_actions(closure, reason).len()
            - 1,
{
    let j: int = if closure.command_pid is Some {
        2
    } else {
        0
    };
    assert(closing_actions(closure, reason)[j] == Action::SetForeground(closure.monitor_pgrp));
}

/// When the command ends, the event loop is told how. If it stops for that, this
/// is what the parent hears before the monitor exits.
pub proof fn law_final_status_reaches_parent(state: MonitorState, happening: Happening)
    requires
        ends_command(happening),
    ensures
        ({
            let status = match happening {
                Happening::Exit(code) => CommandStatus::Exit(code),
                Happening::Term(signal) => CommandStatus::Term(signal),
                _ => arbitrary(),
            };
            let ended = state.step(happening);
            &&& ended.stop == Some(StopReason::Exit(status))
            &&& closing_actions(ended.closure, StopReason::Exit(status)) == seq![
                Action::SetForeground(state.closure.monitor_pgrp),
                Action::Send(ParentMessage::CommandStatus(status)),
                Action::Exit(1),
            ]
        }),
{
    let ended = state.step(happening);
    assert(closing_actions(ended.closure, ended.stop->0) =~= seq![
        Action::SetForeground(state.closure.monitor_pgrp),
        closing_actions(ended.closure, ended.stop->0)[1],
        Action::Exit(1),
    ]);
}

/// Whether `event` is what can come of `call`. Nothing comes of the last call of
/// a startup.
pub open spec fn startup_answers(call: StartupCall, event: StartupEvent) -> bool {
    match call {
        StartupCall::InstallHandlers => event is HandlersInstalled,
        StartupCall::StartSession => event is SessionStarted,
        StartupCall::TakeTerminal => event is TerminalTaken,
        StartupCall::OpenErrorPipe => event is ErrorPipeOpened,
        StartupCall::ReceiveMessage => event is MessageReceived,
        StartupCall::Fork => event is Forked,
        _ => false,
    }
}

/// Whether the monitor, starting up, made these calls, and these events came of
/// all of them but the last.
pub open spec fn is_startup(calls: Seq<StartupCall>, events: Seq<StartupEvent>) -> bool {
    &&& calls.len() == events.len() + 1
    &&& calls[0] == startup_next(StartupEvent::Launched)
    &&& forall|i: int|
        0 <= i < events.len() ==> startup_answers(calls[i], #[trigger] events[i]) && calls[i + 1]
            == startup_next(events[i])
}

/// Whether the wait for the parent's message was interrupted.
pub open spec fn interrupted_wait(event: StartupEvent) -> bool {
    event matches StartupEvent::MessageReceived(Err(err)) && err.interrupted
}

/// Whether the first `count` steps of the startup went well: the handlers, the
/// session, the terminal and the error pipe, in this order.
pub open spec fn prepared(events: Seq<StartupEvent>, count: int) -> bool {
    &&& count > 0 ==> (events[0] matches StartupEvent::HandlersInstalled(Ok(_)))
    &&& count > 1 ==> (events[1] matches StartupEvent::SessionStarted(Ok(_)))
    &&& count > 2 ==> (events[2] matches StartupEvent::TerminalTaken(Ok(_)))
    &&& count > 3 ==> (events[3] matches StartupEvent::ErrorPipeOpened(Ok(_)))
}

/// What is known of a startup by its call `i`.
proof fn lemma_startup_shape(calls: Seq<StartupCall>, events: Seq<StartupEvent>, i: int)
    requires
        is_startup(calls, events),
        0 <= i < calls.len(),
    ensures
        match calls[i] {
            StartupCall::InstallHandlers => i == 0,
            StartupCall::StartSession => i == 1 && prepared(events, 1),
            StartupCall::TakeTerminal => i == 2 && prepared(events, 2),
            StartupCall::OpenErrorPipe => i == 3 && prepared(events, 3),
            StartupCall::ReceiveMessage => {
                &&& i >= 4
                &&& prepared(events, 4)
                &&& forall|j: int| 4 <= j < i ==> interrupted_wait(#[trigger] events[j])
            },
            StartupCall::Fork => {
                &&& i >= 5
                &&& prepared(events, 4)
                &&& forall|j: int| 4 <= j < i - 1 ==> interrupted_wait(#[trigger] events[j])
                &&& events[i - 1] matches StartupEvent::MessageReceived(Ok(_))
            },
            _ => i == calls.len() - 1,
        },
    decreases i,
{
    if i > 0 {
        lemma_startup_shape(calls, events, i - 1);
        assert(startup_answers(calls[i - 1], events[i - 1]));
        assert(calls[i] == startup_next(events[i - 1]));
    }
    if i < events.len() {
        assert(startup_answers(calls[i], events[i]));
    }
}

/// The process forks only once everything is prepared and the parent has given
/// its green light, for which it waited however often it was interrupted.
pub proof fn law_green_light_before_fork(
    calls: Seq<StartupCall>,
    events: Seq<StartupEvent>,
    i: int,
)
    requires
        is_startup(calls, events),
        0 <= i < calls.len(),
        calls[i] == StartupCall::Fork,
    ensures
        i >= 5,
        prepared(events, 4),
        forall|j: int| 4 <= j < i - 1 ==> interrupted_wait(#[trigger] events[j]),
        events[i - 1] matches StartupEvent::MessageReceived(Ok(_)),
{
    lemma_startup_shape(calls, events, i);
}

/// The process forks at most once.
pub proof fn law_forks_once(calls: Seq<StartupCall>, events: Seq<StartupEvent>, i: int, j: int)
    requires
        is_startup(calls, events),
        0 <= i < calls.len(),
        0 <= j < calls.len(),
        calls[i] == StartupCall::Fork,
        calls[j] == StartupCall::Fork,
    ensures
        i == j,
{
    lemma_startup_shape(calls, events, i);
    lemma_startup_shape(calls, events, j);
    if i < j - 1 {
        assert(startup_answers(calls[i], events[i]));
        assert(interrupted_wait(events[i]));
    } else if j < i - 1 {
        assert(startup_answers(calls[j], events[j]));
        assert(interrupted_wait(events[j]));
    } else if i < j {
        assert(startup_answers(calls[i], events[i]));
    } else if j < i {
        assert(startup_answers(calls[j], events[j]));
    }
}

/// The error of a step of the startup, unless the step is taken up again.
pub open spec fn startup_error(event: StartupEvent) -> Option<IoError> {
    match event {
        StartupEvent::Launched => None,
        StartupEvent::HandlersInstalled(outcome) => outcome.err(),
        StartupEvent::SessionStarted(outcome) => outcome.err(),
        StartupEvent::TerminalTaken(outcome) => outcome.err(),
        StartupEvent::ErrorPipeOpened(outcome) => outcome.err(),
        StartupEvent::MessageReceived(outcome) => match outcome {
            Err(err) if !err.interrupted => Some(err),
            _ => None,
        },
        StartupEvent::Forked(outcome) => outcome.err(),
    }
}

/// The startup ends with the first error that comes of a step, and with no other.
pub proof fn law_startup_ends_with_first_error(
    calls: Seq<StartupCall>,
    events: Seq<StartupEvent>,
    i: int,
)
    requires
        is_startup(calls, events),
        0 <= i < events.len(),
    ensures
        match startup_error(events[i]) {
            Some(err) => calls.last() == StartupCall::Fail(err) && i == events.len() - 1,
            None => !(calls[i + 1] is Fail),
        },
{
    lemma_startup_shape(calls, events, i + 1);
    assert(startup_answers(calls[i], events[i]));
}

/// Whether `event` is what can come of `call` in the child process. Nothing comes
/// of executing the command: either the command has replaced the process, or it
/// failed.
pub open spec fn child_answers(call: ChildCall, event: ChildEvent) -> bool {
    match call {
        ChildCall::SetOwnGroup(_) => event is GroupSet,
        ChildCall::GetForeground => event is Foreground,
        ChildCall::Sleep(_) => event is Slept,
        ChildCall::Exec => false,
    }
}

/// Whether the child process made these calls, and these events came of all of
/// them but the last.
pub open spec fn is_child(
    command_pid: ProcessId,
    foreground: bool,
    calls: Seq<ChildCall>,
    events: Seq<ChildEvent>,
) -> bool {
    &&& calls.len() == events.len() + 1
    &&& calls[0] == child_next(ChildEvent::Forked, command_pid, foreground)
    &&& forall|i: int|
        0 <= i < events.len() ==> child_answers(calls[i], #[trigger] events[i]) && calls[i + 1]
            == child_next(events[i], command_pid, foreground)
}

/// The child process moves into its own process group first. It executes the
/// command at once if this is to run in the background, and otherwise only when
/// it has found itself to be the foreground process group.
pub proof fn law_child_waits_for_foreground(
    command_pid: ProcessId,
    foreground: bool,
    calls: Seq<ChildCall>,
    events: Seq<ChildEvent>,
    i: int,
)
    requires
        is_child(command_pid, foreground, calls, events),
        0 <= i < calls.len(),
        calls[i] == ChildCall::Exec,
    ensures
        calls[0] == ChildCall::SetOwnGroup(command_pid),
        if foreground {
            i >= 2 && events[i - 1] == ChildEvent::Foreground(Ok(command_pid))
        } else {
            i == 1
        },
        i == calls.len() - 1,
{
    lemma_child_shape(command_pid, foreground, calls, events, i - 1);
    assert(child_answers(calls[i - 1], events[i - 1]));
    if i < events.len() {
        assert(child_answers(calls[i], events[i]));
    }
}

/// Only a command for the foreground asks for it, and only the first call moves
/// the child into its process group.
proof fn lemma_child_shape(
    command_pid: ProcessId,
    foreground: bool,
    calls: Seq<ChildCall>,
    events: Seq<ChildEvent>,
    i: int,
)
    requires
        is_child(command_pid, foreground, calls, events),
        i < calls.len(),
    ensures
        0 <= i ==> match calls[i] {
            ChildCall::SetOwnGroup(pgrp) => i == 0 && pgrp == command_pid,
            ChildCall::GetForeground => i >= 1 && foreground,
            ChildCall::Sleep(_) => i >= 2 && foreground,
            ChildCall::Exec => true,
        },
    decreases i,
{
    if i > 0 {
        lemma_child_shape(command_pid, foreground, calls, events, i - 1);
        assert(child_answers(calls[i - 1], events[i - 1]));
    }
}

} // verus!
