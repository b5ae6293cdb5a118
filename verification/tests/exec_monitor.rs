use privilege_switch::error_code::ByteOrder;
use privilege_switch::event::{EventRegistry, StopReason};
use privilege_switch::exec_monitor::{
    begin_monitoring, exec_command, exec_failed, exec_monitor, must_wait_again,
    report_exec_failure, shut_down, ChildCall, ChildEvent, ForkResult, StartupCall, StartupEvent,
    WaitError,
};
use privilege_switch::message::{CommandStatus, IoError, MonitorMessage, ParentMessage};
use privilege_switch::monitor::{Action, MonitorClosure, Platform, WaitOptions};

const COMMAND: i32 = 1200;
const MONITOR: i32 = 1100;

fn interrupted() -> IoError {
    IoError {
        raw_os_error: Some(4),
        interrupted: true,
    }
}

fn broken(raw_os_error: Option<i32>) -> IoError {
    IoError {
        raw_os_error,
        interrupted: false,
    }
}

fn begin(foreground: bool) -> (MonitorClosure, EventRegistry, Vec<Action>) {
    let mut registry = EventRegistry::new();
    let (closure, actions) = begin_monitoring(
        COMMAND,
        MONITOR,
        foreground,
        Platform::host(),
        &mut registry,
    );
    (closure, registry, actions)
}

#[test]
fn startup_runs_through() {
    let calls: Vec<StartupCall> = [
        StartupEvent::Launched,
        StartupEvent::HandlersInstalled(Ok(())),
        StartupEvent::SessionStarted(Ok(())),
        StartupEvent::TerminalTaken(Ok(())),
        StartupEvent::ErrorPipeOpened(Ok(())),
        StartupEvent::MessageReceived(Err(interrupted())),
        StartupEvent::MessageReceived(Ok(MonitorMessage::ExecCommand)),
        StartupEvent::Forked(Ok(ForkResult::Parent(COMMAND))),
    ]
    .into_iter()
    .map(exec_monitor)
    .collect();
    assert_eq!(
        calls,
        vec![
            StartupCall::InstallHandlers,
            StartupCall::StartSession,
            StartupCall::TakeTerminal,
            StartupCall::OpenErrorPipe,
            StartupCall::ReceiveMessage,
            StartupCall::ReceiveMessage,
            StartupCall::Fork,
            StartupCall::Monitor(COMMAND),
        ]
    );
}

#[test]
fn startup_child_executes_the_command() {
    assert_eq!(
        exec_monitor(StartupEvent::Forked(Ok(ForkResult::Child))),
        StartupCall::ExecCommand
    );
}

#[test]
fn startup_fails_with_the_error_of_a_step() {
    let err = broken(Some(1));
    for event in [
        StartupEvent::HandlersInstalled(Err(err)),
        StartupEvent::SessionStarted(Err(err)),
        StartupEvent::TerminalTaken(Err(err)),
        StartupEvent::ErrorPipeOpened(Err(err)),
        StartupEvent::MessageReceived(Err(err)),
        StartupEvent::Forked(Err(err)),
    ] {
        assert_eq!(exec_monitor(event), StartupCall::Fail(err));
    }
    // Only the wait for the green light is taken up again.
    for event in [
        StartupEvent::HandlersInstalled(Err(interrupted())),
        StartupEvent::SessionStarted(Err(interrupted())),
        StartupEvent::Forked(Err(interrupted())),
    ] {
        assert_eq!(exec_monitor(event), StartupCall::Fail(interrupted()));
    }
}

#[test]
fn monitoring_begins() {
    let (closure, registry, actions) = begin(false);
    assert_eq!(closure.command_pid, Some(COMMAND));
    assert_eq!(registry.events.len(), 3);
    assert_eq!(
        actions,
        vec![
            Action::Send(ParentMessage::CommandPid(COMMAND)),
            Action::SetProcessGroup {
                pid: COMMAND,
                pgrp: COMMAND
            },
        ]
    );
    let (_, _, actions) = begin(true);
    assert_eq!(
        actions,
        vec![
            Action::Send(ParentMessage::CommandPid(COMMAND)),
            Action::SetProcessGroup {
                pid: COMMAND,
                pgrp: COMMAND
            },
            Action::SetForeground(COMMAND),
        ]
    );
}

#[test]
fn shutdown_after_exit_reports_the_status() {
    let (mut closure, mut registry, _) = begin(true);
    closure.on_exit(7, &mut registry);
    assert_eq!(
        shut_down(&closure, registry.stop.unwrap()),
        vec![
            Action::SetForeground(MONITOR),
            Action::Send(ParentMessage::CommandStatus(CommandStatus::Exit(7))),
            Action::Exit(1),
        ]
    );
}

#[test]
fn shutdown_after_a_break_terminates_the_command() {
    let (closure, _, _) = begin(true);
    assert_eq!(
        shut_down(&closure, StopReason::Break(broken(Some(32)))),
        vec![
            Action::Terminate {
                pid: COMMAND,
                use_killpg: true
            },
            Action::Reap {
                pid: COMMAND,
                options: WaitOptions {
                    untraced: false,
                    no_hang: false
                }
            },
            Action::SetForeground(MONITOR),
            Action::Send(ParentMessage::IoError(32)),
            Action::Exit(1),
        ]
    );
}

#[test]
fn shutdown_with_an_error_without_number_sends_nothing() {
    let (mut closure, mut registry, _) = begin(true);
    closure.on_term(9, &mut registry);
    registry.set_break(broken(None));
    assert_eq!(
        shut_down(&closure, registry.stop.unwrap()),
        vec![Action::SetForeground(MONITOR), Action::Exit(1)]
    );
}

#[test]
fn waiting_goes_on_after_an_interruption_only() {
    assert!(must_wait_again(Err(WaitError::Io(interrupted()))));
    assert!(!must_wait_again(Err(WaitError::Io(broken(Some(10))))));
    assert!(!must_wait_again(Err(WaitError::NotReady)));
    assert!(!must_wait_again(Ok(())));
}

#[test]
fn child_in_the_background() {
    assert_eq!(
        exec_command(ChildEvent::Forked, COMMAND, false),
        ChildCall::SetOwnGroup(COMMAND)
    );
    assert_eq!(
        exec_command(ChildEvent::GroupSet, COMMAND, false),
        ChildCall::Exec
    );
}

#[test]
fn child_waits_for_the_foreground() {
    assert_eq!(
        exec_command(ChildEvent::GroupSet, COMMAND, true),
        ChildCall::GetForeground
    );
    for found in [Ok(MONITOR), Err(broken(Some(25)))] {
        assert_eq!(
            exec_command(ChildEvent::Foreground(found), COMMAND, true),
            ChildCall::Sleep(1)
        );
    }
    assert_eq!(
        exec_command(ChildEvent::Slept, COMMAND, true),
        ChildCall::GetForeground
    );
    assert_eq!(
        exec_command(ChildEvent::Foreground(Ok(COMMAND)), COMMAND, true),
        ChildCall::Exec
    );
}

#[test]
fn exec_failure_reaches_the_parent() {
    let (closure, mut registry, _) = begin(false);
    let report = report_exec_failure(broken(Some(8)), closure.platform.byte_order).unwrap();
    assert_eq!(
        closure.read_errpipe(Ok(report), &mut registry),
        vec![Action::Send(ParentMessage::IoError(8))]
    );
    assert_eq!(report_exec_failure(broken(None), ByteOrder::Little), None);
}

#[test]
fn failed_child_reports_and_exits() {
    assert_eq!(
        exec_failed(broken(Some(2)), ByteOrder::Little),
        vec![Action::WriteErrorPipe([2, 0, 0, 0]), Action::Exit(1)]
    );
    assert_eq!(
        exec_failed(broken(Some(2)), ByteOrder::Big),
        vec![Action::WriteErrorPipe([0, 0, 0, 2]), Action::Exit(1)]
    );
    assert_eq!(
        exec_failed(broken(Some(13)), ByteOrder::native()),
        vec![
            Action::WriteErrorPipe(13i32.to_ne_bytes()),
            Action::Exit(1)
        ]
    );
    assert_eq!(
        exec_failed(broken(None), ByteOrder::Little),
        vec![Action::Exit(1)]
    );
}

#[test]
fn errors_with_a_number_become_messages() {
    assert_eq!(
        ParentMessage::try_from_io(broken(Some(5))),
        Ok(ParentMessage::IoError(5))
    );
    assert_eq!(
        ParentMessage::try_from_io(broken(None)),
        Err(broken(None))
    );
    assert_eq!(
        ParentMessage::from(CommandStatus::Stop(20)),
        ParentMessage::CommandStatus(CommandStatus::Stop(20))
    );
}
