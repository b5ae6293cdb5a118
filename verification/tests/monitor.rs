use privilege_switch::error_code::ByteOrder;
use privilege_switch::event::{EventRegistry, MonitorEvent, StopReason};
use privilege_switch::message::{CommandStatus, IoError, MonitorMessage, ParentMessage};
use privilege_switch::monitor::{
    is_self_terminating, Action, Delivery, MonitorClosure, Platform, WaitOptions,
};
use privilege_switch::signal::{SignalInfo, SIGCONT_BG, SIGCONT_FG};

const COMMAND: i32 = 1200;
const MONITOR: i32 = 1100;

fn monitor() -> (MonitorClosure, EventRegistry) {
    let mut registry = EventRegistry::new();
    let (closure, actions) =
        MonitorClosure::new(COMMAND, MONITOR, Platform::host(), &mut registry);
    assert_eq!(
        actions,
        vec![Action::SetProcessGroup {
            pid: COMMAND,
            pgrp: COMMAND
        }]
    );
    (closure, registry)
}

fn interrupted() -> IoError {
    IoError {
        raw_os_error: Some(4),
        interrupted: true,
    }
}

fn broken() -> IoError {
    IoError {
        raw_os_error: Some(32),
        interrupted: false,
    }
}

fn info(signal: i32, user_signaled: bool, pid: i32) -> SignalInfo {
    SignalInfo {
        signal,
        user_signaled,
        pid,
    }
}

#[test]
fn new_monitor_listens_and_knows_the_command() {
    let (closure, registry) = monitor();
    assert_eq!(closure.command_pid, Some(COMMAND));
    assert_eq!(closure.command_pgrp, COMMAND);
    assert_eq!(closure.monitor_pgrp, MONITOR);
    assert_eq!(
        registry.events,
        vec![
            MonitorEvent::ReadableErrPipe,
            MonitorEvent::ReadableBackchannel,
            MonitorEvent::Signal
        ]
    );
    assert_eq!(registry.stop, None);
}

#[test]
fn alarm_terminates_the_command_alone() {
    let (closure, _) = monitor();
    assert_eq!(
        closure.send_signal(signal_hook::consts::SIGALRM, COMMAND),
        vec![Action::Terminate {
            pid: COMMAND,
            use_killpg: false
        }]
    );
}

#[test]
fn continue_in_the_foreground() {
    let (closure, _) = monitor();
    assert_eq!(
        closure.send_signal(SIGCONT_FG, COMMAND),
        vec![
            Action::SetForeground(COMMAND),
            Action::Kill {
                pid: COMMAND,
                signal: signal_hook::consts::SIGCONT
            }
        ]
    );
}

#[test]
fn continue_in_the_background() {
    let (closure, _) = monitor();
    assert_eq!(
        closure.send_signal(SIGCONT_BG, COMMAND),
        vec![
            Action::SetForeground(MONITOR),
            Action::Kill {
                pid: COMMAND,
                signal: signal_hook::consts::SIGCONT
            }
        ]
    );
}

#[test]
fn other_signals_are_sent_as_they_are() {
    let (closure, _) = monitor();
    for signal in [
        signal_hook::consts::SIGINT,
        signal_hook::consts::SIGTERM,
        signal_hook::consts::SIGCONT,
        signal_hook::consts::SIGWINCH,
    ] {
        assert_eq!(
            closure.send_signal(signal, COMMAND),
            vec![Action::Kill {
                pid: COMMAND,
                signal
            }]
        );
    }
}

#[test]
fn backchannel_signal_is_forwarded() {
    let (closure, mut registry) = monitor();
    let actions = closure.read_backchannel(
        Ok(MonitorMessage::Signal(signal_hook::consts::SIGTERM)),
        &mut registry,
    );
    assert_eq!(
        actions,
        vec![Action::Kill {
            pid: COMMAND,
            signal: signal_hook::consts::SIGTERM
        }]
    );
    assert_eq!(registry.stop, None);
}

#[test]
fn backchannel_interruption_is_not_an_error() {
    let (closure, mut registry) = monitor();
    assert!(closure
        .read_backchannel(Err(interrupted()), &mut registry)
        .is_empty());
    assert_eq!(registry.stop, None);
}

#[test]
fn backchannel_error_breaks_the_loop() {
    let (closure, mut registry) = monitor();
    assert!(closure
        .read_backchannel(Err(broken()), &mut registry)
        .is_empty());
    assert_eq!(registry.stop, Some(StopReason::Break(broken())));
}

#[test]
fn error_code_is_forwarded_to_the_parent() {
    let (closure, mut registry) = monitor();
    let actions = closure.read_errpipe(Ok(13i32.to_ne_bytes()), &mut registry);
    assert_eq!(actions, vec![Action::Send(ParentMessage::IoError(13))]);
    assert_eq!(registry.stop, None);
}

#[test]
fn error_pipe_bytes_are_read_in_the_order_of_the_platform() {
    let (mut closure, mut registry) = monitor();
    closure.platform.byte_order = ByteOrder::Big;
    assert_eq!(
        closure.read_errpipe(Ok([0, 0, 1, 2]), &mut registry),
        vec![Action::Send(ParentMessage::IoError(258))]
    );
    closure.platform.byte_order = ByteOrder::Little;
    assert_eq!(
        closure.read_errpipe(Ok([2, 1, 0, 0]), &mut registry),
        vec![Action::Send(ParentMessage::IoError(258))]
    );
}

#[test]
fn error_pipe_errors() {
    let (closure, mut registry) = monitor();
    assert!(closure
        .read_errpipe(Err(interrupted()), &mut registry)
        .is_empty());
    assert_eq!(registry.stop, None);
    assert!(closure
        .read_errpipe(Err(broken()), &mut registry)
        .is_empty());
    assert_eq!(registry.stop, Some(StopReason::Break(broken())));
}

#[test]
fn child_signal_asks_for_the_status() {
    let (closure, _) = monitor();
    let received = info(signal_hook::consts::SIGCHLD, false, COMMAND);
    assert_eq!(
        closure.on_signal(Ok(received), None),
        vec![Action::CheckStatus {
            pid: COMMAND,
            options: WaitOptions {
                untraced: true,
                no_hang: true
            }
        }]
    );
}

#[test]
fn self_terminating_signals_are_skipped() {
    let (closure, _) = monitor();
    let term = signal_hook::consts::SIGTERM;
    // From the command itself, and from its process group.
    assert!(closure.on_signal(Ok(info(term, true, COMMAND)), None).is_empty());
    assert!(closure
        .on_signal(Ok(info(term, true, 77)), Some(COMMAND))
        .is_empty());
    // From elsewhere, and from the kernel.
    let forwarded = vec![Action::Kill {
        pid: COMMAND,
        signal: term,
    }];
    assert_eq!(closure.on_signal(Ok(info(term, true, 77)), Some(76)), forwarded);
    assert_eq!(closure.on_signal(Ok(info(term, true, 77)), None), forwarded);
    assert_eq!(
        closure.on_signal(Ok(info(term, false, COMMAND)), Some(COMMAND)),
        forwarded
    );
    assert_eq!(
        closure.on_signal(Ok(info(term, true, 0)), Some(COMMAND)),
        forwarded
    );
}

#[test]
fn unreceived_signal_does_nothing() {
    let (closure, _) = monitor();
    assert!(closure.on_signal(Err(broken()), None).is_empty());
}

#[test]
fn self_terminating_cases() {
    assert!(is_self_terminating(5, 5, 9, None));
    assert!(is_self_terminating(6, 5, 5, Some(5)));
    assert!(!is_self_terminating(6, 5, 5, Some(8)));
    assert!(!is_self_terminating(6, 5, 5, None));
    // The command does not lead its group.
    assert!(!is_self_terminating(6, 5, 9, Some(9)));
    assert!(!is_self_terminating(6, 5, 9, Some(8)));
    assert!(!is_self_terminating(6, 5, 9, None));
    assert!(!is_self_terminating(0, 0, 9, Some(9)));
    assert!(!is_self_terminating(0, 0, 0, Some(0)));
}

#[test]
fn group_that_the_command_does_not_lead_may_signal_it() {
    let (mut closure, _) = monitor();
    let term = signal_hook::consts::SIGTERM;
    let received = Ok(info(term, true, 77));
    assert!(closure.on_signal(received, Some(COMMAND)).is_empty());
    closure.on_stop(19, Some(1300));
    assert_eq!(closure.command_pgrp, 1300);
    let forwarded = vec![Action::Kill {
        pid: COMMAND,
        signal: term,
    }];
    assert_eq!(closure.on_signal(received, Some(1300)), forwarded);
    assert_eq!(closure.on_signal(received, Some(COMMAND)), forwarded);
    assert!(closure
        .on_signal(Ok(info(term, true, COMMAND)), Some(1300))
        .is_empty());
}

#[test]
fn events_go_to_their_handlers() {
    let (closure, mut registry) = monitor();
    let term = signal_hook::consts::SIGTERM;
    let kill = vec![Action::Kill {
        pid: COMMAND,
        signal: term,
    }];
    assert_eq!(
        closure.on_event(
            Delivery::Signal {
                received: Ok(info(term, false, 0)),
                sender_group: None
            },
            &mut registry
        ),
        kill
    );
    assert_eq!(
        closure.on_event(
            Delivery::Backchannel(Ok(MonitorMessage::Signal(term))),
            &mut registry
        ),
        kill
    );
    assert_eq!(
        closure.on_event(Delivery::ErrPipe(Ok(2i32.to_ne_bytes())), &mut registry),
        vec![Action::Send(ParentMessage::IoError(2))]
    );
    assert_eq!(registry.stop, None);
    closure.on_event(Delivery::ErrPipe(Err(broken())), &mut registry);
    assert_eq!(registry.stop, Some(StopReason::Break(broken())));
}

#[test]
fn exit_ends_the_loop() {
    let (mut closure, mut registry) = monitor();
    closure.on_exit(3, &mut registry);
    assert_eq!(closure.command_pid, None);
    assert_eq!(
        registry.stop,
        Some(StopReason::Exit(CommandStatus::Exit(3)))
    );
}

#[test]
fn termination_ends_the_loop() {
    let (mut closure, mut registry) = monitor();
    closure.on_term(9, &mut registry);
    assert_eq!(closure.command_pid, None);
    assert_eq!(
        registry.stop,
        Some(StopReason::Exit(CommandStatus::Term(9)))
    );
}

#[test]
fn ended_command_is_left_alone() {
    let (mut closure, mut registry) = monitor();
    closure.on_exit(0, &mut registry);
    let term = signal_hook::consts::SIGTERM;
    assert!(closure
        .read_backchannel(Ok(MonitorMessage::Signal(term)), &mut registry)
        .is_empty());
    assert!(closure.on_signal(Ok(info(term, false, 0)), None).is_empty());
    assert!(closure
        .on_signal(Ok(info(signal_hook::consts::SIGCHLD, false, 0)), None)
        .is_empty());
}

#[test]
fn stop_is_reported_and_foreground_restored() {
    let (mut closure, mut registry) = monitor();
    assert_eq!(
        closure.on_stop(19, Some(1300)),
        vec![Action::Send(ParentMessage::CommandStatus(
            CommandStatus::Stop(19)
        ))]
    );
    assert_eq!(closure.command_pid, Some(COMMAND));
    assert_eq!(closure.command_pgrp, 1300);
    assert_eq!(
        closure.read_backchannel(Ok(MonitorMessage::Signal(SIGCONT_FG)), &mut registry),
        vec![
            Action::SetForeground(1300),
            Action::Kill {
                pid: COMMAND,
                signal: signal_hook::consts::SIGCONT
            }
        ]
    );
}

#[test]
fn own_foreground_is_not_taken_for_the_commands() {
    let (mut closure, _) = monitor();
    closure.on_stop(19, Some(MONITOR));
    assert_eq!(closure.command_pgrp, COMMAND);
    closure.on_stop(19, None);
    assert_eq!(closure.command_pgrp, COMMAND);
}
