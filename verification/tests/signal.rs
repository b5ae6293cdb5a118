use privilege_switch::signal::{SignalAction, SignalNumbers, SIGCONT_BG, SIGCONT_FG};

#[test]
fn host_numbers_are_those_of_the_system() {
    let numbers = SignalNumbers::host();
    assert_eq!(numbers.alrm, signal_hook::consts::SIGALRM);
    assert_eq!(numbers.cont, signal_hook::consts::SIGCONT);
    assert_eq!(numbers.chld, signal_hook::consts::SIGCHLD);
    assert_eq!(numbers.ttin, signal_hook::consts::SIGTTIN);
    assert_eq!(numbers.ttou, signal_hook::consts::SIGTTOU);
}

#[test]
fn alarm_is_fourteen() {
    assert_eq!(SignalNumbers::host().alrm, 14);
}

#[test]
fn pseudo_signals_are_no_signals() {
    assert_eq!(SIGCONT_FG, -2);
    assert_eq!(SIGCONT_BG, -3);
    let numbers = SignalNumbers::host();
    for number in [
        numbers.alrm,
        numbers.cont,
        numbers.chld,
        numbers.ttin,
        numbers.ttou,
    ] {
        assert!(number > 0);
        assert_ne!(number, SIGCONT_FG);
        assert_ne!(number, SIGCONT_BG);
    }
}

#[test]
fn host_numbers_stand_in_one_row() {
    let numbers = SignalNumbers::host();
    let row = (numbers.cont, numbers.chld, numbers.ttin, numbers.ttou);
    assert!([
        (18, 17, 21, 22),
        (25, 18, 26, 27),
        (19, 20, 21, 22),
        (12, 5, 16, 17)
    ]
    .contains(&row));
}

#[test]
fn background_terminal_access_is_ignored() {
    let numbers = SignalNumbers::host();
    assert_eq!(numbers.action(numbers.ttin), SignalAction::Ignore);
    assert_eq!(numbers.action(numbers.ttou), SignalAction::Ignore);
    assert_eq!(numbers.action(numbers.alrm), SignalAction::Stream);
    assert_eq!(numbers.action(numbers.chld), SignalAction::Stream);
    assert_eq!(numbers.action(numbers.cont), SignalAction::Stream);
}
