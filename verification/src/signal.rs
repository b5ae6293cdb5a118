//! Signal numbers, and how the monitor treats each signal it may be sent.
use vstd::prelude::*;

verus! {

/// A signal number, as the operating system counts them.
pub type SignalNumber = i32;

/// Pseudo signal: continue the command as the foreground process group.
pub const SIGCONT_FG: SignalNumber = -2;

/// Pseudo signal: continue the command as a background process group.
pub const SIGCONT_BG: SignalNumber = -3;

/// The constants `SIGALRM`, `SIGCONT`, `SIGCHLD`, `SIGTTIN` and `SIGTTOU` of
/// `signal_hook::consts`.
///
/// They are those of the C library and depend on the target. Together they are
/// one of four rows: that of most Linux targets, that of MIPS and Solaris and
/// their like, that of SPARC and the BSDs and their like, or that of Haiku.
#[verifier::external_body]
fn system_numbers() -> (numbers: SignalNumbers)
    ensures
        numbers.in_use(),
{
    SignalNumbers {
        alrm: signal_hook::consts::SIGALRM,
        cont: signal_hook::consts::SIGCONT,
        chld: signal_hook::consts::SIGCHLD,
        ttin: signal_hook::consts::SIGTTIN,
        ttou: signal_hook::consts::SIGTTOU,
    }
}

/// The signals that the monitor tells apart, each by its number on one machine.
#[derive(Clone, Copy, PartialEq, Eq, Structural, Debug)]
pub struct SignalNumbers {
    pub alrm: SignalNumber,
    pub cont: SignalNumber,
    pub chld: SignalNumber,
    pub ttin: SignalNumber,
    pub ttou: SignalNumber,
}

impl SignalNumbers {
    /// Every number is positive, as those of real signals are: none of them is
    /// one of the pseudo signals.
    pub open spec fn valid(self) -> bool {
        &&& self.alrm > 0
        &&& self.cont > 0
        &&& self.chld > 0
        &&& self.ttin > 0
        &&& self.ttou > 0
    }

    /// The numbers are those of some machine.
    pub open spec fn in_use(self) -> bool {
        let row = (self.cont, self.chld, self.ttin, self.ttou);
        &&& self.alrm == 14
        &&& {
            ||| row == (18i32, 17i32, 21i32, 22i32)
            ||| row == (25i32, 18i32, 26i32, 27i32)
            ||| row == (19i32, 20i32, 21i32, 22i32)
            ||| row == (12i32, 5i32, 16i32, 17i32)
        }
    }

    /// The numbers are what the constants of the system say.
    pub closed spec fn of_host(self) -> bool {
        call_ensures(system_numbers, (), self)
    }

    /// The numbers of the machine that the program runs on.
    pub fn host() -> (numbers: SignalNumbers)
        ensures
            numbers.of_host(),
            numbers.in_use(),
            numbers.valid(),
    {
        system_numbers()
    }

    /// What the monitor's signal handler does with `signal`: stops on terminal
    /// access by a background process are ignored, all else is streamed to the
    /// event loop.
    pub open spec fn handling(self, signal: SignalNumber) -> SignalAction {
        if signal == self.ttin || signal == self.ttou {
            SignalAction::Ignore
        } else {
            SignalAction::Stream
        }
    }

    /// Decides what the monitor's signal handler does with `signal`.
    pub fn action(&self, signal: SignalNumber) -> (action: SignalAction)
        ensures
            action == self.handling(signal),
    {
        if signal == self.ttin || signal == self.ttou {
            SignalAction::Ignore
        } else {
            SignalAction::Stream
        }
    }
}

/// On every machine the signals that the monitor tells apart are different ones,
/// and those that it acts on get through to its event loop.
pub proof fn law_signals_differ(numbers: SignalNumbers)
    requires
        numbers.in_use(),
    ensures
        numbers.valid(),
        numbers.alrm != numbers.cont && numbers.alrm != numbers.chld,
        numbers.cont != numbers.chld,
        numbers.ttin != numbers.ttou,
        numbers.handling(numbers.alrm) == SignalAction::Stream,
        numbers.handling(numbers.cont) == SignalAction::Stream,
        numbers.handling(numbers.chld) == SignalAction::Stream,
{
}

/// The signal handler drops the stops on terminal access by a background process,
/// and nothing else.
pub proof fn law_only_terminal_stops_are_dropped(
    numbers: SignalNumbers,
    signal: SignalNumber,
    action: SignalAction,
)
    requires
        call_ensures(SignalNumbers::action, (&numbers, signal), action),
    ensures
        action == SignalAction::Ignore <==> signal == numbers.ttin || signal == numbers.ttou,
        action == SignalAction::Stream <==> signal != numbers.ttin && signal != numbers.ttou,
{
}

/// No real signal has the number of a pseudo signal, and these have two numbers.
pub proof fn law_pseudo_signals_are_apart(numbers: SignalNumbers)
    requires
        numbers.in_use(),
    ensures
        SIGCONT_FG == -2,
        SIGCONT_BG == -3,
        numbers.alrm > 0 && numbers.cont > 0 && numbers.chld > 0,
        numbers.ttin > 0 && numbers.ttou > 0,
{
}

/// What a signal handler does with a signal.
#[derive(Clone, Copy, PartialEq, Eq, Structural, Debug)]
pub enum SignalAction {
    /// Drop the signal.
    Ignore,
    /// Hand the signal to the event loop.
    Stream,
}

/// A signal that the monitor received.
#[derive(Clone, Copy, PartialEq, Eq, Structural, Debug)]
pub struct SignalInfo {
    /// Which signal it is.
    pub signal: SignalNumber,
    /// Whether a process sent it, rather than the kernel.
    pub user_signaled: bool,
    /// The process that sent it, or zero.
    pub pid: i32,
}

} // verus!
