# privilege_switch

The decisions of a tool that runs commands as another user, proved in Verus.

- `src/monitor.rs`, `src/exec_monitor.rs`: the process that watches over a
  command in a pseudo-terminal: its startup, what it does with each event, and
  its end. `src/monitor_laws.rs` proves what holds over its whole life.
- `src/su_context.rs`: how `su` works out the user, the groups, the shell, the
  arguments and the environment of a command. `src/su_laws.rs` proves what holds
  of the result.
- `src/signal.rs`, `src/error_code.rs`: the signal numbers and the byte order of
  the machine, the only things taken on trust.
- `src/shells.rs`, `src/environment.rs`, `src/bytes.rs`, `src/message.rs`,
  `src/event.rs`, `src/su_types.rs`: what the others build on.
- `app/`: reads from the operating system and carries out the decisions.
