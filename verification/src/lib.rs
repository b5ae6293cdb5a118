//! The decisions of a privilege-switching tool: what the process that watches
//! over a command in a pseudo-terminal does with every event, and how `su`
//! works out the user, the groups, the shell and the environment of a command.
//!
//! Everything here computes on plain values. Reading from sockets, forking and
//! looking up users is left to the caller, who hands the results in and
//! carries the answers out.
pub mod bytes;
pub mod environment;
pub mod error_code;
pub mod event;
pub mod exec_monitor;
pub mod message;
pub mod monitor;
pub mod monitor_calls;
pub mod monitor_laws;
pub mod shells;
pub mod signal;
pub mod su_context;
pub mod su_laws;
pub mod su_results;
pub mod su_types;
