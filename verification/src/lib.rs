//! A request-triggered process supervisor.
//!
//! Given a program path, argument list, environment variables, and an
//! optional set of TCP ports, the supervisor launches the program as a child
//! process and waits for one of two completion signals: the process
//! terminating on its own, or (when ports are configured) any of the listed
//! loopback ports becoming connectable, interpreted as "the service has
//! finished its startup side effects and is now serving". In the latter case
//! the supervisor actively terminates the still-running child once readiness
//! is observed.
//!
//! This crate holds the decision logic of the supervisor, fully verified:
//! the request model and strategy selection, the per-tick state machine that
//! races exit detection against port readiness, the error taxonomy with its
//! exact message shapes, and the completion reporter. The process, socket
//! and timer calls themselves are performed by the embedding program, which
//! feeds their observations back in as plain events.

pub mod detector;
pub mod errors;
pub mod report;
pub mod request;
