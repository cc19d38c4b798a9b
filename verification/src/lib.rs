//! Event plumbing for illumos: timers, wake-ups of an event loop, and file watches on an event
//! port.
//!
//! The modules hold the decisions; the threads that read clocks, sockets, channels and the port
//! call them.

pub mod channel;
pub mod channel_laws;
pub mod command;
pub mod command_laws;
pub mod dispatcher;
pub mod fault;
pub mod opening;
pub mod paths;
pub mod ping;
pub mod port;
pub mod reports;
pub mod timer;
pub mod timer_heap;
pub mod timer_laws;
pub mod timer_queue;
pub mod watch_entry;
pub mod watch_laws;
pub mod watch_table;
