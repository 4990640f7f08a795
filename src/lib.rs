//! Change notifications for a registry key.
//!
//! The library holds the decisions of a registry watch: how a timeout is
//! handed to the wait, how the outcome of a wait is classified, how the
//! unique name of the wait event is formed, and the state machines of a
//! watcher and of its background worker. The operating-system calls
//! themselves are made by the program around it.
pub mod filter;
pub mod watch;
pub mod event;
pub mod worker;
pub mod watcher;
