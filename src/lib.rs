//! A dispatcher that turns fixed 8-byte frames received over TCP into runs of
//! pre-declared shell command lines.
//!
//! The library holds the decisions: how a frame decodes, which command line a
//! message selects, what a connection handler reports, and how the dispatch
//! worker reacts to each queued message. Sockets, threads, the queue and the
//! spawning of processes are left to the program that uses it.
pub mod codec;
pub mod table;
pub mod worker;
pub mod handler;
pub mod session;
