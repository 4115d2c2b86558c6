//! Decision logic of a small network diagnostic tool.
//!
//! The tool takes a target host and runs up to three independent actions
//! against it, always in the same order: a DNS lookup through a name server
//! chosen by the user, a ping, and a route trace. This crate holds everything
//! the tool decides: which actions an invocation asks for, what the resolver
//! is told, which command line starts each native probe, and what is printed
//! for each outcome. Sockets, child processes and the terminal are left to
//! the caller.

pub mod dns;
pub mod literal;
pub mod probe;
pub mod session;
