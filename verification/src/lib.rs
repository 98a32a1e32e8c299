//! The decisions of the `vproxy` daemon and of its HTTP proxy.
//!
//! Everything here computes: on plain values, and on two things that it builds and
//! hands on unopened, the connection builder and the responses of the HTTP server.
//! Reading files, sending signals and moving bytes over sockets is left to the
//! program that drives this library.

pub mod daemon;
pub mod process;
pub mod run;
pub mod server;
pub mod text;
