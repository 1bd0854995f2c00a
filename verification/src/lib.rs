//! The decisions of a small service manager, with their proofs.
//!
//! A daemon keeps a list of services, runs each one in a child process, restarts it as its
//! restart option says, and answers clients over a local socket. This crate holds what the
//! daemon and its clients decide and compute. The processes, the socket and the clock are the
//! caller's: it hands in what it observed and carries out the action it is given back.
pub mod client;
pub mod daemon;
pub mod protocol;
pub mod status;
pub mod time;
