//! A local process supervisor: the decisions of its control loop, proved.
//!
//! The library holds the state that the supervisor keeps (services, their
//! restart policy, the loop's queue of file changes) and decides what to do
//! with each input. Launching processes, sending signals, reaping children,
//! reading the clock and waiting on channels are left to the caller, which
//! hands the outcome of each back as a plain value.
pub mod controller;
pub mod daemon;
pub mod event;
pub mod flags;
pub mod pattern;
pub mod process;
pub mod service;
