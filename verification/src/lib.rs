//! A verified model of a start/stop lifecycle handshake between a supervisor
//! and a worker that hosts a request-serving loop.
//!
//! The supervisor spawns the worker, waits for a one-shot start signal that
//! says whether the worker could bind its address, and later requests an
//! orderly shutdown through a one-shot stop signal, joining the worker once
//! it has drained. This crate verifies the protocol itself: the one-shot
//! signal slots, the worker and supervisor state machines, the fixed route
//! response, and the combined lifecycle run. The surrounding process plumbing
//! (threads, the HTTP server, standard input) lives outside the library.

pub mod lifecycle;
pub mod response;
pub mod signal;
pub mod supervisor;
pub mod worker;
