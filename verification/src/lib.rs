//! Core of a deterministic client/server interaction simulator for a database
//! wire-protocol endpoint.
//!
//! The library holds the logic of the simulator: a seeded fault-injection
//! policy, a builder for conformant pipelined protocol requests with their
//! HTTP framing, a response-verification oracle, and a continuation scheduler
//! that advances one readiness event at a time.  The surrounding binary owns
//! the sockets and performs the actual connect/send/receive calls; it feeds
//! each completion back into the library and carries out the action the
//! library hands back.

pub mod fault;
pub mod rng;
pub mod request;
pub mod oracle;
pub mod sched;
pub mod sim;
