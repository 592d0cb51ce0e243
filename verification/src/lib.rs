//! Reservation relay core: request validation, a bounded first-in first-out
//! queue, and the per-request submission state machine, each with a verified
//! contract.

pub mod parsing;
pub mod validate;
pub mod submitter;
pub mod runs;
pub mod queue;
pub mod response;
pub mod config;
pub mod intake;
pub mod sequential;
