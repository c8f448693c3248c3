//! A dispatch queue for compute jobs: producers describe work, one execution
//! loop owns the device and runs the jobs one at a time, and each producer
//! gets its result back through a single-use completion handle.
//!
//! The device itself, the submission channel and the loop's awaiting live
//! with the caller; this crate holds the job model, the kernel binding plan,
//! completion signalling and the execution loop's decisions, all verified.
pub mod channels;
pub mod execution;
pub mod kernel;
pub mod time;
pub mod worker;
