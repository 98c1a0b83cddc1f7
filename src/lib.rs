//! A single-threaded cooperative I/O runtime: a readiness-driven reactor
//! paired with a task scheduler, with non-blocking socket operations as the
//! only suspension points.
//!
//! The library holds every decision of the runtime: how the outcome of a
//! socket call is classified, which descriptor is armed with which wake
//! capability, which wake capabilities a batch of readiness events resolves
//! to, and in which order tasks run. The calls into the operating system
//! are made by the embedding program, which hands their outcomes back.

pub mod error;
pub mod executor;
pub mod http;
pub mod net;
pub mod ops;
pub mod reactor;
pub mod task;
pub mod task_queue;
