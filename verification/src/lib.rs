//! A multi-language code execution engine.
//!
//! Clients submit a source program with optional stdin, auxiliary files and
//! resource limits; the engine compiles the program when the language calls
//! for it, runs it under bounded resources, and exposes captured outputs,
//! exit status and measured usage. Submissions are tracked through a job
//! lifecycle state machine and can be cancelled while pending or in flight.
//!
//! This crate holds the verified core: the job state machine, the engine
//! facade (submit / status / result / cancel / stats), the FIFO execution
//! queue, the language catalog, the resource policy, run planning and
//! archive extraction, outcome classification, and multi-run aggregation.
//! Process spawning, the HTTP surface and all other I/O live outside the
//! library and talk to it through plain values.

pub mod aggregate;
pub mod archive;
pub mod catalog;
pub mod engine;
pub mod executor;
pub mod limits;
pub mod queue;
pub mod runner;
pub mod sandbox;
pub mod state;
pub mod text;
pub mod types;
