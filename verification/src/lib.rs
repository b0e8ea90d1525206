//! Core logic of a small telemetry demo: a die is rolled once, one
//! informational log record carrying the value is emitted through a batching
//! export pipeline, and the pipeline is flushed exactly once before the
//! process ends.
//!
//! The transport itself (OTLP over HTTP, batching, the async runtime) lives
//! with the binary; this crate holds the verified part of the program: the
//! message and header formatting, the severity threshold, the guard against
//! installing a second process-wide logger, and the linear session that
//! orders roll, emission, completion marker and flush.

pub mod config;
pub mod dice;
pub mod message;
pub mod run;
pub mod severity;
