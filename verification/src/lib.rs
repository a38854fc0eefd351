//! A batching span exporter: decouples high-frequency production of trace
//! spans from slow, failure-prone delivery to a remote collector.
//!
//! Producers hand finished spans to an [`exporter::Exporter`], which holds
//! them in a bounded FIFO queue with a configurable overflow policy. A
//! driver loop (outside this crate) asks the exporter what to do next:
//! sleep, deliver a batch, or stop. Delivery outcomes are fed back in, and
//! the exporter decides on retry with exponential backoff, or drops the
//! batch and records a notification.

pub mod config;
pub mod exporter;
pub mod queue;
pub mod retry;
pub mod span;
