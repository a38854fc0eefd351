//! The span record produced by tracers and carried through the pipeline.
//!
//! A span is immutable once recorded: the queue owns it until it is
//! drained into a batch, and the batch owns it until delivery completes
//! or the batch is abandoned.

use vstd::prelude::*;

verus! {

/// A primitive attribute value attached to a span.
#[derive(Clone, Debug)]
pub enum AttrValue {
    Text(String),
    Integer(i64),
    Flag(bool),
}

/// One timed operation, finished and ready for export.
#[derive(Clone, Debug)]
pub struct SpanRecord {
    /// 128-bit identifier of the trace this span belongs to.
    pub trace_id: u128,
    /// 64-bit identifier of this span.
    pub span_id: u64,
    /// The enclosing span, if any.
    pub parent_span_id: Option<u64>,
    /// Operation name.
    pub name: String,
    /// Start of the operation, in milliseconds since an arbitrary epoch.
    pub start_ms: u64,
    /// End of the operation, in milliseconds since the same epoch.
    pub end_ms: u64,
    /// String keys mapped to primitive values.
    pub attributes: Vec<(String, AttrValue)>,
}

/// A span as the queue holds it, together with the moment it was accepted.
#[derive(Clone, Debug)]
pub struct QueuedSpan {
    pub span: SpanRecord,
    /// When the queue accepted the span, in milliseconds.
    pub enqueued_at_ms: u64,
}

} // verus!
