//! The event envelope.
//!
//! One admitted unit of work: a metadata header and an immutable columnar
//! payload, built once at ingestion and never mutated. Once queued, an
//! event is owned by exactly one consumer; the queue hand-off is the sole
//! ownership-transfer point.

use vstd::prelude::*;

verus! {

/// The columnar payload: one record batch with its schema. The engine
/// never looks inside a payload; it is carried from ingestion to the end
/// of the plugin chain untouched, so the batch is held opaquely here and
/// only the boundary layer builds or consumes it through the public field.
#[verifier::external_body]
pub struct Payload {
    pub batch: arrow::record_batch::RecordBatch,
}

/// Event metadata: the source that published it and its sequence number,
/// monotonic per source but not globally enforced.
#[derive(Debug, Clone, Copy, PartialEq, Eq, Structural)]
pub struct EventHeader {
    pub source_id: u32,
    pub seq_no: u64,
}

/// An immutable event envelope: header and columnar payload.
pub struct ZenithEvent {
    pub header: EventHeader,
    pub payload: Payload,
}

impl ZenithEvent {
    /// Build an event from caller-supplied metadata and payload.
    pub fn new(source_id: u32, seq_no: u64, payload: Payload) -> (r: ZenithEvent)
        ensures
            r.header.source_id == source_id,
            r.header.seq_no == seq_no,
            r.payload == payload,
    {
        ZenithEvent { header: EventHeader { source_id, seq_no }, payload }
    }
}

} // verus!
