//! A data-plane engine that ingests structured event batches across a
//! native boundary and passes each event through a chain of untrusted,
//! dynamically loaded extension modules before deciding to admit or drop
//! it — without a faulty or malicious extension corrupting or crashing
//! the host.
//!
//! The pipeline: a bounded ingress queue feeds a single consumer, which
//! runs each event's metadata through the per-event plugin chain under
//! resource-limited virtual-machine execution; the boundary layer around
//! it converts every fault into a defined code. The boundary layer itself
//! — raw pointers, fault isolation, thread plumbing — cannot live in
//! verified code and sits in the application crate around this library;
//! its decisions (result-code mappings, header screening, the admit
//! decision) all live here.

pub mod engine;
pub mod error;
pub mod event;
pub mod ffi_error;
pub mod host_calls;
pub mod prefetch;
pub mod ring_buffer;
pub mod sandbox;
pub mod turbo;
pub mod validation;
pub mod vm;
pub mod wasm_host;

pub use engine::ZenithEngine as Engine;
pub use event::ZenithEvent as Event;
