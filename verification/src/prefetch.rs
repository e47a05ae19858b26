//! Prefetch buffers.
//!
//! The accelerator component loads batches ahead of time into reusable
//! buffers. Only the buffer descriptor and its configuration live here —
//! plain data with its reset discipline; the worker threads and their
//! queues belong to the accelerator, not to the engine.

use vstd::prelude::*;

verus! {

/// One prefetched batch: raw data, the number of samples it holds, the
/// byte offset of each sample, and whether it is ready for consumption.
pub struct PrefetchBuffer {
    /// Raw data buffer.
    pub data: Vec<u8>,
    /// Number of samples in this buffer.
    pub num_samples: usize,
    /// Byte offset for each sample.
    pub offsets: Vec<usize>,
    /// Whether this buffer is ready for consumption.
    pub ready: bool,
}

impl PrefetchBuffer {
    /// An empty buffer with room reserved for `capacity` bytes.
    pub fn new(capacity: usize) -> (r: Self)
        ensures
            r.data@.len() == 0,
            r.num_samples == 0,
            r.offsets@.len() == 0,
            !r.ready,
    {
        PrefetchBuffer {
            data: Vec::with_capacity(capacity),
            num_samples: 0,
            offsets: Vec::new(),
            ready: false,
        }
    }

    /// Reset the buffer for reuse: contents cleared, not ready.
    pub fn reset(&mut self)
        ensures
            final(self).data@.len() == 0,
            final(self).num_samples == 0,
            final(self).offsets@.len() == 0,
            !final(self).ready,
    {
        self.data.clear();
        self.num_samples = 0;
        self.offsets.clear();
        self.ready = false;
    }
}

/// Prefetch pipeline configuration.
#[derive(Debug, Clone, Copy, PartialEq, Eq, Structural)]
pub struct PrefetchConfig {
    /// Number of prefetch buffers.
    pub num_buffers: usize,
    /// Size of each buffer in bytes.
    pub buffer_size: usize,
    /// Number of worker threads.
    pub num_workers: usize,
    /// Whether to pin buffer memory for device transfers.
    pub pinned_memory: bool,
}

impl Default for PrefetchConfig {
    /// The default pipeline: four buffers of sixty-four mebibytes, two
    /// workers, no pinned memory.
    fn default() -> (r: Self)
        ensures
            r.num_buffers == 4,
            r.buffer_size == 67108864,
            r.num_workers == 2,
            !r.pinned_memory,
    {
        PrefetchConfig { num_buffers: 4, buffer_size: 67108864, num_workers: 2, pinned_memory: false }
    }
}

} // verus!
