//! The engine: bounded ingress queue, plugin registry, and the per-event
//! dispatch decision.
//!
//! Each processed event runs through the plugins in registration order;
//! every plugin's filter entry point is invoked with the event's metadata.
//! The admit decision is fail-open: an event is dropped only if at least
//! one plugin explicitly signals block, and a plugin whose invocation
//! fails neither blocks nor admits on its own.
//!
//! Shutdown is cooperative — a flag observed at each loop iteration, never
//! preemptive. The loop itself (threads, parking) lives outside the
//! library; it drives [`ZenithEngine::process_next`] and observes
//! [`ZenithEngine::is_running`].

use crate::error::ZenithError;
use crate::host_calls::emit_log;
use crate::ring_buffer::ZenithRingBuffer;
use crate::ring_buffer::ring_capacity;
use crate::sandbox::valid_wasm_header;
use crate::vm::compiles_of;
use crate::wasm_host::WasmHost;
use crate::wasm_host::WasmPlugin;
use vstd::prelude::*;

verus! {

/// What one plugin's filter invocation came to.
#[derive(Debug, Clone, Copy, PartialEq, Eq, Structural)]
pub enum PluginOutcome {
    /// The plugin answered with a non-zero value: let the event pass.
    Allow,
    /// The plugin answered zero: drop the event.
    Block,
    /// The invocation failed — a trap, a missing export, a mismatched
    /// signature. Under the fail-open policy this neither blocks nor
    /// admits on its own.
    Failed,
}

/// The admit decision over a chain of plugin outcomes: the event is
/// allowed exactly when no plugin explicitly signalled block.
pub open spec fn decision_allows(outcomes: Seq<PluginOutcome>) -> bool {
    forall|i: int| 0 <= i < outcomes.len() ==> outcomes[i] != PluginOutcome::Block
}

/// Interpret one plugin invocation: an explicit `false` answer blocks; a
/// failed invocation is fail-open.
pub fn interpret_invocation(r: &Result<bool, ZenithError>) -> (o: PluginOutcome)
    ensures
        o == PluginOutcome::Allow <==> r == Result::<bool, ZenithError>::Ok(true),
        o == PluginOutcome::Block <==> r == Result::<bool, ZenithError>::Ok(false),
        o == PluginOutcome::Failed <==> r is Err,
{
    match r {
        Ok(true) => PluginOutcome::Allow,
        Ok(false) => PluginOutcome::Block,
        Err(_) => PluginOutcome::Failed,
    }
}

/// Fold a chain of outcomes into the admit decision.
pub fn decide(outcomes: &Vec<PluginOutcome>) -> (allow: bool)
    ensures
        allow == decision_allows(outcomes@),
{
    let n = outcomes.len();
    let mut i: usize = 0;
    while i < n
        invariant
            n == outcomes@.len(),
            0 <= i <= n,
            forall|j: int| 0 <= j < i ==> outcomes@[j] != PluginOutcome::Block,
        decreases n - i,
    {
        if matches!(outcomes[i], PluginOutcome::Block) {
            return false;
        }
        i += 1;
    }
    true
}

/// If any plugin explicitly signals block, the decision is drop.
pub proof fn lemma_explicit_block_drops(outcomes: Seq<PluginOutcome>, i: int)
    requires
        0 <= i < outcomes.len(),
        outcomes[i] == PluginOutcome::Block,
    ensures
        !decision_allows(outcomes),
{
}

/// If every plugin allows — in particular when no plugin is loaded — the
/// decision is allow.
pub proof fn lemma_all_allow_admits(outcomes: Seq<PluginOutcome>)
    requires
        forall|i: int| 0 <= i < outcomes.len() ==> outcomes[i] == PluginOutcome::Allow,
    ensures
        decision_allows(outcomes),
{
}

/// A failed invocation is neutral: inserting it anywhere in a chain never
/// changes the admit decision. Dispatch completes, and the event is
/// allowed unless another plugin explicitly blocked it.
pub proof fn lemma_failed_is_neutral(outcomes: Seq<PluginOutcome>, i: int)
    requires
        0 <= i <= outcomes.len(),
    ensures
        decision_allows(outcomes.insert(i, PluginOutcome::Failed)) == decision_allows(outcomes),
{
    let inserted = outcomes.insert(i, PluginOutcome::Failed);
    if decision_allows(inserted) {
        assert forall|j: int| 0 <= j < outcomes.len() implies outcomes[j] != PluginOutcome::Block by {
            if j < i {
                assert(inserted[j] == outcomes[j]);
            } else {
                assert(inserted[j + 1] == outcomes[j]);
            }
        }
    }
    if decision_allows(outcomes) {
        assert forall|j: int| 0 <= j < inserted.len() implies inserted[j] != PluginOutcome::Block by {
            if j < i {
                assert(inserted[j] == outcomes[j]);
            } else if j == i {
                assert(inserted[j] == PluginOutcome::Failed);
            } else {
                assert(inserted[j] == outcomes[j - 1]);
            }
        }
    }
}

/// The engine: owns the queue, the plugin host and the registry; ingress
/// events flow through the queue to the dispatch decision.
pub struct ZenithEngine {
    buffer: ZenithRingBuffer,
    wasm_host: WasmHost,
    plugins: Vec<WasmPlugin>,
    running: bool,
}

impl ZenithEngine {
    /// Whether the engine has not been shut down.
    pub closed spec fn running(&self) -> bool {
        self.running
    }

    /// The registry: the loaded plugins in registration order.
    pub closed spec fn plugin_list(&self) -> Seq<WasmPlugin> {
        self.plugins@
    }

    /// The number of loaded plugins.
    pub open spec fn plugin_count(&self) -> nat {
        self.plugin_list().len()
    }

    /// The capacity of the ingress queue.
    pub closed spec fn buffer_capacity(&self) -> nat {
        ring_capacity(&self.buffer)
    }

    /// Construct an engine with a bounded ingress queue of the given
    /// capacity. The capacity must be at least one and at most a
    /// gibibyte's worth of slots; anything else fails initialization.
    pub fn new(buffer_size: usize) -> (r: Result<ZenithEngine, ZenithError>)
        ensures
            r is Ok <==> 1 <= buffer_size <= 1073741824,
            r matches Ok(e) ==> e.running() && e.plugin_count() == 0 && e.buffer_capacity()
                == buffer_size,
            r matches Err(e) ==> e == ZenithError::InitFailed,
    {
        if buffer_size < 1 || buffer_size > 1073741824 {
            return Err(ZenithError::InitFailed);
        }
        let host = match WasmHost::new() {
            Ok(h) => h,
            Err(_) => {
                return Err(ZenithError::InitFailed);
            },
        };
        Ok(
            ZenithEngine {
                buffer: ZenithRingBuffer::new(buffer_size),
                wasm_host: host,
                plugins: Vec::new(),
                running: true,
            },
        )
    }

    /// A new handle onto the shared ingress queue, for producers.
    pub fn get_ring_buffer(&self) -> (r: ZenithRingBuffer)
        ensures
            ring_capacity(&r) == self.buffer_capacity(),
    {
        self.buffer.clone()
    }

    /// Screen, compile and append one plugin to the registry. A byte
    /// sequence shorter than eight bytes or lacking the magic number is
    /// rejected before compilation; on success the new plugin stands at
    /// the end of the registry and the plugins already loaded keep their
    /// order — registration order is what dispatch iterates in.
    pub fn load_plugin(&mut self, wasm_bytes: &[u8]) -> (r: Result<(), ZenithError>)
        ensures
            final(self).running() == old(self).running(),
            final(self).buffer_capacity() == old(self).buffer_capacity(),
            r is Ok <==> valid_wasm_header(wasm_bytes@) && compiles_of(wasm_bytes@),
            r is Ok ==> final(self).plugin_count() == old(self).plugin_count() + 1
                && final(self).plugin_list().drop_last() == old(self).plugin_list()
                && final(self).plugin_list().last().source() == wasm_bytes@,
            r is Err ==> final(self).plugin_list() == old(self).plugin_list(),
            wasm_bytes@.len() < 8 ==> (r matches Err(e) && e == ZenithError::WasmTooSmall),
            wasm_bytes@.len() >= 8 && !valid_wasm_header(wasm_bytes@) ==> (r matches Err(e) && e
                == ZenithError::WasmBadMagic),
            valid_wasm_header(wasm_bytes@) && r is Err ==> r == Result::<(), ZenithError>::Err(
                ZenithError::CompileFailed,
            ),
    {
        match self.wasm_host.load_plugin(wasm_bytes) {
            Ok(plugin) => {
                self.plugins.push(plugin);
                proof {
                    assert(self.plugins@.drop_last() =~= old(self).plugins@);
                }
                Ok(())
            },
            Err(e) => Err(e),
        }
    }

    /// The number of loaded plugins, for the read-only administration
    /// surface.
    pub fn num_plugins(&self) -> (r: usize)
        ensures
            r == self.plugin_count(),
    {
        self.plugins.len()
    }

    /// Run one event's metadata through the plugin chain in registration
    /// order and collect each invocation's outcome. An invocation failure
    /// is logged and non-fatal: the chain always completes.
    pub fn run_chain(&self, source_id: u32, seq_no: u64) -> (outcomes: Vec<PluginOutcome>)
        ensures
            outcomes@.len() == self.plugin_count(),
    {
        let n = self.plugins.len();
        let mut outcomes: Vec<PluginOutcome> = Vec::new();
        let mut i: usize = 0;
        while i < n
            invariant
                n == self.plugins@.len(),
                0 <= i <= n,
                outcomes@.len() == i,
            decreases n - i,
        {
            let r = self.plugins[i].on_event(source_id, seq_no);
            if r.is_err() {
                emit_log("ERROR", "plugin execution failed");
            }
            outcomes.push(interpret_invocation(&r));
            i += 1;
        }
        outcomes
    }

    /// Dispatch one event's metadata through the chain, handing back both
    /// the chain's outcomes — one per loaded plugin, in registration
    /// order — and the admit decision folded from exactly those outcomes.
    pub fn dispatch_event_outcomes(&self, source_id: u32, seq_no: u64) -> (r: (
        Vec<PluginOutcome>,
        bool,
    ))
        ensures
            r.0@.len() == self.plugin_count(),
            r.1 == decision_allows(r.0@),
    {
        let outcomes = self.run_chain(source_id, seq_no);
        let allow = decide(&outcomes);
        (outcomes, allow)
    }

    /// Dispatch one event's metadata through the chain and fold the
    /// outcomes into the admit decision. What each plugin answers is its
    /// own choice; the fold of the answers is pinned down by
    /// [`dispatch_event_outcomes`] and [`decide`], and with no plugins
    /// loaded the decision is allow.
    pub fn dispatch_event(&self, source_id: u32, seq_no: u64) -> (allow: bool)
        ensures
            self.plugin_count() == 0 ==> allow,
    {
        let r = self.dispatch_event_outcomes(source_id, seq_no);
        r.1
    }

    /// Pop one event from the ingress queue, if any, and dispatch it.
    /// `None` means the queue was observed empty; otherwise the event's
    /// admit decision comes back — allow whenever no plugin is loaded —
    /// and the event itself is destroyed: events do not outlive their
    /// plugin chain.
    pub fn process_next(&self) -> (r: Option<bool>)
        ensures
            r matches Some(b) ==> (self.plugin_count() == 0 ==> b),
    {
        match self.buffer.pop() {
            None => None,
            Some(event) => {
                let allow = self.dispatch_event(event.header.source_id, event.header.seq_no);
                Some(allow)
            },
        }
    }

    /// Request cooperative shutdown: the dispatch loop observes the flag
    /// at its next iteration; in-flight work is not cancelled.
    pub fn shutdown(&mut self)
        ensures
            !final(self).running(),
            final(self).plugin_count() == old(self).plugin_count(),
            final(self).buffer_capacity() == old(self).buffer_capacity(),
    {
        self.running = false;
    }

    /// Whether shutdown has been requested.
    pub fn is_running(&self) -> (r: bool)
        ensures
            r == self.running(),
    {
        self.running
    }
}

} // verus!
