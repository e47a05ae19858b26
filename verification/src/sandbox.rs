//! Execution sandbox.
//!
//! Bounds the resource use of one untrusted plugin invocation: a memory
//! ceiling, a CPU-time budget, and a host-call quota. The timer is read at
//! host-side decision points, not preemptively inside the virtual machine;
//! the quota counter must be advanced by every host-call entry point before
//! it does any work, so the quota cannot be bypassed. Loading validates the
//! module header (minimum size, magic number) before any compilation is
//! attempted, so malformed input is rejected cheaply.

use crate::error::ZenithError;
use vstd::prelude::*;

verus! {

/// An opaque monotonic clock reading.
#[verifier::external_type_specification]
#[verifier::external_body]
pub struct ExInstant(std::time::Instant);

/// Relies on `std::time::Instant::now`: a reading of the monotonic clock.
/// Nothing can be promised of the value itself.
#[verifier::external_body]
fn now_instant() -> std::time::Instant {
    std::time::Instant::now()
}

/// Relies on `std::time::Instant::elapsed`: the nanoseconds since `start`
/// was read, truncated to 64 bits. The value depends on the clock, so
/// nothing is promised of it.
#[verifier::external_body]
fn elapsed_ns(start: &std::time::Instant) -> u64 {
    start.elapsed().as_nanos() as u64
}

/// Resource limits for one plugin invocation. Loaded once per engine and
/// shared by every invocation.
#[derive(Debug, Clone, Copy, PartialEq, Eq, Structural)]
pub struct SandboxLimits {
    /// Maximum memory allocation in bytes.
    pub max_memory: usize,
    /// CPU-time budget per invocation, in nanoseconds.
    pub cpu_timeout: u64,
    /// Maximum number of host calls per invocation.
    pub max_host_calls: u32,
}

/// The default policy: sixteen mebibytes of memory, a hundred
/// milliseconds of CPU time, a thousand host calls.
pub open spec fn spec_default_limits() -> SandboxLimits {
    SandboxLimits { max_memory: 16777216, cpu_timeout: 100000000, max_host_calls: 1000 }
}

impl Default for SandboxLimits {
    /// The default policy: sixteen mebibytes of memory, a hundred
    /// milliseconds of CPU time, a thousand host calls.
    fn default() -> (r: Self)
        ensures
            r == spec_default_limits(),
    {
        SandboxLimits {
            max_memory: 16777216,
            cpu_timeout: 100000000,
            max_host_calls: 1000,
        }
    }
}

/// Whether an elapsed time has run past a budget.
pub fn timeout_exceeded(elapsed: u64, budget: u64) -> (r: bool)
    ensures
        r == (elapsed > budget),
{
    elapsed > budget
}

/// Per-invocation mutable state: the start of the invocation, if one has
/// begun, and the number of host calls it has made. Created fresh for each
/// invocation and never shared.
pub struct ExecutionContext {
    limits: SandboxLimits,
    start_time: Option<std::time::Instant>,
    host_call_count: u32,
}

impl ExecutionContext {
    /// The limits this context enforces.
    pub closed spec fn limits(&self) -> SandboxLimits {
        self.limits
    }

    /// Whether the invocation timer has been started.
    pub closed spec fn started(&self) -> bool {
        self.start_time is Some
    }

    /// The number of host calls recorded so far.
    pub closed spec fn count(&self) -> u32 {
        self.host_call_count
    }

    /// A fresh context: timer not started, no host calls recorded.
    pub fn new(limits: SandboxLimits) -> (r: Self)
        ensures
            r.limits() == limits,
            !r.started(),
            r.count() == 0,
    {
        ExecutionContext { limits, start_time: None, host_call_count: 0 }
    }

    /// Start (or restart) the invocation: reset the timer and the call
    /// counter.
    pub fn start(&mut self)
        ensures
            final(self).limits() == old(self).limits(),
            final(self).started(),
            final(self).count() == 0,
    {
        self.start_time = Some(now_instant());
        self.host_call_count = 0;
    }

    /// Check the CPU-time budget: fails once the elapsed time has run past
    /// it. Before the timer is started the check always passes; the verdict
    /// otherwise depends on the clock.
    pub fn check_timeout(&self) -> (r: Result<(), ZenithError>)
        ensures
            !self.started() ==> r is Ok,
            r is Err ==> self.started() && r == Result::<(), ZenithError>::Err(
                ZenithError::TimeoutExceeded,
            ),
    {
        match &self.start_time {
            None => Ok(()),
            Some(start) => {
                let elapsed = elapsed_ns(start);
                if timeout_exceeded(elapsed, self.limits.cpu_timeout) {
                    Err(ZenithError::TimeoutExceeded)
                } else {
                    Ok(())
                }
            },
        }
    }

    /// Record one host call against the quota: the counter advances, and
    /// the call fails exactly when the advanced counter is past the quota.
    /// The counter saturates rather than wrap, so a spent quota stays
    /// spent.
    pub fn record_host_call(&mut self) -> (r: Result<(), ZenithError>)
        ensures
            final(self).limits() == old(self).limits(),
            final(self).started() == old(self).started(),
            final(self).count() == if old(self).count() < 0xffffffffu32 {
                old(self).count() + 1
            } else {
                old(self).count() as int
            },
            r is Err <==> final(self).count() > final(self).limits().max_host_calls,
            r is Err ==> r == Result::<(), ZenithError>::Err(ZenithError::TooManyHostCalls),
    {
        if self.host_call_count < 0xffffffffu32 {
            self.host_call_count = self.host_call_count + 1;
        }
        if self.host_call_count > self.limits.max_host_calls {
            Err(ZenithError::TooManyHostCalls)
        } else {
            Ok(())
        }
    }
}

/// Sandbox policy holder: hands each invocation a fresh context under the
/// engine's limits, and screens module binaries before compilation.
pub struct Sandbox {
    limits: SandboxLimits,
}

/// The required module header: at least eight bytes, beginning with the
/// magic number `\0asm`.
pub open spec fn valid_wasm_header(bytes: Seq<u8>) -> bool {
    bytes.len() >= 8 && bytes[0] == 0u8 && bytes[1] == 0x61u8 && bytes[2] == 0x73u8 && bytes[3]
        == 0x6du8
}

impl Sandbox {
    /// The limits every context of this sandbox enforces.
    pub closed spec fn limits(&self) -> SandboxLimits {
        self.limits
    }

    /// Create a sandbox with the given limits.
    pub fn new(limits: SandboxLimits) -> (r: Self)
        ensures
            r.limits() == limits,
    {
        Sandbox { limits }
    }

    /// A fresh context for one invocation.
    pub fn create_context(&self) -> (r: ExecutionContext)
        ensures
            r.limits() == self.limits(),
            !r.started(),
            r.count() == 0,
    {
        ExecutionContext::new(self.limits)
    }

    /// Screen a module binary before compilation: it must be at least
    /// eight bytes long and begin with the magic number.
    pub fn validate_wasm_bytes(&self, wasm: &[u8]) -> (r: Result<(), ZenithError>)
        ensures
            r is Ok <==> valid_wasm_header(wasm@),
            wasm@.len() < 8 ==> r == Result::<(), ZenithError>::Err(ZenithError::WasmTooSmall),
            wasm@.len() >= 8 && !valid_wasm_header(wasm@) ==> r == Result::<(), ZenithError>::Err(
                ZenithError::WasmBadMagic,
            ),
    {
        if wasm.len() < 8 {
            return Err(ZenithError::WasmTooSmall);
        }
        if !(wasm[0] == 0 && wasm[1] == 0x61 && wasm[2] == 0x73 && wasm[3] == 0x6d) {
            return Err(ZenithError::WasmBadMagic);
        }
        Ok(())
    }
}

} // verus!
