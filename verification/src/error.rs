use vstd::prelude::*;

verus! {

/// The failures that the engine's components report to their callers.
///
/// Caller-input faults (a malformed module header), resource exhaustion
/// (a full queue, a spent budget or quota) and plugin-internal faults
/// (a trap, a missing export) all surface here; none of them is fatal
/// to the engine itself.
#[derive(Debug, Clone, Copy, PartialEq, Eq, Structural)]
pub enum ZenithError {
    /// The bounded ingress queue is at capacity; the push was refused.
    BufferFull,
    /// A module binary is shorter than the minimal header.
    WasmTooSmall,
    /// A module binary does not begin with the required magic number.
    WasmBadMagic,
    /// A module binary with a well-formed header failed to compile.
    CompileFailed,
    /// An invocation failed: export not found, arity mismatch, or a trap.
    ExecutionFailed,
    /// An invocation's elapsed time ran past the configured budget.
    TimeoutExceeded,
    /// An invocation spent its host-call quota.
    TooManyHostCalls,
    /// The engine could not be constructed.
    InitFailed,
}

/// The result type the engine's components use.
pub type Result<T> = core::result::Result<T, ZenithError>;

} // verus!
