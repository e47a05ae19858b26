//! Plugin host.
//!
//! Loads untrusted binary modules under the sandbox policy and wraps each
//! as an independently sandboxed plugin instance. The module header is
//! screened before compilation is attempted, so malformed input is
//! rejected cheaply.

use crate::error::ZenithError;
use crate::sandbox::Sandbox;
use crate::sandbox::SandboxLimits;
use crate::sandbox::valid_wasm_header;
use crate::vm::VM;
use crate::vm::compiles_of;
use vstd::prelude::*;

verus! {

/// One loaded plugin: a compiled module with its virtual machine handle,
/// owned by the registry, immutable after load, and invoked serially by
/// the single consumer thread.
pub struct WasmPlugin {
    vm: VM,
}

impl WasmPlugin {
    /// The bytes this plugin's module was compiled from.
    pub closed spec fn source(&self) -> Seq<u8> {
        self.vm.source()
    }
}

/// Interpret what one raw `on_event` invocation handed back: the plugin's
/// answer is an integer, and zero signals block — a `false` verdict —
/// while anything else allows. A failed invocation stays a failure, and
/// an answer without a result does too.
pub fn interpret_raw(r: Result<Vec<i64>, ZenithError>) -> (out: Result<bool, ZenithError>)
    ensures
        r matches Ok(v) ==> (if v@.len() >= 1 {
            out == Ok::<bool, ZenithError>(v@[0] != 0)
        } else {
            out == Err::<bool, ZenithError>(ZenithError::ExecutionFailed)
        }),
        r matches Err(e) ==> out == Err::<bool, ZenithError>(e),
{
    match r {
        Ok(v) => {
            if v.len() >= 1 {
                Ok(v[0] != 0)
            } else {
                Err(ZenithError::ExecutionFailed)
            }
        },
        Err(e) => Err(e),
    }
}

impl WasmPlugin {
    /// Invoke the plugin's `on_event` export with an event's metadata.
    /// The plugin answers with an integer: zero signals block, anything
    /// else allows. A missing export, a mismatched signature or a trap
    /// fails the invocation instead. What integer comes back is the
    /// plugin's choice; the zero-means-block reading of it is pinned down
    /// by [`interpret_raw`], and the fold of a whole chain by
    /// [`crate::engine::decide`].
    pub fn on_event(&self, source_id: u32, seq_no: u64) -> (r: Result<bool, ZenithError>)
        ensures
            r matches Err(e) ==> e == ZenithError::ExecutionFailed,
    {
        let mut args: Vec<i64> = Vec::new();
        args.push(source_id as i64);
        args.push(#[verifier::truncate] (seq_no as i64));
        interpret_raw(self.vm.execute("on_event", args.as_slice()))
    }
}

/// The plugin loader: screens, compiles and wraps modules under one
/// sandbox policy.
pub struct WasmHost {
    sandbox: Sandbox,
}

impl WasmHost {
    /// The sandbox limits this host applies.
    pub closed spec fn limits(&self) -> SandboxLimits {
        self.sandbox.limits()
    }

    /// A host with the default sandbox limits.
    pub fn new() -> (r: Result<WasmHost, ZenithError>)
        ensures
            r matches Ok(h) && h.limits() == crate::sandbox::spec_default_limits(),
    {
        Ok(WasmHost { sandbox: Sandbox::new(SandboxLimits::default()) })
    }

    /// Screen and compile one module. The header is validated first: a
    /// byte sequence shorter than eight bytes or lacking the magic number
    /// is rejected before any compilation is attempted; a well-headed
    /// sequence loads exactly when it compiles.
    pub fn load_plugin(&self, wasm_bytes: &[u8]) -> (r: Result<WasmPlugin, ZenithError>)
        ensures
            r is Ok <==> valid_wasm_header(wasm_bytes@) && compiles_of(wasm_bytes@),
            r matches Ok(p) ==> p.source() == wasm_bytes@,
            wasm_bytes@.len() < 8 ==> (r matches Err(e) && e == ZenithError::WasmTooSmall),
            wasm_bytes@.len() >= 8 && !valid_wasm_header(wasm_bytes@) ==> (r matches Err(e) && e
                == ZenithError::WasmBadMagic),
            valid_wasm_header(wasm_bytes@) && r is Err ==> r == Result::<
                WasmPlugin,
                ZenithError,
            >::Err(ZenithError::CompileFailed),
    {
        if let Err(e) = self.sandbox.validate_wasm_bytes(wasm_bytes) {
            return Err(e);
        }
        match VM::from_bytes(wasm_bytes) {
            Ok(vm) => Ok(WasmPlugin { vm }),
            Err(e) => Err(e),
        }
    }
}

} // verus!
