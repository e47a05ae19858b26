//! Virtual machine wrapper.
//!
//! Wraps one compiled, untrusted module. Each invocation instantiates a
//! fresh isolated-memory instance with a minimal capability set — no
//! filesystem, no network; only standard input and output are inherited —
//! invokes the named export with integer arguments, and returns integer
//! results. Export not found, arity mismatch and runtime traps all
//! surface as one execution failure, which the engine handles under its
//! fail-open policy.

use crate::error::ZenithError;
use vstd::prelude::*;
use wasmtime::Engine as WasmtimeEngine;

verus! {

/// The engine that compiles modules.
#[verifier::external_type_specification]
#[verifier::external_body]
pub struct ExWasmEngine(WasmtimeEngine);

/// A compiled module.
#[verifier::external_type_specification]
#[verifier::external_body]
pub struct ExWasmModule(wasmtime::Module);

/// One instantiation of a module: its store (holding the capability
/// context) and its instance, used for a single invocation and then
/// dropped. Held opaquely: nothing is read out of it but through the
/// trusted calls below.
#[verifier::external_body]
pub struct VmSession {
    store: wasmtime::Store<wasmtime_wasi::p1::WasiP1Ctx>,
    instance: wasmtime::Instance,
}

/// Relies on `wasmtime::Engine::default`: a fresh compilation engine with
/// default settings.
#[verifier::external_body]
fn new_wasm_engine() -> wasmtime::Engine {
    wasmtime::Engine::default()
}

/// Whether a byte sequence compiles as a module under the default engine
/// configuration: a fixed verdict of the bytes alone.
pub uninterp spec fn compiles_of(wasm: Seq<u8>) -> bool;

/// Relies on `wasmtime::Module::new`: compiles and validates a binary
/// module. The verdict is a deterministic function of the bytes under the
/// default engine configuration, named [`compiles_of`]; which byte
/// sequences satisfy it is the compiler's own business.
#[verifier::external_body]
fn compile_module(engine: &wasmtime::Engine, wasm: &[u8]) -> (r: Result<
    wasmtime::Module,
    ZenithError,
>)
    ensures
        r is Ok <==> compiles_of(wasm@),
        r matches Err(e) ==> e == ZenithError::CompileFailed,
{
    match wasmtime::Module::new(engine, wasm) {
        Ok(m) => Ok(m),
        Err(_) => Err(ZenithError::CompileFailed),
    }
}

/// Relies on `wasmtime::Linker::new`, `wasmtime_wasi::p1::add_to_linker_sync`,
/// `wasmtime_wasi::WasiCtxBuilder` and `wasmtime::Linker::instantiate`:
/// builds a fresh instance of the module whose only capabilities are the
/// WASI preview-one functions over inherited standard input and output.
/// Instantiation runs the module's start section, so it can fail or trap.
#[verifier::external_body]
fn instantiate(engine: &wasmtime::Engine, module: &wasmtime::Module) -> (r: Result<
    VmSession,
    ZenithError,
>)
    ensures
        r matches Err(e) ==> e == ZenithError::ExecutionFailed,
{
    let mut linker: wasmtime::Linker<wasmtime_wasi::p1::WasiP1Ctx> = wasmtime::Linker::new(engine);
    if wasmtime_wasi::p1::add_to_linker_sync(&mut linker, |t| t).is_err() {
        return Err(ZenithError::ExecutionFailed);
    }
    let wasi = wasmtime_wasi::WasiCtxBuilder::new().inherit_stdio().build_p1();
    let mut store = wasmtime::Store::new(engine, wasi);
    match linker.instantiate(&mut store, module) {
        Ok(instance) => Ok(VmSession { store, instance }),
        Err(_) => Err(ZenithError::ExecutionFailed),
    }
}

/// Relies on `wasmtime::Instance::get_func` and `wasmtime::Func::call`:
/// invokes the named export with the given integer arguments and one
/// integer result slot. A missing export, an arity or type mismatch, and
/// a runtime trap all fail the call; on success the one result is handed
/// back.
#[verifier::external_body]
fn call_export(session: &mut VmSession, function_name: &str, args: &[i64]) -> (r: Result<
    Vec<i64>,
    ZenithError,
>)
    ensures
        r matches Ok(v) ==> v@.len() == 1,
        r matches Err(e) ==> e == ZenithError::ExecutionFailed,
{
    let func = match session.instance.get_func(&mut session.store, function_name) {
        Some(f) => f,
        None => return Err(ZenithError::ExecutionFailed),
    };
    let params: Vec<wasmtime::Val> = args.iter().map(|&v| wasmtime::Val::I64(v)).collect();
    let mut results = vec![wasmtime::Val::I64(0)];
    if func.call(&mut session.store, &params, &mut results).is_err() {
        return Err(ZenithError::ExecutionFailed);
    }
    Ok(results.iter().map(|v| if let wasmtime::Val::I64(i) = v { *i } else { 0 }).collect())
}

/// The names a compiled module exports, in the module's order: a fixed
/// function of the module alone.
pub uninterp spec fn exports_of(m: wasmtime::Module) -> Seq<Seq<char>>;

/// Relies on `wasmtime::Module::exports`: the names of the module's
/// exports, in the module's order. The list depends on the compiled
/// module alone.
#[verifier::external_body]
fn export_names(module: &wasmtime::Module) -> (r: Vec<String>)
    ensures
        r.deep_view() == exports_of(*module),
{
    module.exports().map(|e| e.name().to_string()).collect()
}

/// A loaded module, ready to be instantiated per invocation. The ghost
/// `source` records the bytes the module was compiled from.
pub struct VM {
    engine: wasmtime::Engine,
    module: wasmtime::Module,
    source: Ghost<Seq<u8>>,
}

impl VM {
    /// The compiled module this VM wraps.
    pub closed spec fn spec_module(&self) -> wasmtime::Module {
        self.module
    }

    /// The bytes this VM's module was compiled from.
    pub closed spec fn source(&self) -> Seq<u8> {
        self.source@
    }

    /// Compile a binary module into a fresh VM: succeeds exactly when the
    /// bytes compile, and the VM remembers its source.
    pub fn from_bytes(wasm: &[u8]) -> (r: Result<VM, ZenithError>)
        ensures
            r is Ok <==> compiles_of(wasm@),
            r matches Ok(vm) ==> vm.source() == wasm@,
            r matches Err(e) ==> e == ZenithError::CompileFailed,
    {
        let engine = new_wasm_engine();
        match compile_module(&engine, wasm) {
            Ok(module) => Ok(VM { engine, module, source: Ghost(wasm@) }),
            Err(e) => Err(e),
        }
    }

    /// Execute the named export with integer arguments on a fresh,
    /// isolated instance. On success exactly one result comes back.
    pub fn execute(&self, function_name: &str, args: &[i64]) -> (r: Result<Vec<i64>, ZenithError>)
        ensures
            r matches Ok(v) ==> v@.len() == 1,
            r matches Err(e) ==> e == ZenithError::ExecutionFailed,
    {
        let mut session = match instantiate(&self.engine, &self.module) {
            Ok(s) => s,
            Err(e) => {
                return Err(e);
            },
        };
        call_export(&mut session, function_name, args)
    }

    /// The names of the module's exports, in the module's order.
    pub fn get_exports(&self) -> (r: Vec<String>)
        ensures
            r.deep_view() == exports_of(self.spec_module()),
    {
        export_names(&self.module)
    }
}

} // verus!
