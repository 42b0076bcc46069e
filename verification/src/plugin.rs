//! The sandboxed extension capability: compile a binary WebAssembly
//! module image and instantiate it inside an isolated runtime with no
//! exports connected.
//!
//! All execution semantics are owned by the underlying runtime; this
//! library's part is single-call error propagation and remembering which
//! image a plugin was compiled from.

use vstd::prelude::*;

verus! {

/// The runtime's engine: compilation configuration and caches.
#[verifier::external_type_specification]
#[verifier::external_body]
pub struct ExEngine(wasmtime::Engine);

/// A compiled WebAssembly module.
#[verifier::external_type_specification]
#[verifier::external_body]
pub struct ExModule(wasmtime::Module);

/// The runtime's store: all instance state lives in it.
#[verifier::external_type_specification]
#[verifier::external_body]
#[verifier::reject_recursive_types(T)]
pub struct ExStore<T: 'static>(wasmtime::Store<T>);

/// An instantiated module handle, owned by its store.
#[verifier::external_type_specification]
#[verifier::external_body]
pub struct ExInstance(wasmtime::Instance);

/// The runtime's error value.
#[verifier::external_type_specification]
#[verifier::external_body]
pub struct ExWasmError(wasmtime::Error);

/// Why compiling or instantiating an extension failed, as the runtime
/// described it.
#[derive(Debug)]
pub struct PluginError {
    pub message: String,
}

/// Whether the engine accepts `wasm` as a valid binary module image:
/// exactly when compilation succeeds. Stating a WebAssembly validator
/// takes pages, so the outcome carries this name instead; with this
/// build's features (cranelift alone — no cache, no parallel
/// compilation) it is a function of the engine and the bytes.
pub uninterp spec fn engine_accepts(engine: wasmtime::Engine, wasm: Seq<u8>) -> bool;

/// Whether instantiating the module in the store, with an empty import
/// list, succeeds: the module must declare no imports, the store must
/// not be async-configured, and its start section must run to completion
/// within the store's limits. Stating those conditions takes pages, so
/// the outcome carries this name; it is read as a function of the store
/// and module as this library hands them over (a store whose installed
/// resource limiter consults outside state is beyond what the name can
/// claim, and beyond what a caller of this library can distinguish: no
/// two store values are ever provably equal here).
pub uninterp spec fn store_accepts(store: wasmtime::Store<()>, module: wasmtime::Module) -> bool;

/// Relies on wasmtime::Module::from_binary: compiles a binary-format
/// WebAssembly module for the given engine, succeeding exactly when the
/// engine accepts the image, and refusing anything that is not a valid
/// binary module (the text format included).
#[verifier::external_body]
fn compile_module(engine: &wasmtime::Engine, wasm: &[u8]) -> (r: Result<
    wasmtime::Module,
    wasmtime::Error,
>)
    ensures
        r is Ok == engine_accepts(*engine, wasm@),
{
    wasmtime::Module::from_binary(engine, wasm)
}

/// Relies on wasmtime::Instance::new: instantiates the module in the
/// store with an empty import list, so no exports are connected,
/// succeeding exactly when the store accepts the module. With no imports
/// supplied, the documented panic on an import foreign to the store
/// cannot arise.
#[verifier::external_body]
fn instantiate_module(store: &mut wasmtime::Store<()>, module: &wasmtime::Module) -> (r: Result<
    wasmtime::Instance,
    wasmtime::Error,
>)
    ensures
        r is Ok == store_accepts(*old(store), *module),
{
    wasmtime::Instance::new(store, module, &[])
}

/// Relies on the Display impl of wasmtime::Error for a human-readable
/// description of the failure.
#[verifier::external_body]
fn describe_error(err: &wasmtime::Error) -> (r: String) {
    format!("{err}")
}

/// A loadable extension: a module compiled from a binary image.
pub struct WasmPlugin {
    pub module: wasmtime::Module,
    /// The binary image the module was compiled from.
    pub image: Ghost<Seq<u8>>,
}

impl WasmPlugin {
    /// Compile `wasm` for `engine`. Succeeds exactly when the engine
    /// accepts the image as a valid binary module; a plugin that comes
    /// back was compiled from exactly the given image, and a failure
    /// carries the runtime's description and creates nothing.
    pub fn new(engine: &wasmtime::Engine, wasm: &[u8]) -> (r: Result<WasmPlugin, PluginError>)
        ensures
            r is Ok == engine_accepts(*engine, wasm@),
            r matches Ok(p) ==> p.image@ == wasm@,
    {
        match compile_module(engine, wasm) {
            Ok(module) => Ok(WasmPlugin { module, image: Ghost(wasm@) }),
            Err(err) => Err(PluginError { message: describe_error(&err) }),
        }
    }

    /// Instantiate the compiled module inside `store` with no imports
    /// and no exports connected; the instance's semantics are the
    /// runtime's. Succeeds exactly when the store accepts the module;
    /// a failure carries the runtime's description. The plugin itself is
    /// unchanged and may be instantiated again, into this store or
    /// another.
    pub fn instantiate(&self, store: &mut wasmtime::Store<()>) -> (r: Result<
        wasmtime::Instance,
        PluginError,
    >)
        ensures
            r is Ok == store_accepts(*old(store), self.module),
    {
        match instantiate_module(store, &self.module) {
            Ok(instance) => Ok(instance),
            Err(err) => Err(PluginError { message: describe_error(&err) }),
        }
    }
}

} // verus!
