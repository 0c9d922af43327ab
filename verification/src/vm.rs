//! Trusted bindings to the wasmer runtime.
//!
//! Everything the library believes about wasmer is stated here: the
//! declarations of wasmer's types, the names given to values that only
//! wasmer computes, and the wrappers whose contracts Verus takes on
//! trust. Each wrapper's doc comment names the wasmer items relied on.

use vstd::prelude::*;

use crate::env::Env;
use crate::types::Interface;
use std::sync::Arc;
use wasmer::sys::{BaseTunables, CompilerConfig, EngineBuilder, Features, NativeEngineExt};
use wasmer::{
    Function, FunctionEnv, FunctionEnvMut, Imports, Instance, Memory, Module, Pages, RuntimeError,
    Store, StoreMut, Value,
};
use wasmer_compiler_singlepass::Singlepass;
use wasmer_middlewares::Metering;

verus! {

#[verifier::external_type_specification]
#[verifier::external_body]
pub struct ExStore(Store);

#[verifier::external_type_specification]
#[verifier::external_body]
pub struct ExStoreMut<'a>(StoreMut<'a>);

#[verifier::external_type_specification]
#[verifier::external_body]
pub struct ExInstance(Instance);

#[verifier::external_type_specification]
#[verifier::external_body]
pub struct ExModule(Module);

#[verifier::external_type_specification]
#[verifier::external_body]
pub struct ExMemory(Memory);

#[verifier::external_type_specification]
#[verifier::external_body]
pub struct ExFunction(Function);

#[verifier::external_type_specification]
#[verifier::external_body]
pub struct ExImports(Imports);

#[verifier::external_type_specification]
#[verifier::external_body]
pub struct ExValue(Value);

#[verifier::external_type_specification]
#[verifier::external_body]
pub struct ExRuntimeError(RuntimeError);

#[verifier::external_type_specification]
#[verifier::external_body]
pub struct ExOperator<'a>(wasmer::wasmparser::Operator<'a>);

#[verifier::external_type_specification]
#[verifier::external_body]
#[verifier::reject_recursive_types(T)]
pub struct ExFunctionEnv<T>(FunctionEnv<T>);

#[verifier::external_type_specification]
#[verifier::external_body]
#[verifier::reject_recursive_types(T)]
pub struct ExFunctionEnvMut<'a, T: 'a>(FunctionEnvMut<'a, T>);

/// The value of the metering middleware's remaining-points counter of
/// one instance: the counter is a global of the instance whose value
/// lives in the store, so it is keyed by the pair.
pub uninterp spec fn gas_of(s: StoreMut, i: Instance) -> u64;

/// Whether the metering middleware's exhausted flag of one instance is
/// raised; keyed by the pair as the counter is.
pub uninterp spec fn exhausted_of(s: StoreMut, i: Instance) -> bool;

/// Whether an instance carries the metering middleware's two globals:
/// true of every instance this library builds, and what the metering
/// bindings demand, since wasmer's accessors panic without them.
pub uninterp spec fn metered(i: Instance) -> bool;

/// The identity of the store behind a handle. wasmer objects are tied
/// to the store they were created in and panic when used with another,
/// so every binding that pairs a handle with an object demands matching
/// identities. A store's identity never changes.
pub uninterp spec fn store_id(s: StoreMut) -> int;

/// The identity of an owned store; `store_handle` hands out handles
/// with the same identity.
pub uninterp spec fn sid_store(s: Store) -> int;

/// The identity of the store an instance lives in.
pub uninterp spec fn store_of_instance(i: Instance) -> int;

/// The identity of the store a memory lives in.
pub uninterp spec fn store_of_memory(m: Memory) -> int;

/// The identity of the store a function lives in.
pub uninterp spec fn store_of_function(f: Function) -> int;

/// The gas budget a store's engine was built with: the metering
/// middleware's initial limit. It never changes; every counter the
/// middleware seeds starts there, and this library writes a counter
/// only at or under it.
pub uninterp spec fn budget_of(s: StoreMut) -> u64;

/// The gas budget of an owned store; `store_handle` hands out handles
/// with the same budget.
pub uninterp spec fn store_budget(s: Store) -> u64;

/// Whether wasmer's deterministic single-pass profile, the one every
/// engine of this library is built with, compiles a module: a function
/// of the bytes alone.
pub uninterp spec fn compiles_of(bytes: Seq<u8>) -> bool;

/// The declared minimum size, in pages, of each memory a compiled
/// module exports: a function of the bytes alone.
pub uninterp spec fn memory_mins_of(bytes: Seq<u8>) -> Seq<u64>;

/// The declared maximum size, in pages, of each memory a compiled
/// module exports, absent where the module declares none: a function of
/// the bytes alone.
pub uninterp spec fn memory_maxs_of(bytes: Seq<u8>) -> Seq<Option<u64>>;

/// The bytes a module was compiled from.
pub uninterp spec fn module_src(m: Module) -> Seq<u8>;

/// The bytes the module of an instance was compiled from.
pub uninterp spec fn instance_src(i: Instance) -> Seq<u8>;

/// The names a module compiled from these bytes exports: a function of
/// the bytes alone.
pub uninterp spec fn module_exports(bytes: Seq<u8>) -> Set<Seq<char>>;

/// What `str::encode_utf16` yields for a string: its UTF-16 code units.
pub uninterp spec fn utf16_of(s: Seq<char>) -> Seq<u16>;

/// What `String::from_utf16` yields for a sequence of UTF-16 code units:
/// the decoded characters, or nothing when the units are not well formed.
pub uninterp spec fn utf16_decode(units: Seq<u16>) -> Option<Seq<char>>;

/// What `base64::decode` yields for a string: the decoded bytes, or
/// nothing when the string is not valid base64.
pub uninterp spec fn b64_decoded(s: Seq<char>) -> Option<Seq<u8>>;

/// The metering state of a sandbox, as the middleware reports it.
pub enum GasState {
    /// The counter holds this many points and the exhausted flag is down.
    Remaining(u64),
    /// The exhausted flag is up.
    Exhausted,
}

/// A store no module has been compiled with yet. `new_metered_store`
/// makes one and `compile_fresh` consumes it: the metering middleware
/// panics when asked to transform a second module, so by construction a
/// store compiles exactly once.
pub(crate) struct FreshStore {
    s: Store,
}

impl FreshStore {
    /// The store inside.
    pub(crate) closed spec fn store(self) -> Store {
        self.s
    }
}

/// Relies on wasmer_compiler_singlepass::Singlepass, wasmer::sys::{EngineBuilder,
/// Features, BaseTunables, NativeEngineExt} and wasmer_middlewares::Metering:
/// builds a fresh store whose engine compiles with the deterministic
/// single-pass profile (NaN canonicalisation on; threads, SIMD,
/// multi-value and reference types off), meters every operator at cost
/// 1 against an initial budget of `limit`, and lays memories out
/// dynamically so a sandbox reserves no more address space than its
/// pages need.
#[verifier::external_body]
pub(crate) fn new_metered_store(limit: u64) -> (r: FreshStore)
    ensures
        store_budget(r.store()) == limit,
{
    let mut compiler = Singlepass::new();
    compiler.canonicalize_nans(true);
    CompilerConfig::push_middleware(&mut compiler, Arc::new(Metering::new(limit, op_cost)));
    let mut features = Features::new();
    features.threads(false).simd(false).multi_value(false).reference_types(false);
    let mut engine: wasmer::Engine =
        EngineBuilder::new(compiler).set_features(Some(features)).engine().into();
    let tunables = BaseTunables {
        static_memory_bound: Pages(0),
        static_memory_offset_guard_size: 0x1_0000,
        dynamic_memory_offset_guard_size: 0x1_0000,
    };
    NativeEngineExt::set_tunables(&mut engine, tunables);
    FreshStore { s: Store::new(engine) }
}

/// Relies on wasmer::Module::new and wasmer::Module::exports: compiles
/// the bytes with the fresh store's engine, failing on invalid or
/// unsupported WebAssembly, and reads the declared bounds of every
/// exported memory. Consuming the fresh store makes a second compile
/// unwritable. Every engine of this library carries the same profile,
/// so success and the bounds are functions of the bytes alone.
#[verifier::external_body]
pub(crate) fn compile_fresh(fs: FreshStore, bytes: &[u8]) -> (r: Result<
    (Store, Module, Vec<u64>, Vec<Option<u64>>),
    String,
>)
    ensures
        r is Ok <==> compiles_of(bytes@),
        r matches Ok(t) ==> t.0 == fs.store() && module_src(t.1) == bytes@ && t.2@
            == memory_mins_of(bytes@) && t.3@ == memory_maxs_of(bytes@),
{
    let module = match Module::new(&fs.s, bytes) {
        Ok(m) => m,
        Err(e) => return Err(e.to_string()),
    };
    let mins = module.exports().memories().map(|e| e.ty().minimum.0 as u64).collect();
    let maxs = module.exports().memories().map(|e| e.ty().maximum.map(|p| p.0 as u64)).collect();
    Ok((fs.s, module, mins, maxs))
}

/// The metering cost of one WebAssembly operator: always 1.
pub fn op_cost(op: &wasmer::wasmparser::Operator) -> (r: u64)
    ensures
        r == 1u64,
{
    let _ = op;
    1
}

/// Relies on wasmer::Store::as_store_mut: hands out the mutable handle
/// that every other binding works through, leaving the store itself
/// untouched. The handle carries the store's identity and budget, and
/// every counter of the store's own metered instances sits at or under
/// the budget: the middleware seeds each counter there, its injected
/// code only subtracts, and `write_gas` refuses a larger value.
#[verifier::external_body]
pub(crate) fn store_handle<'a>(store: &'a mut Store) -> (r: StoreMut<'a>)
    ensures
        *final(store) == *old(store),
        store_id(r) == sid_store(*old(store)),
        budget_of(r) == store_budget(*old(store)),
        forall|i: Instance|
            metered(i) && store_of_instance(i) == store_id(r) ==> gas_of(r, i) <= budget_of(r),
{
    wasmer::AsStoreMut::as_store_mut(store)
}

/// Relies on wasmer::Instance::new, wasmer::Exports::{get_memory,
/// get_function} and wasmer::FunctionEnv::as_mut: links the module's
/// imports against `imports`, runs its start section, reads the
/// `memory` and `__new` exports, and publishes them to the environment
/// every host function sees. Every store of this library carries the
/// metering middleware, so the instance carries the two metering
/// globals, seeded with the engine's budget less whatever the start
/// section consumed. The new objects live in this store. The
/// environment must be the one this store holds; the pairing has no
/// expressible name here because the environment type is generic, and
/// the one caller builds both from one handle.
#[verifier::external_body]
pub(crate) fn instantiate<I: Interface>(
    store: &mut StoreMut,
    module: &Module,
    imports: &Imports,
    fenv: &FunctionEnv<Env<I>>,
) -> (r: Result<(Instance, Memory, Function), crate::errors::VmError>)
    ensures
        store_id(*final(store)) == store_id(*old(store)),
        budget_of(*final(store)) == budget_of(*old(store)),
        r matches Ok(t) ==> metered(t.0) && instance_src(t.0) == module_src(*module)
            && store_of_instance(t.0) == store_id(*old(store)) && store_of_memory(t.1) == store_id(
            *old(store),
        ) && store_of_function(t.2) == store_id(*old(store)) && gas_of(*final(store), t.0)
            <= budget_of(*old(store)),
        r matches Err(e) ==> e is InstantiationError || e is ExportError,
{
    let instance = Instance::new(store, module, imports)
        .map_err(|e| crate::errors::VmError::InstantiationError(e.to_string()))?;
    let memory = instance.exports.get_memory("memory")
        .map_err(|e| crate::errors::VmError::ExportError(e.to_string()))?.clone();
    let alloc = instance.exports.get_function("__new")
        .map_err(|e| crate::errors::VmError::ExportError(e.to_string()))?.clone();
    let handles = crate::env::InstanceHandles::new(instance.clone(), memory.clone(), alloc.clone());
    fenv.as_mut(store).handles.inner = Some(handles);
    Ok((instance, memory, alloc))
}

/// Relies on wasmer::Imports::new: an empty import set.
#[verifier::external_body]
pub(crate) fn new_imports() -> Imports {
    Imports::new()
}

/// Relies on wasmer::FunctionEnv::new: moves the environment into the
/// store and hands back the handle that host functions receive it by,
/// leaving identity and budget as they were.
#[verifier::external_body]
pub(crate) fn make_function_env<I: Interface>(
    store: &mut StoreMut,
    data: Env<I>,
) -> (r: FunctionEnv<Env<I>>)
    ensures
        store_id(*final(store)) == store_id(*old(store)),
        budget_of(*final(store)) == budget_of(*old(store)),
{
    FunctionEnv::new(store, data)
}

/// Relies on wasmer::FunctionEnvMut::data_and_store_mut: splits a host
/// function's context into the environment and the store handle. The
/// handles the environment carries, written only by `instantiate`, are
/// this store's own exports; their counter starts at the store's budget
/// and only this library's budget-capped writes and the middleware's
/// subtractions have touched it.
#[verifier::external_body]
pub(crate) fn ctx_parts<'a, 'b, I: Interface>(
    ctx: &'a mut FunctionEnvMut<'b, Env<I>>,
) -> (r: (&'a Env<I>, StoreMut<'a>))
    ensures
        r.0.spec_handles() matches Some(h) ==> metered(h.spec_instance()) && store_of_instance(
            h.spec_instance(),
        ) == store_id(r.1) && gas_of(r.1, h.spec_instance()) <= budget_of(r.1),
{
    let (data, store) = ctx.data_and_store_mut();
    (&*data, store)
}

/// Relies on wasmer_middlewares::metering::get_remaining_points, which
/// reads the instance's two metering globals and changes nothing. It
/// panics on an instance without them, and wasmer panics on an instance
/// of another store, so a metered instance of this store is demanded.
#[verifier::external_body]
pub(crate) fn read_gas(store: &mut StoreMut, instance: &Instance) -> (r: GasState)
    requires
        metered(*instance),
        store_of_instance(*instance) == store_id(*old(store)),
    ensures
        *final(store) == *old(store),
        r == (if exhausted_of(*old(store), *instance) {
            GasState::Exhausted
        } else {
            GasState::Remaining(gas_of(*old(store), *instance))
        }),
{
    match wasmer_middlewares::metering::get_remaining_points(store, instance) {
        wasmer_middlewares::metering::MeteringPoints::Remaining(p) => GasState::Remaining(p),
        wasmer_middlewares::metering::MeteringPoints::Exhausted => GasState::Exhausted,
    }
}

/// Relies on wasmer_middlewares::metering::set_remaining_points, which
/// sets the instance's remaining-points global to `points` and lowers
/// its exhausted flag. It panics on an instance without the globals,
/// and wasmer panics on an instance of another store, so a metered
/// instance of this store is demanded; a value above the store's budget
/// is refused so that no counter ever exceeds it.
#[verifier::external_body]
pub(crate) fn write_gas(store: &mut StoreMut, instance: &Instance, points: u64)
    requires
        metered(*instance),
        store_of_instance(*instance) == store_id(*old(store)),
        points <= budget_of(*old(store)),
    ensures
        gas_of(*final(store), *instance) == points,
        !exhausted_of(*final(store), *instance),
        store_id(*final(store)) == store_id(*old(store)),
        budget_of(*final(store)) == budget_of(*old(store)),
{
    wasmer_middlewares::metering::set_remaining_points(store, instance, points);
}

/// Relies on wasmer::MemoryView::read: fills a buffer of `len` bytes
/// from the memory at `offset`, failing when the range is out of bounds.
/// Reads change no metering state. wasmer panics on a memory of another
/// store, so this store's memory is demanded.
#[verifier::external_body]
pub(crate) fn mem_read(
    store: &StoreMut,
    memory: &Memory,
    offset: u64,
    len: u32,
) -> (r: Result<Vec<u8>, String>)
    requires
        store_of_memory(*memory) == store_id(*store),
    ensures
        r matches Ok(b) ==> b@.len() == len,
{
    let mut buf: Vec<u8> = vec![0u8; len as usize];
    match memory.view(store).read(offset, &mut buf) {
        Ok(()) => Ok(buf),
        Err(e) => Err(e.to_string()),
    }
}

/// Relies on wasmer::MemoryView::write: copies `bytes` into the memory
/// at `offset`, failing when the range is out of bounds. Writes change
/// no metering state. wasmer panics on a memory of another store, so
/// this store's memory is demanded.
#[verifier::external_body]
pub(crate) fn mem_write(
    store: &StoreMut,
    memory: &Memory,
    offset: u64,
    bytes: &[u8],
) -> Result<(), String>
    requires
        store_of_memory(*memory) == store_id(*store),
{
    memory.view(store).write(offset, bytes).map_err(|e| e.to_string())
}

/// Relies on wasmer::Exports::get_function: the export under `name`,
/// when it is a function; an instance's exports live in its own store.
#[verifier::external_body]
pub(crate) fn get_export_function(instance: &Instance, name: &str) -> (r: Result<Function, String>)
    ensures
        r matches Ok(f) ==> store_of_function(f) == store_of_instance(*instance),
{
    match instance.exports.get_function(name) {
        Ok(f) => Ok(f.clone()),
        Err(e) => Err(e.to_string()),
    }
}

/// Relies on wasmer::Exports::get_memory: the export under `name`, when
/// it is a memory; an instance's exports live in its own store.
#[verifier::external_body]
pub(crate) fn get_export_memory(instance: &Instance, name: &str) -> (r: Result<Memory, String>)
    ensures
        r matches Ok(m) ==> store_of_memory(m) == store_of_instance(*instance),
{
    match instance.exports.get_memory(name) {
        Ok(m) => Ok(m.clone()),
        Err(e) => Err(e.to_string()),
    }
}

/// Relies on wasmer::Exports::contains: whether the instance's module
/// exports `name`; the export set is fixed by the module's bytes.
#[verifier::external_body]
pub(crate) fn has_export(instance: &Instance, name: &str) -> (r: bool)
    ensures
        r == module_exports(instance_src(*instance)).contains(name@),
{
    instance.exports.contains(name)
}

/// Relies on wasmer::Function::call: runs the function with `args` as
/// i32 values. On a trap, the message is the trap's `Display` form,
/// which starts with `RuntimeError: `. The instance's counter never
/// rises across the call: the metering middleware's injected code only
/// subtracts, and every host function of this library only lowers a
/// counter or writes back a callee's remaining that was seeded from,
/// and capped at, the caller's. wasmer panics on a function of another
/// store, so this store's function is demanded; identity and budget
/// stay as they were.
#[verifier::external_body]
pub(crate) fn call_guest(
    store: &mut StoreMut,
    instance: &Instance,
    f: &Function,
    args: &Vec<i32>,
) -> (r: Result<Vec<Value>, String>)
    requires
        metered(*instance),
        store_of_instance(*instance) == store_id(*old(store)),
        store_of_function(*f) == store_id(*old(store)),
    ensures
        gas_of(*final(store), *instance) <= gas_of(*old(store), *instance),
        store_id(*final(store)) == store_id(*old(store)),
        budget_of(*final(store)) == budget_of(*old(store)),
{
    let _ = instance;
    let vals: Vec<Value> = args.iter().map(|x| Value::I32(*x)).collect();
    match f.call(store, &vals) {
        Ok(rets) => Ok(rets.into_vec()),
        Err(e) => Err(format!("{}", e)),
    }
}

/// Relies on wasmer::Value::i32: the payload when the value is an i32.
#[verifier::external_body]
pub(crate) fn value_as_i32(v: &Value) -> Option<i32> {
    v.i32()
}

/// Relies on wasmer::RuntimeError::new: a trap carrying `msg`, raised
/// out of a host function into the guest.
#[verifier::external_body]
pub(crate) fn make_runtime_error(msg: String) -> RuntimeError {
    RuntimeError::new(msg)
}

/// Relies on wasmer::Function::new_typed_with_env and wasmer::Imports::define:
/// registers this library's abort shim under `env.abort`. The engine
/// calls the shim with whatever i32s the guest passes, so the shim holds
/// no precondition.
#[verifier::external_body]
pub(crate) fn register_abort<I: Interface>(
    store: &mut StoreMut,
    fenv: &FunctionEnv<Env<I>>,
    imports: &mut Imports,
)
    ensures
        store_id(*final(store)) == store_id(*old(store)),
        budget_of(*final(store)) == budget_of(*old(store)),
{
    let f = Function::new_typed_with_env(store, fenv, crate::abi::host_abort::<I>);
    imports.define("env", "abort", f);
}

/// Relies on wasmer::Function::new_typed_with_env and wasmer::Imports::define:
/// registers one of this library's ABI shims, taking one i32 and
/// yielding nothing, under the host namespace. The engine calls the shim
/// with whatever i32s the guest passes, so the shim holds no
/// precondition.
#[verifier::external_body]
pub(crate) fn register_print<I: Interface>(
    store: &mut StoreMut,
    fenv: &FunctionEnv<Env<I>>,
    imports: &mut Imports,
)
    ensures
        store_id(*final(store)) == store_id(*old(store)),
        budget_of(*final(store)) == budget_of(*old(store)),
{
    let f = Function::new_typed_with_env(store, fenv, crate::abi::host_print::<I>);
    imports.define("massa", "assembly_script_print", f);
}

/// As `register_print`, for the event shim.
#[verifier::external_body]
pub(crate) fn register_generate_event<I: Interface>(
    store: &mut StoreMut,
    fenv: &FunctionEnv<Env<I>>,
    imports: &mut Imports,
)
    ensures
        store_id(*final(store)) == store_id(*old(store)),
        budget_of(*final(store)) == budget_of(*old(store)),
{
    let f = Function::new_typed_with_env(store, fenv, crate::abi::host_generate_event::<I>);
    imports.define("massa", "assembly_script_generate_event", f);
}

/// As `register_print`, for the nested-call shim (three i32 arguments,
/// one i32 result).
#[verifier::external_body]
pub(crate) fn register_call<I: Interface>(
    store: &mut StoreMut,
    fenv: &FunctionEnv<Env<I>>,
    imports: &mut Imports,
)
    ensures
        store_id(*final(store)) == store_id(*old(store)),
        budget_of(*final(store)) == budget_of(*old(store)),
{
    let f = Function::new_typed_with_env(store, fenv, crate::abi::host_call::<I>);
    imports.define("massa", "assembly_script_call", f);
}

/// As `register_print`, for the gas-introspection shim (no argument, one
/// i32 result).
#[verifier::external_body]
pub(crate) fn register_get_remaining_gas<I: Interface>(
    store: &mut StoreMut,
    fenv: &FunctionEnv<Env<I>>,
    imports: &mut Imports,
)
    ensures
        store_id(*final(store)) == store_id(*old(store)),
        budget_of(*final(store)) == budget_of(*old(store)),
{
    let f = Function::new_typed_with_env(store, fenv, crate::abi::host_get_remaining_gas::<I>);
    imports.define("massa", "assembly_script_get_remaining_gas", f);
}

/// As `register_print`, for the contract-creation shim (one i32
/// argument, one i32 result).
#[verifier::external_body]
pub(crate) fn register_create_sc<I: Interface>(
    store: &mut StoreMut,
    fenv: &FunctionEnv<Env<I>>,
    imports: &mut Imports,
)
    ensures
        store_id(*final(store)) == store_id(*old(store)),
        budget_of(*final(store)) == budget_of(*old(store)),
{
    let f = Function::new_typed_with_env(store, fenv, crate::abi::host_create_sc::<I>);
    imports.define("massa", "assembly_script_create_sc", f);
}

/// As `register_print`, for the ledger-write shim (two i32 arguments).
#[verifier::external_body]
pub(crate) fn register_set_data<I: Interface>(
    store: &mut StoreMut,
    fenv: &FunctionEnv<Env<I>>,
    imports: &mut Imports,
)
    ensures
        store_id(*final(store)) == store_id(*old(store)),
        budget_of(*final(store)) == budget_of(*old(store)),
{
    let f = Function::new_typed_with_env(store, fenv, crate::abi::host_set_data::<I>);
    imports.define("massa", "assembly_script_set_data", f);
}

/// As `register_print`, for the ledger-read shim (one i32 argument, one
/// i32 result).
#[verifier::external_body]
pub(crate) fn register_get_data<I: Interface>(
    store: &mut StoreMut,
    fenv: &FunctionEnv<Env<I>>,
    imports: &mut Imports,
)
    ensures
        store_id(*final(store)) == store_id(*old(store)),
        budget_of(*final(store)) == budget_of(*old(store)),
{
    let f = Function::new_typed_with_env(store, fenv, crate::abi::host_get_data::<I>);
    imports.define("massa", "assembly_script_get_data", f);
}

/// As `register_print`, for the foreign ledger-write shim (three i32
/// arguments).
#[verifier::external_body]
pub(crate) fn register_set_data_for<I: Interface>(
    store: &mut StoreMut,
    fenv: &FunctionEnv<Env<I>>,
    imports: &mut Imports,
)
    ensures
        store_id(*final(store)) == store_id(*old(store)),
        budget_of(*final(store)) == budget_of(*old(store)),
{
    let f = Function::new_typed_with_env(store, fenv, crate::abi::host_set_data_for::<I>);
    imports.define("massa", "assembly_script_set_data_for", f);
}

/// As `register_print`, for the foreign ledger-read shim (two i32
/// arguments, one i32 result).
#[verifier::external_body]
pub(crate) fn register_get_data_for<I: Interface>(
    store: &mut StoreMut,
    fenv: &FunctionEnv<Env<I>>,
    imports: &mut Imports,
)
    ensures
        store_id(*final(store)) == store_id(*old(store)),
        budget_of(*final(store)) == budget_of(*old(store)),
{
    let f = Function::new_typed_with_env(store, fenv, crate::abi::host_get_data_for::<I>);
    imports.define("massa", "assembly_script_get_data_for", f);
}

/// As `register_print`, for the ledger-presence shim (one i32 argument,
/// one i32 result).
#[verifier::external_body]
pub(crate) fn register_has_data<I: Interface>(
    store: &mut StoreMut,
    fenv: &FunctionEnv<Env<I>>,
    imports: &mut Imports,
)
    ensures
        store_id(*final(store)) == store_id(*old(store)),
        budget_of(*final(store)) == budget_of(*old(store)),
{
    let f = Function::new_typed_with_env(store, fenv, crate::abi::host_has_data::<I>);
    imports.define("massa", "assembly_script_has_data", f);
}

/// As `register_print`, for the ledger-delete shim (one i32 argument).
#[verifier::external_body]
pub(crate) fn register_delete_data<I: Interface>(
    store: &mut StoreMut,
    fenv: &FunctionEnv<Env<I>>,
    imports: &mut Imports,
)
    ensures
        store_id(*final(store)) == store_id(*old(store)),
        budget_of(*final(store)) == budget_of(*old(store)),
{
    let f = Function::new_typed_with_env(store, fenv, crate::abi::host_delete_data::<I>);
    imports.define("massa", "assembly_script_delete_data", f);
}

/// As `register_print`, for the ledger-append shim (two i32 arguments).
#[verifier::external_body]
pub(crate) fn register_append_data<I: Interface>(
    store: &mut StoreMut,
    fenv: &FunctionEnv<Env<I>>,
    imports: &mut Imports,
)
    ensures
        store_id(*final(store)) == store_id(*old(store)),
        budget_of(*final(store)) == budget_of(*old(store)),
{
    let f = Function::new_typed_with_env(store, fenv, crate::abi::host_append_data::<I>);
    imports.define("massa", "assembly_script_append_data", f);
}

/// As `register_print`, for the coin-transfer shim (one i32 and one i64
/// argument).
#[verifier::external_body]
pub(crate) fn register_transfer_coins<I: Interface>(
    store: &mut StoreMut,
    fenv: &FunctionEnv<Env<I>>,
    imports: &mut Imports,
)
    ensures
        store_id(*final(store)) == store_id(*old(store)),
        budget_of(*final(store)) == budget_of(*old(store)),
{
    let f = Function::new_typed_with_env(store, fenv, crate::abi::host_transfer_coins::<I>);
    imports.define("massa", "assembly_script_transfer_coins", f);
}

/// As `register_print`, for the balance shim (no argument, one i64
/// result).
#[verifier::external_body]
pub(crate) fn register_get_balance<I: Interface>(
    store: &mut StoreMut,
    fenv: &FunctionEnv<Env<I>>,
    imports: &mut Imports,
)
    ensures
        store_id(*final(store)) == store_id(*old(store)),
        budget_of(*final(store)) == budget_of(*old(store)),
{
    let f = Function::new_typed_with_env(store, fenv, crate::abi::host_get_balance::<I>);
    imports.define("massa", "assembly_script_get_balance", f);
}

/// As `register_print`, for the foreign balance shim (one i32 argument,
/// one i64 result).
#[verifier::external_body]
pub(crate) fn register_get_balance_for<I: Interface>(
    store: &mut StoreMut,
    fenv: &FunctionEnv<Env<I>>,
    imports: &mut Imports,
)
    ensures
        store_id(*final(store)) == store_id(*old(store)),
        budget_of(*final(store)) == budget_of(*old(store)),
{
    let f = Function::new_typed_with_env(store, fenv, crate::abi::host_get_balance_for::<I>);
    imports.define("massa", "assembly_script_get_balance_for", f);
}

/// As `register_print`, for the call-coins shim (no argument, one i64
/// result).
#[verifier::external_body]
pub(crate) fn register_get_call_coins<I: Interface>(
    store: &mut StoreMut,
    fenv: &FunctionEnv<Env<I>>,
    imports: &mut Imports,
)
    ensures
        store_id(*final(store)) == store_id(*old(store)),
        budget_of(*final(store)) == budget_of(*old(store)),
{
    let f = Function::new_typed_with_env(store, fenv, crate::abi::host_get_call_coins::<I>);
    imports.define("massa", "assembly_script_get_call_coins", f);
}

/// As `register_print`, for the time shim (no argument, one i64 result).
#[verifier::external_body]
pub(crate) fn register_get_time<I: Interface>(
    store: &mut StoreMut,
    fenv: &FunctionEnv<Env<I>>,
    imports: &mut Imports,
)
    ensures
        store_id(*final(store)) == store_id(*old(store)),
        budget_of(*final(store)) == budget_of(*old(store)),
{
    let f = Function::new_typed_with_env(store, fenv, crate::abi::host_get_time::<I>);
    imports.define("massa", "assembly_script_get_time", f);
}

/// As `register_print`, for the randomness shim (no argument, one i64
/// result).
#[verifier::external_body]
pub(crate) fn register_unsafe_random<I: Interface>(
    store: &mut StoreMut,
    fenv: &FunctionEnv<Env<I>>,
    imports: &mut Imports,
)
    ensures
        store_id(*final(store)) == store_id(*old(store)),
        budget_of(*final(store)) == budget_of(*old(store)),
{
    let f = Function::new_typed_with_env(store, fenv, crate::abi::host_unsafe_random::<I>);
    imports.define("massa", "assembly_script_unsafe_random", f);
}

/// As `register_print`, for the `has_data_for` shim.
#[verifier::external_body]
pub(crate) fn register_has_data_for<I: Interface>(
    store: &mut StoreMut,
    fenv: &FunctionEnv<Env<I>>,
    imports: &mut Imports,
)
    ensures
        store_id(*final(store)) == store_id(*old(store)),
        budget_of(*final(store)) == budget_of(*old(store)),
{
    let f = Function::new_typed_with_env(store, fenv, crate::abi::host_has_data_for::<I>);
    imports.define("massa", "assembly_script_has_data_for", f);
}

/// As `register_print`, for the `delete_data_for` shim.
#[verifier::external_body]
pub(crate) fn register_delete_data_for<I: Interface>(
    store: &mut StoreMut,
    fenv: &FunctionEnv<Env<I>>,
    imports: &mut Imports,
)
    ensures
        store_id(*final(store)) == store_id(*old(store)),
        budget_of(*final(store)) == budget_of(*old(store)),
{
    let f = Function::new_typed_with_env(store, fenv, crate::abi::host_delete_data_for::<I>);
    imports.define("massa", "assembly_script_delete_data_for", f);
}

/// As `register_print`, for the `append_data_for` shim.
#[verifier::external_body]
pub(crate) fn register_append_data_for<I: Interface>(
    store: &mut StoreMut,
    fenv: &FunctionEnv<Env<I>>,
    imports: &mut Imports,
)
    ensures
        store_id(*final(store)) == store_id(*old(store)),
        budget_of(*final(store)) == budget_of(*old(store)),
{
    let f = Function::new_typed_with_env(store, fenv, crate::abi::host_append_data_for::<I>);
    imports.define("massa", "assembly_script_append_data_for", f);
}

/// As `register_print`, for the `transfer_coins_for` shim.
#[verifier::external_body]
pub(crate) fn register_transfer_coins_for<I: Interface>(
    store: &mut StoreMut,
    fenv: &FunctionEnv<Env<I>>,
    imports: &mut Imports,
)
    ensures
        store_id(*final(store)) == store_id(*old(store)),
        budget_of(*final(store)) == budget_of(*old(store)),
{
    let f = Function::new_typed_with_env(store, fenv, crate::abi::host_transfer_coins_for::<I>);
    imports.define("massa", "assembly_script_transfer_coins_for", f);
}

/// As `register_print`, for the `hash` shim.
#[verifier::external_body]
pub(crate) fn register_hash<I: Interface>(
    store: &mut StoreMut,
    fenv: &FunctionEnv<Env<I>>,
    imports: &mut Imports,
)
    ensures
        store_id(*final(store)) == store_id(*old(store)),
        budget_of(*final(store)) == budget_of(*old(store)),
{
    let f = Function::new_typed_with_env(store, fenv, crate::abi::host_hash::<I>);
    imports.define("massa", "assembly_script_hash", f);
}

/// As `register_print`, for the `signature_verify` shim.
#[verifier::external_body]
pub(crate) fn register_signature_verify<I: Interface>(
    store: &mut StoreMut,
    fenv: &FunctionEnv<Env<I>>,
    imports: &mut Imports,
)
    ensures
        store_id(*final(store)) == store_id(*old(store)),
        budget_of(*final(store)) == budget_of(*old(store)),
{
    let f = Function::new_typed_with_env(store, fenv, crate::abi::host_signature_verify::<I>);
    imports.define("massa", "assembly_script_signature_verify", f);
}

/// As `register_print`, for the `address_from_public_key` shim.
#[verifier::external_body]
pub(crate) fn register_address_from_public_key<I: Interface>(
    store: &mut StoreMut,
    fenv: &FunctionEnv<Env<I>>,
    imports: &mut Imports,
)
    ensures
        store_id(*final(store)) == store_id(*old(store)),
        budget_of(*final(store)) == budget_of(*old(store)),
{
    let f = Function::new_typed_with_env(store, fenv, crate::abi::host_address_from_public_key::<I>);
    imports.define("massa", "assembly_script_address_from_public_key", f);
}

/// As `register_print`, for the `get_owned_addresses` shim.
#[verifier::external_body]
pub(crate) fn register_get_owned_addresses<I: Interface>(
    store: &mut StoreMut,
    fenv: &FunctionEnv<Env<I>>,
    imports: &mut Imports,
)
    ensures
        store_id(*final(store)) == store_id(*old(store)),
        budget_of(*final(store)) == budget_of(*old(store)),
{
    let f = Function::new_typed_with_env(store, fenv, crate::abi::host_get_owned_addresses::<I>);
    imports.define("massa", "assembly_script_get_owned_addresses", f);
}

/// As `register_print`, for the `get_owned_addresses_raw` shim.
#[verifier::external_body]
pub(crate) fn register_get_owned_addresses_raw<I: Interface>(
    store: &mut StoreMut,
    fenv: &FunctionEnv<Env<I>>,
    imports: &mut Imports,
)
    ensures
        store_id(*final(store)) == store_id(*old(store)),
        budget_of(*final(store)) == budget_of(*old(store)),
{
    let f = Function::new_typed_with_env(store, fenv, crate::abi::host_get_owned_addresses_raw::<I>);
    imports.define("massa", "assembly_script_get_owned_addresses_raw", f);
}

/// As `register_print`, for the `get_call_stack` shim.
#[verifier::external_body]
pub(crate) fn register_get_call_stack<I: Interface>(
    store: &mut StoreMut,
    fenv: &FunctionEnv<Env<I>>,
    imports: &mut Imports,
)
    ensures
        store_id(*final(store)) == store_id(*old(store)),
        budget_of(*final(store)) == budget_of(*old(store)),
{
    let f = Function::new_typed_with_env(store, fenv, crate::abi::host_get_call_stack::<I>);
    imports.define("massa", "assembly_script_get_call_stack", f);
}

/// As `register_print`, for the `get_call_stack_raw` shim.
#[verifier::external_body]
pub(crate) fn register_get_call_stack_raw<I: Interface>(
    store: &mut StoreMut,
    fenv: &FunctionEnv<Env<I>>,
    imports: &mut Imports,
)
    ensures
        store_id(*final(store)) == store_id(*old(store)),
        budget_of(*final(store)) == budget_of(*old(store)),
{
    let f = Function::new_typed_with_env(store, fenv, crate::abi::host_get_call_stack_raw::<I>);
    imports.define("massa", "assembly_script_get_call_stack_raw", f);
}

/// As `register_print`, for the `set_bytecode` shim.
#[verifier::external_body]
pub(crate) fn register_set_bytecode<I: Interface>(
    store: &mut StoreMut,
    fenv: &FunctionEnv<Env<I>>,
    imports: &mut Imports,
)
    ensures
        store_id(*final(store)) == store_id(*old(store)),
        budget_of(*final(store)) == budget_of(*old(store)),
{
    let f = Function::new_typed_with_env(store, fenv, crate::abi::host_set_bytecode::<I>);
    imports.define("massa", "assembly_script_set_bytecode", f);
}

/// As `register_print`, for the `set_bytecode_for` shim.
#[verifier::external_body]
pub(crate) fn register_set_bytecode_for<I: Interface>(
    store: &mut StoreMut,
    fenv: &FunctionEnv<Env<I>>,
    imports: &mut Imports,
)
    ensures
        store_id(*final(store)) == store_id(*old(store)),
        budget_of(*final(store)) == budget_of(*old(store)),
{
    let f = Function::new_typed_with_env(store, fenv, crate::abi::host_set_bytecode_for::<I>);
    imports.define("massa", "assembly_script_set_bytecode_for", f);
}

/// As `register_print`, for the `get_current_period` shim.
#[verifier::external_body]
pub(crate) fn register_get_current_period<I: Interface>(
    store: &mut StoreMut,
    fenv: &FunctionEnv<Env<I>>,
    imports: &mut Imports,
)
    ensures
        store_id(*final(store)) == store_id(*old(store)),
        budget_of(*final(store)) == budget_of(*old(store)),
{
    let f = Function::new_typed_with_env(store, fenv, crate::abi::host_get_current_period::<I>);
    imports.define("massa", "assembly_script_get_current_period", f);
}

/// As `register_print`, for the `get_current_thread` shim.
#[verifier::external_body]
pub(crate) fn register_get_current_thread<I: Interface>(
    store: &mut StoreMut,
    fenv: &FunctionEnv<Env<I>>,
    imports: &mut Imports,
)
    ensures
        store_id(*final(store)) == store_id(*old(store)),
        budget_of(*final(store)) == budget_of(*old(store)),
{
    let f = Function::new_typed_with_env(store, fenv, crate::abi::host_get_current_thread::<I>);
    imports.define("massa", "assembly_script_get_current_thread", f);
}

/// As `register_print`, for the deferred-message shim (string pointers
/// and i32/i64 scalars for the schedule, budget and coins).
#[verifier::external_body]
pub(crate) fn register_send_message<I: Interface>(
    store: &mut StoreMut,
    fenv: &FunctionEnv<Env<I>>,
    imports: &mut Imports,
)
    ensures
        store_id(*final(store)) == store_id(*old(store)),
        budget_of(*final(store)) == budget_of(*old(store)),
{
    let f = Function::new_typed_with_env(store, fenv, crate::abi::host_send_message::<I>);
    imports.define("massa", "assembly_script_send_message", f);
}

/// Relies on str::encode_utf16: the string's UTF-16 code units, a
/// function of its characters alone. An empty string has no units.
#[verifier::external_body]
pub(crate) fn utf16_units(s: &str) -> (r: Vec<u16>)
    ensures
        r@ == utf16_of(s@),
        s@.len() == 0 ==> r@.len() == 0,
{
    s.encode_utf16().collect()
}

/// Relies on String::from_utf16: decodes UTF-16 code units, failing on
/// ill-formed input, a function of the units alone.
#[verifier::external_body]
pub(crate) fn utf16_to_string(units: &[u16]) -> (r: Option<String>)
    ensures
        match r {
            Some(s) => utf16_decode(units@) == Some(s@),
            None => utf16_decode(units@) is None,
        },
{
    String::from_utf16(units).ok()
}

/// What `String::from_utf8` yields for a sequence of bytes: the decoded
/// characters, or nothing when the bytes are not valid UTF-8.
pub uninterp spec fn utf8_decode(bytes: Seq<u8>) -> Option<Seq<char>>;

/// Relies on String::from_utf8: decodes UTF-8 bytes, failing on invalid
/// sequences, a function of the bytes alone.
#[verifier::external_body]
pub(crate) fn bytes_to_string(bytes: &[u8]) -> (r: Option<String>)
    ensures
        match r {
            Some(s) => utf8_decode(bytes@) == Some(s@),
            None => utf8_decode(bytes@) is None,
        },
{
    String::from_utf8(bytes.to_vec()).ok()
}

/// Relies on base64::decode: decodes standard base64, failing on invalid
/// input, a function of the string alone.
#[verifier::external_body]
pub(crate) fn base64_decode_bytes(s: &str) -> (r: Option<Vec<u8>>)
    ensures
        match r {
            Some(b) => b64_decoded(s@) == Some(b@),
            None => b64_decoded(s@) is None,
        },
{
    base64::decode(s).ok()
}

} // verus!
