//! The execution engine: builds the deterministic sandbox around a
//! module, links the ABI, runs an exported function, and surfaces the
//! remaining gas or a typed failure.

use vstd::prelude::*;
use vstd::string::StringSliceAdditionalSpecFns;

use crate::env::{get_remaining_points_for_env, Env, InstanceHandles};
use crate::errors::VmError;
use crate::settings::Settings;
use crate::strings::{alloc_guest_string, read_guest_string};
use crate::types::{Interface, Response};
use crate::vm::{
    budget_of, call_guest, compiles_of, get_export_function, has_export, instantiate,
    make_function_env,
    compile_fresh, instance_src, memory_maxs_of, memory_mins_of, metered, module_exports,
    new_imports, new_metered_store,
    read_gas, register_abort, register_call, register_create_sc, register_generate_event,
    register_append_data, register_delete_data, register_get_balance, register_get_balance_for,
    register_get_call_coins, register_get_data, register_get_data_for, register_get_remaining_gas,
    register_get_time, register_has_data, register_print, register_set_data,
    register_address_from_public_key, register_append_data_for, register_delete_data_for,
    register_get_call_stack, register_get_call_stack_raw, register_get_current_period,
    register_get_current_thread, register_get_owned_addresses, register_get_owned_addresses_raw,
    register_has_data_for, register_hash, register_set_bytecode, register_set_bytecode_for,
    register_send_message, register_set_data_for, register_signature_verify,
    register_transfer_coins, register_transfer_coins_for, register_unsafe_random, sid_store,
    store_budget, store_handle, store_id, store_of_function, store_of_instance, store_of_memory,
    value_as_i32, GasState,
};
use wasmer::{Function, Instance, Memory, Store};

verus! {

/// The conventional entry's name, as bytes.
pub open spec fn spec_main_name() -> Seq<u8> {
    seq![109u8, 97u8, 105u8, 110u8]
}

/// Whether a function name is the conventional entry `main`.
pub open spec fn spec_is_main(s: &str) -> bool {
    s.spec_bytes() == spec_main_name()
}

/// Decides whether `s` names the conventional entry `main`.
pub fn is_main(s: &str) -> (r: bool)
    ensures
        r == spec_is_main(s),
{
    let b = s.as_bytes();
    if b.len() != 4 {
        proof {
            assert(s.spec_bytes() != spec_main_name());
        }
        return false;
    }
    let r = b[0] == 109 && b[1] == 97 && b[2] == 105 && b[3] == 110;
    proof {
        if r {
            assert(s.spec_bytes() =~= spec_main_name());
        } else {
            assert(s.spec_bytes() != spec_main_name());
        }
    }
    r
}

/// One invocation's sandbox: the store holding the metering state, the
/// instantiated module, and its memory and allocator exports. A sandbox
/// can only be built around a metered instance, so every holder may
/// rely on that.
pub struct Sandbox {
    store: Store,
    instance: Instance,
    memory: Memory,
    alloc: Function,
}

impl Sandbox {
    /// The instance of every sandbox carries the metering globals, and
    /// the instance, memory and allocator all live in the sandbox's own
    /// store.
    #[verifier::type_invariant]
    pub closed spec fn well_formed(self) -> bool {
        metered(self.instance) && store_of_instance(self.instance) == sid_store(self.store)
            && store_of_memory(self.memory) == sid_store(self.store) && store_of_function(
            self.alloc,
        ) == sid_store(self.store)
    }

    /// The gas budget this sandbox's engine was built with.
    pub closed spec fn spec_budget(self) -> u64 {
        store_budget(self.store)
    }

    /// The bytes this sandbox's module was compiled from.
    pub closed spec fn spec_src(self) -> Seq<u8> {
        instance_src(self.instance)
    }
}

/// The bound a successful invocation's remaining gas must respect: a
/// handed-in sandbox's own budget, or `limit` for a fresh one.
pub open spec fn spec_exec_budget(sandbox: Option<Sandbox>, limit: u64) -> u64 {
    match sandbox {
        Some(sb) => sb.spec_budget(),
        None => limit,
    }
}

/// Every declared memory bound respects the page cap: each minimum is
/// at or under it, and each maximum is declared and at or under it.
pub open spec fn spec_cap_ok(mins: Seq<u64>, maxs: Seq<Option<u64>>, cap: u64) -> bool {
    (forall|i: int| 0 <= i < mins.len() ==> mins[i] <= cap) && (forall|i: int|
        0 <= i < maxs.len() ==> (#[trigger] maxs[i] matches Some(m) && m <= cap))
}

/// Decides whether a module's declared memory bounds respect the page
/// cap. A module that declares no maximum is refused: without a
/// declared maximum at or under the cap, nothing would stop its memory
/// from growing past the cap.
pub fn page_cap_ok(mins: &Vec<u64>, maxs: &Vec<Option<u64>>, cap: u64) -> (ok: bool)
    ensures
        ok == spec_cap_ok(mins@, maxs@, cap),
{
    let mut i: usize = 0;
    while i < mins.len()
        invariant
            i <= mins@.len(),
            forall|j: int| 0 <= j < i ==> mins@[j] <= cap,
        decreases mins@.len() - i,
    {
        if mins[i] > cap {
            proof {
                assert(!(mins@[i as int] <= cap));
            }
            return false;
        }
        i = i + 1;
    }
    let mut k: usize = 0;
    while k < maxs.len()
        invariant
            k <= maxs@.len(),
            forall|j: int| 0 <= j < k ==> (#[trigger] maxs@[j] matches Some(m) && m <= cap),
        decreases maxs@.len() - k,
    {
        match maxs[k] {
            Some(m) => {
                if m > cap {
                    proof {
                        assert(!(maxs@[k as int] matches Some(m) && m <= cap));
                    }
                    return false;
                }
            },
            None => {
                proof {
                    assert(!(maxs@[k as int] matches Some(m) && m <= cap));
                }
                return false;
            },
        }
        k = k + 1;
    }
    true
}

/// Registers the ABI catalogue under the two import namespaces every
/// contract expects: `env` for the AssemblyScript abort, and `massa` for
/// the host functions.
fn register_abis<I: Interface>(
    store: &mut wasmer::StoreMut,
    fenv: &wasmer::FunctionEnv<Env<I>>,
    imports: &mut wasmer::Imports,
)
    ensures
        store_id(*final(store)) == store_id(*old(store)),
        budget_of(*final(store)) == budget_of(*old(store)),
{
    register_abort(store, fenv, imports);
    register_print(store, fenv, imports);
    register_call(store, fenv, imports);
    register_get_remaining_gas(store, fenv, imports);
    register_create_sc(store, fenv, imports);
    register_set_data(store, fenv, imports);
    register_get_data(store, fenv, imports);
    register_set_data_for(store, fenv, imports);
    register_get_data_for(store, fenv, imports);
    register_generate_event(store, fenv, imports);
    register_has_data(store, fenv, imports);
    register_delete_data(store, fenv, imports);
    register_append_data(store, fenv, imports);
    register_transfer_coins(store, fenv, imports);
    register_get_balance(store, fenv, imports);
    register_get_balance_for(store, fenv, imports);
    register_get_call_coins(store, fenv, imports);
    register_get_time(store, fenv, imports);
    register_unsafe_random(store, fenv, imports);
    register_has_data_for(store, fenv, imports);
    register_delete_data_for(store, fenv, imports);
    register_append_data_for(store, fenv, imports);
    register_transfer_coins_for(store, fenv, imports);
    register_hash(store, fenv, imports);
    register_signature_verify(store, fenv, imports);
    register_address_from_public_key(store, fenv, imports);
    register_get_owned_addresses(store, fenv, imports);
    register_get_owned_addresses_raw(store, fenv, imports);
    register_get_call_stack(store, fenv, imports);
    register_get_call_stack_raw(store, fenv, imports);
    register_set_bytecode(store, fenv, imports);
    register_set_bytecode_for(store, fenv, imports);
    register_get_current_period(store, fenv, imports);
    register_get_current_thread(store, fenv, imports);
    register_send_message(store, fenv, imports);
}

/// Builds a sandbox around a module: a deterministic single-pass engine
/// metering every operator against `limit`, a check of every declared
/// memory bound against the page cap, the ABI linked under its two
/// namespaces, and the memory, allocator and metering handles published
/// to the environment every host function sees.
///
/// A module the deterministic profile cannot compile fails with a
/// `CompilationError` and nothing else does; one whose declared memory
/// bounds break the page cap fails with `PageCapExceeded`, so a sandbox
/// only ever exists within the cap.
pub fn create_instance<I: Interface>(
    limit: u64,
    module: &[u8],
    interface: &I,
    settings: &Settings,
) -> (r: Result<Sandbox, VmError>)
    ensures
        r matches Err(e) ==> !(e is GasExhausted),
        (r matches Err(e) && e is CompilationError) <==> !compiles_of(module@),
        r is Ok ==> spec_cap_ok(
            memory_mins_of(module@),
            memory_maxs_of(module@),
            settings.max_pages,
        ),
        (r matches Err(e) && e is PageCapExceeded) <==> (compiles_of(module@) && !spec_cap_ok(
            memory_mins_of(module@),
            memory_maxs_of(module@),
            settings.max_pages,
        )),
        r matches Ok(sb) ==> sb.spec_budget() == limit && sb.spec_src() == module@,
{
    let fresh = new_metered_store(limit);
    let (mut store, compiled, mins, maxs) = match compile_fresh(fresh, module) {
        Ok(t) => t,
        Err(e) => {
            return Err(VmError::CompilationError(e));
        },
    };
    if !page_cap_ok(&mins, &maxs, settings.max_pages) {
        return Err(VmError::PageCapExceeded);
    }
    let mut h = store_handle(&mut store);
    let env = Env::new(interface.clone(), *settings);
    let fenv = make_function_env(&mut h, env);
    let mut imports = new_imports();
    register_abis(&mut h, &fenv, &mut imports);
    let (instance, memory, alloc) = match instantiate(&mut h, &compiled, &imports, &fenv) {
        Ok(t) => t,
        Err(e) => {
            return Err(e);
        },
    };
    Ok(Sandbox { store, instance, memory, alloc })
}

/// Runs the named export with `param` and shapes its outcome: the
/// conventional entry always yields `"0"`, a function with no return
/// value yields the empty string, an i32 return is read back as a guest
/// string, and a return value that is no readable string offset is a
/// `ReturnTypeError`.
fn exec_inner(
    store: &mut Store,
    instance: &Instance,
    memory: &Memory,
    alloc: &Function,
    function: &str,
    param: &str,
) -> (r: Result<Response, VmError>)
    requires
        metered(*instance),
        store_of_instance(*instance) == sid_store(*old(store)),
        store_of_memory(*memory) == sid_store(*old(store)),
        store_of_function(*alloc) == sid_store(*old(store)),
    ensures
        spec_is_main(function) ==> (r matches Ok(resp) ==> resp.ret@ == "0"@),
        r matches Err(e) ==> !(e is GasExhausted) && !(e is CompilationError) && !(e
            is PageCapExceeded),
        *final(store) == *old(store),
        r matches Ok(resp) ==> resp.remaining_gas <= store_budget(*old(store)),
{
    let mut h = store_handle(store);
    let f = match get_export_function(instance, function) {
        Ok(f) => f,
        Err(e) => {
            return Err(VmError::ExportError(e));
        },
    };
    let param_ptr = match alloc_guest_string(&mut h, instance, memory, alloc, param) {
        Ok(p) => p,
        Err(e) => {
            return Err(e);
        },
    };
    let mut args: Vec<i32> = Vec::new();
    args.push(param_ptr);
    let values = match call_guest(&mut h, instance, &f, &args) {
        Ok(v) => v,
        Err(m) => {
            return Err(VmError::Trap(m));
        },
    };
    if is_main(function) {
        let remaining_gas = get_remaining_points_for_env(&mut h, instance);
        return Ok(Response { ret: "0".to_owned(), remaining_gas });
    }
    let outcome: Option<Option<i32>> = if values.len() == 0 {
        None
    } else {
        Some(value_as_i32(&values[0]))
    };
    let ret: String = match shape_return(&h, memory, outcome) {
        Ok(s) => s,
        Err(e) => {
            return Err(e);
        },
    };
    let remaining_gas = get_remaining_points_for_env(&mut h, instance);
    Ok(Response { ret, remaining_gas })
}

/// Shapes what the invoked function returned: no value at all is the
/// empty string, a value that is no i32 is a `ReturnTypeError`, and an
/// i32 is an offset whose guest string is read back, any failure of that
/// read a `ReturnTypeError` too.
pub fn shape_return(
    store: &wasmer::StoreMut,
    memory: &Memory,
    outcome: Option<Option<i32>>,
) -> (r: Result<String, VmError>)
    requires
        store_of_memory(*memory) == store_id(*store),
    ensures
        outcome is None ==> (r matches Ok(s) && s@ == Seq::<char>::empty()),
        (outcome matches Some(v) && v is None) ==> r == Err::<String, VmError>(
            VmError::ReturnTypeError,
        ),
        r matches Err(e) ==> e == VmError::ReturnTypeError,
{
    match outcome {
        None => Ok(String::new()),
        Some(None) => Err(VmError::ReturnTypeError),
        Some(Some(offset)) => {
            match read_guest_string(store, memory, offset) {
                Ok(s) => Ok(s),
                Err(_) => Err(VmError::ReturnTypeError),
            }
        },
    }
}

/// Runs `function` with `param` in a sandbox, building one when the
/// caller did not hand one in, and classifies a failure by the metering
/// state: an exhausted sandbox yields `GasExhausted` naming `function`,
/// any other failure is surfaced unchanged.
pub fn exec<I: Interface>(
    limit: u64,
    sandbox: Option<Sandbox>,
    module: &[u8],
    function: &str,
    param: &str,
    interface: &I,
    settings: &Settings,
) -> (r: Result<Response, VmError>)
    ensures
        r matches Err(VmError::GasExhausted(f)) ==> f@ == function@,
        spec_is_main(function) ==> (r matches Ok(resp) ==> resp.ret@ == "0"@),
        r matches Ok(resp) ==> resp.remaining_gas <= spec_exec_budget(sandbox, limit),
        sandbox is None ==> ((r matches Err(e) && e is CompilationError) <==> !compiles_of(
            module@,
        )),
        sandbox is None ==> ((r matches Err(e) && e is PageCapExceeded) <==> (compiles_of(module@)
            && !spec_cap_ok(
            memory_mins_of(module@),
            memory_maxs_of(module@),
            settings.max_pages,
        ))),
        sandbox is Some ==> (r matches Err(e) ==> !(e is CompilationError) && !(e
            is PageCapExceeded)),
{
    let sb = match sandbox {
        Some(s) => s,
        None => {
            match create_instance(limit, module, interface, settings) {
                Ok(s) => s,
                Err(e) => {
                    return Err(e);
                },
            }
        },
    };
    proof {
        use_type_invariant(&sb);
    }
    let Sandbox { store: sb_store, instance, memory, alloc } = sb;
    let mut store = sb_store;
    match exec_inner(&mut store, &instance, &memory, &alloc, function, param) {
        Ok(resp) => Ok(resp),
        Err(e) => {
            let mut h = store_handle(&mut store);
            match read_gas(&mut h, &instance) {
                GasState::Exhausted => Err(VmError::GasExhausted(function.to_owned())),
                GasState::Remaining(_) => Err(e),
            }
        },
    }
}

/// Runs the module's conventional entry with an empty argument and
/// yields the remaining gas; a module lacking the entry is not run and
/// the whole `limit` comes back.
pub fn run_main<I: Interface>(
    module: &[u8],
    limit: u64,
    interface: &I,
    settings: &Settings,
) -> (r: Result<u64, VmError>)
    ensures
        r matches Err(VmError::GasExhausted(f)) ==> f@ == "main"@,
        r matches Ok(g) ==> g <= limit,
        !module_exports(module@).contains("main"@) ==> (r matches Ok(g) ==> g == limit),
        (r matches Err(e) && e is CompilationError) <==> !compiles_of(module@),
        (r matches Err(e) && e is PageCapExceeded) <==> (compiles_of(module@) && !spec_cap_ok(
            memory_mins_of(module@),
            memory_maxs_of(module@),
            settings.max_pages,
        )),
{
    let sb = match create_instance(limit, module, interface, settings) {
        Ok(s) => s,
        Err(e) => {
            return Err(e);
        },
    };
    if has_export(&sb.instance, "main") {
        match exec(limit, Some(sb), module, "main", "", interface, settings) {
            Ok(resp) => Ok(resp.remaining_gas),
            Err(e) => Err(e),
        }
    } else {
        Ok(limit)
    }
}

/// Runs a named exported function with a caller-supplied string argument
/// and yields the remaining gas.
pub fn run_function<I: Interface>(
    module: &[u8],
    limit: u64,
    function: &str,
    param: &str,
    interface: &I,
    settings: &Settings,
) -> (r: Result<u64, VmError>)
    ensures
        r matches Err(VmError::GasExhausted(f)) ==> f@ == function@,
        r matches Ok(g) ==> g <= limit,
        (r matches Err(e) && e is CompilationError) <==> !compiles_of(module@),
        (r matches Err(e) && e is PageCapExceeded) <==> (compiles_of(module@) && !spec_cap_ok(
            memory_mins_of(module@),
            memory_maxs_of(module@),
            settings.max_pages,
        )),
{
    match exec(limit, None, module, function, param, interface, settings) {
        Ok(resp) => Ok(resp.remaining_gas),
        Err(e) => Err(e),
    }
}

} // verus!
