//! The catalogue of host functions imported by every contract.
//!
//! Every ABI function obeys one prologue: it deducts its bucket's gas
//! price before any work, fails when the sandbox's handles were never
//! published, reads its string arguments from the sandbox's memory, and
//! only then delegates to the host interface. A failure at any step
//! becomes a trap and no later step runs.

use vstd::prelude::*;
use vstd::string::StringExecFns;

use crate::env::{sub_remaining_points, get_remaining_points_for_env, Env, InstanceHandles};
use crate::errors::VmError;
use crate::execution::exec;
use crate::strings::{alloc_guest_string, read_guest_string};
use crate::types::{Interface, Response};
use crate::vm::{
    budget_of, ctx_parts, exhausted_of, gas_of, make_runtime_error, metered, store_id,
    store_of_instance, write_gas,
};
use wasmer::{Function, FunctionEnvMut, Instance, Memory, RuntimeError, StoreMut};

verus! {

/// Whether an instance's counter can pay `price` and stay above zero:
/// the condition under which an ABI prologue lets the call proceed.
pub open spec fn charge_ok(pre: StoreMut, i: Instance, price: u64) -> bool {
    !exhausted_of(pre, i) && gas_of(pre, i) > price
}

/// The instance's counter dropped by exactly `price` between `pre` and
/// `post`.
pub open spec fn debited(pre: StoreMut, post: StoreMut, i: Instance, price: u64) -> bool {
    gas_of(post, i) == gas_of(pre, i) - price && !exhausted_of(post, i)
}

/// The instance's counter is zeroed, so its next metered block of guest
/// code traps: the prologue refused the call.
pub open spec fn drained(post: StoreMut, i: Instance) -> bool {
    gas_of(post, i) == 0 && !exhausted_of(post, i)
}

/// What every ABI function may assume of its context, and what wasmer
/// hands every host function: the published handles belong to the store
/// the call runs in, and their counter sits at or under the store's
/// budget.
pub open spec fn abi_pre(h: Option<InstanceHandles>, pre: StoreMut) -> bool {
    h matches Some(hh) ==> store_of_instance(hh.spec_instance()) == store_id(pre) && gas_of(
        pre,
        hh.spec_instance(),
    ) <= budget_of(pre)
}

/// An ABI prologue never raises the gas counter: a debit leaves strictly
/// less gas than it found, and a refused debit leaves none. Together
/// with the metering middleware, which only ever subtracts, the counter
/// stays at or under the budget an invocation was seeded with.
pub proof fn lemma_prologue_never_raises_the_counter(
    pre: StoreMut,
    post: StoreMut,
    i: Instance,
    price: u64,
)
    requires
        debited(pre, post, i, price) || drained(post, i),
    ensures
        gas_of(post, i) <= gas_of(pre, i),
{
}

/// The character of a decimal digit.
pub open spec fn spec_digit(d: int) -> char {
    if d == 0 {
        '0'
    } else if d == 1 {
        '1'
    } else if d == 2 {
        '2'
    } else if d == 3 {
        '3'
    } else if d == 4 {
        '4'
    } else if d == 5 {
        '5'
    } else if d == 6 {
        '6'
    } else if d == 7 {
        '7'
    } else if d == 8 {
        '8'
    } else {
        '9'
    }
}

/// The decimal form of a non-negative number, most significant digit
/// first.
pub open spec fn spec_dec(v: int) -> Seq<char>
    decreases v,
{
    if v < 10 {
        seq![spec_digit(v)]
    } else {
        spec_dec(v / 10).push(spec_digit(v % 10))
    }
}

/// One decimal digit as a string.
fn digit_str(d: u32) -> (r: String)
    requires
        d < 10,
    ensures
        r@ == seq![spec_digit(d as int)],
{
    let r: String = if d == 0 {
        "0".to_owned()
    } else if d == 1 {
        "1".to_owned()
    } else if d == 2 {
        "2".to_owned()
    } else if d == 3 {
        "3".to_owned()
    } else if d == 4 {
        "4".to_owned()
    } else if d == 5 {
        "5".to_owned()
    } else if d == 6 {
        "6".to_owned()
    } else if d == 7 {
        "7".to_owned()
    } else if d == 8 {
        "8".to_owned()
    } else {
        "9".to_owned()
    };
    proof {
        reveal_strlit("0");
        reveal_strlit("1");
        reveal_strlit("2");
        reveal_strlit("3");
        reveal_strlit("4");
        reveal_strlit("5");
        reveal_strlit("6");
        reveal_strlit("7");
        reveal_strlit("8");
        reveal_strlit("9");
        assert(r@ =~= seq![spec_digit(d as int)]);
    }
    r
}

/// The decimal form of a number, as the abort ABI prints locations.
pub fn u32_dec(v: u32) -> (r: String)
    ensures
        r@ == spec_dec(v as int),
    decreases v,
{
    if v < 10 {
        digit_str(v)
    } else {
        let mut s = u32_dec(v / 10);
        let d = digit_str(v % 10);
        s.append(d.as_str());
        proof {
            assert(s@ =~= spec_dec(v as int));
        }
        s
    }
}

/// The AssemblyScript-style abort: traps with the guest's message and
/// source location, charging no gas. Never returns success.
pub fn assembly_script_abort<I: Interface>(
    env: &Env<I>,
    store: &mut StoreMut,
    message: i32,
    filename: i32,
    line: i32,
    col: i32,
) -> (r: Result<(), VmError>)
    requires
        abi_pre(env.spec_handles(), *old(store)),
    ensures
        r is Err,
        *final(store) == *old(store),
{
    let h = match env.handles() {
        Some(h) => h,
        None => {
            return Err(VmError::MemoryUninitialized);
        },
    };
    let msg = match read_guest_string(&*store, h.memory(), message) {
        Ok(s) => s,
        Err(_) => "unreadable message".to_owned(),
    };
    let file = match read_guest_string(&*store, h.memory(), filename) {
        Ok(s) => s,
        Err(_) => "unreadable filename".to_owned(),
    };
    let mut out = "abort: ".to_owned().concat(msg.as_str());
    out.append(" at ");
    out.append(file.as_str());
    out.append(" line ");
    let line_s = u32_dec(line as u32);
    out.append(line_s.as_str());
    out.append(" col ");
    let col_s = u32_dec(col as u32);
    out.append(col_s.as_str());
    Err(VmError::Trap(out))
}

/// Prints a guest string through the host interface.
///
/// Debits exactly the print price; with too little gas the counter is
/// zeroed and no memory read nor host call happens.
pub fn assembly_script_print<I: Interface>(env: &Env<I>, store: &mut StoreMut, arg: i32) -> (r:
    Result<(), VmError>)
    requires
        abi_pre(env.spec_handles(), *old(store)),
    ensures
        env.spec_handles() is None ==> r == Err::<(), VmError>(VmError::MemoryUninitialized)
            && *final(store) == *old(store),
        env.spec_handles() matches Some(h) ==> (!charge_ok(*old(store), h.spec_instance(), env.settings.print_price)
            ==> drained(*final(store), h.spec_instance()) && r is Err),
        env.spec_handles() matches Some(h) ==> (charge_ok(*old(store), h.spec_instance(), env.settings.print_price)
            ==> debited(*old(store), *final(store), h.spec_instance(), env.settings.print_price)),
{
    let h = match env.handles() {
        Some(h) => h,
        None => {
            return Err(VmError::MemoryUninitialized);
        },
    };
    if !sub_remaining_points(store, h.instance(), env.settings.print_price) {
        return Err(VmError::GasExhausted("assembly_script_print".to_owned()));
    }
    let message = match read_guest_string(&*store, h.memory(), arg) {
        Ok(s) => s,
        Err(e) => {
            return Err(e);
        },
    };
    match env.interface.print(message.as_str()) {
        Ok(()) => Ok(()),
        Err(m) => Err(VmError::HostError(m)),
    }
}

/// The nested-call protocol: resolves the callee's bytecode through the
/// host, runs it in a fresh sandbox seeded with the caller's remaining
/// gas, and lets the host pop its call stack whether the callee returned
/// or trapped.
pub fn call_module<I: Interface>(
    env: &Env<I>,
    store: &mut StoreMut,
    handles: &InstanceHandles,
    address: &str,
    function: &str,
    param: &str,
) -> (r: Result<Response, VmError>)
    requires
        store_of_instance(handles.spec_instance()) == store_id(*old(store)),
    ensures
        r matches Err(VmError::GasExhausted(f)) ==> f@ == function@,
        *final(store) == *old(store),
{
    let module = match env.interface.init_call(address, 0) {
        Ok(b) => b,
        Err(m) => {
            let _ = env.interface.finish_call();
            return Err(VmError::HostError(m));
        },
    };
    let remaining = get_remaining_points_for_env(store, handles.instance());
    let res = exec(remaining, None, module.as_slice(), function, param, &env.interface, &env.settings);
    let _ = env.interface.finish_call();
    res
}

/// The call ABI: reads the callee's address, function and parameter from
/// the sandbox, runs the nested call, adopts the callee's remaining gas
/// as the caller's, and hands the callee's return string back to the
/// caller's heap.
///
/// Debits exactly the call price before anything else; with too little
/// gas the sandbox is drained and neither memory read nor host call
/// happens.
pub fn assembly_script_call_module<I: Interface>(
    env: &Env<I>,
    store: &mut StoreMut,
    address: i32,
    function: i32,
    param: i32,
) -> (r: Result<i32, VmError>)
    requires
        abi_pre(env.spec_handles(), *old(store)),
    ensures
        env.spec_handles() is None ==> r == Err::<i32, VmError>(VmError::MemoryUninitialized)
            && *final(store) == *old(store),
        env.spec_handles() matches Some(h) ==> (!charge_ok(*old(store), h.spec_instance(), env.settings.call_price)
            ==> drained(*final(store), h.spec_instance()) && r is Err),
        env.spec_handles() matches Some(h) ==> (charge_ok(*old(store), h.spec_instance(), env.settings.call_price)
            ==> gas_of(*final(store), h.spec_instance()) <= gas_of(*old(store), h.spec_instance())
            - env.settings.call_price),
{
    let h = match env.handles() {
        Some(h) => h,
        None => {
            return Err(VmError::MemoryUninitialized);
        },
    };
    if !sub_remaining_points(store, h.instance(), env.settings.call_price) {
        return Err(VmError::GasExhausted("assembly_script_call".to_owned()));
    }
    let address_s = match read_guest_string(&*store, h.memory(), address) {
        Ok(s) => s,
        Err(e) => {
            return Err(e);
        },
    };
    let function_s = match read_guest_string(&*store, h.memory(), function) {
        Ok(s) => s,
        Err(e) => {
            return Err(e);
        },
    };
    let param_s = match read_guest_string(&*store, h.memory(), param) {
        Ok(s) => s,
        Err(e) => {
            return Err(e);
        },
    };
    let seed = get_remaining_points_for_env(store, h.instance());
    let response = match call_module(
        env,
        store,
        h,
        address_s.as_str(),
        function_s.as_str(),
        param_s.as_str(),
    ) {
        Ok(resp) => resp,
        Err(e) => {
            return Err(e);
        },
    };
    // the callee's budget was seeded with the caller's remaining, so its
    // remaining can only be lower; the cap states that locally
    let adopted: u64 = if response.remaining_gas <= seed {
        response.remaining_gas
    } else {
        seed
    };
    write_gas(store, h.instance(), adopted);
    alloc_guest_string(store, h.instance(), h.memory(), h.allocator(), response.ret.as_str())
}

/// The gas-introspection ABI: debits its price, then reports the counter
/// as the guest sees it, truncated to an i32.
pub fn get_remaining_points<I: Interface>(env: &Env<I>, store: &mut StoreMut) -> (r: Result<
    i32,
    VmError,
>)
    requires
        abi_pre(env.spec_handles(), *old(store)),
    ensures
        env.spec_handles() is None ==> r == Err::<i32, VmError>(VmError::MemoryUninitialized)
            && *final(store) == *old(store),
        env.spec_handles() matches Some(h) ==> (!charge_ok(*old(store), h.spec_instance(),
            env.settings.remaining_gas_price) ==> drained(*final(store), h.spec_instance()) && r is Err),
        env.spec_handles() matches Some(h) ==> (charge_ok(*old(store), h.spec_instance(),
            env.settings.remaining_gas_price) ==> debited(*old(store), *final(store),
            h.spec_instance(), env.settings.remaining_gas_price) && r == Ok::<i32, VmError>(gas_of(
            *final(store),
            h.spec_instance(),
        ) as i32)),
{
    let h = match env.handles() {
        Some(h) => h,
        None => {
            return Err(VmError::MemoryUninitialized);
        },
    };
    if !sub_remaining_points(store, h.instance(), env.settings.remaining_gas_price) {
        return Err(VmError::GasExhausted("assembly_script_get_remaining_gas".to_owned()));
    }
    let g = get_remaining_points_for_env(store, h.instance());
    Ok(#[verifier::truncate] (g as i32))
}

/// Persists a new contract through the host.
fn create_sc<I: Interface>(env: &Env<I>, bytecode: &Vec<u8>) -> Result<String, VmError> {
    match env.interface.create_module(bytecode.as_slice()) {
        Ok(addr) => Ok(addr),
        Err(m) => Err(VmError::HostError(m)),
    }
}

/// The contract-creation ABI: reads a base64 module from the sandbox,
/// decodes it, asks the host to persist it, and hands the assigned
/// address back to the caller's heap.
///
/// Debits exactly the creation price before anything else; with too
/// little gas the sandbox is drained and neither memory read nor host
/// call happens.
pub fn assembly_script_create_sc<I: Interface>(
    env: &Env<I>,
    store: &mut StoreMut,
    bytecode: i32,
) -> (r: Result<i32, VmError>)
    requires
        abi_pre(env.spec_handles(), *old(store)),
    ensures
        env.spec_handles() is None ==> r == Err::<i32, VmError>(VmError::MemoryUninitialized)
            && *final(store) == *old(store),
        env.spec_handles() matches Some(h) ==> (!charge_ok(*old(store), h.spec_instance(), env.settings.create_sc_price)
            ==> drained(*final(store), h.spec_instance()) && r is Err),
        env.spec_handles() matches Some(h) ==> (charge_ok(*old(store), h.spec_instance(), env.settings.create_sc_price)
            ==> gas_of(*final(store), h.spec_instance()) <= gas_of(*old(store), h.spec_instance())
            - env.settings.create_sc_price),
{
    let h = match env.handles() {
        Some(h) => h,
        None => {
            return Err(VmError::MemoryUninitialized);
        },
    };
    if !sub_remaining_points(store, h.instance(), env.settings.create_sc_price) {
        return Err(VmError::GasExhausted("assembly_script_create_sc".to_owned()));
    }
    let encoded = match read_guest_string(&*store, h.memory(), bytecode) {
        Ok(s) => s,
        Err(e) => {
            return Err(e);
        },
    };
    let decoded = match crate::vm::base64_decode_bytes(encoded.as_str()) {
        Some(b) => b,
        None => {
            return Err(VmError::Base64DecodeError);
        },
    };
    let address = match create_sc(env, &decoded) {
        Ok(a) => a,
        Err(e) => {
            return Err(e);
        },
    };
    alloc_guest_string(store, h.instance(), h.memory(), h.allocator(), address.as_str())
}

/// The ledger-write ABI: reads a key and a value from the sandbox and
/// writes the value's UTF-8 bytes into the current contract's ledger.
///
/// Debits exactly the write price; with too little gas the sandbox is
/// drained and neither memory read nor host call happens.
pub fn assembly_script_set_data<I: Interface>(
    env: &Env<I>,
    store: &mut StoreMut,
    key: i32,
    value: i32,
) -> (r: Result<(), VmError>)
    requires
        abi_pre(env.spec_handles(), *old(store)),
    ensures
        env.spec_handles() is None ==> r == Err::<(), VmError>(VmError::MemoryUninitialized)
            && *final(store) == *old(store),
        env.spec_handles() matches Some(h) ==> (!charge_ok(*old(store), h.spec_instance(), env.settings.set_data_price)
            ==> drained(*final(store), h.spec_instance()) && r is Err),
        env.spec_handles() matches Some(h) ==> (charge_ok(*old(store), h.spec_instance(), env.settings.set_data_price)
            ==> debited(*old(store), *final(store), h.spec_instance(), env.settings.set_data_price)),
{
    let h = match env.handles() {
        Some(h) => h,
        None => {
            return Err(VmError::MemoryUninitialized);
        },
    };
    if !sub_remaining_points(store, h.instance(), env.settings.set_data_price) {
        return Err(VmError::GasExhausted("assembly_script_set_data".to_owned()));
    }
    let key_s = match read_guest_string(&*store, h.memory(), key) {
        Ok(s) => s,
        Err(e) => {
            return Err(e);
        },
    };
    let value_s = match read_guest_string(&*store, h.memory(), value) {
        Ok(s) => s,
        Err(e) => {
            return Err(e);
        },
    };
    match env.interface.raw_set_data(key_s.as_str(), value_s.as_str().as_bytes()) {
        Ok(()) => Ok(()),
        Err(m) => Err(VmError::HostError(m)),
    }
}

/// The ledger-read ABI: reads a key from the sandbox, fetches the
/// current contract's entry, checks it is valid text, and hands it back
/// to the caller's heap.
///
/// Debits exactly the read price; with too little gas the sandbox is
/// drained and neither memory read nor host call happens.
pub fn assembly_script_get_data<I: Interface>(
    env: &Env<I>,
    store: &mut StoreMut,
    key: i32,
) -> (r: Result<i32, VmError>)
    requires
        abi_pre(env.spec_handles(), *old(store)),
    ensures
        env.spec_handles() is None ==> r == Err::<i32, VmError>(VmError::MemoryUninitialized)
            && *final(store) == *old(store),
        env.spec_handles() matches Some(h) ==> (!charge_ok(*old(store), h.spec_instance(), env.settings.get_data_price)
            ==> drained(*final(store), h.spec_instance()) && r is Err),
        env.spec_handles() matches Some(h) ==> (charge_ok(*old(store), h.spec_instance(), env.settings.get_data_price)
            ==> gas_of(*final(store), h.spec_instance()) <= gas_of(*old(store), h.spec_instance())
            - env.settings.get_data_price),
{
    let h = match env.handles() {
        Some(h) => h,
        None => {
            return Err(VmError::MemoryUninitialized);
        },
    };
    if !sub_remaining_points(store, h.instance(), env.settings.get_data_price) {
        return Err(VmError::GasExhausted("assembly_script_get_data".to_owned()));
    }
    let key_s = match read_guest_string(&*store, h.memory(), key) {
        Ok(s) => s,
        Err(e) => {
            return Err(e);
        },
    };
    let data = match env.interface.raw_get_data(key_s.as_str()) {
        Ok(d) => d,
        Err(m) => {
            return Err(VmError::HostError(m));
        },
    };
    pointer_from_utf8(store, h.instance(), h.memory(), h.allocator(), &data)
}

/// The foreign ledger-write ABI: as the ledger write, for the contract
/// at a given address.
pub fn assembly_script_set_data_for<I: Interface>(
    env: &Env<I>,
    store: &mut StoreMut,
    address: i32,
    key: i32,
    value: i32,
) -> (r: Result<(), VmError>)
    requires
        abi_pre(env.spec_handles(), *old(store)),
    ensures
        env.spec_handles() is None ==> r == Err::<(), VmError>(VmError::MemoryUninitialized)
            && *final(store) == *old(store),
        env.spec_handles() matches Some(h) ==> (!charge_ok(*old(store), h.spec_instance(), env.settings.set_data_price)
            ==> drained(*final(store), h.spec_instance()) && r is Err),
        env.spec_handles() matches Some(h) ==> (charge_ok(*old(store), h.spec_instance(), env.settings.set_data_price)
            ==> debited(*old(store), *final(store), h.spec_instance(), env.settings.set_data_price)),
{
    let h = match env.handles() {
        Some(h) => h,
        None => {
            return Err(VmError::MemoryUninitialized);
        },
    };
    if !sub_remaining_points(store, h.instance(), env.settings.set_data_price) {
        return Err(VmError::GasExhausted("assembly_script_set_data_for".to_owned()));
    }
    let address_s = match read_guest_string(&*store, h.memory(), address) {
        Ok(s) => s,
        Err(e) => {
            return Err(e);
        },
    };
    let key_s = match read_guest_string(&*store, h.memory(), key) {
        Ok(s) => s,
        Err(e) => {
            return Err(e);
        },
    };
    let value_s = match read_guest_string(&*store, h.memory(), value) {
        Ok(s) => s,
        Err(e) => {
            return Err(e);
        },
    };
    match env.interface.set_data_for(
        address_s.as_str(),
        key_s.as_str(),
        value_s.as_str().as_bytes(),
    ) {
        Ok(()) => Ok(()),
        Err(m) => Err(VmError::HostError(m)),
    }
}

/// The foreign ledger-read ABI: as the ledger read, for the contract at
/// a given address.
pub fn assembly_script_get_data_for<I: Interface>(
    env: &Env<I>,
    store: &mut StoreMut,
    address: i32,
    key: i32,
) -> (r: Result<i32, VmError>)
    requires
        abi_pre(env.spec_handles(), *old(store)),
    ensures
        env.spec_handles() is None ==> r == Err::<i32, VmError>(VmError::MemoryUninitialized)
            && *final(store) == *old(store),
        env.spec_handles() matches Some(h) ==> (!charge_ok(*old(store), h.spec_instance(), env.settings.get_data_price)
            ==> drained(*final(store), h.spec_instance()) && r is Err),
        env.spec_handles() matches Some(h) ==> (charge_ok(*old(store), h.spec_instance(), env.settings.get_data_price)
            ==> gas_of(*final(store), h.spec_instance()) <= gas_of(*old(store), h.spec_instance())
            - env.settings.get_data_price),
{
    let h = match env.handles() {
        Some(h) => h,
        None => {
            return Err(VmError::MemoryUninitialized);
        },
    };
    if !sub_remaining_points(store, h.instance(), env.settings.get_data_price) {
        return Err(VmError::GasExhausted("assembly_script_get_data_for".to_owned()));
    }
    let address_s = match read_guest_string(&*store, h.memory(), address) {
        Ok(s) => s,
        Err(e) => {
            return Err(e);
        },
    };
    let key_s = match read_guest_string(&*store, h.memory(), key) {
        Ok(s) => s,
        Err(e) => {
            return Err(e);
        },
    };
    let data = match env.interface.get_data_for(address_s.as_str(), key_s.as_str()) {
        Ok(d) => d,
        Err(m) => {
            return Err(VmError::HostError(m));
        },
    };
    pointer_from_utf8(store, h.instance(), h.memory(), h.allocator(), &data)
}

/// The event ABI: reads a guest string and emits it to the host,
/// charging the print price.
pub fn assembly_script_generate_event<I: Interface>(
    env: &Env<I>,
    store: &mut StoreMut,
    event: i32,
) -> (r: Result<(), VmError>)
    requires
        abi_pre(env.spec_handles(), *old(store)),
    ensures
        env.spec_handles() is None ==> r == Err::<(), VmError>(VmError::MemoryUninitialized)
            && *final(store) == *old(store),
        env.spec_handles() matches Some(h) ==> (!charge_ok(*old(store), h.spec_instance(), env.settings.print_price)
            ==> drained(*final(store), h.spec_instance()) && r is Err),
        env.spec_handles() matches Some(h) ==> (charge_ok(*old(store), h.spec_instance(), env.settings.print_price)
            ==> debited(*old(store), *final(store), h.spec_instance(), env.settings.print_price)),
{
    let h = match env.handles() {
        Some(h) => h,
        None => {
            return Err(VmError::MemoryUninitialized);
        },
    };
    if !sub_remaining_points(store, h.instance(), env.settings.print_price) {
        return Err(VmError::GasExhausted("assembly_script_generate_event".to_owned()));
    }
    let event_s = match read_guest_string(&*store, h.memory(), event) {
        Ok(s) => s,
        Err(e) => {
            return Err(e);
        },
    };
    match env.interface.generate_event(event_s.as_str()) {
        Ok(()) => Ok(()),
        Err(m) => Err(VmError::HostError(m)),
    }
}

/// Validates host bytes as text and allocates them in the guest's heap.
fn pointer_from_utf8(
    store: &mut StoreMut,
    instance: &Instance,
    memory: &Memory,
    alloc: &Function,
    bytes: &Vec<u8>,
) -> (r: Result<i32, VmError>)
    requires
        metered(*instance),
        crate::vm::store_of_instance(*instance) == store_id(*old(store)),
        crate::vm::store_of_memory(*memory) == store_id(*old(store)),
        crate::vm::store_of_function(*alloc) == store_id(*old(store)),
    ensures
        gas_of(*final(store), *instance) <= gas_of(*old(store), *instance),
        store_id(*final(store)) == store_id(*old(store)),
        budget_of(*final(store)) == budget_of(*old(store)),
{
    match crate::vm::bytes_to_string(bytes.as_slice()) {
        Some(s) => alloc_guest_string(store, instance, memory, alloc, s.as_str()),
        None => Err(VmError::InvalidUtf8),
    }
}

/// Maps a library failure onto the trap a host function raises.
fn trap_of(e: VmError) -> RuntimeError {
    make_runtime_error(e.message())
}

/// The registered form of the abort ABI.
pub fn host_abort<I: Interface>(
    mut ctx: FunctionEnvMut<Env<I>>,
    message: i32,
    filename: i32,
    line: i32,
    col: i32,
) -> Result<(), RuntimeError> {
    let (env, mut store) = ctx_parts(&mut ctx);
    match assembly_script_abort(env, &mut store, message, filename, line, col) {
        Ok(x) => Ok(x),
        Err(e) => Err(trap_of(e)),
    }
}

/// The registered form of the print ABI.
pub fn host_print<I: Interface>(mut ctx: FunctionEnvMut<Env<I>>, arg: i32) -> Result<
    (),
    RuntimeError,
> {
    let (env, mut store) = ctx_parts(&mut ctx);
    match assembly_script_print(env, &mut store, arg) {
        Ok(x) => Ok(x),
        Err(e) => Err(trap_of(e)),
    }
}

/// The registered form of the call ABI.
pub fn host_call<I: Interface>(
    mut ctx: FunctionEnvMut<Env<I>>,
    address: i32,
    function: i32,
    param: i32,
) -> Result<i32, RuntimeError> {
    let (env, mut store) = ctx_parts(&mut ctx);
    match assembly_script_call_module(env, &mut store, address, function, param) {
        Ok(x) => Ok(x),
        Err(e) => Err(trap_of(e)),
    }
}

/// The registered form of the gas-introspection ABI.
pub fn host_get_remaining_gas<I: Interface>(mut ctx: FunctionEnvMut<Env<I>>) -> Result<
    i32,
    RuntimeError,
> {
    let (env, mut store) = ctx_parts(&mut ctx);
    match get_remaining_points(env, &mut store) {
        Ok(x) => Ok(x),
        Err(e) => Err(trap_of(e)),
    }
}

/// The registered form of the contract-creation ABI.
pub fn host_create_sc<I: Interface>(mut ctx: FunctionEnvMut<Env<I>>, bytecode: i32) -> Result<
    i32,
    RuntimeError,
> {
    let (env, mut store) = ctx_parts(&mut ctx);
    match assembly_script_create_sc(env, &mut store, bytecode) {
        Ok(x) => Ok(x),
        Err(e) => Err(trap_of(e)),
    }
}

/// The registered form of the ledger-write ABI.
pub fn host_set_data<I: Interface>(mut ctx: FunctionEnvMut<Env<I>>, key: i32, value: i32) -> Result<
    (),
    RuntimeError,
> {
    let (env, mut store) = ctx_parts(&mut ctx);
    match assembly_script_set_data(env, &mut store, key, value) {
        Ok(x) => Ok(x),
        Err(e) => Err(trap_of(e)),
    }
}

/// The registered form of the ledger-read ABI.
pub fn host_get_data<I: Interface>(mut ctx: FunctionEnvMut<Env<I>>, key: i32) -> Result<
    i32,
    RuntimeError,
> {
    let (env, mut store) = ctx_parts(&mut ctx);
    match assembly_script_get_data(env, &mut store, key) {
        Ok(x) => Ok(x),
        Err(e) => Err(trap_of(e)),
    }
}

/// The registered form of the foreign ledger-write ABI.
pub fn host_set_data_for<I: Interface>(
    mut ctx: FunctionEnvMut<Env<I>>,
    address: i32,
    key: i32,
    value: i32,
) -> Result<(), RuntimeError> {
    let (env, mut store) = ctx_parts(&mut ctx);
    match assembly_script_set_data_for(env, &mut store, address, key, value) {
        Ok(x) => Ok(x),
        Err(e) => Err(trap_of(e)),
    }
}

/// The registered form of the foreign ledger-read ABI.
pub fn host_get_data_for<I: Interface>(
    mut ctx: FunctionEnvMut<Env<I>>,
    address: i32,
    key: i32,
) -> Result<i32, RuntimeError> {
    let (env, mut store) = ctx_parts(&mut ctx);
    match assembly_script_get_data_for(env, &mut store, address, key) {
        Ok(x) => Ok(x),
        Err(e) => Err(trap_of(e)),
    }
}

/// The registered form of the event ABI.
pub fn host_generate_event<I: Interface>(mut ctx: FunctionEnvMut<Env<I>>, event: i32) -> Result<
    (),
    RuntimeError,
> {
    let (env, mut store) = ctx_parts(&mut ctx);
    match assembly_script_generate_event(env, &mut store, event) {
        Ok(x) => Ok(x),
        Err(e) => Err(trap_of(e)),
    }
}

/// The ledger-presence ABI: reads a key from the sandbox and reports,
/// as 1 or 0, whether the current contract's ledger holds an entry
/// there.
///
/// Debits exactly the read price; with too little gas the counter is
/// zeroed and neither memory read nor host call happens.
pub fn assembly_script_has_data<I: Interface>(
    env: &Env<I>,
    store: &mut StoreMut,
    key: i32,
) -> (r: Result<i32, VmError>)
    requires
        abi_pre(env.spec_handles(), *old(store)),
    ensures
        env.spec_handles() is None ==> r == Err::<i32, VmError>(VmError::MemoryUninitialized)
            && *final(store) == *old(store),
        env.spec_handles() matches Some(h) ==> (!charge_ok(*old(store), h.spec_instance(), env.settings.get_data_price)
            ==> drained(*final(store), h.spec_instance()) && r is Err),
        env.spec_handles() matches Some(h) ==> (charge_ok(*old(store), h.spec_instance(), env.settings.get_data_price)
            ==> debited(*old(store), *final(store), h.spec_instance(), env.settings.get_data_price) && (r matches Ok(v)
            ==> v == 1 || v == 0)),
{
    let h = match env.handles() {
        Some(h) => h,
        None => {
            return Err(VmError::MemoryUninitialized);
        },
    };
    if !sub_remaining_points(store, h.instance(), env.settings.get_data_price) {
        return Err(VmError::GasExhausted("assembly_script_has_data".to_owned()));
    }
    let key_s = match read_guest_string(&*store, h.memory(), key) {
        Ok(s) => s,
        Err(e) => {
            return Err(e);
        },
    };
    match env.interface.has_data(key_s.as_str()) {
        Ok(true) => Ok(1),
        Ok(false) => Ok(0),
        Err(m) => Err(VmError::HostError(m)),
    }
}

/// The ledger-delete ABI: reads a key from the sandbox and removes the
/// current contract's entry there.
///
/// Debits exactly the write price; with too little gas the counter is
/// zeroed and neither memory read nor host call happens.
pub fn assembly_script_delete_data<I: Interface>(
    env: &Env<I>,
    store: &mut StoreMut,
    key: i32,
) -> (r: Result<(), VmError>)
    requires
        abi_pre(env.spec_handles(), *old(store)),
    ensures
        env.spec_handles() is None ==> r == Err::<(), VmError>(VmError::MemoryUninitialized)
            && *final(store) == *old(store),
        env.spec_handles() matches Some(h) ==> (!charge_ok(*old(store), h.spec_instance(), env.settings.set_data_price)
            ==> drained(*final(store), h.spec_instance()) && r is Err),
        env.spec_handles() matches Some(h) ==> (charge_ok(*old(store), h.spec_instance(), env.settings.set_data_price)
            ==> debited(*old(store), *final(store), h.spec_instance(), env.settings.set_data_price)),
{
    let h = match env.handles() {
        Some(h) => h,
        None => {
            return Err(VmError::MemoryUninitialized);
        },
    };
    if !sub_remaining_points(store, h.instance(), env.settings.set_data_price) {
        return Err(VmError::GasExhausted("assembly_script_delete_data".to_owned()));
    }
    let key_s = match read_guest_string(&*store, h.memory(), key) {
        Ok(s) => s,
        Err(e) => {
            return Err(e);
        },
    };
    match env.interface.raw_delete_data(key_s.as_str()) {
        Ok(()) => Ok(()),
        Err(m) => Err(VmError::HostError(m)),
    }
}

/// The ledger-append ABI: reads a key and a value from the sandbox and
/// appends the value's UTF-8 bytes to the current contract's entry.
///
/// Debits exactly the write price; with too little gas the counter is
/// zeroed and neither memory read nor host call happens.
pub fn assembly_script_append_data<I: Interface>(
    env: &Env<I>,
    store: &mut StoreMut,
    key: i32,
    value: i32,
) -> (r: Result<(), VmError>)
    requires
        abi_pre(env.spec_handles(), *old(store)),
    ensures
        env.spec_handles() is None ==> r == Err::<(), VmError>(VmError::MemoryUninitialized)
            && *final(store) == *old(store),
        env.spec_handles() matches Some(h) ==> (!charge_ok(*old(store), h.spec_instance(), env.settings.set_data_price)
            ==> drained(*final(store), h.spec_instance()) && r is Err),
        env.spec_handles() matches Some(h) ==> (charge_ok(*old(store), h.spec_instance(), env.settings.set_data_price)
            ==> debited(*old(store), *final(store), h.spec_instance(), env.settings.set_data_price)),
{
    let h = match env.handles() {
        Some(h) => h,
        None => {
            return Err(VmError::MemoryUninitialized);
        },
    };
    if !sub_remaining_points(store, h.instance(), env.settings.set_data_price) {
        return Err(VmError::GasExhausted("assembly_script_append_data".to_owned()));
    }
    let key_s = match read_guest_string(&*store, h.memory(), key) {
        Ok(s) => s,
        Err(e) => {
            return Err(e);
        },
    };
    let value_s = match read_guest_string(&*store, h.memory(), value) {
        Ok(s) => s,
        Err(e) => {
            return Err(e);
        },
    };
    match env.interface.raw_append_data(key_s.as_str(), value_s.as_str().as_bytes()) {
        Ok(()) => Ok(()),
        Err(m) => Err(VmError::HostError(m)),
    }
}

/// The coin-transfer ABI: reads the receiving address from the sandbox
/// and asks the host to move the amount, handed by the guest as an i64
/// and taken bitwise as an unsigned count of coins.
///
/// Debits exactly the configured price; with too little gas the counter
/// is zeroed and neither memory read nor host call happens.
pub fn assembly_script_transfer_coins<I: Interface>(
    env: &Env<I>,
    store: &mut StoreMut,
    to_address: i32,
    raw_amount: i64,
) -> (r: Result<(), VmError>)
    requires
        abi_pre(env.spec_handles(), *old(store)),
    ensures
        env.spec_handles() is None ==> r == Err::<(), VmError>(VmError::MemoryUninitialized)
            && *final(store) == *old(store),
        env.spec_handles() matches Some(h) ==> (!charge_ok(*old(store), h.spec_instance(), env.settings.configured_price)
            ==> drained(*final(store), h.spec_instance()) && r is Err),
        env.spec_handles() matches Some(h) ==> (charge_ok(*old(store), h.spec_instance(), env.settings.configured_price)
            ==> debited(*old(store), *final(store), h.spec_instance(), env.settings.configured_price)),
{
    let h = match env.handles() {
        Some(h) => h,
        None => {
            return Err(VmError::MemoryUninitialized);
        },
    };
    if !sub_remaining_points(store, h.instance(), env.settings.configured_price) {
        return Err(VmError::GasExhausted("assembly_script_transfer_coins".to_owned()));
    }
    let to_s = match read_guest_string(&*store, h.memory(), to_address) {
        Ok(s) => s,
        Err(e) => {
            return Err(e);
        },
    };
    let amount: u64 = #[verifier::truncate] (raw_amount as u64);
    match env.interface.transfer_coins(to_s.as_str(), amount) {
        Ok(()) => Ok(()),
        Err(m) => Err(VmError::HostError(m)),
    }
}

/// The balance ABI: the current contract's balance, truncated to the
/// i64 the guest expects.
///
/// Debits exactly the configured price; with too little gas the counter
/// is zeroed and no host call happens.
pub fn assembly_script_get_balance<I: Interface>(env: &Env<I>, store: &mut StoreMut) -> (r: Result<
    i64,
    VmError,
>)
    requires
        abi_pre(env.spec_handles(), *old(store)),
    ensures
        env.spec_handles() is None ==> r == Err::<i64, VmError>(VmError::MemoryUninitialized)
            && *final(store) == *old(store),
        env.spec_handles() matches Some(h) ==> (!charge_ok(*old(store), h.spec_instance(), env.settings.configured_price)
            ==> drained(*final(store), h.spec_instance()) && r is Err),
        env.spec_handles() matches Some(h) ==> (charge_ok(*old(store), h.spec_instance(), env.settings.configured_price)
            ==> debited(*old(store), *final(store), h.spec_instance(), env.settings.configured_price)),
{
    let h = match env.handles() {
        Some(h) => h,
        None => {
            return Err(VmError::MemoryUninitialized);
        },
    };
    if !sub_remaining_points(store, h.instance(), env.settings.configured_price) {
        return Err(VmError::GasExhausted("assembly_script_get_balance".to_owned()));
    }
    match env.interface.get_balance() {
        Ok(b) => Ok(#[verifier::truncate] (b as i64)),
        Err(m) => Err(VmError::HostError(m)),
    }
}

/// The foreign balance ABI: as the balance ABI, for the contract at a
/// given address.
pub fn assembly_script_get_balance_for<I: Interface>(
    env: &Env<I>,
    store: &mut StoreMut,
    address: i32,
) -> (r: Result<i64, VmError>)
    requires
        abi_pre(env.spec_handles(), *old(store)),
    ensures
        env.spec_handles() is None ==> r == Err::<i64, VmError>(VmError::MemoryUninitialized)
            && *final(store) == *old(store),
        env.spec_handles() matches Some(h) ==> (!charge_ok(*old(store), h.spec_instance(), env.settings.configured_price)
            ==> drained(*final(store), h.spec_instance()) && r is Err),
        env.spec_handles() matches Some(h) ==> (charge_ok(*old(store), h.spec_instance(), env.settings.configured_price)
            ==> debited(*old(store), *final(store), h.spec_instance(), env.settings.configured_price)),
{
    let h = match env.handles() {
        Some(h) => h,
        None => {
            return Err(VmError::MemoryUninitialized);
        },
    };
    if !sub_remaining_points(store, h.instance(), env.settings.configured_price) {
        return Err(VmError::GasExhausted("assembly_script_get_balance_for".to_owned()));
    }
    let address_s = match read_guest_string(&*store, h.memory(), address) {
        Ok(s) => s,
        Err(e) => {
            return Err(e);
        },
    };
    match env.interface.get_balance_for(address_s.as_str()) {
        Ok(b) => Ok(#[verifier::truncate] (b as i64)),
        Err(m) => Err(VmError::HostError(m)),
    }
}

/// The call-coins ABI: the coins attached to the current call.
///
/// Debits exactly the configured price; with too little gas the counter
/// is zeroed and no host call happens.
pub fn assembly_script_get_call_coins<I: Interface>(
    env: &Env<I>,
    store: &mut StoreMut,
) -> (r: Result<i64, VmError>)
    requires
        abi_pre(env.spec_handles(), *old(store)),
    ensures
        env.spec_handles() is None ==> r == Err::<i64, VmError>(VmError::MemoryUninitialized)
            && *final(store) == *old(store),
        env.spec_handles() matches Some(h) ==> (!charge_ok(*old(store), h.spec_instance(), env.settings.configured_price)
            ==> drained(*final(store), h.spec_instance()) && r is Err),
        env.spec_handles() matches Some(h) ==> (charge_ok(*old(store), h.spec_instance(), env.settings.configured_price)
            ==> debited(*old(store), *final(store), h.spec_instance(), env.settings.configured_price)),
{
    let h = match env.handles() {
        Some(h) => h,
        None => {
            return Err(VmError::MemoryUninitialized);
        },
    };
    if !sub_remaining_points(store, h.instance(), env.settings.configured_price) {
        return Err(VmError::GasExhausted("assembly_script_get_call_coins".to_owned()));
    }
    match env.interface.get_call_coins() {
        Ok(c) => Ok(#[verifier::truncate] (c as i64)),
        Err(m) => Err(VmError::HostError(m)),
    }
}

/// The time ABI: the host's logical time.
///
/// Debits exactly the configured price; with too little gas the counter
/// is zeroed and no host call happens.
pub fn assembly_script_get_time<I: Interface>(env: &Env<I>, store: &mut StoreMut) -> (r: Result<
    i64,
    VmError,
>)
    requires
        abi_pre(env.spec_handles(), *old(store)),
    ensures
        env.spec_handles() is None ==> r == Err::<i64, VmError>(VmError::MemoryUninitialized)
            && *final(store) == *old(store),
        env.spec_handles() matches Some(h) ==> (!charge_ok(*old(store), h.spec_instance(), env.settings.configured_price)
            ==> drained(*final(store), h.spec_instance()) && r is Err),
        env.spec_handles() matches Some(h) ==> (charge_ok(*old(store), h.spec_instance(), env.settings.configured_price)
            ==> debited(*old(store), *final(store), h.spec_instance(), env.settings.configured_price)),
{
    let h = match env.handles() {
        Some(h) => h,
        None => {
            return Err(VmError::MemoryUninitialized);
        },
    };
    if !sub_remaining_points(store, h.instance(), env.settings.configured_price) {
        return Err(VmError::GasExhausted("assembly_script_get_time".to_owned()));
    }
    match env.interface.get_time() {
        Ok(t) => Ok(#[verifier::truncate] (t as i64)),
        Err(m) => Err(VmError::HostError(m)),
    }
}

/// The randomness ABI: the host's deterministic per-invocation
/// pseudo-randomness.
///
/// Debits exactly the configured price; with too little gas the counter
/// is zeroed and no host call happens.
pub fn assembly_script_unsafe_random<I: Interface>(
    env: &Env<I>,
    store: &mut StoreMut,
) -> (r: Result<i64, VmError>)
    requires
        abi_pre(env.spec_handles(), *old(store)),
    ensures
        env.spec_handles() is None ==> r == Err::<i64, VmError>(VmError::MemoryUninitialized)
            && *final(store) == *old(store),
        env.spec_handles() matches Some(h) ==> (!charge_ok(*old(store), h.spec_instance(), env.settings.configured_price)
            ==> drained(*final(store), h.spec_instance()) && r is Err),
        env.spec_handles() matches Some(h) ==> (charge_ok(*old(store), h.spec_instance(), env.settings.configured_price)
            ==> debited(*old(store), *final(store), h.spec_instance(), env.settings.configured_price)),
{
    let h = match env.handles() {
        Some(h) => h,
        None => {
            return Err(VmError::MemoryUninitialized);
        },
    };
    if !sub_remaining_points(store, h.instance(), env.settings.configured_price) {
        return Err(VmError::GasExhausted("assembly_script_unsafe_random".to_owned()));
    }
    match env.interface.unsafe_random() {
        Ok(x) => Ok(x),
        Err(m) => Err(VmError::HostError(m)),
    }
}

/// The registered form of the ledger-presence ABI.
pub fn host_has_data<I: Interface>(mut ctx: FunctionEnvMut<Env<I>>, key: i32) -> Result<
    i32,
    RuntimeError,
> {
    let (env, mut store) = ctx_parts(&mut ctx);
    match assembly_script_has_data(env, &mut store, key) {
        Ok(x) => Ok(x),
        Err(e) => Err(trap_of(e)),
    }
}

/// The registered form of the ledger-delete ABI.
pub fn host_delete_data<I: Interface>(mut ctx: FunctionEnvMut<Env<I>>, key: i32) -> Result<
    (),
    RuntimeError,
> {
    let (env, mut store) = ctx_parts(&mut ctx);
    match assembly_script_delete_data(env, &mut store, key) {
        Ok(x) => Ok(x),
        Err(e) => Err(trap_of(e)),
    }
}

/// The registered form of the ledger-append ABI.
pub fn host_append_data<I: Interface>(
    mut ctx: FunctionEnvMut<Env<I>>,
    key: i32,
    value: i32,
) -> Result<(), RuntimeError> {
    let (env, mut store) = ctx_parts(&mut ctx);
    match assembly_script_append_data(env, &mut store, key, value) {
        Ok(x) => Ok(x),
        Err(e) => Err(trap_of(e)),
    }
}

/// The registered form of the coin-transfer ABI.
pub fn host_transfer_coins<I: Interface>(
    mut ctx: FunctionEnvMut<Env<I>>,
    to_address: i32,
    raw_amount: i64,
) -> Result<(), RuntimeError> {
    let (env, mut store) = ctx_parts(&mut ctx);
    match assembly_script_transfer_coins(env, &mut store, to_address, raw_amount) {
        Ok(x) => Ok(x),
        Err(e) => Err(trap_of(e)),
    }
}

/// The registered form of the balance ABI.
pub fn host_get_balance<I: Interface>(mut ctx: FunctionEnvMut<Env<I>>) -> Result<
    i64,
    RuntimeError,
> {
    let (env, mut store) = ctx_parts(&mut ctx);
    match assembly_script_get_balance(env, &mut store) {
        Ok(x) => Ok(x),
        Err(e) => Err(trap_of(e)),
    }
}

/// The registered form of the foreign balance ABI.
pub fn host_get_balance_for<I: Interface>(mut ctx: FunctionEnvMut<Env<I>>, address: i32) -> Result<
    i64,
    RuntimeError,
> {
    let (env, mut store) = ctx_parts(&mut ctx);
    match assembly_script_get_balance_for(env, &mut store, address) {
        Ok(x) => Ok(x),
        Err(e) => Err(trap_of(e)),
    }
}

/// The registered form of the call-coins ABI.
pub fn host_get_call_coins<I: Interface>(mut ctx: FunctionEnvMut<Env<I>>) -> Result<
    i64,
    RuntimeError,
> {
    let (env, mut store) = ctx_parts(&mut ctx);
    match assembly_script_get_call_coins(env, &mut store) {
        Ok(x) => Ok(x),
        Err(e) => Err(trap_of(e)),
    }
}

/// The registered form of the time ABI.
pub fn host_get_time<I: Interface>(mut ctx: FunctionEnvMut<Env<I>>) -> Result<i64, RuntimeError> {
    let (env, mut store) = ctx_parts(&mut ctx);
    match assembly_script_get_time(env, &mut store) {
        Ok(x) => Ok(x),
        Err(e) => Err(trap_of(e)),
    }
}

/// The registered form of the randomness ABI.
pub fn host_unsafe_random<I: Interface>(mut ctx: FunctionEnvMut<Env<I>>) -> Result<
    i64,
    RuntimeError,
> {
    let (env, mut store) = ctx_parts(&mut ctx);
    match assembly_script_unsafe_random(env, &mut store) {
        Ok(x) => Ok(x),
        Err(e) => Err(trap_of(e)),
    }
}

/// The foreign ledger-presence ABI: as the presence check, for the contract at a given address.
///
/// Debits exactly its bucket's price; with too little gas the counter
/// is zeroed and neither memory read nor host call happens.
pub fn assembly_script_has_data_for<I: Interface>(
    env: &Env<I>,
    store: &mut StoreMut,
    address: i32,
    key: i32,
) -> (r: Result<i32, VmError>)
    requires
        abi_pre(env.spec_handles(), *old(store)),
    ensures
        env.spec_handles() is None ==> r == Err::<i32, VmError>(VmError::MemoryUninitialized)
            && *final(store) == *old(store),
        env.spec_handles() matches Some(h) ==> (!charge_ok(*old(store), h.spec_instance(), env.settings.get_data_price)
            ==> drained(*final(store), h.spec_instance()) && r is Err),
        env.spec_handles() matches Some(h) ==> (charge_ok(*old(store), h.spec_instance(), env.settings.get_data_price)
            ==> debited(*old(store), *final(store), h.spec_instance(), env.settings.get_data_price)
            && (r matches Ok(v) ==> v == 1 || v == 0)),
{
    let h = match env.handles() {
        Some(h) => h,
        None => {
            return Err(VmError::MemoryUninitialized);
        },
    };
    if !sub_remaining_points(store, h.instance(), env.settings.get_data_price) {
        return Err(VmError::GasExhausted("assembly_script_has_data_for".to_owned()));
    }
    let address_s = match read_guest_string(&*store, h.memory(), address) {
        Ok(s) => s,
        Err(e) => {
            return Err(e);
        },
    };
    let key_s = match read_guest_string(&*store, h.memory(), key) {
        Ok(s) => s,
        Err(e) => {
            return Err(e);
        },
    };
    match env.interface.has_data_for(address_s.as_str(), key_s.as_str()) {
        Ok(true) => Ok(1),
        Ok(false) => Ok(0),
        Err(m) => Err(VmError::HostError(m)),
    }
}

/// The foreign ledger-delete ABI: as the delete, for the contract at a given address.
///
/// Debits exactly its bucket's price; with too little gas the counter
/// is zeroed and neither memory read nor host call happens.
pub fn assembly_script_delete_data_for<I: Interface>(
    env: &Env<I>,
    store: &mut StoreMut,
    address: i32,
    key: i32,
) -> (r: Result<(), VmError>)
    requires
        abi_pre(env.spec_handles(), *old(store)),
    ensures
        env.spec_handles() is None ==> r == Err::<(), VmError>(VmError::MemoryUninitialized)
            && *final(store) == *old(store),
        env.spec_handles() matches Some(h) ==> (!charge_ok(*old(store), h.spec_instance(), env.settings.set_data_price)
            ==> drained(*final(store), h.spec_instance()) && r is Err),
        env.spec_handles() matches Some(h) ==> (charge_ok(*old(store), h.spec_instance(), env.settings.set_data_price)
            ==> debited(*old(store), *final(store), h.spec_instance(), env.settings.set_data_price)),
{
    let h = match env.handles() {
        Some(h) => h,
        None => {
            return Err(VmError::MemoryUninitialized);
        },
    };
    if !sub_remaining_points(store, h.instance(), env.settings.set_data_price) {
        return Err(VmError::GasExhausted("assembly_script_delete_data_for".to_owned()));
    }
    let address_s = match read_guest_string(&*store, h.memory(), address) {
        Ok(s) => s,
        Err(e) => {
            return Err(e);
        },
    };
    let key_s = match read_guest_string(&*store, h.memory(), key) {
        Ok(s) => s,
        Err(e) => {
            return Err(e);
        },
    };
    match env.interface.raw_delete_data_for(address_s.as_str(), key_s.as_str()) {
        Ok(()) => Ok(()),
        Err(m) => Err(VmError::HostError(m)),
    }
}

/// The foreign ledger-append ABI: as the append, for the contract at a given address.
///
/// Debits exactly its bucket's price; with too little gas the counter
/// is zeroed and neither memory read nor host call happens.
pub fn assembly_script_append_data_for<I: Interface>(
    env: &Env<I>,
    store: &mut StoreMut,
    address: i32,
    key: i32,
    value: i32,
) -> (r: Result<(), VmError>)
    requires
        abi_pre(env.spec_handles(), *old(store)),
    ensures
        env.spec_handles() is None ==> r == Err::<(), VmError>(VmError::MemoryUninitialized)
            && *final(store) == *old(store),
        env.spec_handles() matches Some(h) ==> (!charge_ok(*old(store), h.spec_instance(), env.settings.set_data_price)
            ==> drained(*final(store), h.spec_instance()) && r is Err),
        env.spec_handles() matches Some(h) ==> (charge_ok(*old(store), h.spec_instance(), env.settings.set_data_price)
            ==> debited(*old(store), *final(store), h.spec_instance(), env.settings.set_data_price)),
{
    let h = match env.handles() {
        Some(h) => h,
        None => {
            return Err(VmError::MemoryUninitialized);
        },
    };
    if !sub_remaining_points(store, h.instance(), env.settings.set_data_price) {
        return Err(VmError::GasExhausted("assembly_script_append_data_for".to_owned()));
    }
    let address_s = match read_guest_string(&*store, h.memory(), address) {
        Ok(s) => s,
        Err(e) => {
            return Err(e);
        },
    };
    let key_s = match read_guest_string(&*store, h.memory(), key) {
        Ok(s) => s,
        Err(e) => {
            return Err(e);
        },
    };
    let value_s = match read_guest_string(&*store, h.memory(), value) {
        Ok(s) => s,
        Err(e) => {
            return Err(e);
        },
    };
    match env.interface.raw_append_data_for(address_s.as_str(), key_s.as_str(), value_s.as_str().as_bytes()) {
        Ok(()) => Ok(()),
        Err(m) => Err(VmError::HostError(m)),
    }
}

/// The foreign coin-transfer ABI: moves coins out of the contract at a given address.
///
/// Debits exactly its bucket's price; with too little gas the counter
/// is zeroed and neither memory read nor host call happens.
pub fn assembly_script_transfer_coins_for<I: Interface>(
    env: &Env<I>,
    store: &mut StoreMut,
    from_address: i32,
    to_address: i32,
    raw_amount: i64,
) -> (r: Result<(), VmError>)
    requires
        abi_pre(env.spec_handles(), *old(store)),
    ensures
        env.spec_handles() is None ==> r == Err::<(), VmError>(VmError::MemoryUninitialized)
            && *final(store) == *old(store),
        env.spec_handles() matches Some(h) ==> (!charge_ok(*old(store), h.spec_instance(), env.settings.configured_price)
            ==> drained(*final(store), h.spec_instance()) && r is Err),
        env.spec_handles() matches Some(h) ==> (charge_ok(*old(store), h.spec_instance(), env.settings.configured_price)
            ==> debited(*old(store), *final(store), h.spec_instance(), env.settings.configured_price)),
{
    let h = match env.handles() {
        Some(h) => h,
        None => {
            return Err(VmError::MemoryUninitialized);
        },
    };
    if !sub_remaining_points(store, h.instance(), env.settings.configured_price) {
        return Err(VmError::GasExhausted("assembly_script_transfer_coins_for".to_owned()));
    }
    let from_address_s = match read_guest_string(&*store, h.memory(), from_address) {
        Ok(s) => s,
        Err(e) => {
            return Err(e);
        },
    };
    let to_address_s = match read_guest_string(&*store, h.memory(), to_address) {
        Ok(s) => s,
        Err(e) => {
            return Err(e);
        },
    };
    let raw_amount_u: u64 = #[verifier::truncate] (raw_amount as u64);
    match env.interface.transfer_coins_for(from_address_s.as_str(), to_address_s.as_str(), raw_amount_u) {
        Ok(()) => Ok(()),
        Err(m) => Err(VmError::HostError(m)),
    }
}

/// The digest ABI: a content-addressed digest of a guest string, handed back to the caller's heap.
///
/// Debits exactly its bucket's price; with too little gas the counter
/// is zeroed and neither memory read nor host call happens.
pub fn assembly_script_hash<I: Interface>(
    env: &Env<I>,
    store: &mut StoreMut,
    data: i32,
) -> (r: Result<i32, VmError>)
    requires
        abi_pre(env.spec_handles(), *old(store)),
    ensures
        env.spec_handles() is None ==> r == Err::<i32, VmError>(VmError::MemoryUninitialized)
            && *final(store) == *old(store),
        env.spec_handles() matches Some(h) ==> (!charge_ok(*old(store), h.spec_instance(), env.settings.configured_price)
            ==> drained(*final(store), h.spec_instance()) && r is Err),
        env.spec_handles() matches Some(h) ==> (charge_ok(*old(store), h.spec_instance(), env.settings.configured_price)
            ==> gas_of(*final(store), h.spec_instance()) <= gas_of(*old(store), h.spec_instance())
            - env.settings.configured_price),
{
    let h = match env.handles() {
        Some(h) => h,
        None => {
            return Err(VmError::MemoryUninitialized);
        },
    };
    if !sub_remaining_points(store, h.instance(), env.settings.configured_price) {
        return Err(VmError::GasExhausted("assembly_script_hash".to_owned()));
    }
    let data_s = match read_guest_string(&*store, h.memory(), data) {
        Ok(s) => s,
        Err(e) => {
            return Err(e);
        },
    };
    let out = match env.interface.hash(data_s.as_str()) {
        Ok(s) => s,
        Err(m) => {
            return Err(VmError::HostError(m));
        },
    };
    alloc_guest_string(store, h.instance(), h.memory(), h.allocator(), out.as_str())
}

/// The signature ABI: reports, as 1 or 0, whether the signature over the message verifies under the public key.
///
/// Debits exactly its bucket's price; with too little gas the counter
/// is zeroed and neither memory read nor host call happens.
pub fn assembly_script_signature_verify<I: Interface>(
    env: &Env<I>,
    store: &mut StoreMut,
    public_key: i32,
    signature: i32,
    message: i32,
) -> (r: Result<i32, VmError>)
    requires
        abi_pre(env.spec_handles(), *old(store)),
    ensures
        env.spec_handles() is None ==> r == Err::<i32, VmError>(VmError::MemoryUninitialized)
            && *final(store) == *old(store),
        env.spec_handles() matches Some(h) ==> (!charge_ok(*old(store), h.spec_instance(), env.settings.configured_price)
            ==> drained(*final(store), h.spec_instance()) && r is Err),
        env.spec_handles() matches Some(h) ==> (charge_ok(*old(store), h.spec_instance(), env.settings.configured_price)
            ==> debited(*old(store), *final(store), h.spec_instance(), env.settings.configured_price)
            && (r matches Ok(v) ==> v == 1 || v == 0)),
{
    let h = match env.handles() {
        Some(h) => h,
        None => {
            return Err(VmError::MemoryUninitialized);
        },
    };
    if !sub_remaining_points(store, h.instance(), env.settings.configured_price) {
        return Err(VmError::GasExhausted("assembly_script_signature_verify".to_owned()));
    }
    let public_key_s = match read_guest_string(&*store, h.memory(), public_key) {
        Ok(s) => s,
        Err(e) => {
            return Err(e);
        },
    };
    let signature_s = match read_guest_string(&*store, h.memory(), signature) {
        Ok(s) => s,
        Err(e) => {
            return Err(e);
        },
    };
    let message_s = match read_guest_string(&*store, h.memory(), message) {
        Ok(s) => s,
        Err(e) => {
            return Err(e);
        },
    };
    match env.interface.signature_verify(public_key_s.as_str(), signature_s.as_str(), message_s.as_str()) {
        Ok(true) => Ok(1),
        Ok(false) => Ok(0),
        Err(m) => Err(VmError::HostError(m)),
    }
}

/// The address-derivation ABI: the address of a public key, handed back to the caller's heap.
///
/// Debits exactly its bucket's price; with too little gas the counter
/// is zeroed and neither memory read nor host call happens.
pub fn assembly_script_address_from_public_key<I: Interface>(
    env: &Env<I>,
    store: &mut StoreMut,
    public_key: i32,
) -> (r: Result<i32, VmError>)
    requires
        abi_pre(env.spec_handles(), *old(store)),
    ensures
        env.spec_handles() is None ==> r == Err::<i32, VmError>(VmError::MemoryUninitialized)
            && *final(store) == *old(store),
        env.spec_handles() matches Some(h) ==> (!charge_ok(*old(store), h.spec_instance(), env.settings.configured_price)
            ==> drained(*final(store), h.spec_instance()) && r is Err),
        env.spec_handles() matches Some(h) ==> (charge_ok(*old(store), h.spec_instance(), env.settings.configured_price)
            ==> gas_of(*final(store), h.spec_instance()) <= gas_of(*old(store), h.spec_instance())
            - env.settings.configured_price),
{
    let h = match env.handles() {
        Some(h) => h,
        None => {
            return Err(VmError::MemoryUninitialized);
        },
    };
    if !sub_remaining_points(store, h.instance(), env.settings.configured_price) {
        return Err(VmError::GasExhausted("assembly_script_address_from_public_key".to_owned()));
    }
    let public_key_s = match read_guest_string(&*store, h.memory(), public_key) {
        Ok(s) => s,
        Err(e) => {
            return Err(e);
        },
    };
    let out = match env.interface.address_from_public_key(public_key_s.as_str()) {
        Ok(s) => s,
        Err(m) => {
            return Err(VmError::HostError(m));
        },
    };
    alloc_guest_string(store, h.instance(), h.memory(), h.allocator(), out.as_str())
}

/// The owned-addresses ABI: the addresses the caller owns, as one formatted string in the caller's heap.
///
/// Debits exactly its bucket's price; with too little gas the counter
/// is zeroed and neither memory read nor host call happens.
pub fn assembly_script_get_owned_addresses<I: Interface>(
    env: &Env<I>,
    store: &mut StoreMut,
) -> (r: Result<i32, VmError>)
    requires
        abi_pre(env.spec_handles(), *old(store)),
    ensures
        env.spec_handles() is None ==> r == Err::<i32, VmError>(VmError::MemoryUninitialized)
            && *final(store) == *old(store),
        env.spec_handles() matches Some(h) ==> (!charge_ok(*old(store), h.spec_instance(), env.settings.configured_price)
            ==> drained(*final(store), h.spec_instance()) && r is Err),
        env.spec_handles() matches Some(h) ==> (charge_ok(*old(store), h.spec_instance(), env.settings.configured_price)
            ==> gas_of(*final(store), h.spec_instance()) <= gas_of(*old(store), h.spec_instance())
            - env.settings.configured_price),
{
    let h = match env.handles() {
        Some(h) => h,
        None => {
            return Err(VmError::MemoryUninitialized);
        },
    };
    if !sub_remaining_points(store, h.instance(), env.settings.configured_price) {
        return Err(VmError::GasExhausted("assembly_script_get_owned_addresses".to_owned()));
    }
    let out = match env.interface.get_owned_addresses() {
        Ok(s) => s,
        Err(m) => {
            return Err(VmError::HostError(m));
        },
    };
    alloc_guest_string(store, h.instance(), h.memory(), h.allocator(), out.as_str())
}

/// The raw owned-addresses ABI: the addresses the caller owns, as raw text bytes in the caller's heap.
///
/// Debits exactly its bucket's price; with too little gas the counter
/// is zeroed and neither memory read nor host call happens.
pub fn assembly_script_get_owned_addresses_raw<I: Interface>(
    env: &Env<I>,
    store: &mut StoreMut,
) -> (r: Result<i32, VmError>)
    requires
        abi_pre(env.spec_handles(), *old(store)),
    ensures
        env.spec_handles() is None ==> r == Err::<i32, VmError>(VmError::MemoryUninitialized)
            && *final(store) == *old(store),
        env.spec_handles() matches Some(h) ==> (!charge_ok(*old(store), h.spec_instance(), env.settings.configured_price)
            ==> drained(*final(store), h.spec_instance()) && r is Err),
        env.spec_handles() matches Some(h) ==> (charge_ok(*old(store), h.spec_instance(), env.settings.configured_price)
            ==> gas_of(*final(store), h.spec_instance()) <= gas_of(*old(store), h.spec_instance())
            - env.settings.configured_price),
{
    let h = match env.handles() {
        Some(h) => h,
        None => {
            return Err(VmError::MemoryUninitialized);
        },
    };
    if !sub_remaining_points(store, h.instance(), env.settings.configured_price) {
        return Err(VmError::GasExhausted("assembly_script_get_owned_addresses_raw".to_owned()));
    }
    let out = match env.interface.get_owned_addresses_raw() {
        Ok(b) => b,
        Err(m) => {
            return Err(VmError::HostError(m));
        },
    };
    pointer_from_utf8(store, h.instance(), h.memory(), h.allocator(), &out)
}

/// The call-stack ABI: the current invocation chain, as one formatted string in the caller's heap.
///
/// Debits exactly its bucket's price; with too little gas the counter
/// is zeroed and neither memory read nor host call happens.
pub fn assembly_script_get_call_stack<I: Interface>(
    env: &Env<I>,
    store: &mut StoreMut,
) -> (r: Result<i32, VmError>)
    requires
        abi_pre(env.spec_handles(), *old(store)),
    ensures
        env.spec_handles() is None ==> r == Err::<i32, VmError>(VmError::MemoryUninitialized)
            && *final(store) == *old(store),
        env.spec_handles() matches Some(h) ==> (!charge_ok(*old(store), h.spec_instance(), env.settings.configured_price)
            ==> drained(*final(store), h.spec_instance()) && r is Err),
        env.spec_handles() matches Some(h) ==> (charge_ok(*old(store), h.spec_instance(), env.settings.configured_price)
            ==> gas_of(*final(store), h.spec_instance()) <= gas_of(*old(store), h.spec_instance())
            - env.settings.configured_price),
{
    let h = match env.handles() {
        Some(h) => h,
        None => {
            return Err(VmError::MemoryUninitialized);
        },
    };
    if !sub_remaining_points(store, h.instance(), env.settings.configured_price) {
        return Err(VmError::GasExhausted("assembly_script_get_call_stack".to_owned()));
    }
    let out = match env.interface.get_call_stack() {
        Ok(s) => s,
        Err(m) => {
            return Err(VmError::HostError(m));
        },
    };
    alloc_guest_string(store, h.instance(), h.memory(), h.allocator(), out.as_str())
}

/// The raw call-stack ABI: the current invocation chain, as raw text bytes in the caller's heap.
///
/// Debits exactly its bucket's price; with too little gas the counter
/// is zeroed and neither memory read nor host call happens.
pub fn assembly_script_get_call_stack_raw<I: Interface>(
    env: &Env<I>,
    store: &mut StoreMut,
) -> (r: Result<i32, VmError>)
    requires
        abi_pre(env.spec_handles(), *old(store)),
    ensures
        env.spec_handles() is None ==> r == Err::<i32, VmError>(VmError::MemoryUninitialized)
            && *final(store) == *old(store),
        env.spec_handles() matches Some(h) ==> (!charge_ok(*old(store), h.spec_instance(), env.settings.configured_price)
            ==> drained(*final(store), h.spec_instance()) && r is Err),
        env.spec_handles() matches Some(h) ==> (charge_ok(*old(store), h.spec_instance(), env.settings.configured_price)
            ==> gas_of(*final(store), h.spec_instance()) <= gas_of(*old(store), h.spec_instance())
            - env.settings.configured_price),
{
    let h = match env.handles() {
        Some(h) => h,
        None => {
            return Err(VmError::MemoryUninitialized);
        },
    };
    if !sub_remaining_points(store, h.instance(), env.settings.configured_price) {
        return Err(VmError::GasExhausted("assembly_script_get_call_stack_raw".to_owned()));
    }
    let out = match env.interface.get_call_stack_raw() {
        Ok(b) => b,
        Err(m) => {
            return Err(VmError::HostError(m));
        },
    };
    pointer_from_utf8(store, h.instance(), h.memory(), h.allocator(), &out)
}

/// The bytecode-replacement ABI: reads a base64 module from the sandbox, decodes it, and replaces the current contract's code.
///
/// Debits exactly its bucket's price; with too little gas the counter
/// is zeroed and neither memory read nor host call happens.
pub fn assembly_script_set_bytecode<I: Interface>(
    env: &Env<I>,
    store: &mut StoreMut,
    bytecode: i32,
) -> (r: Result<(), VmError>)
    requires
        abi_pre(env.spec_handles(), *old(store)),
    ensures
        env.spec_handles() is None ==> r == Err::<(), VmError>(VmError::MemoryUninitialized)
            && *final(store) == *old(store),
        env.spec_handles() matches Some(h) ==> (!charge_ok(*old(store), h.spec_instance(), env.settings.configured_price)
            ==> drained(*final(store), h.spec_instance()) && r is Err),
        env.spec_handles() matches Some(h) ==> (charge_ok(*old(store), h.spec_instance(), env.settings.configured_price)
            ==> debited(*old(store), *final(store), h.spec_instance(), env.settings.configured_price)),
{
    let h = match env.handles() {
        Some(h) => h,
        None => {
            return Err(VmError::MemoryUninitialized);
        },
    };
    if !sub_remaining_points(store, h.instance(), env.settings.configured_price) {
        return Err(VmError::GasExhausted("assembly_script_set_bytecode".to_owned()));
    }
    let bytecode_s = match read_guest_string(&*store, h.memory(), bytecode) {
        Ok(s) => s,
        Err(e) => {
            return Err(e);
        },
    };
    let bytecode_bytes = match crate::vm::base64_decode_bytes(bytecode_s.as_str()) {
        Some(b) => b,
        None => {
            return Err(VmError::Base64DecodeError);
        },
    };
    match env.interface.set_bytecode(bytecode_bytes.as_slice()) {
        Ok(()) => Ok(()),
        Err(m) => Err(VmError::HostError(m)),
    }
}

/// The foreign bytecode-replacement ABI: as the replacement, for the contract at a given address.
///
/// Debits exactly its bucket's price; with too little gas the counter
/// is zeroed and neither memory read nor host call happens.
pub fn assembly_script_set_bytecode_for<I: Interface>(
    env: &Env<I>,
    store: &mut StoreMut,
    address: i32,
    bytecode: i32,
) -> (r: Result<(), VmError>)
    requires
        abi_pre(env.spec_handles(), *old(store)),
    ensures
        env.spec_handles() is None ==> r == Err::<(), VmError>(VmError::MemoryUninitialized)
            && *final(store) == *old(store),
        env.spec_handles() matches Some(h) ==> (!charge_ok(*old(store), h.spec_instance(), env.settings.configured_price)
            ==> drained(*final(store), h.spec_instance()) && r is Err),
        env.spec_handles() matches Some(h) ==> (charge_ok(*old(store), h.spec_instance(), env.settings.configured_price)
            ==> debited(*old(store), *final(store), h.spec_instance(), env.settings.configured_price)),
{
    let h = match env.handles() {
        Some(h) => h,
        None => {
            return Err(VmError::MemoryUninitialized);
        },
    };
    if !sub_remaining_points(store, h.instance(), env.settings.configured_price) {
        return Err(VmError::GasExhausted("assembly_script_set_bytecode_for".to_owned()));
    }
    let address_s = match read_guest_string(&*store, h.memory(), address) {
        Ok(s) => s,
        Err(e) => {
            return Err(e);
        },
    };
    let bytecode_s = match read_guest_string(&*store, h.memory(), bytecode) {
        Ok(s) => s,
        Err(e) => {
            return Err(e);
        },
    };
    let bytecode_bytes = match crate::vm::base64_decode_bytes(bytecode_s.as_str()) {
        Some(b) => b,
        None => {
            return Err(VmError::Base64DecodeError);
        },
    };
    match env.interface.set_bytecode_for(address_s.as_str(), bytecode_bytes.as_slice()) {
        Ok(()) => Ok(()),
        Err(m) => Err(VmError::HostError(m)),
    }
}

/// The period ABI: the consensus period of the current execution slot.
///
/// Debits exactly its bucket's price; with too little gas the counter
/// is zeroed and neither memory read nor host call happens.
pub fn assembly_script_get_current_period<I: Interface>(
    env: &Env<I>,
    store: &mut StoreMut,
) -> (r: Result<i64, VmError>)
    requires
        abi_pre(env.spec_handles(), *old(store)),
    ensures
        env.spec_handles() is None ==> r == Err::<i64, VmError>(VmError::MemoryUninitialized)
            && *final(store) == *old(store),
        env.spec_handles() matches Some(h) ==> (!charge_ok(*old(store), h.spec_instance(), env.settings.configured_price)
            ==> drained(*final(store), h.spec_instance()) && r is Err),
        env.spec_handles() matches Some(h) ==> (charge_ok(*old(store), h.spec_instance(), env.settings.configured_price)
            ==> debited(*old(store), *final(store), h.spec_instance(), env.settings.configured_price)),
{
    let h = match env.handles() {
        Some(h) => h,
        None => {
            return Err(VmError::MemoryUninitialized);
        },
    };
    if !sub_remaining_points(store, h.instance(), env.settings.configured_price) {
        return Err(VmError::GasExhausted("assembly_script_get_current_period".to_owned()));
    }
    match env.interface.get_current_period() {
        Ok(v) => Ok(#[verifier::truncate] (v as i64)),
        Err(m) => Err(VmError::HostError(m)),
    }
}

/// The thread ABI: the consensus thread of the current execution slot.
///
/// Debits exactly its bucket's price; with too little gas the counter
/// is zeroed and neither memory read nor host call happens.
pub fn assembly_script_get_current_thread<I: Interface>(
    env: &Env<I>,
    store: &mut StoreMut,
) -> (r: Result<i32, VmError>)
    requires
        abi_pre(env.spec_handles(), *old(store)),
    ensures
        env.spec_handles() is None ==> r == Err::<i32, VmError>(VmError::MemoryUninitialized)
            && *final(store) == *old(store),
        env.spec_handles() matches Some(h) ==> (!charge_ok(*old(store), h.spec_instance(), env.settings.configured_price)
            ==> drained(*final(store), h.spec_instance()) && r is Err),
        env.spec_handles() matches Some(h) ==> (charge_ok(*old(store), h.spec_instance(), env.settings.configured_price)
            ==> debited(*old(store), *final(store), h.spec_instance(), env.settings.configured_price)),
{
    let h = match env.handles() {
        Some(h) => h,
        None => {
            return Err(VmError::MemoryUninitialized);
        },
    };
    if !sub_remaining_points(store, h.instance(), env.settings.configured_price) {
        return Err(VmError::GasExhausted("assembly_script_get_current_thread".to_owned()));
    }
    match env.interface.get_current_thread() {
        Ok(v) => Ok(v as i32),
        Err(m) => Err(VmError::HostError(m)),
    }
}

/// The registered form of the `has_data_for` ABI.
pub fn host_has_data_for<I: Interface>(mut ctx: FunctionEnvMut<Env<I>>, address: i32, key: i32) -> Result<
    i32,
    RuntimeError,
> {
    let (env, mut store) = ctx_parts(&mut ctx);
    match assembly_script_has_data_for(env, &mut store, address, key) {
        Ok(x) => Ok(x),
        Err(e) => Err(trap_of(e)),
    }
}

/// The registered form of the `delete_data_for` ABI.
pub fn host_delete_data_for<I: Interface>(mut ctx: FunctionEnvMut<Env<I>>, address: i32, key: i32) -> Result<
    (),
    RuntimeError,
> {
    let (env, mut store) = ctx_parts(&mut ctx);
    match assembly_script_delete_data_for(env, &mut store, address, key) {
        Ok(x) => Ok(x),
        Err(e) => Err(trap_of(e)),
    }
}

/// The registered form of the `append_data_for` ABI.
pub fn host_append_data_for<I: Interface>(mut ctx: FunctionEnvMut<Env<I>>, address: i32, key: i32, value: i32) -> Result<
    (),
    RuntimeError,
> {
    let (env, mut store) = ctx_parts(&mut ctx);
    match assembly_script_append_data_for(env, &mut store, address, key, value) {
        Ok(x) => Ok(x),
        Err(e) => Err(trap_of(e)),
    }
}

/// The registered form of the `transfer_coins_for` ABI.
pub fn host_transfer_coins_for<I: Interface>(mut ctx: FunctionEnvMut<Env<I>>, from_address: i32, to_address: i32, raw_amount: i64) -> Result<
    (),
    RuntimeError,
> {
    let (env, mut store) = ctx_parts(&mut ctx);
    match assembly_script_transfer_coins_for(env, &mut store, from_address, to_address, raw_amount) {
        Ok(x) => Ok(x),
        Err(e) => Err(trap_of(e)),
    }
}

/// The registered form of the `hash` ABI.
pub fn host_hash<I: Interface>(mut ctx: FunctionEnvMut<Env<I>>, data: i32) -> Result<
    i32,
    RuntimeError,
> {
    let (env, mut store) = ctx_parts(&mut ctx);
    match assembly_script_hash(env, &mut store, data) {
        Ok(x) => Ok(x),
        Err(e) => Err(trap_of(e)),
    }
}

/// The registered form of the `signature_verify` ABI.
pub fn host_signature_verify<I: Interface>(mut ctx: FunctionEnvMut<Env<I>>, public_key: i32, signature: i32, message: i32) -> Result<
    i32,
    RuntimeError,
> {
    let (env, mut store) = ctx_parts(&mut ctx);
    match assembly_script_signature_verify(env, &mut store, public_key, signature, message) {
        Ok(x) => Ok(x),
        Err(e) => Err(trap_of(e)),
    }
}

/// The registered form of the `address_from_public_key` ABI.
pub fn host_address_from_public_key<I: Interface>(mut ctx: FunctionEnvMut<Env<I>>, public_key: i32) -> Result<
    i32,
    RuntimeError,
> {
    let (env, mut store) = ctx_parts(&mut ctx);
    match assembly_script_address_from_public_key(env, &mut store, public_key) {
        Ok(x) => Ok(x),
        Err(e) => Err(trap_of(e)),
    }
}

/// The registered form of the `get_owned_addresses` ABI.
pub fn host_get_owned_addresses<I: Interface>(mut ctx: FunctionEnvMut<Env<I>>) -> Result<
    i32,
    RuntimeError,
> {
    let (env, mut store) = ctx_parts(&mut ctx);
    match assembly_script_get_owned_addresses(env, &mut store) {
        Ok(x) => Ok(x),
        Err(e) => Err(trap_of(e)),
    }
}

/// The registered form of the `get_owned_addresses_raw` ABI.
pub fn host_get_owned_addresses_raw<I: Interface>(mut ctx: FunctionEnvMut<Env<I>>) -> Result<
    i32,
    RuntimeError,
> {
    let (env, mut store) = ctx_parts(&mut ctx);
    match assembly_script_get_owned_addresses_raw(env, &mut store) {
        Ok(x) => Ok(x),
        Err(e) => Err(trap_of(e)),
    }
}

/// The registered form of the `get_call_stack` ABI.
pub fn host_get_call_stack<I: Interface>(mut ctx: FunctionEnvMut<Env<I>>) -> Result<
    i32,
    RuntimeError,
> {
    let (env, mut store) = ctx_parts(&mut ctx);
    match assembly_script_get_call_stack(env, &mut store) {
        Ok(x) => Ok(x),
        Err(e) => Err(trap_of(e)),
    }
}

/// The registered form of the `get_call_stack_raw` ABI.
pub fn host_get_call_stack_raw<I: Interface>(mut ctx: FunctionEnvMut<Env<I>>) -> Result<
    i32,
    RuntimeError,
> {
    let (env, mut store) = ctx_parts(&mut ctx);
    match assembly_script_get_call_stack_raw(env, &mut store) {
        Ok(x) => Ok(x),
        Err(e) => Err(trap_of(e)),
    }
}

/// The registered form of the `set_bytecode` ABI.
pub fn host_set_bytecode<I: Interface>(mut ctx: FunctionEnvMut<Env<I>>, bytecode: i32) -> Result<
    (),
    RuntimeError,
> {
    let (env, mut store) = ctx_parts(&mut ctx);
    match assembly_script_set_bytecode(env, &mut store, bytecode) {
        Ok(x) => Ok(x),
        Err(e) => Err(trap_of(e)),
    }
}

/// The registered form of the `set_bytecode_for` ABI.
pub fn host_set_bytecode_for<I: Interface>(mut ctx: FunctionEnvMut<Env<I>>, address: i32, bytecode: i32) -> Result<
    (),
    RuntimeError,
> {
    let (env, mut store) = ctx_parts(&mut ctx);
    match assembly_script_set_bytecode_for(env, &mut store, address, bytecode) {
        Ok(x) => Ok(x),
        Err(e) => Err(trap_of(e)),
    }
}

/// The registered form of the `get_current_period` ABI.
pub fn host_get_current_period<I: Interface>(mut ctx: FunctionEnvMut<Env<I>>) -> Result<
    i64,
    RuntimeError,
> {
    let (env, mut store) = ctx_parts(&mut ctx);
    match assembly_script_get_current_period(env, &mut store) {
        Ok(x) => Ok(x),
        Err(e) => Err(trap_of(e)),
    }
}

/// The registered form of the `get_current_thread` ABI.
pub fn host_get_current_thread<I: Interface>(mut ctx: FunctionEnvMut<Env<I>>) -> Result<
    i32,
    RuntimeError,
> {
    let (env, mut store) = ctx_parts(&mut ctx);
    match assembly_script_get_current_thread(env, &mut store) {
        Ok(x) => Ok(x),
        Err(e) => Err(trap_of(e)),
    }
}

/// The deferred-message ABI: reads the target address, handler and data
/// payload from the sandbox and asks the host to schedule the call,
/// with the validity slots, budget, price and coins taken bitwise as
/// unsigned.
///
/// Debits exactly its bucket's price; with too little gas the counter
/// is zeroed and neither memory read nor host call happens.
pub fn assembly_script_send_message<I: Interface>(
    env: &Env<I>,
    store: &mut StoreMut,
    target_address: i32,
    target_handler: i32,
    validity_start_period: i64,
    validity_start_thread: i32,
    validity_end_period: i64,
    validity_end_thread: i32,
    max_gas: i64,
    gas_price: i64,
    coins: i64,
    data: i32,
) -> (r: Result<(), VmError>)
    requires
        abi_pre(env.spec_handles(), *old(store)),
    ensures
        env.spec_handles() is None ==> r == Err::<(), VmError>(VmError::MemoryUninitialized)
            && *final(store) == *old(store),
        env.spec_handles() matches Some(h) ==> (!charge_ok(*old(store), h.spec_instance(),
            env.settings.configured_price) ==> drained(*final(store), h.spec_instance()) && r is Err),
        env.spec_handles() matches Some(h) ==> (charge_ok(*old(store), h.spec_instance(),
            env.settings.configured_price) ==> debited(*old(store), *final(store), h.spec_instance(),
            env.settings.configured_price)),
{
    let h = match env.handles() {
        Some(h) => h,
        None => {
            return Err(VmError::MemoryUninitialized);
        },
    };
    if !sub_remaining_points(store, h.instance(), env.settings.configured_price) {
        return Err(VmError::GasExhausted("assembly_script_send_message".to_owned()));
    }
    let address_s = match read_guest_string(&*store, h.memory(), target_address) {
        Ok(s) => s,
        Err(e) => {
            return Err(e);
        },
    };
    let handler_s = match read_guest_string(&*store, h.memory(), target_handler) {
        Ok(s) => s,
        Err(e) => {
            return Err(e);
        },
    };
    let data_s = match read_guest_string(&*store, h.memory(), data) {
        Ok(s) => s,
        Err(e) => {
            return Err(e);
        },
    };
    let start_period: u64 = #[verifier::truncate] (validity_start_period as u64);
    let start_thread: u8 = #[verifier::truncate] (validity_start_thread as u8);
    let end_period: u64 = #[verifier::truncate] (validity_end_period as u64);
    let end_thread: u8 = #[verifier::truncate] (validity_end_thread as u8);
    let max_gas_u: u64 = #[verifier::truncate] (max_gas as u64);
    let gas_price_u: u64 = #[verifier::truncate] (gas_price as u64);
    let coins_u: u64 = #[verifier::truncate] (coins as u64);
    match env.interface.send_message(
        address_s.as_str(),
        handler_s.as_str(),
        (start_period, start_thread),
        (end_period, end_thread),
        max_gas_u,
        gas_price_u,
        coins_u,
        data_s.as_str().as_bytes(),
    ) {
        Ok(()) => Ok(()),
        Err(m) => Err(VmError::HostError(m)),
    }
}

/// The registered form of the deferred-message ABI.
pub fn host_send_message<I: Interface>(
    mut ctx: FunctionEnvMut<Env<I>>,
    target_address: i32,
    target_handler: i32,
    validity_start_period: i64,
    validity_start_thread: i32,
    validity_end_period: i64,
    validity_end_thread: i32,
    max_gas: i64,
    gas_price: i64,
    coins: i64,
    data: i32,
) -> Result<(), RuntimeError> {
    let (env, mut store) = ctx_parts(&mut ctx);
    match assembly_script_send_message(
        env,
        &mut store,
        target_address,
        target_handler,
        validity_start_period,
        validity_start_thread,
        validity_end_period,
        validity_end_thread,
        max_gas,
        gas_price,
        coins,
        data,
    ) {
        Ok(x) => Ok(x),
        Err(e) => Err(trap_of(e)),
    }
}

} // verus!
