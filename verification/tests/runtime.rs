//! End-to-end tests of the runtime against hand-written WebAssembly
//! modules that follow the guest conventions: an exported `memory`, an
//! exported bump allocator `__new` that writes the byte length of each
//! record just below the pointer it hands out, and entry functions that
//! take one string pointer.

use massa_sc_runtime::{exec, run_function, run_main, Interface, Settings};
use std::collections::BTreeMap;
use std::sync::{Arc, Mutex};

type Ledger = BTreeMap<String, Vec<u8>>;

/// A host whose ledger doubles as a print buffer, mirroring a node that
/// stores modules at addresses and records what contracts print.
#[derive(Clone)]
struct TestInterface(Arc<Mutex<Ledger>>);

impl Interface for TestInterface {
    fn init_call(&self, address: &str, _raw_coins: u64) -> Result<Vec<u8>, String> {
        match self.0.lock().unwrap().get(&address.to_string()) {
            Some(module) => Ok(module.clone()),
            _ => Err(format!("Cannot find module for address {}", address)),
        }
    }

    fn finish_call(&self) -> Result<(), String> {
        Ok(())
    }

    fn print(&self, message: &str) -> Result<(), String> {
        println!("{}", message);
        self.0
            .lock()
            .unwrap()
            .insert("print".into(), message.as_bytes().to_vec());
        Ok(())
    }

    fn create_module(&self, module: &[u8]) -> Result<String, String> {
        let address = String::from("get_string");
        self.0.lock().unwrap().insert(address.clone(), module.to_vec());
        Ok(address)
    }

    fn update_module(&self, address: &str, module: &[u8]) -> Result<(), String> {
        self.0
            .lock()
            .unwrap()
            .insert(address.to_string(), module.to_vec());
        Ok(())
    }

    fn raw_get_data(&self, _: &str) -> Result<Vec<u8>, String> {
        match self.0.lock().unwrap().get(&"print".to_string()) {
            Some(bytes) => Ok(bytes.clone()),
            _ => Err("Cannot find data".to_string()),
        }
    }

    fn get_call_coins(&self) -> Result<u64, String> {
        Ok(0)
    }

    fn get_balance(&self) -> Result<u64, String> {
        Ok(1)
    }

    fn get_balance_for(&self, _address: &str) -> Result<u64, String> {
        Ok(1)
    }
}

/// A WAT data segment holding a length-prefixed UTF-16LE record whose
/// data starts at `addr` (the length sits at `addr - 4`).
fn utf16_record(s: &str, addr: u32) -> String {
    let units: Vec<u16> = s.encode_utf16().collect();
    let mut bytes: Vec<u8> = Vec::new();
    bytes.extend_from_slice(&((units.len() * 2) as u32).to_le_bytes());
    for u in units {
        bytes.extend_from_slice(&u.to_le_bytes());
    }
    let escaped: String = bytes.iter().map(|b| format!("\\{:02x}", b)).collect();
    format!("(data (i32.const {}) \"{}\")", addr - 4, escaped)
}

/// A bump allocator in the AssemblyScript convention: `__new(size, id)`
/// hands out a pointer and stores `size` in the four bytes below it.
const ALLOC_WAT: &str = r#"
  (global $heap (mut i32) (i32.const 4096))
  (func $__new (export "__new") (param $size i32) (param $id i32) (result i32)
    (local $ptr i32)
    global.get $heap
    i32.const 4
    i32.add
    local.set $ptr
    local.get $ptr
    i32.const 4
    i32.sub
    local.get $size
    i32.store
    local.get $ptr
    local.get $size
    i32.add
    i32.const 8
    i32.add
    global.set $heap
    local.get $ptr)
"#;

/// A module whose `get_string` prints its argument and returns the
/// static string `"hello you"`; its `main` does nothing.
fn get_string_wat() -> String {
    format!(
        r#"(module
  (import "massa" "assembly_script_print" (func $print (param i32)))
  (memory (export "memory") 1 64)
  {hello}
  {alloc}
  (func (export "main") (param i32) (result i32)
    i32.const 0)
  (func (export "get_string") (param $p i32) (result i32)
    local.get $p
    call $print
    i32.const 48))"#,
        hello = utf16_record("hello you", 48),
        alloc = ALLOC_WAT,
    )
}

/// A module whose `main` calls `get_string.get_string("hello you")`.
fn caller_wat() -> String {
    format!(
        r#"(module
  (import "massa" "assembly_script_call" (func $call (param i32 i32 i32) (result i32)))
  (import "env" "abort" (func $abort (param i32 i32 i32 i32)))
  (memory (export "memory") 1 64)
  {addr}
  {param}
  {alloc}
  (func (export "main") (param i32) (result i32)
    i32.const 16
    i32.const 16
    i32.const 64
    call $call))"#,
        addr = utf16_record("get_string", 16),
        param = utf16_record("hello you", 64),
        alloc = ALLOC_WAT,
    )
}

/// A module whose `main` returns no value.
fn caller_no_return_wat() -> String {
    format!(
        r#"(module
  (memory (export "memory") 1 64)
  {alloc}
  (func (export "main") (param i32)))"#,
        alloc = ALLOC_WAT,
    )
}

/// A module whose `main` calls an address the host does not know.
fn local_hello_name_caller_wat() -> String {
    format!(
        r#"(module
  (import "massa" "assembly_script_call" (func $call (param i32 i32 i32) (result i32)))
  (memory (export "memory") 1 64)
  {addr}
  {func}
  {param}
  {alloc}
  (func (export "main") (param i32) (result i32)
    i32.const 16
    i32.const 64
    i32.const 112
    call $call))"#,
        addr = utf16_record("local_hello_name", 16),
        func = utf16_record("hello_name", 64),
        param = utf16_record("", 112),
        alloc = ALLOC_WAT,
    )
}

/// A module whose `main` base64-decodes an embedded payload and persists
/// it through the contract-creation ABI.
fn create_sc_wat(payload_b64: &str) -> String {
    format!(
        r#"(module
  (import "massa" "assembly_script_create_sc" (func $create_sc (param i32) (result i32)))
  (memory (export "memory") 1 64)
  {payload}
  {alloc}
  (func (export "main") (param i32) (result i32)
    i32.const 16
    call $create_sc))"#,
        payload = utf16_record(payload_b64, 16),
        alloc = ALLOC_WAT,
    )
}

/// A module lacking the conventional entry.
fn no_main_wat() -> String {
    format!(
        r#"(module
  (memory (export "memory") 1 64)
  {alloc}
  (func (export "something") (param i32) (result i32)
    i32.const 0))"#,
        alloc = ALLOC_WAT,
    )
}

fn fresh_interface() -> TestInterface {
    TestInterface(Arc::new(Mutex::new(Ledger::new())))
}

#[test]
fn test_caller() {
    let mut settings = Settings::new();
    settings.reset_metering();
    let interface = fresh_interface();
    let module = wat::parse_str(get_string_wat()).unwrap();
    interface
        .update_module("get_string", module.as_slice())
        .unwrap();
    // test only if the module is valid
    run_function(&module, 20_000, "main", "", &interface, &settings)
        .expect("Failed to run get_string.wat");
    let module = wat::parse_str(caller_wat()).unwrap();
    let a = run_function(&module, 20_000, "main", "", &interface, &settings)
        .expect("Failed to run caller.wat");
    let prev_call_price = settings.metering_call();
    settings.set_metering(0);
    let b = run_function(&module, 20_000, "main", "", &interface, &settings)
        .expect("Failed to run caller.wat");
    assert_eq!(a + prev_call_price, b);
    let v_out = interface.raw_get_data("").unwrap();
    let output = std::str::from_utf8(&v_out).unwrap();
    assert_eq!(output, "hello you");

    // Test now if we failed if metering is too hight
    settings.set_metering(15_000);
    run_function(&module, 20_000, "main", "", &interface, &settings)
        .expect_err("Expected to be out of operation gas");
}

#[test]
fn test_caller_no_return() {
    let mut settings = Settings::new();
    settings.reset_metering();
    let interface = fresh_interface();
    let module = wat::parse_str(get_string_wat()).unwrap();
    interface
        .update_module("get_string", module.as_slice())
        .unwrap();
    // test only if the module is valid
    run_function(&module, 20_000, "main", "", &interface, &settings)
        .expect("Failed to run get_string.wat");
    let module = wat::parse_str(caller_no_return_wat()).unwrap();
    run_function(&module, 20_000, "main", "", &interface, &settings)
        .expect("Failed to run caller.wat");
}

#[test]
fn test_local_hello_name_caller() {
    let mut settings = Settings::new();
    settings.reset_metering();
    // This test should verify that even if we failed to load a module,
    // we should never panic and just stop the call stack
    let interface = fresh_interface();
    let module = wat::parse_str(get_string_wat()).unwrap();
    interface
        .update_module("get_string", module.as_slice())
        .unwrap();
    run_function(&module, 100, "main", "", &interface, &settings)
        .expect("Failed to run get_string.wat");
    let module = wat::parse_str(local_hello_name_caller_wat()).unwrap();
    run_function(&module, 20_000, "main", "", &interface, &settings)
        .expect_err("Succeeded to run local_hello_name_caller.wat");
}

#[test]
fn test_module_creation() {
    let mut settings = Settings::new();
    settings.reset_metering();
    // This test should create a smartcontract module and call it
    let interface = fresh_interface();
    let payload = base64::encode(wat::parse_str(get_string_wat()).unwrap());
    let module = wat::parse_str(create_sc_wat(&payload)).unwrap();
    run_function(&module, 100_000, "main", "", &interface, &settings)
        .expect("Failed to run create_sc.wat");
    let module = wat::parse_str(caller_wat()).unwrap();
    run_function(&module, 20_000, "main", "", &interface, &settings)
        .expect("Failed to run caller.wat");
}

#[test]
fn test_not_enough_gas_error() {
    let mut settings = Settings::new();
    settings.reset_metering();
    // This test should create a smartcontract module and call it
    let interface = fresh_interface();
    let payload = base64::encode(wat::parse_str(get_string_wat()).unwrap());
    let module = wat::parse_str(create_sc_wat(&payload)).unwrap();
    run_function(&module, 100_000, "main", "", &interface, &settings)
        .expect("Failed to run create_sc.wat");
    let module = wat::parse_str(caller_wat()).unwrap();
    match run_function(&module, 10000, "main", "", &interface, &settings) {
        Ok(_) => panic!("Shouldn't pass successfully =-("),
        Err(err) => {
            assert!(err
                .message()
                .starts_with("RuntimeError: Not enough gas, limit reached at:"))
        }
    }
}

#[test]
fn test_run_without_main() {
    let mut settings = Settings::new();
    settings.reset_metering();
    let interface = fresh_interface();
    let module = wat::parse_str(no_main_wat()).unwrap();
    run_function(&module, 100_000, "main", "", &interface, &settings)
        .expect_err("An error should spawn here");
}

#[test]
fn test_run_main_without_entry_returns_limit() {
    let settings = Settings::new();
    let interface = fresh_interface();
    let module = wat::parse_str(no_main_wat()).unwrap();
    let remaining = run_main(&module, 100_000, &interface, &settings)
        .expect("a module lacking the entry is not an error for run_main");
    assert_eq!(remaining, 100_000);
}

#[test]
fn test_deterministic_replay_and_gas_bound() {
    let settings = Settings::new();
    let interface = fresh_interface();
    let module = wat::parse_str(get_string_wat()).unwrap();
    interface
        .update_module("get_string", module.as_slice())
        .unwrap();
    let module = wat::parse_str(caller_wat()).unwrap();
    let a = exec(20_000, None, &module, "main", "", &interface, &settings).unwrap();
    let b = exec(20_000, None, &module, "main", "", &interface, &settings).unwrap();
    assert_eq!(a.ret, b.ret);
    assert_eq!(a.remaining_gas, b.remaining_gas);
    assert!(a.remaining_gas <= 20_000);
    assert_eq!(a.ret, "0");
}

#[test]
fn test_gas_cost_rises_by_exactly_the_price_delta() {
    let mut settings = Settings::new();
    let interface = fresh_interface();
    let module = wat::parse_str(get_string_wat()).unwrap();
    interface
        .update_module("get_string", module.as_slice())
        .unwrap();
    let module = wat::parse_str(caller_wat()).unwrap();
    settings.set_metering(100);
    let cheap = run_function(&module, 20_000, "main", "", &interface, &settings).unwrap();
    settings.set_metering(150);
    let dear = run_function(&module, 20_000, "main", "", &interface, &settings).unwrap();
    // the call and print buckets each rose by 50
    assert_eq!(cheap, dear + 100);
}

#[test]
fn test_function_without_return_value_yields_empty_ret() {
    let settings = Settings::new();
    let interface = fresh_interface();
    let source = format!(
        r#"(module
  (memory (export "memory") 1 64)
  {alloc}
  (func (export "noret") (param i32)))"#,
        alloc = ALLOC_WAT,
    );
    let module = wat::parse_str(source).unwrap();
    let response = exec(20_000, None, &module, "noret", "", &interface, &settings).unwrap();
    assert_eq!(response.ret, "");
    assert!(response.remaining_gas <= 20_000);
}

#[test]
fn test_unreadable_return_offset_is_a_return_type_error() {
    let settings = Settings::new();
    let interface = fresh_interface();
    let source = format!(
        r#"(module
  (memory (export "memory") 1 64)
  {alloc}
  (func (export "badret") (param i32) (result i32)
    i32.const 1))"#,
        alloc = ALLOC_WAT,
    );
    let module = wat::parse_str(source).unwrap();
    let err = exec(20_000, None, &module, "badret", "", &interface, &settings).unwrap_err();
    assert_eq!(
        err.message(),
        "Execution wasn't in capacity to read the return value"
    );
}

#[test]
fn test_invalid_pointer_traps_without_host_call() {
    let settings = Settings::new();
    let interface = fresh_interface();
    // print with a pointer below the size prefix: the read fails before
    // any host delegation, so the print buffer stays empty
    let source = format!(
        r#"(module
  (import "massa" "assembly_script_print" (func $print (param i32)))
  (memory (export "memory") 1 64)
  {alloc}
  (func (export "main") (param i32) (result i32)
    i32.const 0
    call $print
    i32.const 0))"#,
        alloc = ALLOC_WAT,
    );
    let module = wat::parse_str(source).unwrap();
    run_function(&module, 20_000, "main", "", &interface, &settings)
        .expect_err("an unreadable argument must trap");
    interface
        .raw_get_data("")
        .expect_err("no host call may have happened");
}

#[test]
fn test_ill_formed_utf16_traps_without_host_call() {
    let settings = Settings::new();
    let interface = fresh_interface();
    // a record holding a lone surrogate 0xD800: well-prefixed, ill-formed
    let source = format!(
        r#"(module
  (import "massa" "assembly_script_print" (func $print (param i32)))
  (memory (export "memory") 1 64)
  (data (i32.const 12) "\02\00\00\00\00\d8")
  {alloc}
  (func (export "main") (param i32) (result i32)
    i32.const 16
    call $print
    i32.const 0))"#,
        alloc = ALLOC_WAT,
    );
    let module = wat::parse_str(source).unwrap();
    run_function(&module, 20_000, "main", "", &interface, &settings)
        .expect_err("an ill-formed argument must trap");
    interface
        .raw_get_data("")
        .expect_err("no host call may have happened");
}

#[test]
fn test_memory_beyond_page_cap_is_refused() {
    let settings = Settings::new();
    let interface = fresh_interface();
    let source = format!(
        r#"(module
  (memory (export "memory") 65 65)
  {alloc}
  (func (export "main") (param i32) (result i32)
    i32.const 0))"#,
        alloc = ALLOC_WAT,
    );
    let module = wat::parse_str(source).unwrap();
    let err = run_function(&module, 20_000, "main", "", &interface, &settings)
        .expect_err("a memory above the page cap must be refused");
    assert_eq!(
        err.message(),
        "linear memory exceeds the configured page cap"
    );
}
