//! Tests of the ledger ABIs, the error kinds, and the message shapes,
//! against a host whose ledger stores entries under their real keys.

use massa_sc_runtime::abi::u32_dec;
use massa_sc_runtime::{run_function, Interface, Settings, VmError};
use std::collections::BTreeMap;
use std::sync::{Arc, Mutex};

#[derive(Clone, Default)]
struct Shared {
    data: BTreeMap<String, Vec<u8>>,
    printed: Vec<String>,
    events: Vec<String>,
    finished_calls: u32,
    transfers: Vec<(String, u64)>,
}

/// A host with a real keyed ledger, a print log and an event log.
#[derive(Clone)]
struct LedgerInterface(Arc<Mutex<Shared>>);

impl LedgerInterface {
    fn new() -> Self {
        LedgerInterface(Arc::new(Mutex::new(Shared::default())))
    }
}

impl Interface for LedgerInterface {
    fn init_call(&self, address: &str, _raw_coins: u64) -> Result<Vec<u8>, String> {
        Err(format!("Cannot find module for address {}", address))
    }

    fn finish_call(&self) -> Result<(), String> {
        self.0.lock().unwrap().finished_calls += 1;
        Ok(())
    }

    fn print(&self, message: &str) -> Result<(), String> {
        self.0.lock().unwrap().printed.push(message.to_string());
        Ok(())
    }

    fn create_module(&self, _module: &[u8]) -> Result<String, String> {
        Ok("created".to_string())
    }

    fn update_module(&self, _address: &str, _module: &[u8]) -> Result<(), String> {
        Ok(())
    }

    fn raw_get_data(&self, key: &str) -> Result<Vec<u8>, String> {
        match self.0.lock().unwrap().data.get(key) {
            Some(v) => Ok(v.clone()),
            None => Err(format!("no entry under {}", key)),
        }
    }

    fn raw_set_data(&self, key: &str, value: &[u8]) -> Result<(), String> {
        self.0
            .lock()
            .unwrap()
            .data
            .insert(key.to_string(), value.to_vec());
        Ok(())
    }

    fn generate_event(&self, event: &str) -> Result<(), String> {
        self.0.lock().unwrap().events.push(event.to_string());
        Ok(())
    }

    fn has_data(&self, key: &str) -> Result<bool, String> {
        Ok(self.0.lock().unwrap().data.contains_key(key))
    }

    fn raw_delete_data(&self, key: &str) -> Result<(), String> {
        self.0.lock().unwrap().data.remove(key);
        Ok(())
    }

    fn raw_append_data(&self, key: &str, value: &[u8]) -> Result<(), String> {
        self.0
            .lock()
            .unwrap()
            .data
            .entry(key.to_string())
            .or_default()
            .extend_from_slice(value);
        Ok(())
    }

    fn transfer_coins(&self, to_address: &str, raw_amount: u64) -> Result<(), String> {
        self.0
            .lock()
            .unwrap()
            .transfers
            .push((to_address.to_string(), raw_amount));
        Ok(())
    }

    fn get_balance(&self) -> Result<u64, String> {
        Ok(777)
    }

    fn get_call_coins(&self) -> Result<u64, String> {
        Ok(3)
    }

    fn get_time(&self) -> Result<u64, String> {
        Ok(123456)
    }

    fn unsafe_random(&self) -> Result<i64, String> {
        Ok(-42)
    }
}

const ALLOC_WAT: &str = r#"
  (global $heap (mut i32) (i32.const 4096))
  (func $__new (export "__new") (param $size i32) (param $id i32) (result i32)
    (local $ptr i32)
    global.get $heap
    i32.const 4
    i32.add
    local.set $ptr
    local.get $ptr
    i32.const 4
    i32.sub
    local.get $size
    i32.store
    local.get $ptr
    local.get $size
    i32.add
    i32.const 8
    i32.add
    global.set $heap
    local.get $ptr)
"#;

fn utf16_record(s: &str, addr: u32) -> String {
    let units: Vec<u16> = s.encode_utf16().collect();
    let mut bytes: Vec<u8> = Vec::new();
    bytes.extend_from_slice(&((units.len() * 2) as u32).to_le_bytes());
    for u in units {
        bytes.extend_from_slice(&u.to_le_bytes());
    }
    let escaped: String = bytes.iter().map(|b| format!("\\{:02x}", b)).collect();
    format!("(data (i32.const {}) \"{}\")", addr - 4, escaped)
}

/// `main` writes `mavalue` under `makey`, reads it back, and prints it.
#[test]
fn test_set_then_get_returns_the_value_byte_for_byte() {
    let settings = Settings::new();
    let interface = LedgerInterface::new();
    let source = format!(
        r#"(module
  (import "massa" "assembly_script_set_data" (func $set (param i32 i32)))
  (import "massa" "assembly_script_get_data" (func $get (param i32) (result i32)))
  (import "massa" "assembly_script_print" (func $print (param i32)))
  (memory (export "memory") 1 64)
  {key}
  {value}
  {alloc}
  (func (export "main") (param i32) (result i32)
    i32.const 16
    i32.const 64
    call $set
    i32.const 16
    call $get
    call $print
    i32.const 0))"#,
        key = utf16_record("makey", 16),
        value = utf16_record("mavalue", 64),
        alloc = ALLOC_WAT,
    );
    let module = wat::parse_str(source).unwrap();
    run_function(&module, 50_000, "main", "", &interface, &settings).expect("run failed");
    let shared = interface.0.lock().unwrap();
    assert_eq!(shared.data.get("makey").unwrap(), b"mavalue");
    assert_eq!(shared.printed, vec!["mavalue".to_string()]);
}

#[test]
fn test_generate_event_reaches_the_host() {
    let settings = Settings::new();
    let interface = LedgerInterface::new();
    let source = format!(
        r#"(module
  (import "massa" "assembly_script_generate_event" (func $event (param i32)))
  (memory (export "memory") 1 64)
  {msg}
  {alloc}
  (func (export "main") (param i32) (result i32)
    i32.const 16
    call $event
    i32.const 0))"#,
        msg = utf16_record("minted", 16),
        alloc = ALLOC_WAT,
    );
    let module = wat::parse_str(source).unwrap();
    run_function(&module, 50_000, "main", "", &interface, &settings).expect("run failed");
    assert_eq!(interface.0.lock().unwrap().events, vec!["minted".to_string()]);
}

#[test]
fn test_missing_module_still_finishes_the_host_call() {
    let settings = Settings::new();
    let interface = LedgerInterface::new();
    let source = format!(
        r#"(module
  (import "massa" "assembly_script_call" (func $call (param i32 i32 i32) (result i32)))
  (memory (export "memory") 1 64)
  {addr}
  {func}
  {param}
  {alloc}
  (func (export "main") (param i32) (result i32)
    i32.const 16
    i32.const 64
    i32.const 112
    call $call))"#,
        addr = utf16_record("nowhere", 16),
        func = utf16_record("f", 64),
        param = utf16_record("", 112),
        alloc = ALLOC_WAT,
    );
    let module = wat::parse_str(source).unwrap();
    let err = run_function(&module, 50_000, "main", "", &interface, &settings)
        .expect_err("an unknown address must trap");
    assert!(err.message().contains("Cannot find module for address nowhere"));
    assert_eq!(interface.0.lock().unwrap().finished_calls, 1);
}

#[test]
fn test_bad_base64_is_a_decode_error() {
    let settings = Settings::new();
    let interface = LedgerInterface::new();
    let source = format!(
        r#"(module
  (import "massa" "assembly_script_create_sc" (func $create_sc (param i32) (result i32)))
  (memory (export "memory") 1 64)
  {payload}
  {alloc}
  (func (export "main") (param i32) (result i32)
    i32.const 16
    call $create_sc))"#,
        payload = utf16_record("@@not-base64@@", 16),
        alloc = ALLOC_WAT,
    );
    let module = wat::parse_str(source).unwrap();
    let err = run_function(&module, 50_000, "main", "", &interface, &settings)
        .expect_err("bad base64 must trap");
    assert!(err.message().contains("Failed to decode module"));
}

#[test]
fn test_abort_carries_message_and_location() {
    let settings = Settings::new();
    let interface = LedgerInterface::new();
    let source = format!(
        r#"(module
  (import "env" "abort" (func $abort (param i32 i32 i32 i32)))
  (memory (export "memory") 1 64)
  {msg}
  {file}
  {alloc}
  (func (export "main") (param i32) (result i32)
    i32.const 16
    i32.const 64
    i32.const 14
    i32.const 7
    call $abort
    i32.const 0))"#,
        msg = utf16_record("boom", 16),
        file = utf16_record("index.ts", 64),
        alloc = ALLOC_WAT,
    );
    let module = wat::parse_str(source).unwrap();
    let err = run_function(&module, 50_000, "main", "", &interface, &settings)
        .expect_err("abort must trap");
    assert!(err
        .message()
        .starts_with("RuntimeError: abort: boom at index.ts line 14 col 7"));
}

#[test]
fn test_unknown_import_is_an_instantiation_error() {
    let settings = Settings::new();
    let interface = LedgerInterface::new();
    let source = r#"(module
  (import "massa" "assembly_script_no_such_abi" (func $nope (param i32)))
  (memory (export "memory") 1 64)
  (func (export "main") (param i32) (result i32)
    i32.const 0))"#;
    let module = wat::parse_str(source).unwrap();
    let err = run_function(&module, 50_000, "main", "", &interface, &settings)
        .expect_err("an unresolved import must fail instantiation");
    assert!(err.message().starts_with("instantiation error: "));
}

#[test]
fn test_invalid_bytecode_is_a_compilation_error() {
    let settings = Settings::new();
    let interface = LedgerInterface::new();
    let module: Vec<u8> = vec![0u8, 1, 2, 3];
    let err = run_function(&module, 50_000, "main", "", &interface, &settings)
        .expect_err("junk bytes must fail compilation");
    assert!(err.message().starts_with("compilation error: "));
}

#[test]
fn test_module_without_allocator_is_an_export_error() {
    let settings = Settings::new();
    let interface = LedgerInterface::new();
    let source = r#"(module
  (memory (export "memory") 1 64)
  (func (export "main") (param i32) (result i32)
    i32.const 0))"#;
    let module = wat::parse_str(source).unwrap();
    let err = run_function(&module, 50_000, "main", "", &interface, &settings)
        .expect_err("a module without an allocator cannot host strings");
    assert!(err.message().starts_with("missing export: "));
}

#[test]
fn test_unsupported_host_operation_message() {
    let settings = Settings::new();
    // LedgerInterface keeps the default foreign-ledger read, which fails
    let interface = LedgerInterface::new();
    let source = format!(
        r#"(module
  (import "massa" "assembly_script_get_data_for" (func $get_for (param i32 i32) (result i32)))
  (memory (export "memory") 1 64)
  {addr}
  {key}
  {alloc}
  (func (export "main") (param i32) (result i32)
    i32.const 16
    i32.const 64
    call $get_for))"#,
        addr = utf16_record("other", 16),
        key = utf16_record("k", 64),
        alloc = ALLOC_WAT,
    );
    let module = wat::parse_str(source).unwrap();
    let err = run_function(&module, 50_000, "main", "", &interface, &settings)
        .expect_err("the default foreign read must fail");
    assert!(err
        .message()
        .contains("unsupported host operation: get_data_for"));
}

#[test]
fn test_decimal_formatting_is_exact() {
    assert_eq!(u32_dec(0), "0");
    assert_eq!(u32_dec(7), "7");
    assert_eq!(u32_dec(10), "10");
    assert_eq!(u32_dec(90210), "90210");
    assert_eq!(u32_dec(4294967295), "4294967295");
}

#[test]
fn test_error_messages_are_exact() {
    assert_eq!(
        VmError::GasExhausted("main".to_string()).message(),
        "Not enough gas, limit reached at: main"
    );
    assert_eq!(VmError::MemoryUninitialized.message(), "uninitialized memory");
    assert_eq!(VmError::Base64DecodeError.message(), "Failed to decode module");
    assert_eq!(
        VmError::ReturnTypeError.message(),
        "Execution wasn't in capacity to read the return value"
    );
    assert_eq!(VmError::Trap("RuntimeError: x".to_string()).message(), "RuntimeError: x");
    assert_eq!(VmError::HostError("h".to_string()).message(), "h");
}

#[test]
fn test_settings_table() {
    let mut settings = Settings::new();
    assert_eq!(settings.metering_print(), 0);
    assert_eq!(settings.max_number_of_pages(), 64);
    let default_call = settings.metering_call();
    settings.set_metering(41);
    assert_eq!(settings.metering_call(), 41);
    assert_eq!(settings.metering_print(), 41);
    assert_eq!(settings.metering_get_data(), 41);
    assert_eq!(settings.metering_set_data(), 41);
    assert_eq!(settings.metering_create_sc(), 41);
    assert_eq!(settings.metering_remaining_points(), 41);
    settings.reset_metering();
    assert_eq!(settings.metering_call(), default_call);
    assert_eq!(settings.metering_print(), 0);
}

/// `main` appends twice under one key, checks presence, deletes, and
/// checks absence; a print of the appended value in between pins the
/// bytes.
#[test]
fn test_append_has_and_delete_data() {
    let settings = Settings::new();
    let interface = LedgerInterface::new();
    let source = format!(
        r#"(module
  (import "massa" "assembly_script_append_data" (func $append (param i32 i32)))
  (import "massa" "assembly_script_has_data" (func $has (param i32) (result i32)))
  (import "massa" "assembly_script_delete_data" (func $del (param i32)))
  (import "massa" "assembly_script_get_data" (func $get (param i32) (result i32)))
  (import "massa" "assembly_script_print" (func $print (param i32)))
  (memory (export "memory") 1 64)
  {key}
  {value}
  {alloc}
  (func (export "main") (param i32) (result i32)
    i32.const 16
    i32.const 64
    call $append
    i32.const 16
    i32.const 64
    call $append
    i32.const 16
    call $get
    call $print
    ;; presence before and after the delete, folded into one value
    i32.const 16
    call $has
    i32.const 16
    call $del
    i32.const 16
    call $has
    i32.const 2
    i32.mul
    i32.add
    ;; 1 (was there) + 2 * 0 (gone) must be 1: trap otherwise
    i32.const 1
    i32.ne
    if
      unreachable
    end
    i32.const 0))"#,
        key = utf16_record("makey", 16),
        value = utf16_record("ab", 64),
        alloc = ALLOC_WAT,
    );
    let module = wat::parse_str(source).unwrap();
    run_function(&module, 50_000, "main", "", &interface, &settings).expect("run failed");
    let shared = interface.0.lock().unwrap();
    assert_eq!(shared.printed, vec!["abab".to_string()]);
    assert!(!shared.data.contains_key("makey"));
}

/// `main` moves 555 coins and checks the balance, the call coins, the
/// time and the host randomness, trapping on any unexpected value.
#[test]
fn test_coins_time_and_randomness() {
    let settings = Settings::new();
    let interface = LedgerInterface::new();
    let source = format!(
        r#"(module
  (import "massa" "assembly_script_transfer_coins" (func $transfer (param i32 i64)))
  (import "massa" "assembly_script_get_balance" (func $balance (result i64)))
  (import "massa" "assembly_script_get_call_coins" (func $coins (result i64)))
  (import "massa" "assembly_script_get_time" (func $time (result i64)))
  (import "massa" "assembly_script_unsafe_random" (func $random (result i64)))
  (memory (export "memory") 1 64)
  {to}
  {alloc}
  (func $check (param $got i64) (param $want i64)
    local.get $got
    local.get $want
    i64.ne
    if
      unreachable
    end)
  (func (export "main") (param i32) (result i32)
    i32.const 16
    i64.const 555
    call $transfer
    call $balance
    i64.const 777
    call $check
    call $coins
    i64.const 3
    call $check
    call $time
    i64.const 123456
    call $check
    call $random
    i64.const -42
    call $check
    i32.const 0))"#,
        to = utf16_record("alice", 16),
        alloc = ALLOC_WAT,
    );
    let module = wat::parse_str(source).unwrap();
    run_function(&module, 50_000, "main", "", &interface, &settings).expect("run failed");
    assert_eq!(
        interface.0.lock().unwrap().transfers,
        vec![("alice".to_string(), 555u64)]
    );
}

/// `main` exercises the introspection and cryptography ABIs: the digest
/// and derived address are printed, the signature check, call stack,
/// owned addresses and consensus coordinates are asserted in-guest.
#[test]
fn test_crypto_and_context_abis() {
    let settings = Settings::new();
    let interface = CryptoInterface;
    let source = format!(
        r#"(module
  (import "massa" "assembly_script_hash" (func $hash (param i32) (result i32)))
  (import "massa" "assembly_script_signature_verify" (func $sigv (param i32 i32 i32) (result i32)))
  (import "massa" "assembly_script_address_from_public_key" (func $apk (param i32) (result i32)))
  (import "massa" "assembly_script_get_owned_addresses" (func $owned (result i32)))
  (import "massa" "assembly_script_get_call_stack" (func $stack (result i32)))
  (import "massa" "assembly_script_get_current_period" (func $period (result i64)))
  (import "massa" "assembly_script_get_current_thread" (func $thread (result i32)))
  (import "massa" "assembly_script_print" (func $print (param i32)))
  (memory (export "memory") 1 64)
  {data}
  {alloc}
  (func (export "main") (param i32) (result i32)
    i32.const 16
    call $hash
    call $print
    i32.const 16
    call $apk
    call $print
    call $owned
    call $print
    call $stack
    call $print
    i32.const 16
    i32.const 16
    i32.const 16
    call $sigv
    i32.const 1
    i32.ne
    if
      unreachable
    end
    call $period
    i64.const 9
    i64.ne
    if
      unreachable
    end
    call $thread
    i32.const 4
    i32.ne
    if
      unreachable
    end
    i32.const 0))"#,
        data = utf16_record("payload", 16),
        alloc = ALLOC_WAT,
    );
    let module = wat::parse_str(source).unwrap();
    run_function(&module, 100_000, "main", "", &interface, &settings).expect("run failed");
}

/// A host answering the cryptography and context queries with fixed
/// values, and collecting nothing.
#[derive(Clone)]
struct CryptoInterface;

impl Interface for CryptoInterface {
    fn init_call(&self, address: &str, _raw_coins: u64) -> Result<Vec<u8>, String> {
        Err(format!("Cannot find module for address {}", address))
    }

    fn finish_call(&self) -> Result<(), String> {
        Ok(())
    }

    fn print(&self, _message: &str) -> Result<(), String> {
        Ok(())
    }

    fn create_module(&self, _module: &[u8]) -> Result<String, String> {
        Ok("created".to_string())
    }

    fn update_module(&self, _address: &str, _module: &[u8]) -> Result<(), String> {
        Ok(())
    }

    fn raw_get_data(&self, key: &str) -> Result<Vec<u8>, String> {
        Err(format!("no entry under {}", key))
    }

    fn hash(&self, data: &str) -> Result<String, String> {
        Ok(format!("h({})", data))
    }

    fn signature_verify(&self, pk: &str, sig: &str, msg: &str) -> Result<bool, String> {
        Ok(pk == sig && sig == msg)
    }

    fn address_from_public_key(&self, public_key: &str) -> Result<String, String> {
        Ok(format!("A{}", public_key))
    }

    fn get_owned_addresses(&self) -> Result<String, String> {
        Ok("[addr1, addr2]".to_string())
    }

    fn get_call_stack(&self) -> Result<String, String> {
        Ok("[addr1]".to_string())
    }

    fn get_current_period(&self) -> Result<u64, String> {
        Ok(9)
    }

    fn get_current_thread(&self) -> Result<u8, String> {
        Ok(4)
    }

    fn set_bytecode(&self, _bytecode: &[u8]) -> Result<(), String> {
        Ok(())
    }
}

/// `main` replaces its own bytecode with a decoded base64 payload; the
/// host accepting it is enough, a bad payload must trap instead.
#[test]
fn test_set_bytecode_decodes_before_the_host_call() {
    let settings = Settings::new();
    let interface = CryptoInterface;
    let good = base64::encode(b"\0asm");
    let source_ok = format!(
        r#"(module
  (import "massa" "assembly_script_set_bytecode" (func $setb (param i32)))
  (memory (export "memory") 1 64)
  {data}
  {alloc}
  (func (export "main") (param i32) (result i32)
    i32.const 16
    call $setb
    i32.const 0))"#,
        data = utf16_record(&good, 16),
        alloc = ALLOC_WAT,
    );
    let module = wat::parse_str(source_ok).unwrap();
    run_function(&module, 50_000, "main", "", &interface, &settings).expect("run failed");
    let source_bad = format!(
        r#"(module
  (import "massa" "assembly_script_set_bytecode" (func $setb (param i32)))
  (memory (export "memory") 1 64)
  {data}
  {alloc}
  (func (export "main") (param i32) (result i32)
    i32.const 16
    call $setb
    i32.const 0))"#,
        data = utf16_record("!!bad!!", 16),
        alloc = ALLOC_WAT,
    );
    let module = wat::parse_str(source_bad).unwrap();
    let err = run_function(&module, 50_000, "main", "", &interface, &settings)
        .expect_err("bad base64 must trap");
    assert!(err.message().contains("Failed to decode module"));
}

/// A module that declares no memory maximum could grow past the page
/// cap, so it is refused outright.
#[test]
fn test_memory_without_maximum_is_refused() {
    let settings = Settings::new();
    let interface = LedgerInterface::new();
    let source = format!(
        r#"(module
  (memory (export "memory") 1)
  {alloc}
  (func (export "main") (param i32) (result i32)
    i32.const 0))"#,
        alloc = ALLOC_WAT,
    );
    let module = wat::parse_str(source).unwrap();
    let err = run_function(&module, 50_000, "main", "", &interface, &settings)
        .expect_err("a memory without a declared maximum must be refused");
    assert_eq!(
        err.message(),
        "linear memory exceeds the configured page cap"
    );
}

/// A host recording the one deferred message it is asked to schedule.
#[derive(Clone)]
struct MessageInterface(Arc<Mutex<Vec<(String, String, u64, u8, u64, u8, u64, u64, u64, Vec<u8>)>>>);

impl Interface for MessageInterface {
    fn init_call(&self, address: &str, _raw_coins: u64) -> Result<Vec<u8>, String> {
        Err(format!("Cannot find module for address {}", address))
    }

    fn finish_call(&self) -> Result<(), String> {
        Ok(())
    }

    fn print(&self, _message: &str) -> Result<(), String> {
        Ok(())
    }

    fn create_module(&self, _module: &[u8]) -> Result<String, String> {
        Ok("created".to_string())
    }

    fn update_module(&self, _address: &str, _module: &[u8]) -> Result<(), String> {
        Ok(())
    }

    fn raw_get_data(&self, key: &str) -> Result<Vec<u8>, String> {
        Err(format!("no entry under {}", key))
    }

    fn send_message(
        &self,
        target_address: &str,
        target_handler: &str,
        validity_start: (u64, u8),
        validity_end: (u64, u8),
        max_gas: u64,
        gas_price: u64,
        coins: u64,
        data: &[u8],
    ) -> Result<(), String> {
        self.0.lock().unwrap().push((
            target_address.to_string(),
            target_handler.to_string(),
            validity_start.0,
            validity_start.1,
            validity_end.0,
            validity_end.1,
            max_gas,
            gas_price,
            coins,
            data.to_vec(),
        ));
        Ok(())
    }
}

/// `main` schedules one deferred call; the host must see every field.
#[test]
fn test_send_message_reaches_the_host() {
    let settings = Settings::new();
    let interface = MessageInterface(Arc::new(Mutex::new(Vec::new())));
    let source = format!(
        r#"(module
  (import "massa" "assembly_script_send_message" (func $send
    (param i32 i32 i64 i32 i64 i32 i64 i64 i64 i32)))
  (memory (export "memory") 1 64)
  {addr}
  {handler}
  {payload}
  {alloc}
  (func (export "main") (param i32) (result i32)
    i32.const 16
    i32.const 64
    i64.const 11
    i32.const 2
    i64.const 12
    i32.const 3
    i64.const 500000
    i64.const 1
    i64.const 77
    i32.const 112
    call $send
    i32.const 0))"#,
        addr = utf16_record("target", 16),
        handler = utf16_record("on_tick", 64),
        payload = utf16_record("pl", 112),
        alloc = ALLOC_WAT,
    );
    let module = wat::parse_str(source).unwrap();
    run_function(&module, 50_000, "main", "", &interface, &settings).expect("run failed");
    let sent = interface.0.lock().unwrap();
    assert_eq!(sent.len(), 1);
    let m = &sent[0];
    assert_eq!(m.0, "target");
    assert_eq!(m.1, "on_tick");
    assert_eq!((m.2, m.3, m.4, m.5), (11, 2, 12, 3));
    assert_eq!((m.6, m.7, m.8), (500000, 1, 77));
    assert_eq!(m.9, b"pl");
}
