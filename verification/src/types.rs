use vstd::prelude::*;

verus! {

/// What a successful invocation hands back to the embedder.
#[derive(Debug, Clone, PartialEq, Eq)]
pub struct Response {
    /// The string returned by the invoked function, empty when the
    /// function returned no value, and `"0"` for the conventional entry.
    pub ret: String,
    /// The gas left after the invocation.
    pub remaining_gas: u64,
}

/// The host interface: ledger, messaging and contextual operations that
/// the embedder implements and the ABI delegates to.
///
/// Every operation is fallible with a string error message; the runtime
/// converts a failure into a guest trap carrying that message verbatim.
/// Operations that an embedder does not offer keep their default body,
/// which fails.
pub trait Interface: Sized + Clone + Send + core::marker::Sync + 'static {
    /// Hands back the bytecode stored at `address` and pushes a frame on
    /// the host's own call stack; `raw_coins` are transferred to the
    /// callee.
    fn init_call(&self, address: &str, raw_coins: u64) -> Result<Vec<u8>, String>;

    /// Pops the frame pushed by `init_call`, whether the nested call
    /// returned or trapped.
    fn finish_call(&self) -> Result<(), String>;

    /// Prints `message` on whatever the host uses for output.
    fn print(&self, message: &str) -> Result<(), String>;

    /// Persists `module` as a new contract and hands back the address
    /// the host chose for it.
    fn create_module(&self, module: &[u8]) -> Result<String, String>;

    /// Replaces the bytecode stored at `address`.
    fn update_module(&self, address: &str, module: &[u8]) -> Result<(), String>;

    /// Reads the current contract's ledger entry at `key`.
    fn raw_get_data(&self, key: &str) -> Result<Vec<u8>, String>;

    /// Writes `value` into the current contract's ledger at `key`.
    fn raw_set_data(&self, key: &str, value: &[u8]) -> (r: Result<(), String>) {
        let _ = key;
        let _ = value;
        Err("unsupported host operation: raw_set_data".to_owned())
    }

    /// Reads the ledger entry of the contract at `address` at `key`.
    fn get_data_for(&self, address: &str, key: &str) -> (r: Result<Vec<u8>, String>) {
        let _ = address;
        let _ = key;
        Err("unsupported host operation: get_data_for".to_owned())
    }

    /// Writes `value` into the ledger of the contract at `address` at
    /// `key`.
    fn set_data_for(&self, address: &str, key: &str, value: &[u8]) -> (r: Result<(), String>) {
        let _ = address;
        let _ = key;
        let _ = value;
        Err("unsupported host operation: set_data_for".to_owned())
    }

    /// The coins attached to the current call.
    fn get_call_coins(&self) -> (r: Result<u64, String>) {
        Err("unsupported host operation: get_call_coins".to_owned())
    }

    /// The balance of the current contract.
    fn get_balance(&self) -> (r: Result<u64, String>) {
        Err("unsupported host operation: get_balance".to_owned())
    }

    /// The balance of the contract at `address`.
    fn get_balance_for(&self, address: &str) -> (r: Result<u64, String>) {
        let _ = address;
        Err("unsupported host operation: get_balance_for".to_owned())
    }

    /// Emits `event` to the host.
    fn generate_event(&self, event: &str) -> (r: Result<(), String>) {
        let _ = event;
        Err("unsupported host operation: generate_event".to_owned())
    }

    /// Whether the current contract's ledger holds an entry at `key`.
    fn has_data(&self, key: &str) -> (r: Result<bool, String>) {
        let _ = key;
        Err("unsupported host operation: has_data".to_owned())
    }

    /// Removes the current contract's ledger entry at `key`.
    fn raw_delete_data(&self, key: &str) -> (r: Result<(), String>) {
        let _ = key;
        Err("unsupported host operation: raw_delete_data".to_owned())
    }

    /// Appends `value` to the current contract's ledger entry at `key`.
    fn raw_append_data(&self, key: &str, value: &[u8]) -> (r: Result<(), String>) {
        let _ = key;
        let _ = value;
        Err("unsupported host operation: raw_append_data".to_owned())
    }

    /// Moves `raw_amount` coins from the current contract to `to_address`.
    fn transfer_coins(&self, to_address: &str, raw_amount: u64) -> (r: Result<(), String>) {
        let _ = to_address;
        let _ = raw_amount;
        Err("unsupported host operation: transfer_coins".to_owned())
    }

    /// The host's logical time.
    fn get_time(&self) -> (r: Result<u64, String>) {
        Err("unsupported host operation: get_time".to_owned())
    }

    /// The host's deterministic per-invocation pseudo-randomness.
    fn unsafe_random(&self) -> (r: Result<i64, String>) {
        Err("unsupported host operation: unsafe_random".to_owned())
    }

    /// Whether the ledger of the contract at `address` holds an entry at
    /// `key`.
    fn has_data_for(&self, address: &str, key: &str) -> (r: Result<bool, String>) {
        let _ = address;
        let _ = key;
        Err("unsupported host operation: has_data_for".to_owned())
    }

    /// Removes the ledger entry of the contract at `address` at `key`.
    fn raw_delete_data_for(&self, address: &str, key: &str) -> (r: Result<(), String>) {
        let _ = address;
        let _ = key;
        Err("unsupported host operation: raw_delete_data_for".to_owned())
    }

    /// Appends `value` to the ledger entry of the contract at `address`
    /// at `key`.
    fn raw_append_data_for(&self, address: &str, key: &str, value: &[u8]) -> (r: Result<
        (),
        String,
    >) {
        let _ = address;
        let _ = key;
        let _ = value;
        Err("unsupported host operation: raw_append_data_for".to_owned())
    }

    /// Moves `raw_amount` coins from the contract at `from_address` to
    /// `to_address`.
    fn transfer_coins_for(
        &self,
        from_address: &str,
        to_address: &str,
        raw_amount: u64,
    ) -> (r: Result<(), String>) {
        let _ = from_address;
        let _ = to_address;
        let _ = raw_amount;
        Err("unsupported host operation: transfer_coins_for".to_owned())
    }

    /// A content-addressed digest of `data`.
    fn hash(&self, data: &str) -> (r: Result<String, String>) {
        let _ = data;
        Err("unsupported host operation: hash".to_owned())
    }

    /// Whether `signature` over `message` verifies under `public_key`.
    fn signature_verify(
        &self,
        public_key: &str,
        signature: &str,
        message: &str,
    ) -> (r: Result<bool, String>) {
        let _ = public_key;
        let _ = signature;
        let _ = message;
        Err("unsupported host operation: signature_verify".to_owned())
    }

    /// The address derived from `public_key`.
    fn address_from_public_key(&self, public_key: &str) -> (r: Result<String, String>) {
        let _ = public_key;
        Err("unsupported host operation: address_from_public_key".to_owned())
    }

    /// The addresses the caller owns, as one formatted string.
    fn get_owned_addresses(&self) -> (r: Result<String, String>) {
        Err("unsupported host operation: get_owned_addresses".to_owned())
    }

    /// The addresses the caller owns, as raw bytes.
    fn get_owned_addresses_raw(&self) -> (r: Result<Vec<u8>, String>) {
        Err("unsupported host operation: get_owned_addresses_raw".to_owned())
    }

    /// The current invocation chain, as one formatted string.
    fn get_call_stack(&self) -> (r: Result<String, String>) {
        Err("unsupported host operation: get_call_stack".to_owned())
    }

    /// The current invocation chain, as raw bytes.
    fn get_call_stack_raw(&self) -> (r: Result<Vec<u8>, String>) {
        Err("unsupported host operation: get_call_stack_raw".to_owned())
    }

    /// Replaces the current contract's bytecode.
    fn set_bytecode(&self, bytecode: &[u8]) -> (r: Result<(), String>) {
        let _ = bytecode;
        Err("unsupported host operation: set_bytecode".to_owned())
    }

    /// Replaces the bytecode of the contract at `address`.
    fn set_bytecode_for(&self, address: &str, bytecode: &[u8]) -> (r: Result<(), String>) {
        let _ = address;
        let _ = bytecode;
        Err("unsupported host operation: set_bytecode_for".to_owned())
    }

    /// The consensus period of the current execution slot.
    fn get_current_period(&self) -> (r: Result<u64, String>) {
        Err("unsupported host operation: get_current_period".to_owned())
    }

    /// The consensus thread of the current execution slot.
    fn get_current_thread(&self) -> (r: Result<u8, String>) {
        Err("unsupported host operation: get_current_thread".to_owned())
    }

    /// Schedules a deferred call of `target_handler` on the contract at
    /// `target_address`, valid between the two (period, thread) slots,
    /// with a gas budget, a gas price, attached coins, and a data
    /// payload.
    fn send_message(
        &self,
        target_address: &str,
        target_handler: &str,
        validity_start: (u64, u8),
        validity_end: (u64, u8),
        max_gas: u64,
        gas_price: u64,
        coins: u64,
        data: &[u8],
    ) -> (r: Result<(), String>) {
        let _ = target_address;
        let _ = target_handler;
        let _ = validity_start;
        let _ = validity_end;
        let _ = max_gas;
        let _ = gas_price;
        let _ = coins;
        let _ = data;
        Err("unsupported host operation: send_message".to_owned())
    }
}

} // verus!
