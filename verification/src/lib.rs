//! A deterministic, gas-metered WebAssembly runtime for smart contracts.
//!
//! An embedder hands the runtime a compiled module, a gas budget, an
//! entrypoint name with a string argument, and an implementation of the
//! [`types::Interface`] trait exposing ledger, messaging and contextual
//! operations. The runtime instantiates the module in a sandbox, meters
//! every executed instruction and every host call against the budget,
//! mediates all calls between the contract and the host through a typed
//! ABI, and returns either a string result with the remaining gas, or a
//! typed failure.

pub mod abi;
pub mod env;
pub mod errors;
pub mod execution;
pub mod settings;
pub mod strings;
pub mod types;
pub mod vm;

pub use errors::VmError;
pub use execution::{exec, run_function, run_main};
pub use settings::Settings;
pub use types::{Interface, Response};
