use vstd::prelude::*;
use vstd::string::StringExecFns;

verus! {

/// A failure surfaced to the embedder.
///
/// Every failure carries a human-readable message, read with
/// [`VmError::message`], and a discriminator naming its kind.
#[derive(Debug, Clone)]
pub enum VmError {
    /// The module could not be compiled.
    CompilationError(String),
    /// The compiled module could not be instantiated, a missing import
    /// among the causes.
    InstantiationError(String),
    /// A module declared a linear memory larger than the configured
    /// page cap.
    PageCapExceeded,
    /// An exported item needed by the invocation is missing.
    ExportError(String),
    /// An ABI function ran before the sandbox's memory was published.
    MemoryUninitialized,
    /// A string argument could not be read from the sandbox's memory.
    ArgumentReadError(String),
    /// The host interface reported a failure; the message is the host's,
    /// verbatim.
    HostError(String),
    /// A string could not be allocated in the guest's heap.
    AllocationError(String),
    /// The gas budget ran out; carries the name of the invoked function.
    GasExhausted(String),
    /// Bytes handed back by the host were not valid text.
    InvalidUtf8,
    /// A bytecode argument was not valid base64.
    Base64DecodeError,
    /// The invoked function returned a value that is not a readable
    /// string offset.
    ReturnTypeError,
    /// The guest trapped; the message is the trap's, verbatim.
    Trap(String),
}

impl VmError {
    /// The human-readable message of this failure.
    ///
    /// A gas exhaustion reads `Not enough gas, limit reached at: <fn>`;
    /// a guest trap and a host failure are reported verbatim.
    pub fn message(&self) -> (r: String)
        ensures
            r@ == self.spec_message(),
    {
        match self {
            VmError::CompilationError(m) => "compilation error: ".to_owned().concat(
                m.as_str(),
            ),
            VmError::InstantiationError(m) => "instantiation error: ".to_owned().concat(
                m.as_str(),
            ),
            VmError::PageCapExceeded => "linear memory exceeds the configured page cap".to_owned(),
            VmError::ExportError(m) => "missing export: ".to_owned().concat(m.as_str()),
            VmError::MemoryUninitialized => "uninitialized memory".to_owned(),
            VmError::ArgumentReadError(m) => m.clone(),
            VmError::HostError(m) => m.clone(),
            VmError::AllocationError(m) => "allocation failed: ".to_owned().concat(m.as_str()),
            VmError::GasExhausted(f) => "Not enough gas, limit reached at: ".to_owned().concat(
                f.as_str(),
            ),
            VmError::InvalidUtf8 => "invalid utf-8 sequence".to_owned(),
            VmError::Base64DecodeError => "Failed to decode module".to_owned(),
            VmError::ReturnTypeError => {
                "Execution wasn't in capacity to read the return value".to_owned()
            },
            VmError::Trap(m) => m.clone(),
        }
    }

    /// The message of each kind, as a sequence of characters.
    pub open spec fn spec_message(self) -> Seq<char> {
        match self {
            VmError::CompilationError(m) => "compilation error: "@ + m@,
            VmError::InstantiationError(m) => "instantiation error: "@ + m@,
            VmError::PageCapExceeded => "linear memory exceeds the configured page cap"@,
            VmError::ExportError(m) => "missing export: "@ + m@,
            VmError::MemoryUninitialized => "uninitialized memory"@,
            VmError::ArgumentReadError(m) => m@,
            VmError::HostError(m) => m@,
            VmError::AllocationError(m) => "allocation failed: "@ + m@,
            VmError::GasExhausted(f) => "Not enough gas, limit reached at: "@ + f@,
            VmError::InvalidUtf8 => "invalid utf-8 sequence"@,
            VmError::Base64DecodeError => "Failed to decode module"@,
            VmError::ReturnTypeError => "Execution wasn't in capacity to read the return value"@,
            VmError::Trap(m) => m@,
        }
    }
}

} // verus!
