//! The string-passing ABI.
//!
//! Strings live in the guest's linear memory as length-prefixed UTF-16
//! records, the format the guest's own allocator produces: the pointer
//! addresses the UTF-16LE data, and the four bytes just below it hold
//! the byte length, little-endian. The runtime reads such a record by
//! fetching the prefix and the data, and writes one by asking the
//! guest's allocator for room (the allocator itself writes the prefix)
//! and copying the data in.

use vstd::prelude::*;

use crate::errors::VmError;
use crate::vm::{
    budget_of, call_guest, gas_of, mem_read, mem_write, metered, store_id, store_of_function,
    store_of_instance, store_of_memory, utf16_to_string, utf16_units, value_as_i32,
};
use wasmer::{Function, Instance, Memory, StoreMut};

verus! {

/// The little-endian 32-bit value held by four bytes.
pub open spec fn spec_u32_le(b: Seq<u8>) -> int {
    b[0] + 256 * b[1] + 65536 * b[2] + 16777216 * b[3]
}

/// Reads a little-endian u32 from four bytes.
pub fn u32_from_le(bytes: &[u8]) -> (r: u32)
    requires
        bytes@.len() == 4,
    ensures
        r == spec_u32_le(bytes@),
{
    let b0: u32 = bytes[0] as u32;
    let b1: u32 = bytes[1] as u32;
    let b2: u32 = bytes[2] as u32;
    let b3: u32 = bytes[3] as u32;
    b0 + 256 * b1 + 65536 * b2 + 16777216 * b3
}

/// Pairs little-endian bytes into UTF-16 code units.
pub fn le_bytes_to_u16s(bytes: &[u8]) -> (r: Vec<u16>)
    requires
        bytes@.len() % 2 == 0,
    ensures
        r@.len() == bytes@.len() / 2,
        forall|i: int|
            0 <= i < r@.len() ==> r@[i] == bytes@[2 * i] + 256 * bytes@[2 * i + 1],
{
    let len: usize = bytes.len();
    let n: usize = len / 2;
    let mut r: Vec<u16> = Vec::new();
    let mut i: usize = 0;
    while i < n
        invariant
            len == bytes@.len(),
            n == len / 2,
            bytes@.len() % 2 == 0,
            i <= n,
            r@.len() == i,
            forall|j: int|
                0 <= j < i ==> r@[j] == bytes@[2 * j] + 256 * bytes@[2 * j + 1],
        decreases n - i,
    {
        proof {
            assert(len == 2 * (len / 2));
            assert(2 * i + 1 < len);
        }
        let lo: u16 = bytes[2 * i] as u16;
        let hi: u16 = bytes[2 * i + 1] as u16;
        r.push(lo + 256 * hi);
        i = i + 1;
    }
    r
}

/// Splits UTF-16 code units into little-endian bytes.
pub fn u16s_to_le_bytes(units: &[u16]) -> (r: Vec<u8>)
    ensures
        r@.len() == 2 * units@.len(),
        forall|i: int|
            0 <= i < units@.len() ==> r@[2 * i] == units@[i] % 256 && r@[2 * i + 1] == units@[i]
                / 256,
{
    let mut r: Vec<u8> = Vec::new();
    let mut i: usize = 0;
    while i < units.len()
        invariant
            i <= units@.len(),
            r@.len() == 2 * i,
            forall|j: int|
                0 <= j < i ==> r@[2 * j] == units@[j] % 256 && r@[2 * j + 1] == units@[j] / 256,
        decreases units@.len() - i,
    {
        let u: u16 = units[i];
        r.push((u % 256) as u8);
        r.push((u / 256) as u8);
        i = i + 1;
    }
    r
}

/// Reads the length-prefixed UTF-16 record at `offset` in the sandbox's
/// memory. Fails, and issues no host call, when the offset leaves no
/// room for a prefix, the record lies outside the memory, the length is
/// odd, or the units are not well-formed UTF-16.
pub fn read_guest_string(store: &StoreMut, memory: &Memory, offset: i32) -> (r: Result<
    String,
    VmError,
>)
    requires
        store_of_memory(*memory) == store_id(*store),
    ensures
        r matches Err(e) ==> e is ArgumentReadError || e is InvalidUtf8,
        offset < 4 ==> r is Err,
{
    if offset < 4 {
        return Err(VmError::ArgumentReadError("string pointer below the size prefix".to_owned()));
    }
    let len_bytes = match mem_read(store, memory, (offset - 4) as u64, 4) {
        Ok(b) => b,
        Err(m) => {
            return Err(VmError::ArgumentReadError(m));
        },
    };
    let byte_len: u32 = u32_from_le(len_bytes.as_slice());
    if byte_len % 2 != 0 {
        return Err(VmError::ArgumentReadError("string size is odd".to_owned()));
    }
    let data = match mem_read(store, memory, offset as u64, byte_len) {
        Ok(b) => b,
        Err(m) => {
            return Err(VmError::ArgumentReadError(m));
        },
    };
    let units = le_bytes_to_u16s(data.as_slice());
    match utf16_to_string(units.as_slice()) {
        Some(s) => Ok(s),
        None => Err(VmError::InvalidUtf8),
    }
}

/// Allocates `s` in the guest's heap through its exported allocator and
/// copies the UTF-16LE data in; the allocator writes the length prefix.
/// Hands back the record's offset. The allocator runs as metered guest
/// code, so the instance's counter never rises.
pub fn alloc_guest_string(
    store: &mut StoreMut,
    instance: &Instance,
    memory: &Memory,
    alloc: &Function,
    s: &str,
) -> (r: Result<i32, VmError>)
    requires
        metered(*instance),
        store_of_instance(*instance) == store_id(*old(store)),
        store_of_memory(*memory) == store_id(*old(store)),
        store_of_function(*alloc) == store_id(*old(store)),
    ensures
        r matches Err(e) ==> e is AllocationError,
        r matches Ok(p) ==> p >= 4,
        gas_of(*final(store), *instance) <= gas_of(*old(store), *instance),
        store_id(*final(store)) == store_id(*old(store)),
        budget_of(*final(store)) == budget_of(*old(store)),
{
    let units = utf16_units(s);
    let bytes = u16s_to_le_bytes(units.as_slice());
    if bytes.len() > 2147483647usize {
        return Err(VmError::AllocationError("string too large for the sandbox".to_owned()));
    }
    let byte_len: i32 = bytes.len() as i32;
    let mut args: Vec<i32> = Vec::new();
    args.push(byte_len);
    args.push(1);
    let rets = match call_guest(store, instance, alloc, &args) {
        Ok(v) => v,
        Err(m) => {
            return Err(VmError::AllocationError(m));
        },
    };
    if rets.len() != 1 {
        return Err(VmError::AllocationError("allocator returned no offset".to_owned()));
    }
    let ptr: i32 = match value_as_i32(&rets[0]) {
        Some(p) => p,
        None => {
            return Err(VmError::AllocationError("allocator returned no offset".to_owned()));
        },
    };
    if ptr < 4 {
        return Err(VmError::AllocationError("allocator returned a bad offset".to_owned()));
    }
    match mem_write(&*store, memory, ptr as u64, bytes.as_slice()) {
        Ok(()) => Ok(ptr),
        Err(m) => Err(VmError::AllocationError(m)),
    }
}

} // verus!
