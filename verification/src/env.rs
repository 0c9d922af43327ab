//! Per-invocation state handed to every host function, and the gas
//! helpers shared by every ABI prologue.

use vstd::prelude::*;

use crate::settings::Settings;
use crate::types::Interface;
use crate::vm::{
    budget_of, exhausted_of, gas_of, metered, read_gas, store_id, store_of_function,
    store_of_instance, store_of_memory, write_gas, GasState,
};
use wasmer::{Function, Instance, Memory, StoreMut};

verus! {

/// Handles to an instantiated sandbox's exports: its metered instance,
/// its linear memory, and its string allocator. A value of this type
/// can only be built around an instance that carries the metering
/// globals, so every holder may rely on that.
pub struct InstanceHandles {
    instance: Instance,
    memory: Memory,
    alloc: Function,
}

impl InstanceHandles {
    /// The instance of every handle set carries the metering globals,
    /// and the memory and allocator live in the instance's own store.
    #[verifier::type_invariant]
    pub closed spec fn well_formed(self) -> bool {
        metered(self.instance) && store_of_memory(self.memory) == store_of_instance(self.instance)
            && store_of_function(self.alloc) == store_of_instance(self.instance)
    }

    /// The instantiated module these handles belong to.
    pub closed spec fn spec_instance(self) -> Instance {
        self.instance
    }

    /// Binds the three exports of one instantiated sandbox.
    pub(crate) fn new(instance: Instance, memory: Memory, alloc: Function) -> (r: InstanceHandles)
        requires
            metered(instance),
            store_of_memory(memory) == store_of_instance(instance),
            store_of_function(alloc) == store_of_instance(instance),
        ensures
            r.spec_instance() == instance,
    {
        InstanceHandles { instance, memory, alloc }
    }

    /// The instantiated module, carrying the metering globals.
    pub fn instance(&self) -> (r: &Instance)
        ensures
            *r == self.spec_instance(),
            metered(self.spec_instance()),
    {
        proof {
            use_type_invariant(self);
        }
        &self.instance
    }

    /// The sandbox's exported linear memory, living in the instance's
    /// store.
    pub fn memory(&self) -> (r: &Memory)
        ensures
            store_of_memory(*r) == store_of_instance(self.spec_instance()),
    {
        proof {
            use_type_invariant(self);
        }
        &self.memory
    }

    /// The guest's exported string allocator, living in the instance's
    /// store.
    pub fn allocator(&self) -> (r: &Function)
        ensures
            store_of_function(*r) == store_of_instance(self.spec_instance()),
    {
        proof {
            use_type_invariant(self);
        }
        &self.alloc
    }
}

/// The slot the sandbox's handles are published into at instantiation:
/// empty until the instance exists, and written nowhere else.
pub struct HandleSlot {
    pub(crate) inner: Option<InstanceHandles>,
}

impl HandleSlot {
    /// The published handles, absent until the instance exists.
    pub closed spec fn spec_get(self) -> Option<InstanceHandles> {
        self.inner
    }

    /// The published handles, absent until the instance exists.
    pub fn get(&self) -> (r: &Option<InstanceHandles>)
        ensures
            *r == self.spec_get(),
    {
        &self.inner
    }
}

/// Per-invocation state handed to every host function: the host
/// interface, the price table, and, once the sandbox exists, the
/// handles to its exports.
///
/// The environment is built before instantiation, because the interface
/// is needed while imports are resolved; the handles are published once
/// the instance exists. An ABI function that observes no handles must
/// fail, not crash.
pub struct Env<I: Interface> {
    /// The embedder's host interface.
    pub interface: I,
    /// The price table of this invocation.
    pub settings: Settings,
    /// The sandbox's exports, absent until the instance exists and
    /// written only at instantiation.
    pub handles: HandleSlot,
}

impl<I: Interface> Env<I> {
    /// The sandbox's exports, absent until the instance exists.
    pub open spec fn spec_handles(self) -> Option<InstanceHandles> {
        self.handles.spec_get()
    }

    /// An environment with no sandbox handles yet.
    pub fn new(interface: I, settings: Settings) -> (r: Env<I>)
        ensures
            r.spec_handles() is None,
            r.settings == settings,
    {
        Env { interface, settings, handles: HandleSlot { inner: None } }
    }

    /// The sandbox's exports, absent until the instance exists.
    pub fn handles(&self) -> (r: &Option<InstanceHandles>)
        ensures
            *r == self.spec_handles(),
    {
        self.handles.get()
    }
}

/// Deducts `points` from the sandbox's gas counter, as every ABI
/// prologue does before any work.
///
/// Succeeds exactly when the counter is not exhausted and holds strictly
/// more than `points`: the counter then drops by `points`. Otherwise the
/// counter is zeroed, so the next metered block of guest code traps, and
/// no host work may follow.
pub fn sub_remaining_points(store: &mut StoreMut, instance: &Instance, points: u64) -> (ok: bool)
    requires
        metered(*instance),
        store_of_instance(*instance) == store_id(*old(store)),
        gas_of(*old(store), *instance) <= budget_of(*old(store)),
    ensures
        store_id(*final(store)) == store_id(*old(store)),
        budget_of(*final(store)) == budget_of(*old(store)),
        ok == (!exhausted_of(*old(store), *instance) && gas_of(*old(store), *instance) > points),
        ok ==> gas_of(*final(store), *instance) == gas_of(*old(store), *instance) - points
            && !exhausted_of(*final(store), *instance),
        !ok ==> gas_of(*final(store), *instance) == 0 && !exhausted_of(*final(store), *instance),
{
    match read_gas(store, instance) {
        GasState::Remaining(g) => {
            if g > points {
                write_gas(store, instance, g - points);
                true
            } else {
                write_gas(store, instance, 0);
                false
            }
        },
        GasState::Exhausted => {
            write_gas(store, instance, 0);
            false
        },
    }
}

/// The points left on the sandbox's counter, 0 when exhausted.
pub fn get_remaining_points_for_env(store: &mut StoreMut, instance: &Instance) -> (r: u64)
    requires
        metered(*instance),
        store_of_instance(*instance) == store_id(*old(store)),
    ensures
        *final(store) == *old(store),
        r == (if exhausted_of(*old(store), *instance) {
            0u64
        } else {
            gas_of(*old(store), *instance)
        }),
{
    match read_gas(store, instance) {
        GasState::Remaining(g) => g,
        GasState::Exhausted => 0,
    }
}

} // verus!
