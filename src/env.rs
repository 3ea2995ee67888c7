//! The runtime binding: the guest memory and the four entry points of the
//! guest's managed runtime (`new`, `pin`, `unpin`, `collect`).
use vstd::prelude::*;
use wasmer::{Memory, Store, TypedFunction};
use crate::guest::{
    collect_in_store, collect_is_from_store, memory_in_store, memory_is_from_store, new_in_store,
    new_is_from_store, pin_in_store, pin_is_from_store, unpin_in_store, unpin_is_from_store,
};

verus! {

/// What the host holds of one guest instance. Each slot is filled once the
/// instance exposes its exports; an empty slot only fails the operations that
/// need it.
#[derive(Clone)]
pub struct Env {
    pub memory: Option<Memory>,
    pub fn_new: Option<TypedFunction<(i32, i32), i32>>,
    pub fn_pin: Option<TypedFunction<i32, i32>>,
    pub fn_unpin: Option<TypedFunction<i32, ()>>,
    pub fn_collect: Option<TypedFunction<(), ()>>,
}

impl Env {
    /// The slots that an allocation uses are filled: the memory, `new`,
    /// and `pin` where the new object is pinned.
    pub open spec fn can_allocate(&self, pin: bool) -> bool {
        &&& self.memory is Some
        &&& self.fn_new is Some
        &&& pin ==> self.fn_pin is Some
    }

    /// The slots that replacing an object by a new one uses are filled:
    /// those of an allocation, `unpin` and `collect`.
    pub open spec fn can_reallocate(&self, pin: bool) -> bool {
        &&& self.can_allocate(pin)
        &&& self.fn_unpin is Some
        &&& self.fn_collect is Some
    }

    /// What an allocation uses belongs to `store`.
    pub open spec fn allocation_in_store(&self, store: Store, pin: bool) -> bool {
        &&& memory_in_store(store, self.memory->0)
        &&& new_in_store(store, self.fn_new->0)
        &&& pin ==> pin_in_store(store, self.fn_pin->0)
    }

    /// `unpin` and `collect` belong to `store`.
    pub open spec fn retirement_in_store(&self, store: Store) -> bool {
        &&& unpin_in_store(store, self.fn_unpin->0)
        &&& collect_in_store(store, self.fn_collect->0)
    }

    /// Whether what an allocation uses belongs to `store`.
    pub fn allocation_from_store(&self, store: &Store, pin: bool) -> (r: bool)
        requires
            self.can_allocate(pin),
        ensures
            r == self.allocation_in_store(*store, pin),
    {
        let (memory, new) = match (&self.memory, &self.fn_new) {
            (Some(m), Some(n)) => (m, n),
            _ => {
                return false;
            },
        };
        if !memory_is_from_store(memory, store) || !new_is_from_store(new, store) {
            return false;
        }
        if !pin {
            return true;
        }
        match &self.fn_pin {
            Some(p) => pin_is_from_store(p, store),
            None => false,
        }
    }

    /// Whether `unpin` and `collect` belong to `store`.
    pub fn retirement_from_store(&self, store: &Store) -> (r: bool)
        requires
            self.fn_unpin is Some,
            self.fn_collect is Some,
        ensures
            r == self.retirement_in_store(*store),
    {
        match (&self.fn_unpin, &self.fn_collect) {
            (Some(u), Some(c)) => unpin_is_from_store(u, store) && collect_is_from_store(c, store),
            _ => false,
        }
    }

    /// Whether the slots that an allocation uses are filled.
    pub fn allocation_bound(&self, pin: bool) -> (r: bool)
        ensures
            r == self.can_allocate(pin),
    {
        self.memory.is_some() && self.fn_new.is_some() && (!pin || self.fn_pin.is_some())
    }

    /// An empty binding.
    pub fn new() -> (r: Env)
        ensures
            r.memory is None,
            r.fn_new is None,
            r.fn_pin is None,
            r.fn_unpin is None,
            r.fn_collect is None,
    {
        Env { memory: None, fn_new: None, fn_pin: None, fn_unpin: None, fn_collect: None }
    }

    /// Fills every slot at once.
    pub fn init_with(
        &mut self,
        memory: Option<Memory>,
        asc_fn_new: Option<TypedFunction<(i32, i32), i32>>,
        asc_fn_pin: Option<TypedFunction<i32, i32>>,
        asc_fn_unpin: Option<TypedFunction<i32, ()>>,
        asc_fn_collect: Option<TypedFunction<(), ()>>,
    )
        ensures
            final(self).memory == memory,
            final(self).fn_new == asc_fn_new,
            final(self).fn_pin == asc_fn_pin,
            final(self).fn_unpin == asc_fn_unpin,
            final(self).fn_collect == asc_fn_collect,
    {
        self.memory = memory;
        self.fn_new = asc_fn_new;
        self.fn_pin = asc_fn_pin;
        self.fn_unpin = asc_fn_unpin;
        self.fn_collect = asc_fn_collect;
    }
}

impl Default for Env {
    fn default() -> (r: Env)
        ensures
            r.memory is None,
            r.fn_new is None,
            r.fn_pin is None,
            r.fn_unpin is None,
            r.fn_collect is None,
    {
        Env::new()
    }
}

} // verus!
