//! The allocation and resize protocol, driven through the guest's runtime
//! entry points: allocate, pin (strings only), check the header, write the
//! payload; and to retire an object, unpin it and run a collection.
//!
//! Strings are pinned as soon as they are allocated. Buffers and opaque
//! objects are not: a caller that keeps one across a collection pins it.
use vstd::prelude::*;
use wasmer::{Memory, MemoryView, Store};
use crate::env::Env;
use crate::error::Error;
use crate::guest::{
    keeps_objects, call_collect, call_new, call_pin, call_unpin, guest_memory,
    memory_in_store, memory_is_from_store, memory_write, view_bytes, view_of,
};
use crate::header::{holds_object, memory_len, read_size, read_type_tag, size_field, tag_field};

verus! {

/// Type tag of a byte buffer.
pub const BUFFER_TAG: u32 = 0;

/// Type tag of a UTF-16 string.
pub const STRING_TAG: u32 = 1;

/// Largest value of the guest's signed 32-bit integers.
pub const GUEST_INT_MAX: u32 = 0x7fff_ffff;

/// A call into the guest's runtime entry points, with its arguments.
pub enum RuntimeCall {
    New(i32, i32),
    Pin(i32),
    Unpin(i32),
    Collect,
}

/// The calls that allocating an object makes: `new(size, tag)`, then, for a
/// pinned kind, `pin` of the offset that `new` returned.
pub open spec fn allocation_calls(byte_len: usize, tag: u32, pin: bool, offset: u32) -> Seq<
    RuntimeCall,
> {
    seq![RuntimeCall::New(byte_len as i32, tag as i32)] + if pin {
        seq![RuntimeCall::Pin(offset as i32)]
    } else {
        seq![]
    }
}

/// The calls that retiring an object makes, in this order: unpin it, so
/// that it becomes garbage, then run a full collection.
pub open spec fn retirement_calls(offset: u32) -> Seq<RuntimeCall> {
    seq![RuntimeCall::Unpin(offset as i32), RuntimeCall::Collect]
}

/// The bytes of guest memory that `env` is bound to, as `store` holds them.
pub open spec fn bound_memory(env: &Env, store: Store) -> Seq<u8> {
    guest_memory(store, env.memory->0)
}

/// `mem` holds at `offset` a header that records this payload's length,
/// followed by the payload.
pub open spec fn holds_payload(mem: Seq<u8>, offset: u32, payload: Seq<u8>) -> bool {
    &&& offset >= 8
    &&& size_field(mem, offset) == Ok::<u32, Error>(payload.len() as u32)
    &&& payload.len() <= u32::MAX
    &&& offset + payload.len() <= mem.len()
    &&& mem.subrange(offset as int, offset + payload.len()) == payload
}

/// Writing a payload at an object's offset leaves its header as it was.
pub proof fn lemma_payload_write_keeps_header(mem: Seq<u8>, offset: u32, data: Seq<u8>)
    requires
        offset >= 8,
        offset + data.len() <= mem.len(),
    ensures
        size_field(mem.update_subrange_with(offset as int, data), offset) == size_field(
            mem,
            offset,
        ),
        tag_field(mem.update_subrange_with(offset as int, data), offset) == tag_field(
            mem,
            offset,
        ),
        mem.update_subrange_with(offset as int, data).subrange(
            offset as int,
            offset + data.len(),
        ) == data,
{
    let m2 = mem.update_subrange_with(offset as int, data);
    assert(m2.subrange(offset as int, offset + data.len()) =~= data);
}

/// The offset that the guest allocator returned, if it can hold an object:
/// an object's header lies in the 8 bytes below its offset.
pub fn allocated_offset(raw: i32) -> (r: Result<u32, Error>)
    ensures
        raw < 8 ==> r == Err::<u32, Error>(Error::AllocationFailed),
        raw >= 8 ==> r == Ok::<u32, Error>(raw as u32),
{
    if raw < 8 {
        Err(Error::AllocationFailed)
    } else {
        Ok(raw as u32)
    }
}

/// Whether the header at `offset` records this tag and this payload size.
pub open spec fn header_matches(mem: Seq<u8>, offset: u32, byte_len: u32, tag: u32) -> bool {
    &&& tag_field(mem, offset) == Ok::<u32, Error>(tag)
    &&& size_field(mem, offset) == Ok::<u32, Error>(byte_len)
}

/// Accepts a freshly allocated offset only where its header records the
/// requested size and tag.
pub fn check_header(view: &MemoryView, offset: u32, byte_len: u32, tag: u32) -> (r: Result<
    u32,
    Error,
>)
    ensures
        r == (if header_matches(view_bytes(*view), offset, byte_len, tag) {
            Ok::<u32, Error>(offset)
        } else {
            Err::<u32, Error>(Error::AllocationFailed)
        }),
{
    match (read_size(view, offset), read_type_tag(view, offset)) {
        (Ok(s), Ok(t)) => {
            if s == byte_len && t == tag {
                Ok(offset)
            } else {
                Err(Error::AllocationFailed)
            }
        },
        _ => Err(Error::AllocationFailed),
    }
}

/// Asks the guest for a new object of `byte_len` payload bytes and this tag,
/// pins it if `pin` asks so, and checks that its header records both.
/// Nothing is called in the guest unless every slot it needs is filled and
/// belongs to `store`.
pub fn allocate(env: &Env, store: &mut Store, byte_len: usize, tag: u32, pin: bool) -> (res: (
    Result<u32, Error>,
    Ghost<Seq<RuntimeCall>>,
))
    ensures
        keeps_objects(*old(store), *final(store)),
        !env.can_allocate(pin) <==> res.0 == Err::<u32, Error>(Error::RuntimeMissing),
        env.can_allocate(pin) && (byte_len > GUEST_INT_MAX || tag > GUEST_INT_MAX) <==> res.0 == Err::<
            u32,
            Error,
        >(Error::SizeOverflow),
        env.can_allocate(pin) && byte_len <= GUEST_INT_MAX && tag <= GUEST_INT_MAX
            && !env.allocation_in_store(*old(store), pin) ==> res.0 == Err::<u32, Error>(
            Error::ForeignStore,
        ),
        res.0 == Err::<u32, Error>(Error::RuntimeMissing) || res.0 == Err::<u32, Error>(
            Error::SizeOverflow,
        ) || !env.allocation_in_store(*old(store), pin) ==> *final(store) == *old(store),
        res.0 matches Ok(offset) ==> {
            &&& env.can_allocate(pin)
            &&& memory_in_store(*final(store), env.memory->0)
            &&& offset >= 8
            &&& header_matches(bound_memory(env, *final(store)), offset, byte_len as u32, tag)
        },
        res.0 matches Err(e) ==> e == Error::RuntimeMissing || e == Error::SizeOverflow || e
            == Error::ForeignStore || e == Error::Trap || e == Error::AllocationFailed,
        res.0 == Err::<u32, Error>(Error::RuntimeMissing) || res.0 == Err::<u32, Error>(
            Error::SizeOverflow,
        ) || !env.allocation_in_store(*old(store), pin) ==> res.1@ == Seq::<RuntimeCall>::empty(),
        res.0 matches Ok(offset) ==> res.1@ == allocation_calls(byte_len, tag, pin, offset),
        res.0 is Err ==> res.1@.len() <= allocation_calls(byte_len, tag, pin, 0).len() && (
        res.1@.len() > 0 ==> res.1@[0] == allocation_calls(byte_len, tag, pin, 0)[0]),
{
    if !env.allocation_bound(pin) {
        return (Err(Error::RuntimeMissing), Ghost(Seq::empty()));
    }
    let (memory, new) = match (&env.memory, &env.fn_new) {
        (Some(m), Some(n)) => (m, n),
        _ => {
            return (Err(Error::RuntimeMissing), Ghost(Seq::empty()));
        },
    };
    if byte_len > GUEST_INT_MAX as usize || tag > GUEST_INT_MAX {
        return (Err(Error::SizeOverflow), Ghost(Seq::empty()));
    }
    if !env.allocation_from_store(store, pin) {
        return (Err(Error::ForeignStore), Ghost(Seq::empty()));
    }
    let ghost calls = seq![RuntimeCall::New(byte_len as i32, tag as i32)];
    let raw = match call_new(new, store, byte_len as i32, tag as i32) {
        Ok(raw) => raw,
        Err(_) => {
            return (Err(Error::Trap), Ghost(calls));
        },
    };
    let offset = match allocated_offset(raw) {
        Ok(o) => o,
        Err(e) => {
            return (Err(e), Ghost(calls));
        },
    };
    let ghost calls = allocation_calls(byte_len, tag, pin, offset);
    if pin {
        let f = match &env.fn_pin {
            Some(f) => f,
            None => {
                return (Err(Error::RuntimeMissing), Ghost(calls));
            },
        };
        if call_pin(f, store, offset as i32).is_err() {
            return (Err(Error::Trap), Ghost(calls));
        }
    }
    let view = view_of(memory, store);
    (check_header(&view, offset, byte_len as u32, tag), Ghost(calls))
}

/// Writes a payload at an object's offset.
pub fn write_payload(memory: &Memory, store: &mut Store, offset: u32, data: &[u8]) -> (r: Result<
    (),
    Error,
>)
    ensures
        keeps_objects(*old(store), *final(store)),
        !memory_in_store(*old(store), *memory) ==> r == Err::<(), Error>(Error::ForeignStore),
        memory_in_store(*old(store), *memory) ==> (r is Ok <==> offset + data@.len()
            <= guest_memory(*old(store), *memory).len()),
        r is Err ==> *final(store) == *old(store),
        r is Err ==> r == Err::<(), Error>(Error::ForeignStore) || r == Err::<(), Error>(
            Error::OutOfBounds,
        ),
        memory_in_store(*old(store), *memory) && r is Err ==> r == Err::<(), Error>(
            Error::OutOfBounds,
        ),
        r is Ok ==> memory_in_store(*final(store), *memory),
        r is Ok ==> guest_memory(*final(store), *memory) == guest_memory(
            *old(store),
            *memory,
        ).update_subrange_with(offset as int, data@),
{
    if !memory_is_from_store(memory, store) {
        return Err(Error::ForeignStore);
    }
    let len = memory_len(memory, store);
    if offset as u64 > len || data.len() as u64 > len - offset as u64 {
        return Err(Error::OutOfBounds);
    }
    match memory_write(memory, store, offset as u64, data) {
        Ok(()) => Ok(()),
        Err(_) => Err(Error::OutOfBounds),
    }
}

/// Allocates an object with this tag, pinned if `pin` asks so, and writes
/// `payload` into it.
pub fn allocate_with(env: &Env, store: &mut Store, payload: &[u8], tag: u32, pin: bool) -> (res: (
    Result<u32, Error>,
    Ghost<Seq<RuntimeCall>>,
))
    ensures
        keeps_objects(*old(store), *final(store)),
        !env.can_allocate(pin) <==> res.0 == Err::<u32, Error>(Error::RuntimeMissing),
        env.can_allocate(pin) && (payload@.len() > GUEST_INT_MAX || tag > GUEST_INT_MAX) <==> res.0
            == Err::<u32, Error>(Error::SizeOverflow),
        env.can_allocate(pin) && payload@.len() <= GUEST_INT_MAX && tag <= GUEST_INT_MAX
            && !env.allocation_in_store(*old(store), pin) ==> res.0 == Err::<u32, Error>(
            Error::ForeignStore,
        ),
        res.0 == Err::<u32, Error>(Error::RuntimeMissing) || res.0 == Err::<u32, Error>(
            Error::SizeOverflow,
        ) || !env.allocation_in_store(*old(store), pin) ==> *final(store) == *old(store),
        res.0 is Ok ==> memory_in_store(*final(store), env.memory->0),
        res.0 matches Ok(offset) ==> env.can_allocate(pin) && holds_object(
            bound_memory(env, *final(store)),
            offset,
            tag,
            payload@,
        ),
        res.0 matches Err(e) ==> e == Error::RuntimeMissing || e == Error::SizeOverflow || e
            == Error::ForeignStore || e == Error::Trap || e == Error::AllocationFailed || e
            == Error::OutOfBounds,
        res.0 == Err::<u32, Error>(Error::RuntimeMissing) || res.0 == Err::<u32, Error>(
            Error::SizeOverflow,
        ) || !env.allocation_in_store(*old(store), pin) ==> res.1@ == Seq::<RuntimeCall>::empty(),
        res.0 matches Ok(offset) ==> res.1@ == allocation_calls(payload@.len() as usize, tag, pin, offset),
{
    let (allocated, Ghost(calls)) = allocate(env, store, payload.len(), tag, pin);
    let offset = match allocated {
        Ok(o) => o,
        Err(e) => {
            return (Err(e), Ghost(calls));
        },
    };
    let memory = match &env.memory {
        Some(m) => m,
        None => {
            return (Err(Error::RuntimeMissing), Ghost(calls));
        },
    };
    let ghost before = guest_memory(*store, *memory);
    match write_payload(memory, store, offset, payload) {
        Ok(()) => {},
        Err(Error::ForeignStore) => {
            return (Err(Error::ForeignStore), Ghost(calls));
        },
        Err(_) => {
            return (Err(Error::OutOfBounds), Ghost(calls));
        },
    }
    proof {
        lemma_payload_write_keeps_header(before, offset, payload@);
    }
    (Ok(offset), Ghost(calls))
}

/// Retires the object at `offset`: unpins it, then runs a full collection so
/// that it can be reclaimed. The offset must not be read afterwards.
pub fn retire(env: &Env, store: &mut Store, offset: u32) -> (res: (
    Result<(), Error>,
    Ghost<Seq<RuntimeCall>>,
))
    ensures
        keeps_objects(*old(store), *final(store)),
        env.fn_unpin is None || env.fn_collect is None <==> res.0 == Err::<(), Error>(
            Error::RuntimeMissing,
        ),
        env.fn_unpin is Some && env.fn_collect is Some && offset > GUEST_INT_MAX <==> res.0 == Err::<
            (),
            Error,
        >(Error::SizeOverflow),
        env.fn_unpin is Some && env.fn_collect is Some && offset <= GUEST_INT_MAX
            && !env.retirement_in_store(*old(store)) ==> res.0 == Err::<(), Error>(Error::ForeignStore),
        res.0 == Err::<(), Error>(Error::RuntimeMissing) || res.0 == Err::<(), Error>(Error::SizeOverflow)
            || !env.retirement_in_store(*old(store)) ==> *final(store) == *old(store),
        res.0 matches Err(e) ==> e == Error::RuntimeMissing || e == Error::SizeOverflow || e
            == Error::ForeignStore || e == Error::Trap,
        res.0 == Err::<(), Error>(Error::RuntimeMissing) || res.0 == Err::<(), Error>(
            Error::SizeOverflow,
        ) || !env.retirement_in_store(*old(store)) ==> res.1@ == Seq::<RuntimeCall>::empty(),
        res.0 is Ok ==> res.1@ == retirement_calls(offset),
        res.0 is Err ==> res.1@.is_prefix_of(retirement_calls(offset)),
        res.0 is Err && res.0 != Err::<(), Error>(Error::Trap) ==> res.1@ == Seq::<
            RuntimeCall,
        >::empty(),
{
    let (unpin, collect) = match (&env.fn_unpin, &env.fn_collect) {
        (Some(u), Some(c)) => (u, c),
        _ => {
            return (Err(Error::RuntimeMissing), Ghost(Seq::empty()));
        },
    };
    if offset > GUEST_INT_MAX {
        return (Err(Error::SizeOverflow), Ghost(Seq::empty()));
    }
    if !env.retirement_from_store(store) {
        return (Err(Error::ForeignStore), Ghost(Seq::empty()));
    }
    let ghost calls = retirement_calls(offset);
    if call_unpin(unpin, store, offset as i32).is_err() {
        return (Err(Error::Trap), Ghost(calls.take(1)));
    }
    if call_collect(collect, store).is_err() {
        return (Err(Error::Trap), Ghost(calls));
    }
    (Ok(()), Ghost(calls))
}

/// Whether a payload of `len` bytes has the size that the header's `n`
/// records, in the object's logical units: bytes, or for a string of
/// two-byte code units (`wide`), code units.
pub open spec fn same_size(n: u32, len: nat, wide: bool) -> bool {
    if wide {
        n / 2 == len / 2
    } else {
        n == len
    }
}

/// What a write of `payload` over the object at `offset` leaves, as a result
/// `r` (the offset of the object that then holds the payload) and a store
/// `after`, whatever the object's kind. `wide` marks a string, whose size
/// counts code units; a new object gets the tag `tag`, pinned if `pin`.
pub open spec fn write_outcome(
    env: &Env,
    before: Store,
    after: Store,
    offset: u32,
    payload: Seq<u8>,
    tag: u32,
    pin: bool,
    wide: bool,
    r: Result<u32, Error>,
) -> bool {
    let old_mem = bound_memory(env, before);
    let new_mem = bound_memory(env, after);
    &&& keeps_objects(before, after)
    &&& r is Ok ==> memory_in_store(after, env.memory->0)
    &&& env.memory is None ==> r == Err::<u32, Error>(Error::RuntimeMissing) && after == before
    &&& env.memory is Some && !memory_in_store(before, env.memory->0) ==> r == Err::<u32, Error>(
        Error::ForeignStore,
    ) && after == before
    &&& env.memory is Some && memory_in_store(before, env.memory->0) ==> match size_field(
        old_mem,
        offset,
    ) {
        Err(e) => r == Err::<u32, Error>(e) && after == before,
        Ok(n) => {
            &&& same_size(n, payload.len(), wide) ==> (r is Ok <==> offset + payload.len()
                <= old_mem.len())
            &&& same_size(n, payload.len(), wide) && r is Ok ==> r == Ok::<u32, Error>(offset)
                && new_mem == old_mem.update_subrange_with(offset as int, payload) && size_field(
                new_mem,
                offset,
            ) == size_field(old_mem, offset) && tag_field(new_mem, offset) == tag_field(
                old_mem,
                offset,
            )
            &&& same_size(n, payload.len(), wide) && r is Err ==> r == Err::<u32, Error>(
                Error::OutOfBounds,
            ) && after == before
            &&& !same_size(n, payload.len(), wide) ==> (!env.can_reallocate(pin) <==> r == Err::<
                u32,
                Error,
            >(Error::RuntimeMissing))
            &&& !same_size(n, payload.len(), wide) && !env.can_reallocate(pin) ==> after == before
            &&& !same_size(n, payload.len(), wide) && env.can_reallocate(pin) && !(
            env.allocation_in_store(before, pin) && env.retirement_in_store(before)) ==> r
                == Err::<u32, Error>(Error::ForeignStore) && after == before
            &&& !same_size(n, payload.len(), wide) && r is Ok ==> holds_object(
                new_mem,
                r->Ok_0,
                tag,
                payload,
            )
        },
    }
    &&& r matches Err(e) ==> e == Error::RuntimeMissing || e == Error::ForeignStore || e
        == Error::SizeOverflow || e == Error::Trap || e == Error::OffsetTooSmall || e
        == Error::OutOfBounds || e == Error::AllocationFailed
}

/// First step of a write: where the header records a payload of the new
/// size, overwrites it in place and returns `true`; otherwise retires the
/// object and returns `false`, and the caller allocates a new one (pinned if
/// `pin` asks so). Nothing is retired unless every slot that the new
/// allocation needs is filled and belongs to `store`.
pub fn overwrite_or_retire(
    env: &Env,
    store: &mut Store,
    offset: u32,
    payload: &[u8],
    pin: bool,
    wide: bool,
) -> (res: (Result<bool, Error>, Ghost<Seq<RuntimeCall>>))
    requires
        wide ==> payload@.len() % 2 == 0,
    ensures
        keeps_objects(*old(store), *final(store)),
        env.memory is None ==> res.0 == Err::<bool, Error>(Error::RuntimeMissing),
        env.memory is Some && !memory_in_store(*old(store), env.memory->0) ==> res.0 == Err::<
            bool,
            Error,
        >(Error::ForeignStore) && *final(store) == *old(store),
        env.memory is Some && memory_in_store(*old(store), env.memory->0) ==> match size_field(
            bound_memory(env, *old(store)),
            offset,
        ) {
            Err(e) => res.0 == Err::<bool, Error>(e),
            Ok(n) => {
                &&& same_size(n, payload@.len(), wide) ==> (res.0 is Ok <==> offset + payload@.len()
                    <= bound_memory(env, *old(store)).len())
                &&& same_size(n, payload@.len(), wide) && res.0 is Ok ==> res.0 == Ok::<bool, Error>(true)
                    && bound_memory(env, *final(store)) == bound_memory(
                    env,
                    *old(store),
                ).update_subrange_with(offset as int, payload@) && size_field(
                    bound_memory(env, *final(store)),
                    offset,
                ) == size_field(bound_memory(env, *old(store)), offset) && tag_field(
                    bound_memory(env, *final(store)),
                    offset,
                ) == tag_field(bound_memory(env, *old(store)), offset)
                &&& same_size(n, payload@.len(), wide) && res.0 is Err ==> res.0 == Err::<bool, Error>(
                    Error::OutOfBounds,
                )
                &&& !same_size(n, payload@.len(), wide) ==> (!env.can_reallocate(pin) <==> res.0
                    == Err::<bool, Error>(Error::RuntimeMissing))
                &&& !same_size(n, payload@.len(), wide) && env.can_reallocate(pin) && !(
                env.allocation_in_store(*old(store), pin) && env.retirement_in_store(
                    *old(store),
                )) ==> res.0 == Err::<bool, Error>(Error::ForeignStore) && *final(store) == *old(store)
                &&& !same_size(n, payload@.len(), wide) && res.0 is Ok ==> res.0 == Ok::<bool, Error>(
                    false,
                )
            },
        },
        res.0 == Err::<bool, Error>(Error::RuntimeMissing) ==> env.memory is None || (
        size_field(bound_memory(env, *old(store)), offset) matches Ok(n) && !same_size(
            n,
            payload@.len(),
            wide,
        ) && !env.can_reallocate(pin)),
        res.0 is Err && res.0 != Err::<bool, Error>(Error::Trap) && res.0 != Err::<bool, Error>(
            Error::ForeignStore,
        ) ==> *final(store) == *old(store),
        res.0 matches Err(e) ==> e == Error::RuntimeMissing || e == Error::ForeignStore || e
            == Error::SizeOverflow || e == Error::Trap || e == Error::OffsetTooSmall || e
            == Error::OutOfBounds,
        res.0 == Ok::<bool, Error>(true) ==> res.1@ == Seq::<RuntimeCall>::empty(),
        res.0 == Ok::<bool, Error>(false) ==> res.1@ == retirement_calls(offset),
        res.0 is Err ==> res.1@.is_prefix_of(retirement_calls(offset)),
        res.0 is Err && res.0 != Err::<bool, Error>(Error::Trap) ==> res.1@ == Seq::<
            RuntimeCall,
        >::empty(),
{
    let memory = match &env.memory {
        Some(m) => m,
        None => {
            return (Err(Error::RuntimeMissing), Ghost(Seq::empty()));
        },
    };
    if !memory_is_from_store(memory, store) {
        return (Err(Error::ForeignStore), Ghost(Seq::empty()));
    }
    let prev = match {
        let view = view_of(memory, store);
        read_size(&view, offset)
    } {
        Ok(n) => n,
        Err(e) => {
            return (Err(e), Ghost(Seq::empty()));
        },
    };
    let same = if wide {
        prev / 2 == (payload.len() / 2) as u32 && payload.len() / 2 <= u32::MAX as usize
    } else {
        prev as usize == payload.len()
    };
    if same {
        let ghost before = guest_memory(*store, *memory);
        match write_payload(memory, store, offset, payload) {
            Ok(()) => {},
            Err(_) => {
                return (Err(Error::OutOfBounds), Ghost(Seq::empty()));
            },
        }
        proof {
            lemma_payload_write_keeps_header(before, offset, payload@);
        }
        (Ok(true), Ghost(Seq::empty()))
    } else {
        if !env.allocation_bound(pin) || env.fn_unpin.is_none() || env.fn_collect.is_none() {
            return (Err(Error::RuntimeMissing), Ghost(Seq::empty()));
        }
        if !env.allocation_from_store(store, pin) || !env.retirement_from_store(store) {
            return (Err(Error::ForeignStore), Ghost(Seq::empty()));
        }
        let (retired, Ghost(calls)) = retire(env, store, offset);
        match retired {
            Ok(()) => (Ok(false), Ghost(calls)),
            Err(e) => (Err(e), Ghost(calls)),
        }
    }
}

} // verus!
