//! A pointer to a byte buffer in guest memory.
use vstd::prelude::*;
use wasmer::{Memory, MemoryView, Store};
use crate::env::Env;
use crate::error::Error;
use crate::guest::{
    keeps_objects, guest_memory, memory_in_store, memory_is_from_store, view_bytes, view_of, view_read, view_size,
};
use crate::header::{holds_object, read_size, size_field};
use crate::protocol::{
    allocate_with, bound_memory, holds_payload, overwrite_or_retire, retire, write_outcome,
    BUFFER_TAG, GUEST_INT_MAX,
};

verus! {

/// The payload of the object at `offset`: as many bytes as its header
/// records.
pub open spec fn buffer_payload(mem: Seq<u8>, offset: u32) -> Result<Seq<u8>, Error> {
    match size_field(mem, offset) {
        Ok(n) => if offset + n <= mem.len() {
            Ok(mem.subrange(offset as int, offset + n))
        } else {
            Err(Error::OutOfBounds)
        },
        Err(e) => Err(e),
    }
}

/// Where the header records the payload's length, as `allocate` and `write`
/// of a buffer or an opaque object leave it, reading gives that payload back:
/// a value written is the value read.
pub proof fn lemma_payload_reads_back(mem: Seq<u8>, offset: u32, payload: Seq<u8>)
    requires
        holds_payload(mem, offset, payload),
    ensures
        buffer_payload(mem, offset) == Ok::<Seq<u8>, Error>(payload),
{
}

/// Reads the payload of the object at `offset` from a view.
pub fn read_payload(view: &MemoryView, offset: u32) -> (r: Result<Vec<u8>, Error>)
    ensures
        r matches Ok(v) ==> buffer_payload(view_bytes(*view), offset) == Ok::<Seq<u8>, Error>(
            v@,
        ),
        r matches Err(e) ==> buffer_payload(view_bytes(*view), offset) == Err::<Seq<u8>, Error>(
            e,
        ),
{
    let size = read_size(view, offset)?;
    if offset as u64 + size as u64 > view_size(view) {
        return Err(Error::OutOfBounds);
    }
    match view_read(view, offset as u64, size as usize) {
        Ok(v) => Ok(v),
        Err(_) => Err(Error::OutOfBounds),
    }
}

/// A guest byte buffer (type tag 0), known by its offset.
#[derive(Clone, Copy, Debug, PartialEq, Eq, Structural)]
pub struct BufferPtr {
    pub offset: u32,
}

/// The offset that a write or an allocation gave, or its error.
pub open spec fn buffer_result(r: Result<Box<BufferPtr>, Error>) -> Result<u32, Error> {
    match r {
        Ok(p) => Ok(p.offset),
        Err(e) => Err(e),
    }
}

impl BufferPtr {
    pub fn new(offset: u32) -> (r: Self)
        ensures
            r.offset == offset,
    {
        BufferPtr { offset }
    }

    /// The wrapped guest offset.
    pub fn offset(&self) -> (r: u32)
        ensures
            r == self.offset,
    {
        self.offset
    }

    /// The payload length in bytes, as the header records it.
    pub fn size(&self, memory: &Memory, store: &Store) -> (r: Result<u32, Error>)
        ensures
            !memory_in_store(*store, *memory) ==> r == Err::<u32, Error>(Error::ForeignStore),
            memory_in_store(*store, *memory) ==> r == size_field(
                guest_memory(*store, *memory),
                self.offset,
            ),
    {
        if !memory_is_from_store(memory, store) {
            return Err(Error::ForeignStore);
        }
        let view = view_of(memory, store);
        self.size2(&view)
    }

    /// The payload length in bytes, read through a view.
    pub fn size2(&self, view: &MemoryView) -> (r: Result<u32, Error>)
        ensures
            r == size_field(view_bytes(*view), self.offset),
    {
        read_size(view, self.offset)
    }

    /// The payload bytes.
    pub fn read(&self, memory: &Memory, store: &Store) -> (r: Result<Vec<u8>, Error>)
        ensures
            !memory_in_store(*store, *memory) ==> r == Err::<Vec<u8>, Error>(Error::ForeignStore),
            memory_in_store(*store, *memory) ==> (r matches Ok(v) ==> buffer_payload(
                guest_memory(*store, *memory),
                self.offset,
            ) == Ok::<Seq<u8>, Error>(v@)),
            memory_in_store(*store, *memory) ==> (r matches Err(e) ==> buffer_payload(
                guest_memory(*store, *memory),
                self.offset,
            ) == Err::<Seq<u8>, Error>(e)),
    {
        if !memory_is_from_store(memory, store) {
            return Err(Error::ForeignStore);
        }
        let view = view_of(memory, store);
        self.read2(&view)
    }

    /// The payload bytes, read through a view.
    pub fn read2(&self, view: &MemoryView) -> (r: Result<Vec<u8>, Error>)
        ensures
            r matches Ok(v) ==> buffer_payload(view_bytes(*view), self.offset) == Ok::<
                Seq<u8>,
                Error,
            >(v@),
            r matches Err(e) ==> buffer_payload(view_bytes(*view), self.offset) == Err::<
                Seq<u8>,
                Error,
            >(e),
    {
        read_payload(view, self.offset)
    }

    /// Allocates a buffer that holds `value`. It is not pinned.
    pub fn allocate(value: &Vec<u8>, env: &Env, store: &mut Store) -> (r: Result<
        Box<BufferPtr>,
        Error,
    >)
        ensures
            keeps_objects(*old(store), *final(store)),
            !env.can_allocate(false) <==> r == Err::<Box<BufferPtr>, Error>(Error::RuntimeMissing),
            env.can_allocate(false) && value@.len() > GUEST_INT_MAX <==> r == Err::<
                Box<BufferPtr>,
                Error,
            >(Error::SizeOverflow),
            env.can_allocate(false) && value@.len() <= GUEST_INT_MAX && !env.allocation_in_store(
                *old(store),
                false,
            ) ==> r == Err::<Box<BufferPtr>, Error>(Error::ForeignStore),
            r == Err::<Box<BufferPtr>, Error>(Error::RuntimeMissing) || r == Err::<
                Box<BufferPtr>,
                Error,
            >(Error::SizeOverflow) || !env.allocation_in_store(*old(store), false) ==> *final(store) == *old(store),
            r is Ok ==> memory_in_store(*final(store), env.memory->0),
            r matches Ok(p) ==> env.can_allocate(false) && holds_object(
                bound_memory(env, *final(store)),
                p.offset,
                BUFFER_TAG,
                value@,
            ),
            r matches Err(e) ==> e == Error::RuntimeMissing || e == Error::SizeOverflow || e
                == Error::ForeignStore || e == Error::Trap || e == Error::AllocationFailed || e
                == Error::OutOfBounds,
    {
        let (allocated, Ghost(_calls)) = allocate_with(env, store, value.as_slice(), BUFFER_TAG, false);
        let offset = allocated?;
        Ok(Box::new(BufferPtr::new(offset)))
    }

    /// Writes `value` into the buffer. Of the same length, it is overwritten
    /// in place and the pointer stays; otherwise the buffer is unpinned, a
    /// collection runs, and a new buffer is allocated: only the returned
    /// pointer may be used afterwards.
    pub fn write(&self, value: &Vec<u8>, env: &Env, store: &mut Store) -> (r: Result<
        Box<BufferPtr>,
        Error,
    >)
        ensures
            keeps_objects(*old(store), *final(store)),
            write_outcome(
                env,
                *old(store),
                *final(store),
                self.offset,
                value@,
                BUFFER_TAG,
                false,
                false,
                buffer_result(r),
            ),
            r matches Ok(p) ==> holds_payload(bound_memory(env, *final(store)), p.offset, value@),
    {
        let ghost before = bound_memory(env, *store);
        let (kept, Ghost(_calls)) = overwrite_or_retire(env, store, self.offset, value.as_slice(), false, false);
        if kept? {
            proof {
                crate::protocol::lemma_payload_write_keeps_header(before, self.offset, value@);
            }
            Ok(Box::new(*self))
        } else {
            BufferPtr::allocate(value, env, store)
        }
    }

    /// Unpins the buffer and runs a collection; the pointer must not be used
    /// afterwards.
    pub fn free(self, env: &Env, store: &mut Store) -> (r: Result<(), Error>)
        ensures
            keeps_objects(*old(store), *final(store)),
            env.fn_unpin is None || env.fn_collect is None <==> r == Err::<(), Error>(
                Error::RuntimeMissing,
            ),
            env.fn_unpin is Some && env.fn_collect is Some && self.offset > GUEST_INT_MAX <==> r
                == Err::<(), Error>(Error::SizeOverflow),
            env.fn_unpin is Some && env.fn_collect is Some && self.offset <= GUEST_INT_MAX
                && !env.retirement_in_store(*old(store)) ==> r == Err::<(), Error>(
                Error::ForeignStore,
            ),
            r == Err::<(), Error>(Error::RuntimeMissing) || r == Err::<(), Error>(
                Error::SizeOverflow,
            ) || !env.retirement_in_store(*old(store)) ==> *final(store) == *old(store),
            r matches Err(e) ==> e == Error::RuntimeMissing || e == Error::SizeOverflow || e
                == Error::ForeignStore || e == Error::Trap,
    {
        let (retired, Ghost(_calls)) = retire(env, store, self.offset);
        retired
    }
}

} // verus!
