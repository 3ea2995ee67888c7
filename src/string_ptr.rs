//! A pointer to a UTF-16 string in guest memory.
use vstd::prelude::*;
use wasmer::{Memory, MemoryView, Store};
use crate::env::Env;
use crate::error::Error;
use crate::guest::{
    keeps_objects, guest_memory, memory_in_store, memory_is_from_store, view_bytes, view_of, view_read, view_size,
};
use crate::buffer_ptr::buffer_payload;
use crate::header::{holds_object, read_size, size_field};
use crate::protocol::{
    allocate_with, bound_memory, holds_payload, overwrite_or_retire, retire, same_size,
    write_outcome, GUEST_INT_MAX, STRING_TAG,
};
use crate::utf16::{
    bytes_to_units, decode_utf16_lossy, encode_utf16, le_bytes_to_units, lemma_decode_encode,
    lemma_units_bytes, units_to_bytes, units_to_le_bytes, utf16_decode_lossy, utf16_encode,
};

verus! {

/// The code units of the string at `offset`: half as many as the header
/// records bytes.
pub open spec fn string_units(mem: Seq<u8>, offset: u32) -> Result<Seq<u16>, Error> {
    match size_field(mem, offset) {
        Ok(n) => if offset + 2 * (n / 2) <= mem.len() {
            Ok(bytes_to_units(mem.subrange(offset as int, offset + 2 * (n / 2))))
        } else {
            Err(Error::OutOfBounds)
        },
        Err(e) => Err(e),
    }
}

/// The string at `offset`, decoded from its code units.
pub open spec fn string_value(mem: Seq<u8>, offset: u32) -> Result<Seq<char>, Error> {
    match string_units(mem, offset) {
        Ok(u) => Ok(utf16_decode_lossy(u)),
        Err(e) => Err(e),
    }
}

/// The payload bytes that hold a string.
pub open spec fn string_bytes(s: Seq<char>) -> Seq<u8> {
    units_to_bytes(utf16_encode(s))
}

/// Where the header records the length of a string's payload, as
/// `StringPtr::allocate` and `StringPtr::write` leave it, reading decodes that
/// string back: a string written is the string read.
pub proof fn lemma_string_reads_back(mem: Seq<u8>, offset: u32, s: Seq<char>)
    requires
        holds_payload(mem, offset, string_bytes(s)),
    ensures
        string_units(mem, offset) == Ok::<Seq<u16>, Error>(utf16_encode(s)),
        string_value(mem, offset) == Ok::<Seq<char>, Error>(s),
{
    let u = utf16_encode(s);
    lemma_units_bytes(u);
    lemma_decode_encode(s);
    let n = string_bytes(s).len();
    assert(2 * (n / 2) == n);
}

/// A read returns exactly what the header's size field records: that many
/// bytes for a buffer, half as many code units for a string, and a string
/// whose UTF-16 takes that many bytes again (when the size is even).
pub proof fn lemma_read_matches_size(mem: Seq<u8>, offset: u32)
    ensures
        buffer_payload(mem, offset) matches Ok(p) ==> size_field(mem, offset) == Ok::<u32, Error>(
            p.len() as u32,
        ),
        string_units(mem, offset) matches Ok(u) ==> (size_field(mem, offset) matches Ok(n) && u.len()
            == n / 2),
        string_value(mem, offset) matches Ok(s) ==> (size_field(mem, offset) matches Ok(n) && 2
            * utf16_encode(s).len() == 2 * (n / 2)),
{
    if string_units(mem, offset) is Ok {
        crate::utf16::lemma_decode_length(string_units(mem, offset)->Ok_0);
    }
}

/// Where the header records as many code units as a string has, and its
/// payload holds them, reading decodes that string back: this is what a
/// write in place leaves, also under a header that records an odd byte size.
pub proof fn lemma_string_in_place(mem: Seq<u8>, offset: u32, n: u32, s: Seq<char>)
    requires
        size_field(mem, offset) == Ok::<u32, Error>(n),
        same_size(n, string_bytes(s).len(), true),
        offset + string_bytes(s).len() <= mem.len(),
        mem.subrange(offset as int, offset + string_bytes(s).len()) == string_bytes(s),
    ensures
        string_units(mem, offset) == Ok::<Seq<u16>, Error>(utf16_encode(s)),
        string_value(mem, offset) == Ok::<Seq<char>, Error>(s),
{
    let u = utf16_encode(s);
    lemma_units_bytes(u);
    lemma_decode_encode(s);
    assert(2 * (n / 2) == string_bytes(s).len());
}

/// Reads the string at `offset` from a view.
pub fn read_string(view: &MemoryView, offset: u32) -> (r: Result<String, Error>)
    ensures
        r matches Ok(s) ==> string_value(view_bytes(*view), offset) == Ok::<Seq<char>, Error>(
            s@,
        ),
        r matches Err(e) ==> string_value(view_bytes(*view), offset) == Err::<Seq<char>, Error>(
            e,
        ),
{
    let size = read_size(view, offset)?;
    if offset as u64 + (2 * (size / 2)) as u64 > view_size(view) {
        return Err(Error::OutOfBounds);
    }
    let bytes = match view_read(view, offset as u64, (2 * (size / 2)) as usize) {
        Ok(b) => b,
        Err(_) => {
            return Err(Error::OutOfBounds);
        },
    };
    let units = le_bytes_to_units(bytes.as_slice());
    Ok(decode_utf16_lossy(units.as_slice()))
}

/// A guest string (type tag 1) of UTF-16 code units, known by its offset.
#[derive(Clone, Copy, Debug, PartialEq, Eq, Structural)]
pub struct StringPtr {
    pub offset: u32,
}

/// The offset that a write or an allocation gave, or its error.
pub open spec fn string_result(r: Result<Box<StringPtr>, Error>) -> Result<u32, Error> {
    match r {
        Ok(p) => Ok(p.offset),
        Err(e) => Err(e),
    }
}

impl StringPtr {
    pub fn new(offset: u32) -> (r: Self)
        ensures
            r.offset == offset,
    {
        StringPtr { offset }
    }

    /// The wrapped guest offset.
    pub fn offset(&self) -> (r: u32)
        ensures
            r == self.offset,
    {
        self.offset
    }

    /// The length in code units: half the byte size that the header records.
    pub fn size(&self, memory: &Memory, store: &Store) -> (r: Result<u32, Error>)
        ensures
            !memory_in_store(*store, *memory) ==> r == Err::<u32, Error>(Error::ForeignStore),
            memory_in_store(*store, *memory) ==> (size_field(
                guest_memory(*store, *memory),
                self.offset,
            ) matches Ok(n) ==> r == Ok::<u32, Error>(n / 2)),
            memory_in_store(*store, *memory) ==> (size_field(
                guest_memory(*store, *memory),
                self.offset,
            ) matches Err(e) ==> r == Err::<u32, Error>(e)),
    {
        if !memory_is_from_store(memory, store) {
            return Err(Error::ForeignStore);
        }
        let view = view_of(memory, store);
        self.size2(&view)
    }

    /// The length in code units, read through a view.
    pub fn size2(&self, view: &MemoryView) -> (r: Result<u32, Error>)
        ensures
            size_field(view_bytes(*view), self.offset) matches Ok(n) ==> r == Ok::<u32, Error>(
                n / 2,
            ),
            size_field(view_bytes(*view), self.offset) matches Err(e) ==> r == Err::<u32, Error>(
                e,
            ),
    {
        let n = read_size(view, self.offset)?;
        Ok(n / 2)
    }

    /// The string, with U+FFFD for each unpaired surrogate.
    pub fn read(&self, memory: &Memory, store: &Store) -> (r: Result<String, Error>)
        ensures
            !memory_in_store(*store, *memory) ==> r == Err::<String, Error>(Error::ForeignStore),
            memory_in_store(*store, *memory) ==> (r matches Ok(s) ==> string_value(
                guest_memory(*store, *memory),
                self.offset,
            ) == Ok::<Seq<char>, Error>(s@)),
            memory_in_store(*store, *memory) ==> (r matches Err(e) ==> string_value(
                guest_memory(*store, *memory),
                self.offset,
            ) == Err::<Seq<char>, Error>(e)),
    {
        if !memory_is_from_store(memory, store) {
            return Err(Error::ForeignStore);
        }
        let view = view_of(memory, store);
        self.read2(&view)
    }

    /// The string, read through a view.
    pub fn read2(&self, view: &MemoryView) -> (r: Result<String, Error>)
        ensures
            r matches Ok(s) ==> string_value(view_bytes(*view), self.offset) == Ok::<
                Seq<char>,
                Error,
            >(s@),
            r matches Err(e) ==> string_value(view_bytes(*view), self.offset) == Err::<
                Seq<char>,
                Error,
            >(e),
    {
        read_string(view, self.offset)
    }

    /// Allocates a string that holds `value` and pins it.
    pub fn allocate(value: &str, env: &Env, store: &mut Store) -> (r: Result<
        Box<StringPtr>,
        Error,
    >)
        ensures
            keeps_objects(*old(store), *final(store)),
            !env.can_allocate(true) <==> r == Err::<Box<StringPtr>, Error>(Error::RuntimeMissing),
            env.can_allocate(true) && string_bytes(value@).len() > GUEST_INT_MAX <==> r == Err::<
                Box<StringPtr>,
                Error,
            >(Error::SizeOverflow),
            env.can_allocate(true) && string_bytes(value@).len() <= GUEST_INT_MAX
                && !env.allocation_in_store(*old(store), true) ==> r == Err::<Box<StringPtr>, Error>(
                Error::ForeignStore,
            ),
            r == Err::<Box<StringPtr>, Error>(Error::RuntimeMissing) || r == Err::<
                Box<StringPtr>,
                Error,
            >(Error::SizeOverflow) || !env.allocation_in_store(*old(store), true) ==> *final(store)
                == *old(store),
            r is Ok ==> memory_in_store(*final(store), env.memory->0),
            r matches Ok(p) ==> env.can_allocate(true) && holds_object(
                bound_memory(env, *final(store)),
                p.offset,
                STRING_TAG,
                string_bytes(value@),
            ),
            r matches Err(e) ==> e == Error::RuntimeMissing || e == Error::SizeOverflow || e
                == Error::ForeignStore || e == Error::Trap || e == Error::AllocationFailed || e
                == Error::OutOfBounds,
    {
        if !env.allocation_bound(true) {
            return Err(Error::RuntimeMissing);
        }
        let units = encode_utf16(value);
        if units.len() > (GUEST_INT_MAX / 2) as usize {
            return Err(Error::SizeOverflow);
        }
        let bytes = units_to_le_bytes(units.as_slice());
        let (allocated, Ghost(_calls)) = allocate_with(env, store, bytes.as_slice(), STRING_TAG, true);
        let offset = allocated?;
        Ok(Box::new(StringPtr::new(offset)))
    }

    /// Writes `value` into the string. With as many code units as the
    /// header records, it is overwritten in place and the pointer stays;
    /// otherwise the string is unpinned, a collection runs, and a new string
    /// is allocated: only the returned pointer may be used afterwards.
    pub fn write(&self, value: &str, env: &Env, store: &mut Store) -> (r: Result<
        Box<StringPtr>,
        Error,
    >)
        ensures
            keeps_objects(*old(store), *final(store)),
            string_bytes(value@).len() > GUEST_INT_MAX ==> r == Err::<Box<StringPtr>, Error>(
                Error::SizeOverflow,
            ) && *final(store) == *old(store),
            string_bytes(value@).len() <= GUEST_INT_MAX ==> write_outcome(
                env,
                *old(store),
                *final(store),
                self.offset,
                string_bytes(value@),
                STRING_TAG,
                true,
                true,
                string_result(r),
            ),
            r matches Ok(p) ==> string_value(bound_memory(env, *final(store)), p.offset) == Ok::<
                Seq<char>,
                Error,
            >(value@),
    {
        let units = encode_utf16(value);
        if units.len() > (GUEST_INT_MAX / 2) as usize {
            return Err(Error::SizeOverflow);
        }
        let bytes = units_to_le_bytes(units.as_slice());
        proof {
            lemma_units_bytes(units@);
        }
        let ghost before = bound_memory(env, *store);
        let (kept, Ghost(_calls)) = overwrite_or_retire(env, store, self.offset, bytes.as_slice(), true, true);
        if kept? {
            proof {
                let n = size_field(before, self.offset)->Ok_0;
                crate::protocol::lemma_payload_write_keeps_header(before, self.offset, bytes@);
                lemma_string_in_place(bound_memory(env, *store), self.offset, n, value@);
            }
            Ok(Box::new(*self))
        } else {
            let r = StringPtr::allocate(value, env, store);
            proof {
                if r is Ok {
                    lemma_string_reads_back(bound_memory(env, *store), r->Ok_0.offset, value@);
                }
            }
            r
        }
    }

    /// Unpins the string and runs a collection; the pointer must not be used
    /// afterwards.
    pub fn free(self, env: &Env, store: &mut Store) -> (r: Result<(), Error>)
        ensures
            keeps_objects(*old(store), *final(store)),
            env.fn_unpin is None || env.fn_collect is None <==> r == Err::<(), Error>(
                Error::RuntimeMissing,
            ),
            env.fn_unpin is Some && env.fn_collect is Some && self.offset > GUEST_INT_MAX <==> r
                == Err::<(), Error>(Error::SizeOverflow),
            env.fn_unpin is Some && env.fn_collect is Some && self.offset <= GUEST_INT_MAX
                && !env.retirement_in_store(*old(store)) ==> r == Err::<(), Error>(
                Error::ForeignStore,
            ),
            r == Err::<(), Error>(Error::RuntimeMissing) || r == Err::<(), Error>(
                Error::SizeOverflow,
            ) || !env.retirement_in_store(*old(store)) ==> *final(store) == *old(store),
            r matches Err(e) ==> e == Error::RuntimeMissing || e == Error::SizeOverflow || e
                == Error::ForeignStore || e == Error::Trap,
    {
        let (retired, Ghost(_calls)) = retire(env, store, self.offset);
        retired
    }
}

} // verus!
