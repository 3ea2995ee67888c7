//! Objects of any guest class: dispatch on the type tag, and transfer of an
//! object between guest instances as a tag and its content.
use vstd::prelude::*;
use wasmer::{Memory, MemoryView, Store};
use crate::buffer_ptr::{buffer_payload, lemma_payload_reads_back, read_payload, BufferPtr};
use crate::env::Env;
use crate::error::Error;
use crate::guest::{
    keeps_objects, guest_memory, memory_in_store, memory_is_from_store, view_bytes, view_of};
use crate::header::{
    holds_object, le_bytes, lemma_le_round_trip, read_type_tag, size_field, tag_field,
    write_type_tag,
};
use crate::protocol::{
    allocate_with, bound_memory, overwrite_or_retire, retire, write_outcome, BUFFER_TAG,
    GUEST_INT_MAX, STRING_TAG,
};
use crate::string_ptr::{string_bytes, StringPtr};
use crate::utf16::{
    bytes_to_units, decode_utf16_lossy, le_bytes_to_units, lemma_decode_encode, lemma_units_bytes,
    utf16_decode_lossy,
};

verus! {

/// The unsigned big-endian integer held by the four bytes of `b` from `at`.
pub open spec fn be_u32(b: Seq<u8>, at: int) -> u32 {
    (16777216 * b[at] as int + 65536 * b[at + 1] as int + 256 * b[at + 2] as int + b[
        at + 3
    ] as int) as u32
}

/// The four big-endian bytes of `v`.
pub open spec fn be_bytes(v: u32) -> Seq<u8> {
    le_bytes(v).reverse()
}

/// The wire form of an exported object: its tag in four big-endian bytes,
/// then its content.
pub open spec fn wire_bytes(id: u32, content: Seq<u8>) -> Seq<u8> {
    be_bytes(id) + content
}

/// An object taken out of a guest: its type tag and its content, owned by
/// the host and tied to no guest instance.
pub struct AnyPtrExported {
    pub id: u32,
    pub content: Vec<u8>,
}

impl AnyPtrExported {
    /// The wire form: the tag in four big-endian bytes, then the content.
    pub fn serialize(self) -> (r: Vec<u8>)
        ensures
            r@ == wire_bytes(self.id, self.content@),
    {
        let b = le_bytes_of(self.id);
        let mut r: Vec<u8> = vec![b[3], b[2], b[1], b[0]];
        proof {
            assert(r@ =~= be_bytes(self.id));
        }
        let mut i: usize = 0;
        while i < self.content.len()
            invariant
                i <= self.content@.len(),
                r@ =~= be_bytes(self.id) + self.content@.subrange(0, i as int),
            decreases self.content@.len() - i,
        {
            r.push(self.content[i]);
            i = i + 1;
            proof {
                assert(r@ =~= be_bytes(self.id) + self.content@.subrange(0, i as int));
            }
        }
        proof {
            assert(self.content@.subrange(0, i as int) =~= self.content@);
        }
        r
    }

    /// Reads the wire form back; fewer than four bytes hold no tag.
    pub fn deserialize(b: &[u8]) -> (r: Result<Self, Error>)
        ensures
            b@.len() < 4 ==> (r matches Err(e) && e == Error::MalformedAny),
            b@.len() >= 4 ==> (r matches Ok(x) && x.id == be_u32(b@, 0) && x.content@
                == b@.subrange(4, b@.len() as int)),
    {
        if b.len() < 4 {
            return Err(Error::MalformedAny);
        }
        let id: u32 = 16777216 * (b[0] as u32) + 65536 * (b[1] as u32) + 256 * (b[2] as u32) + (
        b[3] as u32);
        let mut content: Vec<u8> = Vec::new();
        let mut i: usize = 4;
        while i < b.len()
            invariant
                4 <= i <= b@.len(),
                content@ =~= b@.subrange(4, i as int),
            decreases b@.len() - i,
        {
            content.push(b[i]);
            i = i + 1;
            proof {
                assert(content@ =~= b@.subrange(4, i as int));
            }
        }
        Ok(AnyPtrExported { id, content })
    }
}

/// The four little-endian bytes of `v`, as an array.
fn le_bytes_of(v: u32) -> (r: [u8; 4])
    ensures
        r@ == le_bytes(v),
{
    let r = [
        (v % 256) as u8,
        ((v / 256) % 256) as u8,
        ((v / 256 / 256) % 256) as u8,
        (v / 256 / 256 / 256) as u8,
    ];
    proof {
        assert(r@ =~= le_bytes(v));
    }
    r
}

/// Serializing, then deserializing, gives back the tag and the content.
pub proof fn lemma_wire_round_trip(id: u32, content: Seq<u8>)
    ensures
        wire_bytes(id, content).len() >= 4,
        be_u32(wire_bytes(id, content), 0) == id,
        wire_bytes(id, content).subrange(4, wire_bytes(id, content).len() as int) == content,
{
    let w = wire_bytes(id, content);
    lemma_le_round_trip(id);
    assert(w.subrange(4, w.len() as int) =~= content);
}

/// What a guest object is, by its type tag: a buffer, a string, or an
/// object of another class.
pub enum Type {
    String(Box<StringPtr>),
    Buffer(Box<BufferPtr>),
    Any(Box<AnyPtr>),
}

impl Type {
    /// The offset of the object, whatever its kind.
    pub open spec fn pointee(&self) -> u32 {
        match self {
            Type::String(p) => p.offset,
            Type::Buffer(p) => p.offset,
            Type::Any(p) => p.offset,
        }
    }

    /// The kind that objects with this tag take.
    pub open spec fn kind_of(&self, tag: u32) -> bool {
        match self {
            Type::Buffer(_) => tag == BUFFER_TAG,
            Type::String(_) => tag == STRING_TAG,
            Type::Any(_) => tag != BUFFER_TAG && tag != STRING_TAG,
        }
    }

    pub fn offset(&self) -> (r: u32)
        ensures
            r == self.pointee(),
    {
        match self {
            Type::String(p) => p.offset(),
            Type::Buffer(p) => p.offset(),
            Type::Any(p) => p.offset(),
        }
    }
}

/// The content that importing an exported object stores: strings are decoded
/// and encoded again, anything else is stored as it is.
pub open spec fn imported_content(id: u32, content: Seq<u8>) -> Seq<u8> {
    if id == STRING_TAG {
        string_bytes(utf16_decode_lossy(bytes_to_units(content)))
    } else {
        content
    }
}

/// Taking an object out of one guest and importing it into another gives an
/// object with the same tag and the same content. For a string (tag 1) this
/// holds when its content is the UTF-16 of some string `s`.
pub proof fn lemma_transfer_round_trip(
    src: Seq<u8>,
    offset: u32,
    id: u32,
    content: Seq<u8>,
    dst: Seq<u8>,
    new_offset: u32,
    s: Seq<char>,
)
    requires
        tag_field(src, offset) == Ok::<u32, Error>(id),
        buffer_payload(src, offset) == Ok::<Seq<u8>, Error>(content),
        holds_object(dst, new_offset, id, imported_content(id, content)),
        id == STRING_TAG ==> content == string_bytes(s),
    ensures
        tag_field(dst, new_offset) == tag_field(src, offset),
        buffer_payload(dst, new_offset) == buffer_payload(src, offset),
{
    if id == STRING_TAG {
        lemma_units_bytes(crate::utf16::utf16_encode(s));
        lemma_decode_encode(s);
    }
    assert(imported_content(id, content) == content);
    lemma_payload_reads_back(dst, new_offset, content);
}

/// Writing a type tag leaves the size field and the payload as they were.
proof fn lemma_tag_write(mem: Seq<u8>, offset: u32, tag: u32, payload: Seq<u8>, old_tag: u32)
    requires
        holds_object(mem, offset, old_tag, payload),
    ensures
        holds_object(mem.update_subrange_with(offset - 8, le_bytes(tag)), offset, tag, payload),
{
    let m2 = mem.update_subrange_with(offset - 8, le_bytes(tag));
    lemma_le_round_trip(tag);
    assert(m2.subrange(offset as int, offset + payload.len()) =~= mem.subrange(
        offset as int,
        offset + payload.len(),
    ));
}

/// A guest object of any class, known by its offset.
#[derive(Clone, Copy, Debug, PartialEq, Eq, Structural)]
pub struct AnyPtr {
    pub offset: u32,
}

/// The offset that a write or an allocation gave, or its error.
pub open spec fn any_result(r: Result<Box<AnyPtr>, Error>) -> Result<u32, Error> {
    match r {
        Ok(p) => Ok(p.offset),
        Err(e) => Err(e),
    }
}

/// The errors that a guest allocation may end in once it has started.
pub open spec fn allocation_error(e: Error) -> bool {
    e == Error::RuntimeMissing || e == Error::SizeOverflow || e == Error::ForeignStore || e
        == Error::Trap || e == Error::AllocationFailed || e == Error::OutOfBounds
}

impl AnyPtr {
    pub fn new(offset: u32) -> (r: Self)
        ensures
            r.offset == offset,
    {
        AnyPtr { offset }
    }

    /// The wrapped guest offset.
    pub fn offset(&self) -> (r: u32)
        ensures
            r == self.offset,
    {
        self.offset
    }

    /// The type tag of the object.
    pub fn type_tag(&self, memory: &Memory, store: &Store) -> (r: Result<u32, Error>)
        ensures
            !memory_in_store(*store, *memory) ==> r == Err::<u32, Error>(Error::ForeignStore),
            memory_in_store(*store, *memory) ==> r == tag_field(
                guest_memory(*store, *memory),
                self.offset,
            ),
    {
        if !memory_is_from_store(memory, store) {
            return Err(Error::ForeignStore);
        }
        let view = view_of(memory, store);
        read_type_tag(&view, self.offset)
    }

    /// The object as a buffer (tag 0), a string (tag 1), or, for any other
    /// tag, as it is.
    pub fn to_type(self, memory: &Memory, store: &Store) -> (r: Result<Type, Error>)
        ensures
            !memory_in_store(*store, *memory) ==> (r matches Err(x) && x == Error::ForeignStore),
            memory_in_store(*store, *memory) ==> (tag_field(
                guest_memory(*store, *memory),
                self.offset,
            ) matches Err(e) ==> (r matches Err(x) && x == e)),
            memory_in_store(*store, *memory) ==> (tag_field(
                guest_memory(*store, *memory),
                self.offset,
            ) matches Ok(t) ==> (r matches Ok(ty) && ty.pointee() == self.offset && ty.kind_of(
                t,
            ))),
    {
        let t = self.type_tag(memory, store)?;
        if t == BUFFER_TAG {
            Ok(Type::Buffer(Box::new(BufferPtr::new(self.offset))))
        } else if t == STRING_TAG {
            Ok(Type::String(Box::new(StringPtr::new(self.offset))))
        } else {
            Ok(Type::Any(Box::new(self)))
        }
    }

    /// The payload length in bytes, as the header records it.
    pub fn size(&self, memory: &Memory, store: &Store) -> (r: Result<u32, Error>)
        ensures
            !memory_in_store(*store, *memory) ==> r == Err::<u32, Error>(Error::ForeignStore),
            memory_in_store(*store, *memory) ==> r == size_field(
                guest_memory(*store, *memory),
                self.offset,
            ),
    {
        if !memory_is_from_store(memory, store) {
            return Err(Error::ForeignStore);
        }
        let view = view_of(memory, store);
        self.size2(&view)
    }

    /// The payload length in bytes, read through a view.
    pub fn size2(&self, view: &MemoryView) -> (r: Result<u32, Error>)
        ensures
            r == size_field(view_bytes(*view), self.offset),
    {
        crate::header::read_size(view, self.offset)
    }

    /// The payload bytes.
    pub fn read(&self, memory: &Memory, store: &Store) -> (r: Result<Vec<u8>, Error>)
        ensures
            !memory_in_store(*store, *memory) ==> r == Err::<Vec<u8>, Error>(Error::ForeignStore),
            memory_in_store(*store, *memory) ==> (r matches Ok(v) ==> buffer_payload(
                guest_memory(*store, *memory),
                self.offset,
            ) == Ok::<Seq<u8>, Error>(v@)),
            memory_in_store(*store, *memory) ==> (r matches Err(e) ==> buffer_payload(
                guest_memory(*store, *memory),
                self.offset,
            ) == Err::<Seq<u8>, Error>(e)),
    {
        if !memory_is_from_store(memory, store) {
            return Err(Error::ForeignStore);
        }
        let view = view_of(memory, store);
        self.read2(&view)
    }

    /// The payload bytes, read through a view.
    pub fn read2(&self, view: &MemoryView) -> (r: Result<Vec<u8>, Error>)
        ensures
            r matches Ok(v) ==> buffer_payload(view_bytes(*view), self.offset) == Ok::<
                Seq<u8>,
                Error,
            >(v@),
            r matches Err(e) ==> buffer_payload(view_bytes(*view), self.offset) == Err::<
                Seq<u8>,
                Error,
            >(e),
    {
        read_payload(view, self.offset)
    }

    /// Takes the object out of the guest: its tag and its content.
    pub fn export(&self, memory: &Memory, store: &Store) -> (r: Result<AnyPtrExported, Error>)
        ensures
            !memory_in_store(*store, *memory) ==> (r matches Err(x) && x == Error::ForeignStore),
            memory_in_store(*store, *memory) ==> (buffer_payload(
                guest_memory(*store, *memory),
                self.offset,
            ) matches Err(e) ==> (r matches Err(x) && x == e)),
            memory_in_store(*store, *memory) ==> (buffer_payload(
                guest_memory(*store, *memory),
                self.offset,
            ) matches Ok(c) ==> (r matches Ok(x) && x.content@ == c && tag_field(
                guest_memory(*store, *memory),
                self.offset,
            ) == Ok::<u32, Error>(x.id))),
    {
        if !memory_is_from_store(memory, store) {
            return Err(Error::ForeignStore);
        }
        let view = view_of(memory, store);
        let content = self.read2(&view)?;
        let id = read_type_tag(&view, self.offset)?;
        Ok(AnyPtrExported { id, content })
    }

    /// Allocates an object that holds `value`, tagged as a buffer. It is not
    /// pinned.
    pub fn allocate(value: &Vec<u8>, env: &Env, store: &mut Store) -> (r: Result<
        Box<AnyPtr>,
        Error,
    >)
        ensures
            keeps_objects(*old(store), *final(store)),
            !env.can_allocate(false) <==> r == Err::<Box<AnyPtr>, Error>(Error::RuntimeMissing),
            env.can_allocate(false) && value@.len() > GUEST_INT_MAX <==> r == Err::<
                Box<AnyPtr>,
                Error,
            >(Error::SizeOverflow),
            env.can_allocate(false) && value@.len() <= GUEST_INT_MAX && !env.allocation_in_store(
                *old(store),
                false,
            ) ==> r == Err::<Box<AnyPtr>, Error>(Error::ForeignStore),
            r == Err::<Box<AnyPtr>, Error>(Error::RuntimeMissing) || r == Err::<
                Box<AnyPtr>,
                Error,
            >(Error::SizeOverflow) || !env.allocation_in_store(*old(store), false) ==> *final(store)
                == *old(store),
            r is Ok ==> memory_in_store(*final(store), env.memory->0),
            r matches Ok(p) ==> env.can_allocate(false) && holds_object(
                bound_memory(env, *final(store)),
                p.offset,
                BUFFER_TAG,
                value@,
            ),
            r matches Err(e) ==> allocation_error(e),
    {
        let (allocated, Ghost(_calls)) = allocate_with(env, store, value.as_slice(), BUFFER_TAG, false);
        let offset = allocated?;
        Ok(Box::new(AnyPtr::new(offset)))
    }

    /// Allocates an object that holds `value` and gives it the type tag
    /// `tag`: the guest allocator is asked for a buffer, whose tag is then
    /// overwritten. It is not pinned.
    pub fn allocate_tagged(value: &[u8], tag: u32, env: &Env, store: &mut Store) -> (r: Result<
        Box<AnyPtr>,
        Error,
    >)
        ensures
            keeps_objects(*old(store), *final(store)),
            !env.can_allocate(false) <==> r == Err::<Box<AnyPtr>, Error>(Error::RuntimeMissing),
            env.can_allocate(false) && value@.len() > GUEST_INT_MAX <==> r == Err::<
                Box<AnyPtr>,
                Error,
            >(Error::SizeOverflow),
            env.can_allocate(false) && value@.len() <= GUEST_INT_MAX && !env.allocation_in_store(
                *old(store),
                false,
            ) ==> r == Err::<Box<AnyPtr>, Error>(Error::ForeignStore),
            r == Err::<Box<AnyPtr>, Error>(Error::RuntimeMissing) || r == Err::<
                Box<AnyPtr>,
                Error,
            >(Error::SizeOverflow) || !env.allocation_in_store(*old(store), false) ==> *final(store)
                == *old(store),
            r is Ok ==> memory_in_store(*final(store), env.memory->0),
            r matches Ok(p) ==> env.can_allocate(false) && holds_object(
                bound_memory(env, *final(store)),
                p.offset,
                tag,
                value@,
            ),
            r matches Err(e) ==> allocation_error(e),
    {
        let (allocated, Ghost(_calls)) = allocate_with(env, store, value, BUFFER_TAG, false);
        let offset = allocated?;
        let memory = match &env.memory {
            Some(m) => m,
            None => {
                return Err(Error::RuntimeMissing);
            },
        };
        let ghost before = guest_memory(*store, *memory);
        match write_type_tag(memory, store, offset, tag) {
            Ok(()) => {},
            Err(Error::ForeignStore) => {
                return Err(Error::ForeignStore);
            },
            Err(_) => {
                return Err(Error::OutOfBounds);
            },
        }
        proof {
            lemma_tag_write(before, offset, tag, value@, BUFFER_TAG);
        }
        Ok(Box::new(AnyPtr::new(offset)))
    }

    /// Writes `value` into the object. Of the same length, it is overwritten
    /// in place and the pointer stays; otherwise the object is unpinned, a
    /// collection runs, and a new object with the same tag is allocated:
    /// only the returned pointer may be used afterwards.
    pub fn write(&self, value: &Vec<u8>, env: &Env, store: &mut Store) -> (r: Result<
        Box<AnyPtr>,
        Error,
    >)
        ensures
            keeps_objects(*old(store), *final(store)),
            env.memory is None ==> r == Err::<Box<AnyPtr>, Error>(Error::RuntimeMissing)
                && *final(store) == *old(store),
            env.memory is Some && !memory_in_store(*old(store), env.memory->0) ==> r == Err::<
                Box<AnyPtr>,
                Error,
            >(Error::ForeignStore) && *final(store) == *old(store),
            env.memory is Some && memory_in_store(*old(store), env.memory->0) ==> match tag_field(
                bound_memory(env, *old(store)),
                self.offset,
            ) {
                Err(e) => r == Err::<Box<AnyPtr>, Error>(e) && *final(store) == *old(store),
                Ok(t) => write_outcome(
                    env,
                    *old(store),
                    *final(store),
                    self.offset,
                    value@,
                    t,
                    false,
                    false,
                    any_result(r),
                ),
            },
            r matches Ok(p) ==> crate::protocol::holds_payload(
                bound_memory(env, *final(store)),
                p.offset,
                value@,
            ),
    {
        let memory = match &env.memory {
            Some(m) => m,
            None => {
                return Err(Error::RuntimeMissing);
            },
        };
        if !memory_is_from_store(memory, store) {
            return Err(Error::ForeignStore);
        }
        let tag = {
            let view = view_of(memory, store);
            read_type_tag(&view, self.offset)
        }?;
        let ghost before = bound_memory(env, *store);
        let (kept, Ghost(_calls)) = overwrite_or_retire(env, store, self.offset, value.as_slice(), false, false);
        if kept? {
            proof {
                crate::protocol::lemma_payload_write_keeps_header(before, self.offset, value@);
            }
            Ok(Box::new(*self))
        } else {
            AnyPtr::allocate_tagged(value.as_slice(), tag, env, store)
        }
    }

    /// Unpins the object and runs a collection; the pointer must not be used
    /// afterwards.
    pub fn free(self, env: &Env, store: &mut Store) -> (r: Result<(), Error>)
        ensures
            keeps_objects(*old(store), *final(store)),
            env.fn_unpin is None || env.fn_collect is None <==> r == Err::<(), Error>(
                Error::RuntimeMissing,
            ),
            env.fn_unpin is Some && env.fn_collect is Some && self.offset > GUEST_INT_MAX <==> r
                == Err::<(), Error>(Error::SizeOverflow),
            env.fn_unpin is Some && env.fn_collect is Some && self.offset <= GUEST_INT_MAX
                && !env.retirement_in_store(*old(store)) ==> r == Err::<(), Error>(
                Error::ForeignStore,
            ),
            r == Err::<(), Error>(Error::RuntimeMissing) || r == Err::<(), Error>(
                Error::SizeOverflow,
            ) || !env.retirement_in_store(*old(store)) ==> *final(store) == *old(store),
            r matches Err(e) ==> e == Error::RuntimeMissing || e == Error::SizeOverflow || e
                == Error::ForeignStore || e == Error::Trap,
    {
        let (retired, Ghost(_calls)) = retire(env, store, self.offset);
        retired
    }

    /// Creates in the guest that `env` is bound to an object with the
    /// exported tag and content: a buffer for tag 0, a string for tag 1
    /// (whose content must have an even length), and for any other tag an
    /// object that keeps the tag. Malformed content and a binding that
    /// cannot allocate are refused before the guest is touched.
    pub fn import(ptr_exported: &AnyPtrExported, env: &Env, store: &mut Store) -> (r: Result<
        Type,
        Error,
    >)
        ensures
            keeps_objects(*old(store), *final(store)),
            ptr_exported.id == STRING_TAG && ptr_exported.content@.len() % 2 == 1 <==> r == Err::<
                Type,
                Error,
            >(Error::OddUtf16Length),
            !(ptr_exported.id == STRING_TAG && ptr_exported.content@.len() % 2 == 1)
                && !env.can_allocate(ptr_exported.id == STRING_TAG) <==> r == Err::<Type, Error>(
                Error::RuntimeMissing,
            ),
            !(ptr_exported.id == STRING_TAG && ptr_exported.content@.len() % 2 == 1)
                && env.can_allocate(ptr_exported.id == STRING_TAG) && imported_content(
                ptr_exported.id,
                ptr_exported.content@,
            ).len() > GUEST_INT_MAX <==> r == Err::<Type, Error>(Error::SizeOverflow),
            !(ptr_exported.id == STRING_TAG && ptr_exported.content@.len() % 2 == 1)
                && env.can_allocate(ptr_exported.id == STRING_TAG) && imported_content(
                ptr_exported.id,
                ptr_exported.content@,
            ).len() <= GUEST_INT_MAX && !env.allocation_in_store(
                *old(store),
                ptr_exported.id == STRING_TAG,
            ) ==> r == Err::<Type, Error>(Error::ForeignStore),
            r == Err::<Type, Error>(Error::OddUtf16Length) || r == Err::<Type, Error>(
                Error::RuntimeMissing,
            ) || r == Err::<Type, Error>(Error::SizeOverflow) || !env.allocation_in_store(
                *old(store),
                ptr_exported.id == STRING_TAG,
            ) ==> *final(store) == *old(store),
            r is Ok ==> memory_in_store(*final(store), env.memory->0),
            r matches Ok(t) ==> env.can_allocate(ptr_exported.id == STRING_TAG) && t.kind_of(
                ptr_exported.id,
            ) && holds_object(
                bound_memory(env, *final(store)),
                t.pointee(),
                ptr_exported.id,
                imported_content(ptr_exported.id, ptr_exported.content@),
            ),
            r matches Err(e) ==> e == Error::OddUtf16Length || allocation_error(e),
    {
        let id = ptr_exported.id;
        if id == BUFFER_TAG {
            Ok(Type::Buffer(BufferPtr::allocate(&ptr_exported.content, env, store)?))
        } else if id == STRING_TAG {
            if ptr_exported.content.len() % 2 != 0 {
                return Err(Error::OddUtf16Length);
            }
            let units = le_bytes_to_units(ptr_exported.content.as_slice());
            let s = decode_utf16_lossy(units.as_slice());
            Ok(Type::String(StringPtr::allocate(s.as_str(), env, store)?))
        } else {
            Ok(Type::Any(AnyPtr::allocate_tagged(ptr_exported.content.as_slice(), id, env, store)?))
        }
    }
}

} // verus!
