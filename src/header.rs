//! The object header: the payload size at `offset - 4` and the type tag at
//! `offset - 8`, both little-endian 32-bit integers as guest memory stores
//! them.
use vstd::prelude::*;
use wasmer::{Memory, MemoryView, Store};
use crate::error::Error;
use crate::guest::{
    guest_memory, keeps_objects, memory_in_store, memory_is_from_store, memory_write, view_bytes,
    view_read, view_size,
};

verus! {

/// Distance from an object's offset back to its size field.
pub const SIZE_FIELD: u32 = 4;

/// Distance from an object's offset back to its type tag field.
pub const TAG_FIELD: u32 = 8;

/// The unsigned little-endian integer held by the four bytes of `b` from `at`.
pub open spec fn le_u32(b: Seq<u8>, at: int) -> u32 {
    (b[at] as int + 256 * b[at + 1] as int + 65536 * b[at + 2] as int + 16777216 * b[
        at + 3
    ] as int) as u32
}

/// The four little-endian bytes of `v`.
pub open spec fn le_bytes(v: u32) -> Seq<u8> {
    seq![
        (v % 256) as u8,
        ((v / 256) % 256) as u8,
        ((v / 256 / 256) % 256) as u8,
        (v / 256 / 256 / 256) as u8,
    ]
}

/// What reading the header field `back` bytes below `offset` gives.
pub open spec fn header_field(mem: Seq<u8>, offset: u32, back: u32) -> Result<u32, Error> {
    if offset < TAG_FIELD {
        Err(Error::OffsetTooSmall)
    } else if offset - back + 4 > mem.len() {
        Err(Error::OutOfBounds)
    } else {
        Ok(le_u32(mem, offset - back))
    }
}

/// The payload size recorded in the header of the object at `offset`.
pub open spec fn size_field(mem: Seq<u8>, offset: u32) -> Result<u32, Error> {
    header_field(mem, offset, SIZE_FIELD)
}

/// The type tag recorded in the header of the object at `offset`.
pub open spec fn tag_field(mem: Seq<u8>, offset: u32) -> Result<u32, Error> {
    header_field(mem, offset, TAG_FIELD)
}

/// `mem` holds at `offset` an object with this tag and payload: a header that
/// records both, followed by the payload bytes.
pub open spec fn holds_object(mem: Seq<u8>, offset: u32, tag: u32, payload: Seq<u8>) -> bool {
    &&& tag_field(mem, offset) == Ok::<u32, Error>(tag)
    &&& size_field(mem, offset) == Ok::<u32, Error>(payload.len() as u32)
    &&& payload.len() <= u32::MAX
    &&& offset + payload.len() <= mem.len()
    &&& mem.subrange(offset as int, offset + payload.len()) == payload
}

/// Decodes four little-endian bytes.
pub fn u32_from_le(b: &[u8]) -> (r: u32)
    requires
        b@.len() == 4,
    ensures
        r == le_u32(b@, 0),
{
    let r: u32 = b[0] as u32 + 256 * (b[1] as u32) + 65536 * (b[2] as u32) + 16777216 * (
    b[3] as u32);
    r
}

/// Encodes `v` as four little-endian bytes.
pub fn u32_to_le(v: u32) -> (r: Vec<u8>)
    ensures
        r@ == le_bytes(v),
        le_u32(r@, 0) == v,
{
    let r = vec![
        (v % 256) as u8,
        ((v / 256) % 256) as u8,
        ((v / 256 / 256) % 256) as u8,
        (v / 256 / 256 / 256) as u8,
    ];
    proof {
        lemma_le_round_trip(v);
    }
    r
}

/// Four little-endian bytes decode back to the integer they encode.
pub proof fn lemma_le_round_trip(v: u32)
    ensures
        le_u32(le_bytes(v), 0) == v,
{
    let x = v as int;
    let q1 = x / 256;
    let q2 = q1 / 256;
    let q3 = q2 / 256;
    assert(x == 256 * q1 + x % 256);
    assert(q1 == 256 * q2 + q1 % 256);
    assert(q2 == 256 * q3 + q2 % 256);
    assert(q3 < 256);
}

/// Reads the header field `back` bytes below `offset`.
pub fn read_header_field(view: &MemoryView, offset: u32, back: u32) -> (r: Result<u32, Error>)
    requires
        back == SIZE_FIELD || back == TAG_FIELD,
    ensures
        r == header_field(view_bytes(*view), offset, back),
{
    if offset < TAG_FIELD {
        return Err(Error::OffsetTooSmall);
    }
    if (offset - back) as u64 + 4 > view_size(view) {
        return Err(Error::OutOfBounds);
    }
    match view_read(view, (offset - back) as u64, 4) {
        Ok(b) => Ok(u32_from_le(b.as_slice())),
        Err(_) => Err(Error::OutOfBounds),
    }
}

/// Reads the payload size from the header of the object at `offset`.
pub fn read_size(view: &MemoryView, offset: u32) -> (r: Result<u32, Error>)
    ensures
        r == size_field(view_bytes(*view), offset),
{
    read_header_field(view, offset, SIZE_FIELD)
}

/// Reads the type tag from the header of the object at `offset`.
pub fn read_type_tag(view: &MemoryView, offset: u32) -> (r: Result<u32, Error>)
    ensures
        r == tag_field(view_bytes(*view), offset),
{
    read_header_field(view, offset, TAG_FIELD)
}

/// Overwrites the type tag in the header of the object at `offset`; the rest
/// of memory is left as it was.
pub fn write_type_tag(memory: &Memory, store: &mut Store, offset: u32, tag: u32) -> (r: Result<
    (),
    Error,
>)
    ensures
        keeps_objects(*old(store), *final(store)),
        !memory_in_store(*old(store), *memory) ==> r == Err::<(), Error>(Error::ForeignStore),
        memory_in_store(*old(store), *memory) && offset < TAG_FIELD ==> r == Err::<(), Error>(
            Error::OffsetTooSmall,
        ),
        memory_in_store(*old(store), *memory) && offset >= TAG_FIELD ==> (r is Ok <==> offset
            - TAG_FIELD + 4 <= guest_memory(*old(store), *memory).len()),
        memory_in_store(*old(store), *memory) && offset >= TAG_FIELD && r is Err ==> r == Err::<
            (),
            Error,
        >(Error::OutOfBounds),
        r is Ok ==> memory_in_store(*final(store), *memory),
        r is Err ==> *final(store) == *old(store),
        r is Err ==> r == Err::<(), Error>(Error::ForeignStore) || r == Err::<(), Error>(
            Error::OffsetTooSmall,
        ) || r == Err::<(), Error>(Error::OutOfBounds),
        r is Ok ==> guest_memory(*final(store), *memory) == guest_memory(
            *old(store),
            *memory,
        ).update_subrange_with(offset - TAG_FIELD, le_bytes(tag)),
{
    if !memory_is_from_store(memory, store) {
        return Err(Error::ForeignStore);
    }
    if offset < TAG_FIELD {
        return Err(Error::OffsetTooSmall);
    }
    let bytes = u32_to_le(tag);
    if (offset - TAG_FIELD) as u64 + 4 > memory_len(memory, store) {
        return Err(Error::OutOfBounds);
    }
    match memory_write(memory, store, (offset - TAG_FIELD) as u64, bytes.as_slice()) {
        Ok(()) => Ok(()),
        Err(_) => Err(Error::OutOfBounds),
    }
}

/// The length of a memory of the store, in bytes.
pub(crate) fn memory_len(memory: &Memory, store: &Store) -> (r: u64)
    requires
        memory_in_store(*store, *memory),
    ensures
        r == guest_memory(*store, *memory).len(),
{
    let view = crate::guest::view_of(memory, store);
    view_size(&view)
}

} // verus!
