//! The host runtime (wasmer) as this library sees it: its store, memories,
//! memory views and typed guest functions, and the few calls made on them.
use vstd::prelude::*;
use wasmer::{Memory, MemoryAccessError, MemoryView, RuntimeError, Store, TypedFunction};

verus! {

/// wasmer::Store, carried opaque: the state that guest calls and memory
/// writes change.
#[verifier::external_type_specification]
#[verifier::external_body]
pub struct ExStore(wasmer::Store);

/// wasmer::Memory, carried opaque: a handle on a guest linear memory.
#[verifier::external_type_specification]
#[verifier::external_body]
pub struct ExMemory(wasmer::Memory);

/// wasmer::MemoryView, carried opaque: a read access to a guest memory.
#[verifier::external_type_specification]
#[verifier::external_body]
pub struct ExMemoryView<'a>(wasmer::MemoryView<'a>);

/// wasmer::MemoryAccessError, carried opaque: a failed memory access.
#[verifier::external_type_specification]
#[verifier::external_body]
pub struct ExMemoryAccessError(wasmer::MemoryAccessError);

/// wasmer::RuntimeError, carried opaque: a trap in a guest call.
#[verifier::external_type_specification]
#[verifier::external_body]
pub struct ExRuntimeError(wasmer::RuntimeError);

/// wasmer::TypedFunction, carried opaque: an exported guest function.
#[verifier::external_type_specification]
#[verifier::external_body]
#[verifier::reject_recursive_types(Args)]
#[verifier::reject_recursive_types(Rets)]
pub struct ExTypedFunction<Args, Rets>(wasmer::TypedFunction<Args, Rets>);

/// The bytes of a guest linear memory, as the store currently holds them.
pub uninterp spec fn guest_memory(store: Store, memory: Memory) -> Seq<u8>;

/// The bytes of guest memory that a view reads.
pub uninterp spec fn view_bytes(view: MemoryView) -> Seq<u8>;

/// Whether a memory belongs to the store: only then can the store reach it.
pub uninterp spec fn memory_in_store(store: Store, memory: Memory) -> bool;

/// Whether the guest's `new` belongs to the store.
pub uninterp spec fn new_in_store(store: Store, f: TypedFunction<(i32, i32), i32>) -> bool;

/// Whether the guest's `pin` belongs to the store.
pub uninterp spec fn pin_in_store(store: Store, f: TypedFunction<i32, i32>) -> bool;

/// Whether the guest's `unpin` belongs to the store.
pub uninterp spec fn unpin_in_store(store: Store, f: TypedFunction<i32, ()>) -> bool;

/// Whether the guest's `collect` belongs to the store.
pub uninterp spec fn collect_in_store(store: Store, f: TypedFunction<(), ()>) -> bool;

/// `after` holds the same memories and functions as `before`: a store keeps
/// its id, and with it what belongs to it, through writes and guest calls.
pub open spec fn keeps_objects(before: Store, after: Store) -> bool {
    &&& forall|m: Memory| #[trigger] memory_in_store(after, m) == memory_in_store(before, m)
    &&& forall|f: TypedFunction<(i32, i32), i32>| #[trigger] new_in_store(after, f)
        == new_in_store(before, f)
    &&& forall|f: TypedFunction<i32, i32>| #[trigger] pin_in_store(after, f) == pin_in_store(
        before,
        f,
    )
    &&& forall|f: TypedFunction<i32, ()>| #[trigger] unpin_in_store(after, f) == unpin_in_store(
        before,
        f,
    )
    &&& forall|f: TypedFunction<(), ()>| #[trigger] collect_in_store(after, f)
        == collect_in_store(before, f)
}

/// Relies on wasmer::Memory::is_from_store: whether the memory can be used
/// with this store.
#[verifier::external_body]
pub(crate) fn memory_is_from_store(memory: &Memory, store: &Store) -> (r: bool)
    ensures
        r == memory_in_store(*store, *memory),
{
    memory.is_from_store(store)
}

/// Relies on wasmer::Function::is_from_store, applied to the function that
/// the typed `new` wraps.
#[verifier::external_body]
pub(crate) fn new_is_from_store(f: &TypedFunction<(i32, i32), i32>, store: &Store) -> (r: bool)
    ensures
        r == new_in_store(*store, *f),
{
    wasmer::Function::from(f.clone()).is_from_store(store)
}

/// Relies on wasmer::Function::is_from_store, applied to the function that
/// the typed `pin` wraps.
#[verifier::external_body]
pub(crate) fn pin_is_from_store(f: &TypedFunction<i32, i32>, store: &Store) -> (r: bool)
    ensures
        r == pin_in_store(*store, *f),
{
    wasmer::Function::from(f.clone()).is_from_store(store)
}

/// Relies on wasmer::Function::is_from_store, applied to the function that
/// the typed `unpin` wraps.
#[verifier::external_body]
pub(crate) fn unpin_is_from_store(f: &TypedFunction<i32, ()>, store: &Store) -> (r: bool)
    ensures
        r == unpin_in_store(*store, *f),
{
    wasmer::Function::from(f.clone()).is_from_store(store)
}

/// Relies on wasmer::Function::is_from_store, applied to the function that
/// the typed `collect` wraps.
#[verifier::external_body]
pub(crate) fn collect_is_from_store(f: &TypedFunction<(), ()>, store: &Store) -> (r: bool)
    ensures
        r == collect_in_store(*store, *f),
{
    wasmer::Function::from(f.clone()).is_from_store(store)
}

/// Relies on wasmer::Memory::view: a view reads the memory as the store
/// holds it. The memory must belong to the store, or the lookup panics.
#[verifier::external_body]
pub(crate) fn view_of<'a>(memory: &'a Memory, store: &'a Store) -> (r: MemoryView<'a>)
    requires
        memory_in_store(*store, *memory),
    ensures
        view_bytes(r) == guest_memory(*store, *memory),
{
    memory.view(store)
}

/// Relies on wasmer::MemoryView::data_size: the length of the memory in
/// bytes.
#[verifier::external_body]
pub(crate) fn view_size(view: &MemoryView) -> (r: u64)
    ensures
        r == view_bytes(*view).len(),
{
    view.data_size()
}

/// Relies on wasmer::MemoryView::read: a range within the memory is read
/// whole. Callers check the range first, so that nothing is allocated for a
/// range that memory does not hold.
#[verifier::external_body]
pub(crate) fn view_read(view: &MemoryView, offset: u64, len: usize) -> (r: Result<
    Vec<u8>,
    MemoryAccessError,
>)
    requires
        offset + len <= view_bytes(*view).len(),
    ensures
        r is Ok,
        r matches Ok(v) ==> v@ == view_bytes(*view).subrange(offset as int, offset + len),
{
    let mut buf = vec![0u8; len];
    view.read(offset, &mut buf).map(|()| buf)
}

/// Relies on wasmer::MemoryView::write: the whole range is written, or
/// nothing and an error when it reaches past the end of memory. The memory
/// must belong to the store, or the lookup panics.
#[verifier::external_body]
pub(crate) fn memory_write(memory: &Memory, store: &mut Store, offset: u64, data: &[u8]) -> (r:
    Result<(), MemoryAccessError>)
    requires
        memory_in_store(*old(store), *memory),
    ensures
        r is Ok <==> offset + data@.len() <= guest_memory(*old(store), *memory).len(),
        r is Ok ==> guest_memory(*final(store), *memory) == guest_memory(
            *old(store),
            *memory,
        ).update_subrange_with(offset as int, data@),
        r is Err ==> guest_memory(*final(store), *memory) == guest_memory(*old(store), *memory),
        keeps_objects(*old(store), *final(store)),
{
    memory.view(&*store).write(offset, data)
}

/// Relies on wasmer::TypedFunction::call: runs the guest allocator
/// `new(size, tag)`; what it returns and does to memory is the guest's. The
/// function must belong to the store, or the lookup panics; likewise below.
/// The call leaves the store's id, which `is_from_store` compares, as it was;
/// likewise below.
#[verifier::external_body]
pub(crate) fn call_new(f: &TypedFunction<(i32, i32), i32>, store: &mut Store, size: i32, tag: i32) -> (r:
    Result<i32, RuntimeError>)
    requires
        new_in_store(*old(store), *f),
    ensures
        keeps_objects(*old(store), *final(store)),
{
    f.call(store, size, tag)
}

/// Relies on wasmer::TypedFunction::call: runs the guest's `pin(offset)`.
#[verifier::external_body]
pub(crate) fn call_pin(f: &TypedFunction<i32, i32>, store: &mut Store, offset: i32) -> (r: Result<
    i32,
    RuntimeError,
>)
    requires
        pin_in_store(*old(store), *f),
    ensures
        keeps_objects(*old(store), *final(store)),
{
    f.call(store, offset)
}

/// Relies on wasmer::TypedFunction::call: runs the guest's `unpin(offset)`.
#[verifier::external_body]
pub(crate) fn call_unpin(f: &TypedFunction<i32, ()>, store: &mut Store, offset: i32) -> (r: Result<
    (),
    RuntimeError,
>)
    requires
        unpin_in_store(*old(store), *f),
    ensures
        keeps_objects(*old(store), *final(store)),
{
    f.call(store, offset)
}

/// Relies on wasmer::TypedFunction::call: runs the guest's full
/// collection pass `collect()`.
#[verifier::external_body]
pub(crate) fn call_collect(f: &TypedFunction<(), ()>, store: &mut Store) -> (r: Result<
    (),
    RuntimeError,
>)
    requires
        collect_in_store(*old(store), *f),
    ensures
        keeps_objects(*old(store), *final(store)),
{
    f.call(store)
}

} // verus!
