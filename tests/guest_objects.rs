use as_ffi_bindings::{
    read_diagnostic, AnyPtr, AnyPtrExported, BufferPtr, Env, Error, Read, StringPtr, Type, Write,
};
use wasmer::sys::{BaseTunables, NativeEngineExt};
use wasmer::{
    Engine, Exports, Function, FunctionEnv, FunctionEnvMut, Imports, Instance, Memory, Module,
    Pages, RuntimeError, Store,
};

/// A guest that follows the runtime interface: a bump allocator that writes
/// the object header, no-op pin/unpin/collect, a few static objects and an
/// in-place byte sort.
const GUEST: &str = r#"
(module
  (memory (export "memory") 1)
  (global $top (mut i32) (i32.const 1024))
  (data (i32.const 8) "\01\00\00\00\14\00\00\00h\00e\00l\00l\00o\00 \00t\00e\00s\00t\00")
  (data (i32.const 64) "\00\00\00\00\04\00\00\00\01\03\03\ff")
  (data (i32.const 96) "\00\00\00\00\05\00\00\00\01\03\03\fe\ff")
  (data (i32.const 128) "\01\00\00\00\0c\00\00\00\24\00\a2\00\39\09\5c\d5\34\d8\06\df")
  (data (i32.const 192) "\01\00\00\00\02\00\00\00\00\d8")
  (data (i32.const 224) "\01\00\00\00\05\00\00\00h\00i\00x")
  (func (export "__new") (param $size i32) (param $id i32) (result i32)
    (local $ptr i32)
    (local.set $ptr (i32.add (global.get $top) (i32.const 8)))
    (i32.store (i32.sub (local.get $ptr) (i32.const 8)) (local.get $id))
    (i32.store (i32.sub (local.get $ptr) (i32.const 4)) (local.get $size))
    (global.set $top
      (i32.and (i32.add (i32.add (local.get $ptr) (local.get $size)) (i32.const 7))
               (i32.const -8)))
    (local.get $ptr))
  (func (export "__pin") (param $p i32) (result i32) (local.get $p))
  (func (export "__unpin") (param $p i32))
  (func (export "__collect"))
  (func (export "getString") (result i32) (i32.const 16))
  (func (export "getUnicode") (result i32) (i32.const 136))
  (func (export "getBroken") (result i32) (i32.const 200))
  (func (export "getOdd") (result i32) (i32.const 232))
  (func (export "get_buffer") (result i32) (i32.const 72))
  (func (export "get_buffer_2") (result i32) (i32.const 104))
  (func (export "sortBuffer") (param $p i32)
    (local $n i32) (local $i i32) (local $j i32) (local $a i32) (local $b i32)
    (local.set $n (i32.load (i32.sub (local.get $p) (i32.const 4))))
    (block $done_i
      (loop $outer
        (br_if $done_i (i32.ge_u (local.get $i) (local.get $n)))
        (local.set $j (i32.const 0))
        (block $done_j
          (loop $inner
            (br_if $done_j (i32.ge_u (i32.add (local.get $j) (i32.const 1)) (local.get $n)))
            (local.set $a (i32.load8_u (i32.add (local.get $p) (local.get $j))))
            (local.set $b (i32.load8_u (i32.add (i32.add (local.get $p) (local.get $j)) (i32.const 1))))
            (block $ordered
              (br_if $ordered (i32.le_u (local.get $a) (local.get $b)))
              (i32.store8 (i32.add (local.get $p) (local.get $j)) (local.get $b))
              (i32.store8 (i32.add (i32.add (local.get $p) (local.get $j)) (i32.const 1)) (local.get $a)))
            (local.set $j (i32.add (local.get $j) (i32.const 1)))
            (br $inner)))
        (local.set $i (i32.add (local.get $i) (i32.const 1)))
        (br $outer))))
)
"#;

/// A guest whose allocator hands out an offset with no room for a header.
const BAD_ALLOCATOR: &str = r#"
(module
  (memory (export "memory") 1)
  (func (export "__new") (param i32 i32) (result i32) (i32.const 4))
  (func (export "__pin") (param $p i32) (result i32) (local.get $p))
  (func (export "__unpin") (param i32))
  (func (export "__collect"))
)
"#;

/// A guest whose allocator returns an offset but writes no header there.
const NO_HEADER: &str = r#"
(module
  (memory (export "memory") 1)
  (func (export "__new") (param i32 i32) (result i32) (i32.const 64))
  (func (export "__pin") (param $p i32) (result i32) (local.get $p))
  (func (export "__unpin") (param i32))
  (func (export "__collect"))
)
"#;

/// A guest whose allocator traps.
const TRAPPING: &str = r#"
(module
  (memory (export "memory") 1)
  (func (export "__new") (param i32 i32) (result i32) (unreachable))
  (func (export "__pin") (param $p i32) (result i32) (local.get $p))
  (func (export "__unpin") (param i32))
  (func (export "__collect"))
)
"#;

/// A guest that aborts with "hello test" as message and file name.
const ABORTING: &str = r#"
(module
  (import "env" "abort" (func $abort (param i32 i32 i32 i32)))
  (memory (export "memory") 1)
  (data (i32.const 8) "\01\00\00\00\14\00\00\00h\00e\00l\00l\00o\00 \00t\00e\00s\00t\00")
  (func (export "to_abort") (call $abort (i32.const 16) (i32.const 16) (i32.const 7) (i32.const 3)))
  (func (export "to_abort_badly") (call $abort (i32.const 3) (i32.const 16) (i32.const 7) (i32.const 3)))
)
"#;

/// A store whose guest memories are sized as they grow, with no large
/// address-space reservation up front.
fn new_store() -> Store {
    let mut engine = Engine::default();
    engine.set_tunables(BaseTunables {
        static_memory_bound: Pages(0),
        static_memory_offset_guard_size: 0,
        dynamic_memory_offset_guard_size: 0x1_0000,
    });
    Store::new(engine)
}

fn instantiate(wat: &str) -> (Store, Instance, Memory) {
    let mut store = new_store();
    let module = Module::new(&store, wat).expect("module");
    let instance = Instance::new(&mut store, &module, &Imports::new()).expect("instance");
    let memory = instance.exports.get_memory("memory").expect("memory").clone();
    (store, instance, memory)
}

fn bind(store: &Store, instance: &Instance, memory: &Memory) -> Env {
    let mut env = Env::default();
    env.init_with(
        Some(memory.clone()),
        Some(instance.exports.get_typed_function(store, "__new").expect("__new")),
        Some(instance.exports.get_typed_function(store, "__pin").expect("__pin")),
        Some(instance.exports.get_typed_function(store, "__unpin").expect("__unpin")),
        Some(instance.exports.get_typed_function(store, "__collect").expect("__collect")),
    );
    env
}

/// Binds only the memory, `__new` and, if asked, `__pin`.
fn bind_partly(store: &Store, instance: &Instance, memory: &Memory, pin: bool) -> Env {
    let mut env = Env::default();
    let fn_pin = if pin {
        Some(instance.exports.get_typed_function(store, "__pin").expect("__pin"))
    } else {
        None
    };
    env.init_with(
        Some(memory.clone()),
        Some(instance.exports.get_typed_function(store, "__new").expect("__new")),
        fn_pin,
        None,
        None,
    );
    env
}

fn guest_offset(store: &mut Store, instance: &Instance, name: &str) -> u32 {
    let f = instance
        .exports
        .get_typed_function::<(), i32>(store, name)
        .expect("export");
    f.call(store).expect("call") as u32
}

#[test]
fn read_strings() {
    let (mut store, instance, memory) = instantiate(GUEST);
    let str_ptr = StringPtr::new(guest_offset(&mut store, &instance, "getUnicode"));
    let string = str_ptr.read(&memory, &store).unwrap();
    assert_eq!(string, "$¢ह한𝌆");
}

#[test]
fn read_alloc_strings() {
    let (mut store, instance, memory) = instantiate(GUEST);
    let env = bind_partly(&store, &instance, &memory, true);
    let str_ptr = StringPtr::new(guest_offset(&mut store, &instance, "getString"));
    assert_eq!(str_ptr.read(&memory, &store).unwrap(), "hello test");

    let to_alloc = String::from("hello return");
    let str_ptr_2 = StringPtr::allocate(&to_alloc, &env, &mut store).unwrap();
    assert_eq!(str_ptr_2.read(&memory, &store).unwrap(), to_alloc);
}

#[test]
fn read_write_strings() {
    let (mut store, instance, memory) = instantiate(GUEST);
    let env = bind_partly(&store, &instance, &memory, false);
    let str_ptr = StringPtr::new(guest_offset(&mut store, &instance, "getString"));
    assert_eq!(str_ptr.read(&memory, &store).unwrap(), "hello test");

    str_ptr.write(&"hallo tast".to_string(), &env, &mut store).unwrap();
    let str_ptr_2 = StringPtr::new(guest_offset(&mut store, &instance, "getString"));
    assert_eq!(str_ptr_2.read(&memory, &store).unwrap(), "hallo tast");
}

#[test]
fn read_buffers() {
    let (mut store, instance, memory) = instantiate(GUEST);
    let buf_ptr = BufferPtr::new(guest_offset(&mut store, &instance, "get_buffer"));
    let expected: Vec<u8> = vec![0x01, 0x03, 0x03, 0xFF];
    assert_eq!(buf_ptr.read(&memory, &store).unwrap(), expected);

    let buf_ptr = BufferPtr::new(guest_offset(&mut store, &instance, "get_buffer_2"));
    let expected: Vec<u8> = vec![0x01, 0x03, 0x03, 0xFE, 0xFF];
    assert_eq!(buf_ptr.read(&memory, &store).unwrap(), expected);
}

#[test]
fn alloc_buffer() {
    let (mut store, instance, memory) = instantiate(GUEST);
    let env = bind_partly(&store, &instance, &memory, false);
    let sort_buffer = instance
        .exports
        .get_typed_function::<i32, ()>(&store, "sortBuffer")
        .unwrap();

    let input: Vec<u8> = vec![0x03, 0x02, 0x08, 0x00, 0x04, 0x01, 0x05];
    let buffer_ptr = BufferPtr::allocate(&input, &env, &mut store).unwrap();
    sort_buffer.call(&mut store, buffer_ptr.offset() as i32).unwrap();
    let sorted = buffer_ptr.read(&memory, &store).unwrap();
    assert_eq!(sorted, vec![0x00, 0x01, 0x02, 0x03, 0x04, 0x05, 0x08]);

    let input: Vec<u8> = vec![0x03, 0x02, 0x00, 0x01, 0x09];
    let buffer_ptr = BufferPtr::allocate(&input, &env, &mut store).unwrap();
    assert_eq!(buffer_ptr.size(&memory, &store).unwrap(), 5);
}

/// What the host keeps for a guest that may abort: its binding, and the
/// reports received so far.
struct AbortHost {
    env: Env,
    reports: Vec<String>,
}

/// Host side of the guest's `env.abort`: the report is read through the
/// library and recorded, and the call succeeds; a report that cannot be read
/// fails the guest call.
fn abort(
    mut ctx: FunctionEnvMut<AbortHost>,
    message: u32,
    filename: u32,
    line: u32,
    col: u32,
) -> Result<(), RuntimeError> {
    let memory = ctx.data().env.memory.clone().expect("memory");
    let report = {
        let view = memory.view(&ctx);
        read_diagnostic(&view, StringPtr::new(message), StringPtr::new(filename), line, col)
            .map_err(|e| RuntimeError::new(e.message()))?
    };
    ctx.data_mut().reports.push(format!(
        "Error: {} at {}:{} col: {}",
        report.message, report.filename, report.line, report.col
    ));
    Ok(())
}

#[test]
fn test_abort() {
    let mut store = new_store();
    let module = Module::new(&store, ABORTING).unwrap();
    let fenv = FunctionEnv::new(&mut store, AbortHost { env: Env::default(), reports: vec![] });
    let mut exports = Exports::new();
    exports.insert("abort", Function::new_typed_with_env(&mut store, &fenv, abort));
    let mut imports = Imports::new();
    imports.register_namespace("env", exports);
    let instance = Instance::new(&mut store, &module, &imports).unwrap();
    let memory = instance.exports.get_memory("memory").unwrap().clone();
    fenv.as_mut(&mut store).env.init_with(Some(memory), None, None, None, None);

    let to_abort = instance
        .exports
        .get_typed_function::<(), ()>(&store, "to_abort")
        .unwrap();
    to_abort.call(&mut store).expect("Could not call abort");
    assert_eq!(
        fenv.as_ref(&store).reports,
        vec!["Error: hello test at hello test:7 col: 3".to_string()]
    );

    let to_abort_badly = instance
        .exports
        .get_typed_function::<(), ()>(&store, "to_abort_badly")
        .unwrap();
    let err = to_abort_badly.call(&mut store).unwrap_err();
    assert!(err.message().contains(Error::OffsetTooSmall.message()));
    assert_eq!(fenv.as_ref(&store).reports.len(), 1);
}

#[test]
fn string_resize_gives_new_pointer() {
    let (mut store, instance, memory) = instantiate(GUEST);
    let env = bind(&store, &instance, &memory);
    let ptr = StringPtr::allocate("hello return", &env, &mut store).unwrap();
    assert_eq!(ptr.size(&memory, &store).unwrap(), 12);
    assert_eq!(ptr.read(&memory, &store).unwrap(), "hello return");

    let ptr_2 = ptr.write("hallo tast", &env, &mut store).unwrap();
    assert_ne!(ptr_2.offset(), ptr.offset());
    assert_eq!(ptr_2.read(&memory, &store).unwrap(), "hallo tast");
    assert_eq!(ptr_2.size(&memory, &store).unwrap(), 10);
}

#[test]
fn same_size_write_keeps_offset() {
    let (mut store, instance, memory) = instantiate(GUEST);
    let env = bind(&store, &instance, &memory);
    let ptr = BufferPtr::allocate(&vec![1, 2, 3], &env, &mut store).unwrap();
    let same = ptr.write(&vec![4, 5, 6], &env, &mut store).unwrap();
    assert_eq!(same.offset(), ptr.offset());
    assert_eq!(same.read(&memory, &store).unwrap(), vec![4, 5, 6]);

    let moved = same.write(&vec![7, 8], &env, &mut store).unwrap();
    assert_ne!(moved.offset(), ptr.offset());
    assert_eq!(moved.read(&memory, &store).unwrap(), vec![7, 8]);

    let s = StringPtr::allocate("abc", &env, &mut store).unwrap();
    let s2 = s.write("xyz", &env, &mut store).unwrap();
    assert_eq!(s2.offset(), s.offset());
    assert_eq!(s2.read(&memory, &store).unwrap(), "xyz");
}

#[test]
fn round_trip_of_each_kind() {
    let (mut store, instance, memory) = instantiate(GUEST);
    let env = bind(&store, &instance, &memory);
    for value in [vec![], vec![9u8], vec![1, 2, 3, 4, 5, 6, 7, 8, 9, 10]] {
        let b = BufferPtr::allocate(&value, &env, &mut store).unwrap();
        assert_eq!(b.read(&memory, &store).unwrap(), value);
        let a = AnyPtr::allocate(&value, &env, &mut store).unwrap();
        assert_eq!(a.read(&memory, &store).unwrap(), value);
        assert_eq!(a.type_tag(&memory, &store).unwrap(), 0);
    }
    for value in ["", "a", "$¢ह한𝌆", "hello return"] {
        let s = StringPtr::allocate(value, &env, &mut store).unwrap();
        assert_eq!(s.read(&memory, &store).unwrap(), value);
        let any = AnyPtr::new(s.offset());
        assert_eq!(any.type_tag(&memory, &store).unwrap(), 1);
    }
    let tagged = AnyPtr::allocate_tagged(&[5, 6], 42, &env, &mut store).unwrap();
    assert_eq!(tagged.type_tag(&memory, &store).unwrap(), 42);
    assert_eq!(tagged.read(&memory, &store).unwrap(), vec![5, 6]);
    let rewritten = tagged.write(&vec![1, 2, 3], &env, &mut store).unwrap();
    assert_ne!(rewritten.offset(), tagged.offset());
    assert_eq!(rewritten.type_tag(&memory, &store).unwrap(), 42);
    assert_eq!(rewritten.read(&memory, &store).unwrap(), vec![1, 2, 3]);
}

#[test]
fn string_bytes_are_utf16_little_endian() {
    let (mut store, instance, memory) = instantiate(GUEST);
    let env = bind(&store, &instance, &memory);
    let s = StringPtr::allocate("h𝌆", &env, &mut store).unwrap();
    let raw = BufferPtr::new(s.offset()).read(&memory, &store).unwrap();
    assert_eq!(raw, vec![0x68, 0x00, 0x34, 0xD8, 0x06, 0xDF]);
    assert_eq!(s.size(&memory, &store).unwrap(), 3);
}

#[test]
fn unpaired_surrogate_reads_as_replacement() {
    let (mut store, instance, memory) = instantiate(GUEST);
    let ptr = StringPtr::new(guest_offset(&mut store, &instance, "getBroken"));
    assert_eq!(ptr.read(&memory, &store).unwrap(), "\u{FFFD}");
}

#[test]
fn to_type_dispatches_on_tag() {
    let (mut store, instance, memory) = instantiate(GUEST);
    let env = bind(&store, &instance, &memory);
    let b = BufferPtr::allocate(&vec![1], &env, &mut store).unwrap();
    let s = StringPtr::allocate("x", &env, &mut store).unwrap();
    let a = AnyPtr::allocate_tagged(&[1], 7, &env, &mut store).unwrap();
    match AnyPtr::new(b.offset()).to_type(&memory, &store).unwrap() {
        Type::Buffer(p) => assert_eq!(p.offset(), b.offset()),
        _ => panic!("expected a buffer"),
    }
    match AnyPtr::new(s.offset()).to_type(&memory, &store).unwrap() {
        Type::String(p) => assert_eq!(p.offset(), s.offset()),
        _ => panic!("expected a string"),
    }
    let t = a.to_type(&memory, &store).unwrap();
    assert!(matches!(t, Type::Any(_)));
    assert_eq!(t.offset(), a.offset());
}

#[test]
fn serialize_is_big_endian_tag_then_content() {
    let e = AnyPtrExported { id: 0x01020304, content: vec![9, 8] };
    assert_eq!(e.serialize(), vec![1, 2, 3, 4, 9, 8]);
    let e = AnyPtrExported { id: 42, content: vec![] };
    assert_eq!(e.serialize(), vec![0, 0, 0, 42]);

    let back = AnyPtrExported::deserialize(&[0, 0, 1, 0, 7]).unwrap();
    assert_eq!(back.id, 256);
    assert_eq!(back.content, vec![7]);

    let again = AnyPtrExported::deserialize(
        &AnyPtrExported { id: 0xDEADBEEF, content: vec![1, 2, 3] }.serialize(),
    )
    .unwrap();
    assert_eq!(again.id, 0xDEADBEEF);
    assert_eq!(again.content, vec![1, 2, 3]);
}

#[test]
fn deserialize_too_short_is_malformed() {
    assert!(matches!(AnyPtrExported::deserialize(&[1, 2, 3]), Err(Error::MalformedAny)));
    assert!(matches!(AnyPtrExported::deserialize(&[]), Err(Error::MalformedAny)));
    let empty = AnyPtrExported::deserialize(&[0, 0, 0, 1]).unwrap();
    assert_eq!(empty.id, 1);
    assert!(empty.content.is_empty());
}

#[test]
fn import_odd_string_content_fails() {
    let (store, instance, memory) = instantiate(GUEST);
    let env = bind(&store, &instance, &memory);
    let mut store = store;
    let e = AnyPtrExported { id: 1, content: vec![0x68, 0x00, 0x69] };
    assert!(matches!(AnyPtr::import(&e, &env, &mut store), Err(Error::OddUtf16Length)));
    let unbound = Env::default();
    assert!(matches!(AnyPtr::import(&e, &unbound, &mut store), Err(Error::OddUtf16Length)));
}

#[test]
fn transfer_between_instances() {
    let (mut store_a, instance_a, memory_a) = instantiate(GUEST);
    let env_a = bind(&store_a, &instance_a, &memory_a);
    let (mut store_b, instance_b, memory_b) = instantiate(GUEST);
    let env_b = bind(&store_b, &instance_b, &memory_b);

    let b = BufferPtr::allocate(&vec![3, 1, 4], &env_a, &mut store_a).unwrap();
    let s = StringPtr::allocate("hello return", &env_a, &mut store_a).unwrap();
    let a = AnyPtr::allocate_tagged(&[2, 7, 1, 8], 42, &env_a, &mut store_a).unwrap();

    for offset in [b.offset(), s.offset(), a.offset()] {
        let exported = AnyPtr::new(offset).export(&memory_a, &store_a).unwrap();
        let wire = AnyPtrExported { id: exported.id, content: exported.content.clone() }.serialize();
        let received = AnyPtrExported::deserialize(&wire).unwrap();
        let imported = AnyPtr::import(&received, &env_b, &mut store_b).unwrap();
        let again = AnyPtr::new(imported.offset()).export(&memory_b, &store_b).unwrap();
        assert_eq!(again.id, exported.id);
        assert_eq!(again.content, exported.content);
    }
    let imported = AnyPtr::import(
        &AnyPtrExported { id: 1, content: vec![0x68, 0x00, 0x69, 0x00] },
        &env_b,
        &mut store_b,
    )
    .unwrap();
    match imported {
        Type::String(p) => assert_eq!(p.read(&memory_b, &store_b).unwrap(), "hi"),
        _ => panic!("expected a string"),
    }
}

#[test]
fn offset_below_header_is_too_small() {
    let (store, _instance, memory) = instantiate(GUEST);
    assert!(matches!(StringPtr::new(3).size(&memory, &store), Err(Error::OffsetTooSmall)));
    assert!(matches!(StringPtr::new(3).read(&memory, &store), Err(Error::OffsetTooSmall)));
    assert!(matches!(BufferPtr::new(3).read(&memory, &store), Err(Error::OffsetTooSmall)));
    assert!(matches!(AnyPtr::new(3).type_tag(&memory, &store), Err(Error::OffsetTooSmall)));
    assert!(matches!(AnyPtr::new(3).export(&memory, &store), Err(Error::OffsetTooSmall)));
}

#[test]
fn offset_past_memory_is_out_of_bounds() {
    let (store, _instance, memory) = instantiate(GUEST);
    assert!(matches!(BufferPtr::new(70000).read(&memory, &store), Err(Error::OutOfBounds)));
    assert!(matches!(StringPtr::new(65541).size(&memory, &store), Err(Error::OutOfBounds)));
}

#[test]
fn missing_runtime_is_reported() {
    let (mut store, instance, memory) = instantiate(GUEST);
    let env = Env::default();
    assert!(matches!(
        BufferPtr::allocate(&vec![1], &env, &mut store),
        Err(Error::RuntimeMissing)
    ));
    assert!(matches!(StringPtr::allocate("a", &env, &mut store), Err(Error::RuntimeMissing)));
    assert!(matches!(
        StringPtr::new(16).write("abc", &env, &mut store),
        Err(Error::RuntimeMissing)
    ));
    assert!(matches!(BufferPtr::new(72).free(&env, &mut store), Err(Error::RuntimeMissing)));

    let partial = bind_partly(&store, &instance, &memory, false);
    assert!(matches!(StringPtr::allocate("a", &partial, &mut store), Err(Error::RuntimeMissing)));
    let b = BufferPtr::allocate(&vec![1], &partial, &mut store).unwrap();
    assert!(matches!(b.write(&vec![1, 2], &partial, &mut store), Err(Error::RuntimeMissing)));
    assert_eq!(b.read(&memory, &store).unwrap(), vec![1]);
    let same = b.write(&vec![5], &partial, &mut store).unwrap();
    assert_eq!(same.offset(), b.offset());
    assert_eq!(same.read(&memory, &store).unwrap(), vec![5]);
}

#[test]
fn bad_allocator_fails_allocation() {
    let (mut store, instance, memory) = instantiate(BAD_ALLOCATOR);
    let env = bind(&store, &instance, &memory);
    assert!(matches!(
        BufferPtr::allocate(&vec![1, 2], &env, &mut store),
        Err(Error::AllocationFailed)
    ));
}

#[test]
fn free_unpins_and_collects() {
    let (mut store, instance, memory) = instantiate(GUEST);
    let env = bind(&store, &instance, &memory);
    let s = StringPtr::allocate("bye", &env, &mut store).unwrap();
    assert!(s.free(&env, &mut store).is_ok());
    let b = BufferPtr::allocate(&vec![1], &env, &mut store).unwrap();
    assert!(b.free(&env, &mut store).is_ok());
}

#[test]
fn allocation_without_header_fails() {
    let (mut store, instance, memory) = instantiate(NO_HEADER);
    let env = bind(&store, &instance, &memory);
    assert!(matches!(
        BufferPtr::allocate(&vec![1, 2], &env, &mut store),
        Err(Error::AllocationFailed)
    ));
    assert!(matches!(StringPtr::allocate("ab", &env, &mut store), Err(Error::AllocationFailed)));
}

#[test]
fn trapping_allocator_is_reported() {
    let (mut store, instance, memory) = instantiate(TRAPPING);
    let env = bind(&store, &instance, &memory);
    assert!(matches!(BufferPtr::allocate(&vec![1], &env, &mut store), Err(Error::Trap)));
    assert!(matches!(
        AnyPtr::import(&AnyPtrExported { id: 9, content: vec![1] }, &env, &mut store),
        Err(Error::Trap)
    ));
}

#[test]
fn foreign_store_is_refused() {
    let (mut store_a, instance_a, memory_a) = instantiate(GUEST);
    let (store_b, instance_b, memory_b) = instantiate(GUEST);
    let env_b = bind(&store_b, &instance_b, &memory_b);
    let e = AnyPtrExported { id: 42, content: vec![1, 2] };
    assert!(matches!(AnyPtr::import(&e, &env_b, &mut store_a), Err(Error::ForeignStore)));
    assert!(matches!(
        StringPtr::allocate("x", &env_b, &mut store_a),
        Err(Error::ForeignStore)
    ));
    let s = StringPtr::new(guest_offset(&mut store_a, &instance_a, "getString"));
    assert!(matches!(s.read(&memory_b, &store_a), Err(Error::ForeignStore)));
    assert!(matches!(s.write("hallo tast", &env_b, &mut store_a), Err(Error::ForeignStore)));
    assert_eq!(s.read(&memory_a, &store_a).unwrap(), "hello test");
    assert!(matches!(BufferPtr::new(72).free(&env_b, &mut store_a), Err(Error::ForeignStore)));
}

#[test]
fn odd_header_string_is_written_in_place() {
    let (mut store, instance, memory) = instantiate(GUEST);
    let env = bind_partly(&store, &instance, &memory, false);
    let s = StringPtr::new(guest_offset(&mut store, &instance, "getOdd"));
    assert_eq!(s.size(&memory, &store).unwrap(), 2);
    assert_eq!(s.read(&memory, &store).unwrap(), "hi");
    let same = s.write("yo", &env, &mut store).unwrap();
    assert_eq!(same.offset(), s.offset());
    assert_eq!(same.read(&memory, &store).unwrap(), "yo");
}

fn round_trip_through_traits<P: Read<T> + Write<T>, T: PartialEq + std::fmt::Debug>(
    value: &T,
    env: &Env,
    store: &mut Store,
    memory: &Memory,
) {
    let p = P::allocate(value, env, store).unwrap();
    assert_eq!(p.read(memory, store).unwrap(), *value);
    let q = p.write(value, env, store).unwrap();
    assert_eq!(q.read(memory, store).unwrap(), *value);
    assert!((*q).free(env, store).is_ok());
}

#[test]
fn traits_forward_to_each_pointer() {
    let (mut store, instance, memory) = instantiate(GUEST);
    let env = bind(&store, &instance, &memory);
    round_trip_through_traits::<BufferPtr, Vec<u8>>(&vec![1, 2, 3], &env, &mut store, &memory);
    round_trip_through_traits::<AnyPtr, Vec<u8>>(&vec![4], &env, &mut store, &memory);
    round_trip_through_traits::<StringPtr, String>(&"hé".to_string(), &env, &mut store, &memory);
    let b = BufferPtr::new(72);
    assert_eq!(Read::<Vec<u8>>::size(&b, &memory, &store).unwrap(), 4);
}
