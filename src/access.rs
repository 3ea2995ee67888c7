//! The operations that every guest pointer offers, as traits over the value
//! it holds. Each method forwards to the pointer's own method of the same
//! name, whose contract states what it does.
use vstd::prelude::*;
use wasmer::{Memory, MemoryView, Store};
use crate::any_ptr::AnyPtr;
use crate::buffer_ptr::BufferPtr;
use crate::env::Env;
use crate::error::Error;
use crate::string_ptr::StringPtr;

verus! {

/// Reading a value of type `T` out of guest memory.
pub trait Read<T> {
    /// The value at the pointer.
    fn read(&self, memory: &Memory, store: &Store) -> Result<T, Error>;

    /// The value at the pointer, read through a view.
    fn read2(&self, view: &MemoryView) -> Result<T, Error>;

    /// The size that the object header records, in the value's units.
    fn size(&self, memory: &Memory, store: &Store) -> Result<u32, Error>;

    /// The recorded size, read through a view.
    fn size2(&self, view: &MemoryView) -> Result<u32, Error>;
}

/// Allocating, rewriting and releasing a value of type `T` in guest memory.
pub trait Write<T>: Sized {
    /// A new object that holds `value`.
    fn allocate(value: &T, env: &Env, store: &mut Store) -> Result<Box<Self>, Error>;

    /// Writes `value`, in place or into a new object; the returned pointer is
    /// the one to use afterwards.
    fn write(&self, value: &T, env: &Env, store: &mut Store) -> Result<Box<Self>, Error>;

    /// Unpins the object and runs a collection.
    fn free(self, env: &Env, store: &mut Store) -> Result<(), Error>;
}

impl Read<Vec<u8>> for BufferPtr {
    fn read(&self, memory: &Memory, store: &Store) -> Result<Vec<u8>, Error> {
        BufferPtr::read(self, memory, store)
    }

    fn read2(&self, view: &MemoryView) -> Result<Vec<u8>, Error> {
        BufferPtr::read2(self, view)
    }

    fn size(&self, memory: &Memory, store: &Store) -> Result<u32, Error> {
        BufferPtr::size(self, memory, store)
    }

    fn size2(&self, view: &MemoryView) -> Result<u32, Error> {
        BufferPtr::size2(self, view)
    }
}

impl Write<Vec<u8>> for BufferPtr {
    fn allocate(value: &Vec<u8>, env: &Env, store: &mut Store) -> Result<Box<Self>, Error> {
        BufferPtr::allocate(value, env, store)
    }

    fn write(&self, value: &Vec<u8>, env: &Env, store: &mut Store) -> Result<Box<Self>, Error> {
        BufferPtr::write(self, value, env, store)
    }

    fn free(self, env: &Env, store: &mut Store) -> Result<(), Error> {
        BufferPtr::free(self, env, store)
    }
}

impl Read<String> for StringPtr {
    fn read(&self, memory: &Memory, store: &Store) -> Result<String, Error> {
        StringPtr::read(self, memory, store)
    }

    fn read2(&self, view: &MemoryView) -> Result<String, Error> {
        StringPtr::read2(self, view)
    }

    fn size(&self, memory: &Memory, store: &Store) -> Result<u32, Error> {
        StringPtr::size(self, memory, store)
    }

    fn size2(&self, view: &MemoryView) -> Result<u32, Error> {
        StringPtr::size2(self, view)
    }
}

impl Write<String> for StringPtr {
    fn allocate(value: &String, env: &Env, store: &mut Store) -> Result<Box<Self>, Error> {
        StringPtr::allocate(value.as_str(), env, store)
    }

    fn write(&self, value: &String, env: &Env, store: &mut Store) -> Result<Box<Self>, Error> {
        StringPtr::write(self, value.as_str(), env, store)
    }

    fn free(self, env: &Env, store: &mut Store) -> Result<(), Error> {
        StringPtr::free(self, env, store)
    }
}

impl Read<Vec<u8>> for AnyPtr {
    fn read(&self, memory: &Memory, store: &Store) -> Result<Vec<u8>, Error> {
        AnyPtr::read(self, memory, store)
    }

    fn read2(&self, view: &MemoryView) -> Result<Vec<u8>, Error> {
        AnyPtr::read2(self, view)
    }

    fn size(&self, memory: &Memory, store: &Store) -> Result<u32, Error> {
        AnyPtr::size(self, memory, store)
    }

    fn size2(&self, view: &MemoryView) -> Result<u32, Error> {
        AnyPtr::size2(self, view)
    }
}

impl Write<Vec<u8>> for AnyPtr {
    fn allocate(value: &Vec<u8>, env: &Env, store: &mut Store) -> Result<Box<Self>, Error> {
        AnyPtr::allocate(value, env, store)
    }

    fn write(&self, value: &Vec<u8>, env: &Env, store: &mut Store) -> Result<Box<Self>, Error> {
        AnyPtr::write(self, value, env, store)
    }

    fn free(self, env: &Env, store: &mut Store) -> Result<(), Error> {
        AnyPtr::free(self, env, store)
    }
}

} // verus!
