//! Host-side access to objects that live in the linear memory of a guest
//! compiled against a managed runtime: every object carries a header (a type
//! tag at `offset - 8`, a payload size at `offset - 4`) and the guest exports
//! entry points to allocate, pin, unpin and collect.
//!
//! Guest memory is modelled as a sequence of bytes per store and memory; the
//! typed pointers, the allocation and resize protocol and the transfer codec
//! are specified and proved against that model.
mod error;
mod guest;
pub mod header;
pub mod utf16;
pub mod env;
pub mod protocol;
pub mod buffer_ptr;
pub mod string_ptr;
pub mod any_ptr;
pub mod trap;
pub mod access;

pub use error::Error;
pub use access::{Read, Write};
pub use env::Env;
pub use trap::{read_diagnostic, Diagnostic};
pub use any_ptr::{AnyPtr, AnyPtrExported, Type};
pub use string_ptr::{read_string, string_bytes, string_units, string_value, StringPtr};
pub use buffer_ptr::{buffer_payload, read_payload, BufferPtr};
pub use guest::{guest_memory, view_bytes};
