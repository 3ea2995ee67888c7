use vstd::prelude::*;

verus! {

/// Everything that can go wrong between the host and a guest object.
#[derive(Debug, Clone, Copy, PartialEq, Eq, Structural)]
pub enum Error {
    /// The offset lies below 8, so the object header cannot lie under it.
    OffsetTooSmall,
    /// A read or write reaches past the end of guest memory.
    OutOfBounds,
    /// An entry point or the memory that the operation needs was never bound.
    RuntimeMissing,
    /// The guest allocator gave no offset that holds the requested object.
    AllocationFailed,
    /// A length does not fit in the guest's signed 32-bit integers.
    SizeOverflow,
    /// A serialized object is shorter than its 4-byte tag.
    MalformedAny,
    /// String content whose byte length is odd cannot be UTF-16.
    OddUtf16Length,
    /// A call into the guest trapped.
    Trap,
    /// The memory or an entry point belongs to another store than the one
    /// given.
    ForeignStore,
}

impl Error {
    /// A short description of the error.
    pub fn message(&self) -> (r: &'static str) {
        match self {
            Error::OffsetTooSmall => "Wrong offset: less than 8",
            Error::OutOfBounds => "Wrong offset: out of guest memory bounds",
            Error::RuntimeMissing => "Failed to get func",
            Error::AllocationFailed => "Guest allocation failed",
            Error::SizeOverflow => "Size does not fit in the guest integer width",
            Error::MalformedAny => "any pointer to small",
            Error::OddUtf16Length => "Cannot cast u8 slice into u16",
            Error::Trap => "Guest call trapped",
            Error::ForeignStore => "Memory or function of another store",
        }
    }
}

} // verus!
