//! What a guest reports when it aborts: a message and a file name, both
//! guest strings, and a line and column.
use vstd::prelude::*;
use wasmer::MemoryView;
use crate::error::Error;
use crate::guest::view_bytes;
use crate::string_ptr::{string_value, StringPtr};

verus! {

/// A guest's abort report, read out of its memory.
pub struct Diagnostic {
    pub message: String,
    pub filename: String,
    pub line: u32,
    pub col: u32,
}

/// Reads both strings of an abort report. A failed read is returned, never
/// passed over: the guest is then in a state the host cannot continue.
pub fn read_diagnostic(
    view: &MemoryView,
    message: StringPtr,
    filename: StringPtr,
    line: u32,
    col: u32,
) -> (r: Result<Diagnostic, Error>)
    ensures
        string_value(view_bytes(*view), message.offset) matches Err(e) ==> r == Err::<
            Diagnostic,
            Error,
        >(e),
        string_value(view_bytes(*view), message.offset) is Ok ==> (string_value(
            view_bytes(*view),
            filename.offset,
        ) matches Err(e) ==> r == Err::<Diagnostic, Error>(e)),
        r matches Ok(d) ==> {
            &&& string_value(view_bytes(*view), message.offset) == Ok::<Seq<char>, Error>(
                d.message@,
            )
            &&& string_value(view_bytes(*view), filename.offset) == Ok::<Seq<char>, Error>(
                d.filename@,
            )
            &&& d.line == line
            &&& d.col == col
        },
        r is Ok <==> string_value(view_bytes(*view), message.offset) is Ok && string_value(
            view_bytes(*view),
            filename.offset,
        ) is Ok,
{
    let message = message.read2(view)?;
    let filename = filename.read2(view)?;
    Ok(Diagnostic { message, filename, line, col })
}

} // verus!
