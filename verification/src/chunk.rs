use vstd::prelude::*;
use vstd::string::StrSliceExecFns;
use vstd::utf8::encode_utf8;

use crate::RustlsWasmError;

verus! {

/// One unit of data crossing the foreign boundary, reduced to the shapes the
/// protocol recognises: a text value, a binary buffer, or anything else.
///
/// The boundary layer maps each foreign value onto this type before the
/// library looks at it; `Other` stands for every foreign shape that is neither
/// text nor binary and is a terminal data-model violation.
#[derive(Debug, PartialEq, Eq)]
pub enum Chunk {
    Text(String),
    Binary(Vec<u8>),
    Other,
}

/// A chunk is acceptable exactly when it is a text value or a binary buffer.
pub open spec fn chunk_is_valid(c: Chunk) -> bool {
    c is Text || c is Binary
}

/// The byte content of an acceptable chunk: the UTF-8 encoding of a text
/// value, or the binary buffer itself.
pub open spec fn chunk_bytes(c: Chunk) -> Seq<u8> {
    match c {
        Chunk::Text(s) => encode_utf8(s@),
        Chunk::Binary(b) => b@,
        Chunk::Other => Seq::empty(),
    }
}

/// Decode one chunk into its bytes; a chunk of any other shape is rejected as
/// an invalid payload, never silently skipped.
pub fn chunk_to_bytes(c: Chunk) -> (r: Result<Vec<u8>, RustlsWasmError>)
    ensures
        chunk_is_valid(c) ==> (r matches Ok(v) && v@ == chunk_bytes(c)),
        !chunk_is_valid(c) ==> r == Err::<Vec<u8>, RustlsWasmError>(RustlsWasmError::InvalidPayload),
{
    match c {
        Chunk::Text(s) => Ok(s.as_str().as_bytes_vec()),
        Chunk::Binary(b) => Ok(b),
        Chunk::Other => Err(RustlsWasmError::InvalidPayload),
    }
}

} // verus!
