use vstd::prelude::*;

pub mod chunk;
pub mod combine_rw;
pub mod dns;
pub mod reader;
pub mod session;
pub mod writer;

verus! {

/// The single error surface of the library.
///
/// Every failure of a channel instance is non-recoverable and is handed to the
/// caller as exactly one of these values:
/// - `Js` wraps a foreign-runtime failure, carrying its message;
/// - `InvalidDnsName` reports a host name that is not syntactically a DNS name;
/// - `Io` reports a handshake, record-layer or channel failure;
/// - `InvalidPayload` reports a source chunk that is neither text nor binary.
#[derive(Debug, PartialEq, Eq)]
pub enum RustlsWasmError {
    Js(String),
    InvalidDnsName,
    Io,
    InvalidPayload,
}

impl RustlsWasmError {
    /// A copy that is equal to the original, so that a sticky error state can
    /// hand the same error back on every subsequent call.
    pub fn dup(&self) -> (r: Self)
        ensures
            r == *self,
    {
        match self {
            RustlsWasmError::Js(msg) => RustlsWasmError::Js(msg.clone()),
            RustlsWasmError::InvalidDnsName => RustlsWasmError::InvalidDnsName,
            RustlsWasmError::Io => RustlsWasmError::Io,
            RustlsWasmError::InvalidPayload => RustlsWasmError::InvalidPayload,
        }
    }
}

} // verus!
