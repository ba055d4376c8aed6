use vstd::prelude::*;

use crate::dns::is_valid_dns_name;
use crate::dns::validate_dns_name;
use crate::RustlsWasmError;

verus! {

/// The phases of a TLS client session.
#[derive(PartialEq, Eq, Structural, Debug, Clone, Copy)]
pub enum SessionState {
    Uninitialized,
    Handshaking,
    Established,
    Closed,
    Errored,
}

/// The driver of one TLS client session over a byte-oriented duplex.
///
/// The handshake and record engine is an external trusted component; this
/// state machine carries the decisions around it: when a session may start,
/// what each engine outcome does to the session, and which operations are
/// still allowed afterwards. A session that failed never accepts another
/// operation, and a failed start performs no I/O because no session object
/// comes into being at all.
pub struct TlsSession {
    state: SessionState,
}

impl TlsSession {
    /// The current phase of the session.
    pub closed spec fn spec_state(&self) -> SessionState {
        self.state
    }

    /// Begin a connection attempt to `host`.
    ///
    /// The host name is validated syntactically first: an invalid name is
    /// rejected immediately with `InvalidDnsName`, before any byte is read
    /// from or written to the external endpoints, and the session never
    /// leaves `Uninitialized` (none is returned). A valid name yields a
    /// session already driving the handshake.
    pub fn connect_start(host: &Vec<u8>) -> (r: Result<TlsSession, RustlsWasmError>)
        ensures
            is_valid_dns_name(host@) ==> (r matches Ok(s) && s.spec_state()
                == SessionState::Handshaking),
            !is_valid_dns_name(host@) ==> r == Err::<TlsSession, RustlsWasmError>(
                RustlsWasmError::InvalidDnsName,
            ),
    {
        if !validate_dns_name(host) {
            return Err(RustlsWasmError::InvalidDnsName);
        }
        Ok(TlsSession { state: SessionState::Handshaking })
    }

    /// Record the engine's verdict on the handshake, certificate-chain
    /// validation and name matching included, as a single trusted step.
    ///
    /// Success establishes the session; any validation or protocol failure
    /// moves it to `Errored` and surfaces an I/O error — no partial trust is
    /// granted, and no application data may flow afterwards.
    pub fn handshake_result(&mut self, success: bool) -> (r: Result<(), RustlsWasmError>)
        requires
            old(self).spec_state() == SessionState::Handshaking,
        ensures
            success ==> (r is Ok && final(self).spec_state() == SessionState::Established),
            !success ==> (r == Err::<(), RustlsWasmError>(RustlsWasmError::Io)
                && final(self).spec_state() == SessionState::Errored),
    {
        if success {
            self.state = SessionState::Established;
            Ok(())
        } else {
            self.state = SessionState::Errored;
            Err(RustlsWasmError::Io)
        }
    }

    /// Record a record-layer or channel failure while established. The
    /// session moves to `Errored`; no further operation is attempted on it.
    pub fn record_failure(&mut self) -> (r: RustlsWasmError)
        requires
            old(self).spec_state() == SessionState::Established,
        ensures
            final(self).spec_state() == SessionState::Errored,
            r == RustlsWasmError::Io,
    {
        self.state = SessionState::Errored;
        RustlsWasmError::Io
    }

    /// The application side closed the write direction: a close-notify
    /// exchange with the peer is owed before the underlying channel's close
    /// is forwarded, and the session is over.
    pub fn close(&mut self)
        requires
            old(self).spec_state() == SessionState::Established,
        ensures
            final(self).spec_state() == SessionState::Closed,
    {
        self.state = SessionState::Closed;
    }

    /// Whether application data may flow: only an established session relays
    /// reads and writes.
    pub fn is_established(&self) -> (b: bool)
        ensures
            b == (self.spec_state() == SessionState::Established),
    {
        matches!(self.state, SessionState::Established)
    }

    /// The current phase, as a runtime value.
    pub fn state(&self) -> (s: SessionState)
        ensures
            s == self.spec_state(),
    {
        self.state
    }
}

} // verus!
