//! The error type shared by the transport and the UDS engine.
use vstd::prelude::*;

verus! {

/// OBD error.
#[derive(Debug)]
pub enum Error {
    /// A PassThru (SAE J2534) transport error, by the driver's description of it.
    PassThru(String),
    /// An empty UDS response was received.
    EmptyResponse,
    /// A negative UDS response was received, with its response code when present.
    NegativeResponse(Option<u8>),
    /// An invalid SID was included in a UDS response.
    InvalidResponseSid(u8),
    /// An invalid PID was received with a UDS response.
    InvalidResponsePid,
    /// Invalid diagnostic session type.
    InvalidSessionType,
    /// Invalid security access type.
    InvalidAccessType,
}

} // verus!
