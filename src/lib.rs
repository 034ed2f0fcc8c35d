//! Unified diagnostic services (UDS) over an ISO 15765 (ISO-TP) transport:
//! the request/response engine, its operations, and the decoders for their
//! response payloads.
pub mod channel;
pub mod decode;
pub mod dtc;
pub mod error;
pub mod protocol;
pub mod text;
pub mod transport;
pub mod uds;

pub use dtc::DTC;
pub use error::Error;
pub use transport::IsoTp;
pub use uds::Uds;
