//! Constants of the UDS wire contract.
use vstd::prelude::*;

verus! {

/// Largest ISO-TP message, in bytes.
pub const ISOTP_MAX_LEN: usize = 4095;

/// A response to a request sent on arbitration ID `id` arrives on `id + RESPONSE_ID_OFFSET`.
pub const RESPONSE_ID_OFFSET: u32 = 8;

/// A positive response carries the request SID plus this offset.
pub const POSITIVE_RESPONSE_OFFSET: u8 = 0x40;

/// SID of a negative response.
pub const UDS_RES_NEGATIVE: u8 = 0x7F;

/// Negative response code "request correctly received, response pending".
pub const UDS_NRES_RCRRP: u8 = 0x78;

/// Request SID: OBD vehicle information.
pub const UDS_REQ_VEHICLE_INFO: u8 = 0x09;

/// Request SID: OBD stored trouble codes.
pub const UDS_REQ_TROUBLE_CODES: u8 = 0x03;

/// Request SID: diagnostic session control.
pub const UDS_REQ_SESSION: u8 = 0x10;

/// Request SID: security access.
pub const UDS_REQ_SECURITY: u8 = 0x27;

/// Request SID: read memory by address.
pub const UDS_REQ_READMEM: u8 = 0x23;

/// Vehicle information PID of the VIN.
pub const VIN_PID: u8 = 0x02;

/// Security access type of a seed request.
pub const SECURITY_SEED_REQUEST: u8 = 1;

/// Security access type of a key submission.
pub const SECURITY_KEY_SUBMIT: u8 = 2;

} // verus!
