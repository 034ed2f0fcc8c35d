//! Request payloads and response-payload decoders of the UDS operations.
use crate::dtc::DTC;
use crate::error::Error;
use crate::protocol::{SECURITY_SEED_REQUEST, VIN_PID};
use crate::text::{from_utf8_lossy, utf8_lossy};
use vstd::prelude::*;

verus! {

/// `s` without its leading run of padding bytes (`0x00` and `0x01`).
pub open spec fn strip_padding(s: Seq<u8>) -> Seq<u8>
    decreases s.len(),
{
    if s.len() > 0 && (s[0] == 0 || s[0] == 1) {
        strip_padding(s.drop_first())
    } else {
        s
    }
}

/// The VIN text of a vehicle-information payload that starts with the VIN PID.
pub open spec fn vin_text(payload: Seq<u8>) -> Seq<char> {
    utf8_lossy(strip_padding(payload.drop_first()))
}

/// `codes` are the trouble codes of a non-empty payload: after the count
/// byte, one code per two bytes, in order; a trailing odd byte is dropped.
pub open spec fn is_trouble_code_list(payload: Seq<u8>, codes: Seq<DTC>) -> bool {
    &&& payload.len() > 0
    &&& codes.len() == (payload.len() - 1) / 2
    &&& forall|k: int|
        0 <= k < codes.len() ==> (#[trigger] codes[k]).0@ == payload.subrange(1 + 2 * k, 3 + 2 * k)
}

/// `r` is what `decode_vin` gives for `data`.
pub open spec fn vin_decoded(data: Seq<u8>, r: Result<String, Error>) -> bool {
    match r {
        Ok(s) => data.len() > 0 && data[0] == VIN_PID && s@ == vin_text(data),
        Err(e) => !(data.len() > 0 && data[0] == VIN_PID) && e == Error::InvalidResponsePid,
    }
}

/// `r` is what `decode_trouble_codes` gives for `data`.
pub open spec fn trouble_codes_decoded(data: Seq<u8>, r: Result<Vec<DTC>, Error>) -> bool {
    match r {
        Ok(codes) => is_trouble_code_list(data, codes@),
        Err(e) => data.len() == 0 && e == Error::EmptyResponse,
    }
}

/// `r` is what `check_session` gives for `data` and session `id`.
pub open spec fn session_checked(data: Seq<u8>, id: u8, r: Result<(), Error>) -> bool {
    match r {
        Ok(()) => data.len() > 0 && data[0] == id,
        Err(e) => if data.len() == 0 {
            e == Error::EmptyResponse
        } else {
            data[0] != id && e == Error::InvalidSessionType
        },
    }
}

/// `r` is what `decode_security_seed` gives for `data`.
pub open spec fn seed_decoded(data: Seq<u8>, r: Result<Vec<u8>, Error>) -> bool {
    match r {
        Ok(seed) => data.len() > 0 && data[0] == SECURITY_SEED_REQUEST && seed@ == data.drop_first(),
        Err(e) => if data.len() == 0 {
            e == Error::EmptyResponse
        } else {
            data[0] != SECURITY_SEED_REQUEST && e == Error::InvalidAccessType
        },
    }
}

/// `r` is what `check_security_key` gives for `data`.
pub open spec fn key_checked(data: Seq<u8>, r: Result<(), Error>) -> bool {
    match r {
        Ok(()) => data.len() > 0,
        Err(e) => data.len() == 0 && e == Error::EmptyResponse,
    }
}

/// Big-endian bytes of a 32-bit value.
pub open spec fn be_u32(x: u32) -> Seq<u8> {
    seq![
        (x / 0x100_0000) as u8,
        ((x / 0x1_0000) % 0x100) as u8,
        ((x / 0x100) % 0x100) as u8,
        (x % 0x100) as u8,
    ]
}

/// Big-endian bytes of a 16-bit value.
pub open spec fn be_u16(x: u16) -> Seq<u8> {
    seq![(x / 0x100) as u8, (x % 0x100) as u8]
}

/// Decodes the payload of a VIN query: the echoed PID, padding, then the
/// VIN as UTF-8 (invalid sequences replaced).
pub fn decode_vin(data: &[u8]) -> (r: Result<String, Error>)
    ensures
        vin_decoded(data@, r),
{
    if data.len() == 0 || data[0] != VIN_PID {
        return Err(Error::InvalidResponsePid);
    }
    let mut i: usize = 1;
    while i < data.len() && (data[i] == 0 || data[i] == 1)
        invariant
            1 <= i <= data@.len(),
            strip_padding(data@.drop_first()) == strip_padding(data@.subrange(i as int, data@.len() as int)),
        decreases data@.len() - i,
    {
        assert(data@.subrange(i as int, data@.len() as int).drop_first() =~= data@.subrange(
            i + 1,
            data@.len() as int,
        ));
        i = i + 1;
    }
    let mut text: Vec<u8> = Vec::new();
    let mut j: usize = i;
    while j < data.len()
        invariant
            i <= j <= data@.len(),
            text@ == data@.subrange(i as int, j as int),
        decreases data@.len() - j,
    {
        text.push(data[j]);
        j = j + 1;
        assert(text@ =~= data@.subrange(i as int, j as int));
    }
    assert(strip_padding(text@) == text@);
    Ok(from_utf8_lossy(text.as_slice()))
}

/// Decodes the payload of a trouble-code query: a count byte, which is not
/// checked, then two bytes per code; a trailing odd byte is dropped.
pub fn decode_trouble_codes(data: &[u8]) -> (r: Result<Vec<DTC>, Error>)
    ensures
        trouble_codes_decoded(data@, r),
{
    if data.len() == 0 {
        return Err(Error::EmptyResponse);
    }
    let mut codes: Vec<DTC> = Vec::new();
    let mut i: usize = 1;
    while i < data.len() - 1
        invariant
            1 <= i <= data@.len(),
            i == 1 + 2 * codes@.len(),
            forall|k: int|
                0 <= k < codes@.len() ==> (#[trigger] codes@[k]).0@ == data@.subrange(
                    1 + 2 * k,
                    3 + 2 * k,
                ),
        decreases data@.len() - i,
    {
        let bytes: [u8; 2] = [data[i], data[i + 1]];
        assert(bytes@ =~= data@.subrange(i as int, i + 2));
        codes.push(DTC::decode(bytes));
        i = i + 2;
    }
    Ok(codes)
}

/// Checks the payload of a diagnostic-session request for session `id`: it
/// must echo `id`.
pub fn check_session(data: &[u8], id: u8) -> (r: Result<(), Error>)
    ensures
        session_checked(data@, id, r),
{
    if data.len() == 0 {
        Err(Error::EmptyResponse)
    } else if data[0] == id {
        Ok(())
    } else {
        Err(Error::InvalidSessionType)
    }
}

/// Decodes the payload of a security-seed request: the access type `1`,
/// then the seed.
pub fn decode_security_seed(data: Vec<u8>) -> (r: Result<Vec<u8>, Error>)
    ensures
        seed_decoded(data@, r),
{
    let mut data = data;
    if data.len() == 0 {
        Err(Error::EmptyResponse)
    } else if data[0] != SECURITY_SEED_REQUEST {
        Err(Error::InvalidAccessType)
    } else {
        data.remove(0);
        Ok(data)
    }
}

/// Checks the payload of a security-key submission: any non-empty payload
/// is acceptance.
pub fn check_security_key(data: &[u8]) -> (r: Result<(), Error>)
    ensures
        key_checked(data@, r),
{
    if data.len() == 0 {
        Err(Error::EmptyResponse)
    } else {
        Ok(())
    }
}

/// The parameters of a memory read: the address, then the length, both
/// big-endian whatever the host's byte order.
pub fn read_memory_request(address: u32, length: u16) -> (r: Vec<u8>)
    ensures
        r@ == be_u32(address) + be_u16(length),
{
    let mut req: Vec<u8> = Vec::with_capacity(6);
    req.push(((address & 0xFF00_0000) >> 24) as u8);
    req.push(((address & 0xFF_0000) >> 16) as u8);
    req.push(((address & 0xFF00) >> 8) as u8);
    req.push((address & 0xFF) as u8);
    req.push((length >> 8) as u8);
    req.push((length & 0xFF) as u8);
    assert(((address & 0xFF00_0000) >> 24) as u8 == (address / 0x100_0000) as u8) by (bit_vector);
    assert(((address & 0xFF_0000) >> 16) as u8 == ((address / 0x1_0000) % 0x100) as u8)
        by (bit_vector);
    assert(((address & 0xFF00) >> 8) as u8 == ((address / 0x100) % 0x100) as u8) by (bit_vector);
    assert((address & 0xFF) as u8 == (address % 0x100) as u8) by (bit_vector);
    assert((length >> 8) as u8 == (length / 0x100) as u8) by (bit_vector);
    assert((length & 0xFF) as u8 == (length % 0x100) as u8) by (bit_vector);
    assert(req@ =~= be_u32(address) + be_u16(length));
    req
}

} // verus!
