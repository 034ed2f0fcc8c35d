//! Decisions of a PassThru ISO-TP channel: which flow-control filter it
//! needs before it sends or receives, and which received messages it keeps.
use crate::protocol::RESPONSE_ID_OFFSET;
use vstd::prelude::*;

verus! {

/// The arbitration IDs of a flow-control filter: requests go out on
/// `source_id`, responses come in on `destination_id`.
#[derive(Clone, Copy, Debug, PartialEq, Eq, Structural)]
pub struct FilterIds {
    /// Arbitration ID that requests and flow-control frames are sent on.
    pub source_id: u32,
    /// Arbitration ID that responses are received on.
    pub destination_id: u32,
}

/// The filter needed to send on `id`: the current filter's destination is
/// kept; with no filter yet, responses are expected on `id + 8`.
pub fn send_filter_ids(current: Option<FilterIds>, id: u32) -> (r: FilterIds)
    requires
        current is None ==> id + RESPONSE_ID_OFFSET <= u32::MAX,
    ensures
        r.source_id == id,
        r.destination_id == match current {
            Some(f) => f.destination_id,
            None => (id + RESPONSE_ID_OFFSET) as u32,
        },
{
    let destination_id = match current {
        Some(f) => f.destination_id,
        None => id + RESPONSE_ID_OFFSET,
    };
    FilterIds { source_id: id, destination_id }
}

/// The filter needed to receive on `id`: the current filter's source is
/// kept; with no filter yet, requests are taken to go out on `id - 8`.
pub fn read_filter_ids(current: Option<FilterIds>, id: u32) -> (r: FilterIds)
    requires
        current is None ==> id >= RESPONSE_ID_OFFSET,
    ensures
        r.destination_id == id,
        r.source_id == match current {
            Some(f) => f.source_id,
            None => (id - RESPONSE_ID_OFFSET) as u32,
        },
{
    let source_id = match current {
        Some(f) => f.source_id,
        None => id - RESPONSE_ID_OFFSET,
    };
    FilterIds { source_id, destination_id: id }
}

/// Whether a channel whose filter is `current` must (re)establish one for
/// `wanted`: unless it already has exactly that filter.
pub fn filter_needs_update(current: Option<FilterIds>, wanted: FilterIds) -> (r: bool)
    ensures
        r == !(current == Some(wanted)),
{
    match current {
        Some(f) => !(f.source_id == wanted.source_id && f.destination_id == wanted.destination_id),
        None => true,
    }
}

/// Whether a message read while waiting on arbitration ID `id` is the
/// response: it was received, not transmitted, it is not the first frame of
/// a transfer still under way, and it is an ISO-TP message on `id`.
pub fn is_wanted_message(id: u32, transmitted: bool, first_frame: bool, isotp_id: Option<u32>) -> (r:
    bool)
    ensures
        r == (!transmitted && !first_frame && isotp_id == Some(id)),
{
    if transmitted || first_frame {
        return false;
    }
    match isotp_id {
        Some(msg_id) => msg_id == id,
        None => false,
    }
}

} // verus!
