//! The ISO 15765 (ISO-TP) transport capability the UDS engine is built on,
//! with a log of its uses that contracts speak of.
use crate::error::Error;
use crate::protocol::{ISOTP_MAX_LEN, RESPONSE_ID_OFFSET};
use vstd::prelude::*;

verus! {

/// One use of an ISO-TP transport.
pub enum IsoTpEvent {
    /// A packet handed to `send_isotp` on an arbitration ID, and the error
    /// sending it gave, if any.
    Sent(u32, Seq<u8>, Option<Error>),
    /// A packet asked of `read_isotp` on an arbitration ID, and what came back.
    Received(u32, Result<Seq<u8>, Error>),
}

/// The uses of a transport, oldest first. It exists for proofs only: an
/// implementation outside verified code never builds one.
pub type IsoTpLog = Seq<IsoTpEvent>;

/// The value of a packet read, or of the error in its place.
pub open spec fn reply_view(r: Result<Vec<u8>, Error>) -> Result<Seq<u8>, Error> {
    match r {
        Ok(v) => Ok(v@),
        Err(e) => Err(e),
    }
}

/// The error of a send, if any.
pub open spec fn send_error(r: Result<(), Error>) -> Option<Error> {
    match r {
        Ok(_) => None,
        Err(e) => Some(e),
    }
}

/// The events of a query on `id` with `data` whose send went through:
/// the send, then the read on `id + 8` that gave `reply`.
pub open spec fn answered_events(id: u32, data: Seq<u8>, reply: Result<Seq<u8>, Error>) -> Seq<
    IsoTpEvent,
> {
    seq![
        IsoTpEvent::Sent(id, data, None),
        IsoTpEvent::Received((id + RESPONSE_ID_OFFSET) as u32, reply),
    ]
}

/// `tail` records one query on `id` with `data` that gave `reply`: the
/// answered send and read, or a failed send alone, its error the reply.
pub open spec fn is_query_record(
    id: u32,
    data: Seq<u8>,
    tail: Seq<IsoTpEvent>,
    reply: Result<Seq<u8>, Error>,
) -> bool {
    ||| tail == answered_events(id, data, reply)
    ||| match reply {
        Err(e) => tail == seq![IsoTpEvent::Sent(id, data, Some(e))],
        Ok(_) => false,
    }
}

/// `after` is `before` followed by the record of one query on `id` with
/// `data` that gave `reply`.
pub open spec fn is_query_exchange(
    id: u32,
    data: Seq<u8>,
    before: Seq<IsoTpEvent>,
    after: Seq<IsoTpEvent>,
    reply: Result<Seq<u8>, Error>,
) -> bool {
    &&& before.len() <= after.len()
    &&& after.subrange(0, before.len() as int) == before
    &&& is_query_record(id, data, after.skip(before.len() as int), reply)
}

/// ISO 15765 (ISO-TP). Implemented by a transport backend: a hardware
/// driver, a simulator or a test double.
pub trait IsoTp {
    /// The uses of this transport so far, oldest first. A model for proofs:
    /// it is never called when the program runs.
    spec fn events(&self) -> IsoTpLog;

    /// Sends an ISO-TP packet of at most 4095 bytes on CAN arbitration ID `id`.
    fn send_isotp(&mut self, id: u32, data: &[u8]) -> (r: Result<(), Error>)
        requires
            data@.len() <= ISOTP_MAX_LEN,
        ensures
            final(self).events() == old(self).events().push(
                IsoTpEvent::Sent(id, data@, send_error(r)),
            ),
    ;

    /// Receives an ISO-TP packet on CAN arbitration ID `id`.
    fn read_isotp(&mut self, id: u32) -> (r: Result<Vec<u8>, Error>)
        ensures
            final(self).events() == old(self).events().push(
                IsoTpEvent::Received(id, reply_view(r)),
            ),
    ;

    /// Sends an ISO-TP packet on `id` and waits for the response on `id + 8`.
    /// A failed send is returned as it is, with no read.
    fn query_isotp(&mut self, id: u32, data: &[u8]) -> (r: Result<Vec<u8>, Error>)
        requires
            id + RESPONSE_ID_OFFSET <= u32::MAX,
            data@.len() <= ISOTP_MAX_LEN,
        ensures
            is_query_exchange(id, data@, old(self).events(), final(self).events(), reply_view(r)),
    {
        match self.send_isotp(id, data) {
            Ok(()) => {},
            Err(e) => {
                assert(self.events().skip(old(self).events().len() as int) =~= seq![
                    IsoTpEvent::Sent(id, data@, Some(e)),
                ]);
                assert(self.events().subrange(0, old(self).events().len() as int) =~= old(
                    self,
                ).events());
                return Err(e);
            },
        }
        let r = self.read_isotp(id + RESPONSE_ID_OFFSET);
        assert(self.events().skip(old(self).events().len() as int) =~= answered_events(
            id,
            data@,
            reply_view(r),
        ));
        assert(self.events().subrange(0, old(self).events().len() as int) =~= old(self).events());
        r
    }
}

} // verus!
