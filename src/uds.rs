//! The UDS query engine: request framing, the response-pending retry, and
//! response SID validation.
use crate::decode::{
    check_security_key, check_session, decode_security_seed, decode_trouble_codes, decode_vin,
    key_checked, read_memory_request, be_u16, be_u32, seed_decoded, session_checked,
    trouble_codes_decoded, vin_decoded,
};
use crate::dtc::DTC;
use crate::error::Error;
use crate::protocol::{
    ISOTP_MAX_LEN, POSITIVE_RESPONSE_OFFSET, RESPONSE_ID_OFFSET, SECURITY_KEY_SUBMIT,
    SECURITY_SEED_REQUEST, UDS_NRES_RCRRP, UDS_REQ_READMEM, UDS_REQ_SECURITY, UDS_REQ_SESSION,
    UDS_REQ_TROUBLE_CODES, UDS_REQ_VEHICLE_INFO, UDS_RES_NEGATIVE, VIN_PID,
};
use crate::transport::{answered_events, is_query_record, reply_view, IsoTp, IsoTpEvent};
use vstd::prelude::*;

verus! {

/// Number of "response pending" replies waited through before a query gives
/// up; at any real reply rate this is waiting for as long as the ECU asks.
pub const PENDING_REPLY_LIMIT: u64 = 0xFFFF_FFFF_FFFF_FFFF;

/// A negative response whose code says the ECU is still processing the
/// request. A negative response is `[0x7F, request SID, code]`: the code is
/// read from its third byte.
pub open spec fn is_pending(resp: Seq<u8>) -> bool {
    resp.len() > 2 && resp[0] == UDS_RES_NEGATIVE && resp[2] == UDS_NRES_RCRRP
}

/// The error a (non-pending) response to `request_sid` stands for, if any.
pub open spec fn response_error(request_sid: u8, resp: Seq<u8>) -> Option<Error> {
    if resp.len() == 0 {
        Some(Error::EmptyResponse)
    } else if resp[0] == UDS_RES_NEGATIVE {
        Some(Error::NegativeResponse(if resp.len() > 2 { Some(resp[2]) } else { None }))
    } else if resp[0] as int != request_sid as int + POSITIVE_RESPONSE_OFFSET as int {
        Some(Error::InvalidResponseSid(resp[0]))
    } else {
        None
    }
}

/// What a (non-pending) response to `request_sid` makes the query return:
/// its error, or its payload after the SID.
pub open spec fn response_result(request_sid: u8, resp: Seq<u8>) -> Result<Seq<u8>, Error> {
    match response_error(request_sid, resp) {
        Some(e) => Err(e),
        None => Ok(resp.drop_first()),
    }
}

/// A transport reply that is a pending response.
pub open spec fn is_pending_reply(reply: Result<Seq<u8>, Error>) -> bool {
    match reply {
        Ok(resp) => is_pending(resp),
        Err(_) => false,
    }
}

/// The result of a query whose last transport reply is `reply`: a transport
/// error as it came, the last pending response as a negative response, or
/// what the response stands for.
pub open spec fn last_reply_result(request_sid: u8, reply: Result<Seq<u8>, Error>) -> Result<
    Seq<u8>,
    Error,
> {
    match reply {
        Err(e) => Err(e),
        Ok(resp) => if is_pending(resp) {
            Err(Error::NegativeResponse(Some(UDS_NRES_RCRRP)))
        } else {
            response_result(request_sid, resp)
        },
    }
}

/// The replies of the queries on `id` with `data` that `events` records,
/// one after the other; `None` where `events` is no such record.
pub open spec fn query_replies(id: u32, data: Seq<u8>, events: Seq<IsoTpEvent>) -> Option<
    Seq<Result<Seq<u8>, Error>>,
>
    decreases events.len(),
{
    if events.len() == 0 {
        Some(Seq::empty())
    } else {
        match events[0] {
            IsoTpEvent::Sent(sid, sdata, Some(e)) => if sid == id && sdata == data {
                match query_replies(id, data, events.skip(1)) {
                    Some(rs) => Some(seq![Err(e)] + rs),
                    None => None,
                }
            } else {
                None
            },
            IsoTpEvent::Sent(sid, sdata, None) => if sid == id && sdata == data && events.len() >= 2 {
                match events[1] {
                    IsoTpEvent::Received(rid, reply) => if rid == (id + RESPONSE_ID_OFFSET) as u32 {
                        match query_replies(id, data, events.skip(2)) {
                            Some(rs) => Some(seq![reply] + rs),
                            None => None,
                        }
                    } else {
                        None
                    },
                    IsoTpEvent::Sent(_, _, _) => None,
                }
            } else {
                None
            },
            IsoTpEvent::Received(_, _) => None,
        }
    }
}

/// `replies` are the transport replies of a whole UDS query that returned
/// `result`: every reply but the last was pending, at most `max_pending`
/// were, and the last one decides.
pub open spec fn is_uds_run(
    request_sid: u8,
    max_pending: nat,
    replies: Seq<Result<Seq<u8>, Error>>,
    result: Result<Seq<u8>, Error>,
) -> bool {
    &&& 0 < replies.len() <= max_pending + 1
    &&& forall|i: int| 0 <= i < replies.len() - 1 ==> is_pending_reply(#[trigger] replies[i])
    &&& is_pending_reply(replies.last()) ==> replies.len() == max_pending + 1
    &&& result == last_reply_result(request_sid, replies.last())
}

/// Between the transport logs `before` and `after`, a UDS query on
/// `arbitration_id` with `request_sid` and `data` returned `result`: each
/// query sent `[request_sid] ++ data` on `arbitration_id` and read on
/// `arbitration_id + 8`, and the replies make a run of `is_uds_run`.
pub open spec fn is_uds_query(
    before: Seq<IsoTpEvent>,
    after: Seq<IsoTpEvent>,
    arbitration_id: u32,
    request_sid: u8,
    data: Seq<u8>,
    max_pending: nat,
    result: Result<Seq<u8>, Error>,
) -> bool {
    &&& before.len() <= after.len()
    &&& after.subrange(0, before.len() as int) == before
    &&& match query_replies(
        arbitration_id,
        seq![request_sid] + data,
        after.skip(before.len() as int),
    ) {
        Some(replies) => is_uds_run(request_sid, max_pending, replies, result),
        None => false,
    }
}

/// Appending the record of one more query appends its reply.
proof fn lemma_query_replies_push(
    id: u32,
    data: Seq<u8>,
    events: Seq<IsoTpEvent>,
    tail: Seq<IsoTpEvent>,
    reply: Result<Seq<u8>, Error>,
)
    requires
        query_replies(id, data, events) is Some,
        is_query_record(id, data, tail, reply),
    ensures
        query_replies(id, data, events + tail) == Some(
            query_replies(id, data, events)->0.push(reply),
        ),
    decreases events.len(),
{
    if events.len() == 0 {
        let empty = Seq::<IsoTpEvent>::empty();
        assert(events + tail =~= tail);
        assert(query_replies(id, data, empty) == Some(Seq::<Result<Seq<u8>, Error>>::empty()));
        if tail == answered_events(id, data, reply) {
            assert(tail.skip(2) =~= empty);
        } else {
            assert(tail.skip(1) =~= empty);
        }
        assert(seq![reply] + Seq::<Result<Seq<u8>, Error>>::empty() =~= Seq::<
            Result<Seq<u8>, Error>,
        >::empty().push(reply));
    } else {
        let all = events + tail;
        assert(all[0] == events[0]);
        match events[0] {
            IsoTpEvent::Sent(_, _, Some(e)) => {
                assert(all.skip(1) =~= events.skip(1) + tail);
                lemma_query_replies_push(id, data, events.skip(1), tail, reply);
                let rs = query_replies(id, data, events.skip(1))->0;
                assert(seq![Err(e)] + rs.push(reply) =~= (seq![Err(e)] + rs).push(reply));
            },
            IsoTpEvent::Sent(_, _, None) => {
                assert(all[1] == events[1]);
                assert(all.skip(2) =~= events.skip(2) + tail);
                lemma_query_replies_push(id, data, events.skip(2), tail, reply);
                let rs = query_replies(id, data, events.skip(2))->0;
                let first = events[1]->Received_1;
                assert(seq![first] + rs.push(reply) =~= (seq![first] + rs).push(reply));
            },
            IsoTpEvent::Received(_, _) => {},
        }
    }
}

/// What a query makes of a transport reply that is not pending: a
/// transport error as it came, else what the response stands for.
pub open spec fn final_reply_result(request_sid: u8, reply: Result<Seq<u8>, Error>) -> Result<
    Seq<u8>,
    Error,
> {
    match reply {
        Ok(resp) => response_result(request_sid, resp),
        Err(e) => Err(e),
    }
}

/// A UDS query that made one transport query, whose reply was not pending,
/// returns what that reply stands for: the payload after the SID of a
/// positive response, the error of any other response, or the transport's
/// error unchanged.
pub proof fn lemma_single_reply(
    before: Seq<IsoTpEvent>,
    arbitration_id: u32,
    request_sid: u8,
    data: Seq<u8>,
    max_pending: nat,
    tail: Seq<IsoTpEvent>,
    reply: Result<Seq<u8>, Error>,
    result: Result<Seq<u8>, Error>,
)
    requires
        !is_pending_reply(reply),
        is_query_record(arbitration_id, seq![request_sid] + data, tail, reply),
        is_uds_query(
            before,
            before + tail,
            arbitration_id,
            request_sid,
            data,
            max_pending,
            result,
        ),
    ensures
        result == final_reply_result(request_sid, reply),
{
    let req = seq![request_sid] + data;
    let empty = Seq::<IsoTpEvent>::empty();
    assert((before + tail).skip(before.len() as int) =~= tail);
    assert(empty + tail =~= tail);
    lemma_query_replies_push(arbitration_id, req, empty, tail, reply);
    let replies = query_replies(arbitration_id, req, tail)->0;
    assert(replies.last() == reply);
}

/// A UDS query whose first transport reply was pending, `[0x7F, x, 0x78]`,
/// and whose second was not, sends the same request again and returns
/// what the second reply stands for.
pub proof fn lemma_pending_then_reply(
    before: Seq<IsoTpEvent>,
    arbitration_id: u32,
    request_sid: u8,
    data: Seq<u8>,
    max_pending: nat,
    x: u8,
    tail: Seq<IsoTpEvent>,
    reply: Result<Seq<u8>, Error>,
    result: Result<Seq<u8>, Error>,
)
    requires
        !is_pending_reply(reply),
        is_query_record(arbitration_id, seq![request_sid] + data, tail, reply),
        is_uds_query(
            before,
            before + answered_events(
                arbitration_id,
                seq![request_sid] + data,
                Ok(seq![UDS_RES_NEGATIVE, x, UDS_NRES_RCRRP]),
            ) + tail,
            arbitration_id,
            request_sid,
            data,
            max_pending,
            result,
        ),
    ensures
        result == final_reply_result(request_sid, reply),
{
    let req = seq![request_sid] + data;
    let pending_reply: Result<Seq<u8>, Error> = Ok(seq![UDS_RES_NEGATIVE, x, UDS_NRES_RCRRP]);
    let first = answered_events(arbitration_id, req, pending_reply);
    let empty = Seq::<IsoTpEvent>::empty();
    assert((before + first + tail).skip(before.len() as int) =~= first + tail);
    assert(empty + first =~= first);
    lemma_query_replies_push(arbitration_id, req, empty, first, pending_reply);
    lemma_query_replies_push(arbitration_id, req, first, tail, reply);
    let replies = query_replies(arbitration_id, req, first + tail)->0;
    assert(replies.last() == reply);
}

/// What one response means to the query engine.
#[derive(Debug)]
pub enum UdsReply {
    /// The ECU asks to wait for the actual response.
    Pending,
    /// A positive response, its SID stripped.
    Positive(Vec<u8>),
    /// The query fails with this error.
    Failed(Error),
}

/// The request message: `sid` followed by `data`.
pub fn build_request(sid: u8, data: &[u8]) -> (r: Vec<u8>)
    requires
        data@.len() < usize::MAX,
    ensures
        r@ == seq![sid] + data@,
{
    let mut request: Vec<u8> = Vec::with_capacity(data.len() + 1);
    request.push(sid);
    request.extend_from_slice(data);
    request
}

/// Classifies a response to a request with SID `request_sid`.
pub fn classify_response(request_sid: u8, response: Vec<u8>) -> (r: UdsReply)
    ensures
        match r {
            UdsReply::Pending => is_pending(response@),
            UdsReply::Positive(p) => !is_pending(response@) && response_error(request_sid, response@)
                == None::<Error> && p@ == response@.drop_first(),
            UdsReply::Failed(e) => !is_pending(response@) && response_error(request_sid, response@)
                == Some(e),
        },
{
    let mut response = response;
    if response.len() == 0 {
        return UdsReply::Failed(Error::EmptyResponse);
    }
    let response_sid = response[0];
    if response_sid == UDS_RES_NEGATIVE {
        if response.len() > 2 {
            let code = response[2];
            if code == UDS_NRES_RCRRP {
                return UdsReply::Pending;
            }
            return UdsReply::Failed(Error::NegativeResponse(Some(code)));
        }
        return UdsReply::Failed(Error::NegativeResponse(None));
    }
    if response_sid as u16 != request_sid as u16 + POSITIVE_RESPONSE_OFFSET as u16 {
        return UdsReply::Failed(Error::InvalidResponseSid(response_sid));
    }
    response.remove(0);
    UdsReply::Positive(response)
}

/// What a query does after a transport reply.
#[derive(Debug)]
pub enum QueryStep {
    /// Ask again: the reply was pending and the limit is not reached.
    Retry,
    /// Return this result.
    Done(Result<Vec<u8>, Error>),
}

/// The decision after the reply to a query for `request_sid`, with
/// `pending` pending replies already waited through and at most
/// `max_pending` allowed.
pub fn next_step(request_sid: u8, pending: u64, max_pending: u64, reply: Result<Vec<u8>, Error>) -> (r:
    QueryStep)
    requires
        pending <= max_pending,
    ensures
        match r {
            QueryStep::Retry => is_pending_reply(reply_view(reply)) && pending < max_pending,
            QueryStep::Done(res) => !(is_pending_reply(reply_view(reply)) && pending < max_pending)
                && reply_view(res) == last_reply_result(request_sid, reply_view(reply)),
        },
{
    match reply {
        Err(e) => QueryStep::Done(Err(e)),
        Ok(response) => match classify_response(request_sid, response) {
            UdsReply::Pending => {
                if pending == max_pending {
                    QueryStep::Done(Err(Error::NegativeResponse(Some(UDS_NRES_RCRRP))))
                } else {
                    QueryStep::Retry
                }
            },
            UdsReply::Positive(p) => QueryStep::Done(Ok(p)),
            UdsReply::Failed(e) => QueryStep::Done(Err(e)),
        },
    }
}

/// Sends a UDS request `[request_sid] ++ data` on `arbitration_id` and waits
/// for its response on `arbitration_id + 8`, sending it again while the ECU
/// answers "response pending", at most `max_pending` times. A transport
/// error ends the query as it is. After `max_pending` pending replies, one
/// more gives `NegativeResponse(Some(0x78))`.
pub fn query_uds_with_limit<T: IsoTp>(
    transport: &mut T,
    arbitration_id: u32,
    request_sid: u8,
    data: &[u8],
    max_pending: u64,
) -> (r: Result<Vec<u8>, Error>)
    requires
        arbitration_id + RESPONSE_ID_OFFSET <= u32::MAX,
        data@.len() < ISOTP_MAX_LEN,
    ensures
        is_uds_query(
            old(transport).events(),
            final(transport).events(),
            arbitration_id,
            request_sid,
            data@,
            max_pending as nat,
            reply_view(r),
        ),
{
    let request = build_request(request_sid, data);
    let ghost before = transport.events();
    let ghost replies: Seq<Result<Seq<u8>, Error>> = Seq::empty();
    let mut pending: u64 = 0;
    proof {
        assert(transport.events().skip(before.len() as int) =~= Seq::<IsoTpEvent>::empty());
        assert(transport.events().subrange(0, before.len() as int) =~= before);
    }
    loop
        invariant
            pending <= max_pending,
            request@ == seq![request_sid] + data@,
            request@.len() <= ISOTP_MAX_LEN,
            arbitration_id + RESPONSE_ID_OFFSET <= u32::MAX,
            before == old(transport).events(),
            before.len() <= transport.events().len(),
            transport.events().subrange(0, before.len() as int) == before,
            query_replies(arbitration_id, request@, transport.events().skip(before.len() as int))
                == Some(replies),
            replies.len() == pending,
            forall|i: int| 0 <= i < replies.len() ==> is_pending_reply(#[trigger] replies[i]),
        decreases max_pending - pending,
    {
        let ghost prev = transport.events();
        let reply = transport.query_isotp(arbitration_id, request.as_slice());
        proof {
            let now = transport.events();
            assert(now.subrange(0, before.len() as int) =~= prev.subrange(0, before.len() as int));
            assert(now.skip(before.len() as int) =~= prev.skip(before.len() as int) + now.skip(
                prev.len() as int,
            ));
            lemma_query_replies_push(
                arbitration_id,
                request@,
                prev.skip(before.len() as int),
                now.skip(prev.len() as int),
                reply_view(reply),
            );
            replies = replies.push(reply_view(reply));
        }
        match next_step(request_sid, pending, max_pending, reply) {
            QueryStep::Retry => {
                pending = pending + 1;
            },
            QueryStep::Done(result) => {
                assert(replies.last() == reply_view(reply));
                return result;
            },
        }
    }
}

/// Unified diagnostic services over an ISO-TP transport: the standard
/// protocol for reading PIDs and communicating with ECUs.
pub trait Uds: IsoTp {
    /// Sends a UDS message `[request_sid] ++ data` on `arbitration_id` and
    /// waits for the response on `arbitration_id + 8`, asking again while
    /// the ECU answers "response pending" (up to `PENDING_REPLY_LIMIT` times).
    fn query_uds(&mut self, arbitration_id: u32, request_sid: u8, data: &[u8]) -> (r: Result<
        Vec<u8>,
        Error,
    >)
        requires
            arbitration_id + RESPONSE_ID_OFFSET <= u32::MAX,
            data@.len() < ISOTP_MAX_LEN,
        ensures
            is_uds_query(
                old(self).events(),
                final(self).events(),
                arbitration_id,
                request_sid,
                data@,
                PENDING_REPLY_LIMIT as nat,
                reply_view(r),
            ),
    ;
    /// Sends a query for the VIN (vehicle identification number): service
    /// `0x09` with PID `0x02`. The result is `decode_vin` of the payload, or
    /// the query's error as it came.
    fn query_vin(&mut self, arbitration_id: u32) -> (r: Result<String, Error>)
        requires
            arbitration_id + RESPONSE_ID_OFFSET <= u32::MAX,
        ensures
            exists|q: Result<Seq<u8>, Error>|
                #[trigger] is_uds_query(
                    old(self).events(),
                    final(self).events(),
                    arbitration_id,
                    UDS_REQ_VEHICLE_INFO,
                    seq![VIN_PID],
                    PENDING_REPLY_LIMIT as nat,
                    q,
                ) && match q {
                    Ok(p) => vin_decoded(p, r),
                    Err(e) => r == Err::<String, Error>(e),
                },
    {
        let mut request: Vec<u8> = Vec::new();
        request.push(VIN_PID);
        let reply = self.query_uds(arbitration_id, UDS_REQ_VEHICLE_INFO, request.as_slice());
        assert(request@ =~= seq![VIN_PID]);
        let ghost q = reply_view(reply);
        match reply {
            Ok(data) => decode_vin(data.as_slice()),
            Err(e) => Err(e),
        }
    }

    /// Queries the list of diagnostic trouble codes: service `0x03` with no
    /// parameters. The result is `decode_trouble_codes` of the payload, or
    /// the query's error as it came.
    fn query_trouble_codes(&mut self, arbitration_id: u32) -> (r: Result<Vec<DTC>, Error>)
        requires
            arbitration_id + RESPONSE_ID_OFFSET <= u32::MAX,
        ensures
            exists|q: Result<Seq<u8>, Error>|
                #[trigger] is_uds_query(
                    old(self).events(),
                    final(self).events(),
                    arbitration_id,
                    UDS_REQ_TROUBLE_CODES,
                    Seq::empty(),
                    PENDING_REPLY_LIMIT as nat,
                    q,
                ) && match q {
                    Ok(p) => trouble_codes_decoded(p, r),
                    Err(e) => r == Err::<Vec<DTC>, Error>(e),
                },
    {
        let request: Vec<u8> = Vec::new();
        let reply = self.query_uds(arbitration_id, UDS_REQ_TROUBLE_CODES, request.as_slice());
        assert(request@ =~= Seq::<u8>::empty());
        let ghost q = reply_view(reply);
        match reply {
            Ok(data) => decode_trouble_codes(data.as_slice()),
            Err(e) => Err(e),
        }
    }

    /// Sets the diagnostic session type: service `0x10` with `id`. The
    /// result is `check_session` of the payload, or the query's error as it
    /// came.
    fn set_diagnostic_session(&mut self, arbitration_id: u32, id: u8) -> (r: Result<(), Error>)
        requires
            arbitration_id + RESPONSE_ID_OFFSET <= u32::MAX,
        ensures
            exists|q: Result<Seq<u8>, Error>|
                #[trigger] is_uds_query(
                    old(self).events(),
                    final(self).events(),
                    arbitration_id,
                    UDS_REQ_SESSION,
                    seq![id],
                    PENDING_REPLY_LIMIT as nat,
                    q,
                ) && match q {
                    Ok(p) => session_checked(p, id, r),
                    Err(e) => r == Err::<(), Error>(e),
                },
    {
        let mut request: Vec<u8> = Vec::new();
        request.push(id);
        let reply = self.query_uds(arbitration_id, UDS_REQ_SESSION, request.as_slice());
        assert(request@ =~= seq![id]);
        let ghost q = reply_view(reply);
        match reply {
            Ok(data) => check_session(data.as_slice(), id),
            Err(e) => Err(e),
        }
    }

    /// Requests a security access seed: service `0x27` with access type `1`.
    /// The result is `decode_security_seed` of the payload, or the query's
    /// error as it came.
    fn request_security_seed(&mut self, arbitration_id: u32) -> (r: Result<Vec<u8>, Error>)
        requires
            arbitration_id + RESPONSE_ID_OFFSET <= u32::MAX,
        ensures
            exists|q: Result<Seq<u8>, Error>|
                #[trigger] is_uds_query(
                    old(self).events(),
                    final(self).events(),
                    arbitration_id,
                    UDS_REQ_SECURITY,
                    seq![SECURITY_SEED_REQUEST],
                    PENDING_REPLY_LIMIT as nat,
                    q,
                ) && match q {
                    Ok(p) => seed_decoded(p, r),
                    Err(e) => r == Err::<Vec<u8>, Error>(e),
                },
    {
        let mut request: Vec<u8> = Vec::new();
        request.push(SECURITY_SEED_REQUEST);
        let reply = self.query_uds(arbitration_id, UDS_REQ_SECURITY, request.as_slice());
        assert(request@ =~= seq![SECURITY_SEED_REQUEST]);
        let ghost q = reply_view(reply);
        match reply {
            Ok(data) => decode_security_seed(data),
            Err(e) => Err(e),
        }
    }

    /// Authenticates with a security access key, usually computed from the
    /// seed of `request_security_seed`: service `0x27` with access type `2`
    /// and the key. The result is `check_security_key` of the payload, or
    /// the query's error as it came.
    fn request_security_key(&mut self, arbitration_id: u32, key: &[u8]) -> (r: Result<(), Error>)
        requires
            arbitration_id + RESPONSE_ID_OFFSET <= u32::MAX,
            key@.len() + 1 < ISOTP_MAX_LEN,
        ensures
            exists|q: Result<Seq<u8>, Error>|
                #[trigger] is_uds_query(
                    old(self).events(),
                    final(self).events(),
                    arbitration_id,
                    UDS_REQ_SECURITY,
                    seq![SECURITY_KEY_SUBMIT] + key@,
                    PENDING_REPLY_LIMIT as nat,
                    q,
                ) && match q {
                    Ok(p) => key_checked(p, r),
                    Err(e) => r == Err::<(), Error>(e),
                },
    {
        let request = build_request(SECURITY_KEY_SUBMIT, key);
        let reply = self.query_uds(arbitration_id, UDS_REQ_SECURITY, request.as_slice());
        let ghost q = reply_view(reply);
        match reply {
            Ok(data) => check_security_key(data.as_slice()),
            Err(e) => Err(e),
        }
    }

    /// Reads `length` bytes of ECU memory at `address`, usually after a
    /// security access: service `0x23` with the address and the length,
    /// big-endian. The result is the query's, as it came.
    fn read_memory_address(&mut self, arbitration_id: u32, address: u32, length: u16) -> (r: Result<
        Vec<u8>,
        Error,
    >)
        requires
            arbitration_id + RESPONSE_ID_OFFSET <= u32::MAX,
        ensures
            is_uds_query(
                old(self).events(),
                final(self).events(),
                arbitration_id,
                UDS_REQ_READMEM,
                be_u32(address) + be_u16(length),
                PENDING_REPLY_LIMIT as nat,
                reply_view(r),
            ),
    {
        let request = read_memory_request(address, length);
        self.query_uds(arbitration_id, UDS_REQ_READMEM, request.as_slice())
    }
}

impl<I: IsoTp> Uds for I {
    fn query_uds(&mut self, arbitration_id: u32, request_sid: u8, data: &[u8]) -> (r: Result<
        Vec<u8>,
        Error,
    >) {
        query_uds_with_limit(self, arbitration_id, request_sid, data, PENDING_REPLY_LIMIT)
    }
}

} // verus!
