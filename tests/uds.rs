use obd::channel::{
    filter_needs_update, is_wanted_message, read_filter_ids, send_filter_ids, FilterIds,
};
use obd::uds::{
    build_request, classify_response, next_step, query_uds_with_limit, QueryStep, UdsReply,
};
use obd::transport::IsoTpLog;
use obd::{Error, IsoTp, Uds};
use std::collections::VecDeque;

/// A transport that records what is sent and answers from a script.
struct Scripted {
    replies: VecDeque<Result<Vec<u8>, Error>>,
    sent: Vec<(u32, Vec<u8>)>,
    read_ids: Vec<u32>,
    fail_send: bool,
}

impl Scripted {
    fn new(replies: Vec<Vec<u8>>) -> Scripted {
        Scripted {
            replies: replies.into_iter().map(Ok).collect(),
            sent: Vec::new(),
            read_ids: Vec::new(),
            fail_send: false,
        }
    }
}

impl IsoTp for Scripted {
    fn events(&self) -> IsoTpLog {
        unreachable!("the event log is a proof-time model")
    }

    fn send_isotp(&mut self, id: u32, data: &[u8]) -> Result<(), Error> {
        self.sent.push((id, data.to_vec()));
        if self.fail_send {
            return Err(Error::PassThru("send failed".to_string()));
        }
        Ok(())
    }

    fn read_isotp(&mut self, id: u32) -> Result<Vec<u8>, Error> {
        self.read_ids.push(id);
        self.replies
            .pop_front()
            .unwrap_or_else(|| Err(Error::PassThru("no reply".to_string())))
    }
}

#[test]
fn query_uds_strips_response_sid() {
    let mut t = Scripted::new(vec![vec![0x62, 0xF1, 0x90, 0x41]]);
    let r = t.query_uds(0x7E0, 0x22, &[0xF1, 0x90]).unwrap();
    assert_eq!(r, vec![0xF1, 0x90, 0x41]);
    assert_eq!(t.sent, vec![(0x7E0, vec![0x22, 0xF1, 0x90])]);
    assert_eq!(t.read_ids, vec![0x7E8]);
}

#[test]
fn query_uds_retries_on_pending() {
    let mut t = Scripted::new(vec![vec![0x7F, 0x10, 0x78], vec![0x50, 0xAA]]);
    let r = t.query_uds(0x7E0, 0x10, &[0x03]).unwrap();
    assert_eq!(r, vec![0xAA]);
    assert_eq!(t.sent.len(), 2);
    assert_eq!(t.sent[1], (0x7E0, vec![0x10, 0x03]));
}

#[test]
fn query_uds_negative_response() {
    let mut t = Scripted::new(vec![vec![0x7F, 0x10, 0x11]]);
    let r = t.query_uds(0x7E0, 0x10, &[0x03]);
    assert!(matches!(r, Err(Error::NegativeResponse(Some(0x11)))));
    assert_eq!(t.sent.len(), 1);
}

#[test]
fn query_uds_negative_response_without_code() {
    let mut t = Scripted::new(vec![vec![0x7F, 0x10]]);
    let r = t.query_uds(0x7E0, 0x10, &[]);
    assert!(matches!(r, Err(Error::NegativeResponse(None))));
}

#[test]
fn query_uds_invalid_response_sid() {
    let mut t = Scripted::new(vec![vec![0x55]]);
    let r = t.query_uds(0x7E0, 0x10, &[0x03]);
    assert!(matches!(r, Err(Error::InvalidResponseSid(0x55))));
}

#[test]
fn query_uds_empty_response() {
    let mut t = Scripted::new(vec![vec![]]);
    assert!(matches!(t.query_uds(0x7E0, 0x10, &[]), Err(Error::EmptyResponse)));
}

#[test]
fn query_uds_propagates_transport_error() {
    let mut t = Scripted::new(vec![]);
    match t.query_uds(0x7E0, 0x10, &[]) {
        Err(Error::PassThru(m)) => assert_eq!(m, "no reply"),
        other => panic!("unexpected {:?}", other),
    }
}

#[test]
fn query_uds_pending_limit() {
    let pending = vec![0x7F, 0x10, 0x78];
    let mut t = Scripted::new(vec![pending.clone(), pending.clone(), pending]);
    let r = query_uds_with_limit(&mut t, 0x7E0, 0x10, &[], 1);
    assert!(matches!(r, Err(Error::NegativeResponse(Some(0x78)))));
    assert_eq!(t.sent.len(), 2);
}

#[test]
fn classify_each_kind() {
    assert!(matches!(classify_response(0x10, vec![0x7F, 0x10, 0x78]), UdsReply::Pending));
    match classify_response(0x10, vec![0x50, 1, 2]) {
        UdsReply::Positive(p) => assert_eq!(p, vec![1, 2]),
        other => panic!("unexpected {:?}", other),
    }
    assert!(matches!(
        classify_response(0xC0, vec![0x00]),
        UdsReply::Failed(Error::InvalidResponseSid(0x00))
    ));
}

#[test]
fn request_framing() {
    assert_eq!(build_request(0x27, &[0x02, 0xAB]), vec![0x27, 0x02, 0xAB]);
    assert_eq!(build_request(0x03, &[]), vec![0x03]);
}

#[test]
fn query_vin_end_to_end() {
    let mut t = Scripted::new(vec![vec![0x49, 0x02, 0x01, 0x57, 0x42, 0x41]]);
    assert_eq!(t.query_vin(0x7E0).unwrap(), "WBA");
    assert_eq!(t.sent, vec![(0x7E0, vec![0x09, 0x02])]);
}

#[test]
fn query_vin_wrong_pid() {
    let mut t = Scripted::new(vec![vec![0x49, 0x04, 0x31]]);
    assert!(matches!(t.query_vin(0x7E0), Err(Error::InvalidResponsePid)));
}

#[test]
fn query_trouble_codes_end_to_end() {
    let mut t = Scripted::new(vec![vec![0x43, 0x02, 0x01, 0x23, 0x81, 0x00]]);
    let codes = t.query_trouble_codes(0x7E0).unwrap();
    let text: Vec<String> = codes.iter().map(|c| c.to_string()).collect();
    assert_eq!(text, vec!["P0123".to_string(), "B0100".to_string()]);
    assert_eq!(t.sent, vec![(0x7E0, vec![0x03])]);
}

#[test]
fn set_diagnostic_session_end_to_end() {
    let mut t = Scripted::new(vec![vec![0x50, 0x03, 0x00, 0x32], vec![0x50, 0x02]]);
    assert!(t.set_diagnostic_session(0x7E0, 0x03).is_ok());
    assert!(matches!(t.set_diagnostic_session(0x7E0, 0x03), Err(Error::InvalidSessionType)));
    assert_eq!(t.sent[0], (0x7E0, vec![0x10, 0x03]));
}

#[test]
fn security_access_end_to_end() {
    let mut t = Scripted::new(vec![vec![0x67, 0x01, 0x12, 0x34], vec![0x67, 0x02]]);
    assert_eq!(t.request_security_seed(0x7E0).unwrap(), vec![0x12, 0x34]);
    assert!(t.request_security_key(0x7E0, &[0xED, 0xCB]).is_ok());
    assert_eq!(t.sent[0], (0x7E0, vec![0x27, 0x01]));
    assert_eq!(t.sent[1], (0x7E0, vec![0x27, 0x02, 0xED, 0xCB]));
}

#[test]
fn security_seed_wrong_access_type() {
    let mut t = Scripted::new(vec![vec![0x67, 0x03, 0x12]]);
    assert!(matches!(t.request_security_seed(0x7E0), Err(Error::InvalidAccessType)));
}

#[test]
fn read_memory_address_end_to_end() {
    let mut t = Scripted::new(vec![vec![0x63, 0xAA, 0xBB]]);
    assert_eq!(t.read_memory_address(0x7E0, 0x0012_3456, 0x0002).unwrap(), vec![0xAA, 0xBB]);
    assert_eq!(t.sent, vec![(0x7E0, vec![0x23, 0x00, 0x12, 0x34, 0x56, 0x00, 0x02])]);
}

#[test]
fn filter_decisions() {
    let f = send_filter_ids(None, 0x7E0);
    assert_eq!(f, FilterIds { source_id: 0x7E0, destination_id: 0x7E8 });
    let r = read_filter_ids(None, 0x7E8);
    assert_eq!(r, FilterIds { source_id: 0x7E0, destination_id: 0x7E8 });
    assert_eq!(send_filter_ids(Some(f), 0x7DF).destination_id, 0x7E8);
    assert_eq!(read_filter_ids(Some(f), 0x7E9).source_id, 0x7E0);
    assert!(!filter_needs_update(Some(f), r));
    assert!(filter_needs_update(None, r));
    assert!(filter_needs_update(Some(f), FilterIds { source_id: 0x7E1, destination_id: 0x7E8 }));
}

#[test]
fn wanted_message_selection() {
    assert!(is_wanted_message(0x7E8, false, false, Some(0x7E8)));
    assert!(!is_wanted_message(0x7E8, true, false, Some(0x7E8)));
    assert!(!is_wanted_message(0x7E8, false, true, Some(0x7E8)));
    assert!(!is_wanted_message(0x7E8, false, false, Some(0x7E9)));
    assert!(!is_wanted_message(0x7E8, false, false, None));
}

#[test]
fn query_isotp_sends_then_reads_offset_id() {
    let mut t = Scripted::new(vec![vec![0x41, 0x00]]);
    assert_eq!(t.query_isotp(0x7E0, &[0x01, 0x00]).unwrap(), vec![0x41, 0x00]);
    assert_eq!(t.sent, vec![(0x7E0, vec![0x01, 0x00])]);
    assert_eq!(t.read_ids, vec![0x7E8]);
}

#[test]
fn query_isotp_failed_send_is_not_read() {
    let mut t = Scripted::new(vec![vec![0x41, 0x00]]);
    t.fail_send = true;
    match t.query_isotp(0x7E0, &[0x01]) {
        Err(Error::PassThru(m)) => assert_eq!(m, "send failed"),
        other => panic!("unexpected {:?}", other),
    }
    assert!(t.read_ids.is_empty());
}

#[test]
fn query_uds_failed_send_not_retried() {
    let mut t = Scripted::new(vec![]);
    t.fail_send = true;
    assert!(matches!(t.query_uds(0x7E0, 0x22, &[0xF1]), Err(Error::PassThru(_))));
    assert_eq!(t.sent.len(), 1);
    assert!(t.read_ids.is_empty());
}

#[test]
fn next_step_decisions() {
    assert!(matches!(next_step(0x10, 0, 1, Ok(vec![0x7F, 0x10, 0x78])), QueryStep::Retry));
    assert!(matches!(
        next_step(0x10, 1, 1, Ok(vec![0x7F, 0x10, 0x78])),
        QueryStep::Done(Err(Error::NegativeResponse(Some(0x78))))
    ));
    match next_step(0x10, 0, 1, Ok(vec![0x50, 0x03])) {
        QueryStep::Done(Ok(p)) => assert_eq!(p, vec![0x03]),
        other => panic!("unexpected {:?}", other),
    }
    assert!(matches!(
        next_step(0x10, 0, 1, Err(Error::EmptyResponse)),
        QueryStep::Done(Err(Error::EmptyResponse))
    ));
    assert!(matches!(
        next_step(0x10, 0, 1, Ok(vec![0x7F, 0x78, 0x11])),
        QueryStep::Done(Err(Error::NegativeResponse(Some(0x11))))
    ));
}
