use radarsync::mailbox::{ResponseKind, ResponseMailbox};
use radarsync::model::{ApiResponse, CodeResponse, DeviceResponse, LanUrlResponse};

fn code(c: &str) -> ApiResponse {
    ApiResponse::Code(CodeResponse { code: c.to_string() })
}

fn candidate(id: &str) -> ApiResponse {
    ApiResponse::Device(DeviceResponse::new("ios".to_string(), id.to_string()))
}

fn locator(url: &str) -> ApiResponse {
    ApiResponse::LanUrl(LanUrlResponse { url_lan: url.to_string(), push_token: None })
}

fn candidate_id(m: &ApiResponse) -> String {
    match m {
        ApiResponse::Device(d) => d.id().to_string(),
        _ => panic!("not a candidate"),
    }
}

#[test]
fn candidate_before_code_is_buffered_then_claimed() {
    let mut mb = ResponseMailbox::new();
    // Waiting for the code: nothing is buffered yet.
    assert!(mb.take_buffered(ResponseKind::Code).is_none());
    // The wire yields a candidate first: it is kept.
    assert!(mb.offer(ResponseKind::Code, candidate("dev-1")).is_none());
    assert_eq!(mb.len(), 1);
    // Then the code: it ends the wait.
    match mb.offer(ResponseKind::Code, code("ABC123")) {
        Some(ApiResponse::Code(c)) => assert_eq!(c.code, "ABC123"),
        _ => panic!("expected the code"),
    }
    // A wait for a candidate finds the buffered one without reading the wire.
    let got = mb.take_buffered(ResponseKind::Device).expect("buffered candidate");
    assert_eq!(candidate_id(&got), "dev-1");
    assert_eq!(mb.len(), 0);
}

#[test]
fn earliest_buffered_match_is_claimed_first() {
    let mut mb = ResponseMailbox::new();
    assert!(mb.offer(ResponseKind::Code, candidate("first")).is_none());
    assert!(mb.offer(ResponseKind::Code, locator("http://10.0.0.2:8080")).is_none());
    assert!(mb.offer(ResponseKind::Code, candidate("second")).is_none());
    assert_eq!(mb.len(), 3);
    let a = mb.take_buffered(ResponseKind::Device).unwrap();
    assert_eq!(candidate_id(&a), "first");
    let b = mb.take_buffered(ResponseKind::Device).unwrap();
    assert_eq!(candidate_id(&b), "second");
    assert!(mb.take_buffered(ResponseKind::Device).is_none());
    match mb.take_buffered(ResponseKind::LanUrl) {
        Some(ApiResponse::LanUrl(l)) => assert_eq!(l.url_lan, "http://10.0.0.2:8080"),
        _ => panic!("expected the locator"),
    }
    assert_eq!(mb.len(), 0);
}

#[test]
fn take_buffered_never_returns_another_kind() {
    let mut mb = ResponseMailbox::new();
    assert!(mb.offer(ResponseKind::LanUrl, candidate("x")).is_none());
    assert!(mb.take_buffered(ResponseKind::Code).is_none());
    assert!(mb.take_buffered(ResponseKind::LanUrl).is_none());
    assert_eq!(mb.len(), 1);
    assert_eq!(code("c").kind(), ResponseKind::Code);
    assert_eq!(candidate("c").kind(), ResponseKind::Device);
    assert_eq!(locator("u").kind(), ResponseKind::LanUrl);
}

#[test]
fn await_matching_reads_past_an_early_candidate() {
    let mut mb = ResponseMailbox::new();
    let mut wire = vec![candidate("dev-7"), code("Z9"), locator("http://h")];
    match mb.await_matching(ResponseKind::Code, &mut wire) {
        Some(ApiResponse::Code(c)) => assert_eq!(c.code, "Z9"),
        _ => panic!("expected the code"),
    }
    assert_eq!(mb.len(), 1);
    assert_eq!(wire.len(), 1);
    // The buffered candidate is claimed without taking anything off the wire.
    let got = mb.await_matching(ResponseKind::Device, &mut wire).expect("candidate");
    assert_eq!(candidate_id(&got), "dev-7");
    assert_eq!(wire.len(), 1);
    assert_eq!(mb.len(), 0);
}

#[test]
fn await_matching_on_a_closed_wire_keeps_everything() {
    let mut mb = ResponseMailbox::new();
    let mut wire = vec![candidate("a"), candidate("b")];
    assert!(mb.await_matching(ResponseKind::LanUrl, &mut wire).is_none());
    assert!(wire.is_empty());
    assert_eq!(mb.len(), 2);
    let first = mb.await_matching(ResponseKind::Device, &mut wire).unwrap();
    assert_eq!(candidate_id(&first), "a");
}
