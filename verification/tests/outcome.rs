use w3c_validators::outcome::classify_response;
use w3c_validators::outcome::collapse_outcome;
use w3c_validators::outcome::resolve_response;
use w3c_validators::outcome::status_accepted;
use w3c_validators::outcome::FetchFailure;
use w3c_validators::outcome::ResponseEvent;

#[test]
fn only_200_and_304_are_accepted() {
    assert!(status_accepted(200));
    assert!(status_accepted(304));
    for status in [0u16, 100, 201, 301, 303, 400, 404, 500, 503] {
        assert!(!status_accepted(status));
    }
}

#[test]
fn rejected_status_discards_decoded_payload() {
    for status in [301u16, 400, 404, 500] {
        let resolved = resolve_response(ResponseEvent::Received(status, Some(7u32)));
        assert_eq!(resolved, None);
    }
}

#[test]
fn accepted_statuses_return_payload() {
    let ok = resolve_response(ResponseEvent::Received(200, Some("payload".to_string())));
    assert_eq!(ok, Some("payload".to_string()));
    let not_modified = resolve_response(ResponseEvent::Received(304, Some(11u32)));
    assert_eq!(not_modified, Some(11));
}

#[test]
fn decode_failure_yields_absent() {
    let resolved = resolve_response(ResponseEvent::<u32>::Received(200, None));
    assert_eq!(resolved, None);
}

#[test]
fn transport_failure_yields_absent() {
    let resolved = resolve_response(ResponseEvent::<u32>::Failed);
    assert_eq!(resolved, None);
}

#[test]
fn classification_tells_failures_apart() {
    let transport = classify_response(ResponseEvent::<u32>::Failed);
    assert_eq!(transport, Err(FetchFailure::Transport));

    let status = classify_response(ResponseEvent::Received(418, Some(1u32)));
    assert_eq!(status, Err(FetchFailure::HttpStatus(418)));

    let decode = classify_response(ResponseEvent::<u32>::Received(200, None));
    assert_eq!(decode, Err(FetchFailure::Decode));

    let parsed = classify_response(ResponseEvent::Received(200, Some(5u32)));
    assert_eq!(parsed, Ok(5));
}

#[test]
fn collapse_keeps_only_parsed_payloads() {
    assert_eq!(collapse_outcome(Ok::<u32, FetchFailure>(3)), Some(3));
    assert_eq!(collapse_outcome(Err::<u32, FetchFailure>(FetchFailure::Transport)), None);
    assert_eq!(collapse_outcome(Err::<u32, FetchFailure>(FetchFailure::HttpStatus(500))), None);
    assert_eq!(collapse_outcome(Err::<u32, FetchFailure>(FetchFailure::Decode)), None);
}
