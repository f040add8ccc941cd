use conduit_axum::fallback::{
    bad_request, check_content_length, conduit_into_axum, fallback_to_conduit,
    server_error_response, Failure, FallbackAction, FallbackEvent, FallbackState, Rejection,
    MAX_CONTENT_LENGTH,
};
use conduit_axum::response::{
    HandlerBody, HandlerRequest, HandlerResponse, WireBody, WireResponse,
};

type Action = FallbackAction<&'static str, u32>;
type Event = FallbackEvent<&'static str, u32>;

fn request(content_length: Option<&[u8]>, size_hint_lower: u64) -> Event {
    FallbackEvent::Request { content_length: content_length.map(|b| b.to_vec()), size_hint_lower }
}

fn empty_400() -> WireResponse<&'static str, u32> {
    WireResponse {
        status: 400,
        headers: Vec::new(),
        route_pattern: None,
        body: WireBody::Owned(Vec::new()),
    }
}

fn fixed_500() -> WireResponse<&'static str, u32> {
    WireResponse {
        status: 500,
        headers: Vec::new(),
        route_pattern: None,
        body: WireBody::Static(b"Internal Server Error"),
    }
}

#[test]
fn maximum_is_128_mib() {
    assert_eq!(MAX_CONTENT_LENGTH, 134_217_728);
    assert_eq!(MAX_CONTENT_LENGTH, 128 * 1024 * 1024);
}

#[test]
fn rejection_messages() {
    assert_eq!(Rejection::NotAscii.message(), "not ASCII");
    assert_eq!(Rejection::NotU64.message(), "not a u64");
    assert_eq!(Rejection::TooLarge.message(), "too large");
    assert_eq!(Rejection::SizeHintTooLarge.message(), "size_hint().lower() too large");
}

#[test]
fn request_without_header_is_accepted() {
    assert_eq!(check_content_length(None, 0), Ok(()));
    assert_eq!(check_content_length(None, MAX_CONTENT_LENGTH), Ok(()));
}

#[test]
fn header_within_bounds_is_accepted() {
    assert_eq!(check_content_length(Some(b"0"), 0), Ok(()));
    assert_eq!(check_content_length(Some(b"1024"), 1024), Ok(()));
    assert_eq!(check_content_length(Some(b"134217728"), 0), Ok(()));
    assert_eq!(check_content_length(Some(b"+12"), 0), Ok(()));
    assert_eq!(check_content_length(Some(b"000134217728"), 0), Ok(()));
}

#[test]
fn header_above_the_maximum_is_too_large() {
    assert_eq!(check_content_length(Some(b"134217729"), 0), Err(Rejection::TooLarge));
    assert_eq!(check_content_length(Some(b"999999999999"), 0), Err(Rejection::TooLarge));
    assert_eq!(check_content_length(Some(b"18446744073709551615"), 0), Err(Rejection::TooLarge));
}

#[test]
fn header_that_is_no_number_is_not_a_u64() {
    assert_eq!(check_content_length(Some(b""), 0), Err(Rejection::NotU64));
    assert_eq!(check_content_length(Some(b"abc"), 0), Err(Rejection::NotU64));
    assert_eq!(check_content_length(Some(b"-1"), 0), Err(Rejection::NotU64));
    assert_eq!(check_content_length(Some(b"12 "), 0), Err(Rejection::NotU64));
    assert_eq!(check_content_length(Some(b" 12"), 0), Err(Rejection::NotU64));
    assert_eq!(check_content_length(Some(b"1\t2"), 0), Err(Rejection::NotU64));
    assert_eq!(check_content_length(Some(b"12, 12"), 0), Err(Rejection::NotU64));
    assert_eq!(check_content_length(Some(b"18446744073709551616"), 0), Err(Rejection::NotU64));
}

#[test]
fn header_outside_visible_ascii_is_not_ascii() {
    assert_eq!(check_content_length(Some(b"\xff"), 0), Err(Rejection::NotAscii));
    assert_eq!(check_content_length(Some(b"12\x80"), 0), Err(Rejection::NotAscii));
    assert_eq!(check_content_length(Some("１２".as_bytes()), 0), Err(Rejection::NotAscii));
    assert_eq!(check_content_length(Some(b"12\x7f"), 0), Err(Rejection::NotAscii));
    assert_eq!(check_content_length(Some(b"1\x002"), 0), Err(Rejection::NotAscii));
    assert_eq!(check_content_length(Some(b"12\n"), 0), Err(Rejection::NotAscii));
}

#[test]
fn size_hint_above_the_maximum_is_refused() {
    assert_eq!(
        check_content_length(None, MAX_CONTENT_LENGTH + 1),
        Err(Rejection::SizeHintTooLarge)
    );
    assert_eq!(check_content_length(None, u64::MAX), Err(Rejection::SizeHintTooLarge));
    assert_eq!(
        check_content_length(Some(b"10"), MAX_CONTENT_LENGTH + 1),
        Err(Rejection::SizeHintTooLarge)
    );
}

#[test]
fn header_is_judged_before_the_size_hint() {
    assert_eq!(check_content_length(Some(b"abc"), u64::MAX), Err(Rejection::NotU64));
    assert_eq!(check_content_length(Some(b"\xff"), u64::MAX), Err(Rejection::NotAscii));
    assert_eq!(check_content_length(Some(b"999999999999"), u64::MAX), Err(Rejection::TooLarge));
}

#[test]
fn bad_request_is_an_empty_400() {
    let response: WireResponse<&'static str, u32> = bad_request();
    assert_eq!(response, empty_400());
}

#[test]
fn server_error_has_the_fixed_body() {
    let response: WireResponse<&'static str, u32> = server_error_response();
    assert_eq!(response.status, 500);
    assert!(response.headers.is_empty());
    assert_eq!(response.route_pattern, None);
    match response.body {
        WireBody::Static(bytes) => assert_eq!(bytes, b"Internal Server Error"),
        other => panic!("unexpected body {:?}", other),
    }
}

fn handler_response(body: HandlerBody<u32>) -> HandlerResponse<&'static str, u32> {
    HandlerResponse {
        status: 201,
        headers: vec![
            ("content-type".to_string(), b"application/json".to_vec()),
            ("x-extra".to_string(), vec![0xff, 0x00]),
        ],
        route_pattern: None,
        body,
    }
}

#[test]
fn static_body_is_kept() {
    let wire = conduit_into_axum(
        handler_response(HandlerBody::Static(b"static bytes")),
        HandlerRequest { route_pattern: None },
    );
    assert_eq!(wire.status, 201);
    assert_eq!(wire.headers, handler_response(HandlerBody::File(0)).headers);
    assert_eq!(wire.route_pattern, None);
    assert_eq!(wire.body, WireBody::Static(b"static bytes"));
}

#[test]
fn owned_body_is_kept() {
    let wire = conduit_into_axum(
        handler_response(HandlerBody::Owned(vec![1, 2, 3, 0, 255])),
        HandlerRequest { route_pattern: None },
    );
    assert_eq!(wire.status, 201);
    assert_eq!(wire.headers, handler_response(HandlerBody::File(0)).headers);
    assert_eq!(wire.body, WireBody::Owned(vec![1, 2, 3, 0, 255]));
}

#[test]
fn file_body_is_streamed() {
    let wire = conduit_into_axum(
        handler_response(HandlerBody::File(42)),
        HandlerRequest { route_pattern: None },
    );
    assert_eq!(wire.status, 201);
    assert_eq!(wire.headers, handler_response(HandlerBody::File(0)).headers);
    assert_eq!(wire.body, WireBody::Streamed(42));
}

#[test]
fn empty_bodies_are_kept() {
    let wire = conduit_into_axum(
        handler_response(HandlerBody::Static(b"")),
        HandlerRequest { route_pattern: None },
    );
    assert_eq!(wire.body, WireBody::Static(b""));
    let wire = conduit_into_axum(
        handler_response(HandlerBody::Owned(Vec::new())),
        HandlerRequest { route_pattern: None },
    );
    assert_eq!(wire.body, WireBody::Owned(Vec::new()));
}

#[test]
fn route_pattern_moves_from_request_to_response() {
    let wire = conduit_into_axum(
        handler_response(HandlerBody::Static(b"")),
        HandlerRequest { route_pattern: Some("/crates/:crate_id") },
    );
    assert_eq!(wire.route_pattern, Some("/crates/:crate_id"));
}

#[test]
fn route_pattern_of_the_request_replaces_that_of_the_response() {
    let mut response = handler_response(HandlerBody::Static(b""));
    response.route_pattern = Some("/old");
    let wire = conduit_into_axum(response, HandlerRequest { route_pattern: Some("/new") });
    assert_eq!(wire.route_pattern, Some("/new"));
}

#[test]
fn route_pattern_of_the_response_stays_without_one_on_the_request() {
    let mut response = handler_response(HandlerBody::Static(b""));
    response.route_pattern = Some("/old");
    let wire = conduit_into_axum(response, HandlerRequest { route_pattern: None });
    assert_eq!(wire.route_pattern, Some("/old"));
}

#[test]
fn accepted_request_is_buffered_then_handled() {
    let step = fallback_to_conduit(FallbackState::Received, request(Some(b"10"), 10));
    assert_eq!(step, Some((FallbackState::ReadingBody, Action::ReadBody)));
    let step = fallback_to_conduit(FallbackState::ReadingBody, Event::BodyRead);
    assert_eq!(step, Some((FallbackState::CallingHandler, Action::CallHandler)));
    let response = handler_response(HandlerBody::Owned(b"ok".to_vec()));
    let step = fallback_to_conduit(
        FallbackState::CallingHandler,
        Event::HandlerReturned { response, request: HandlerRequest { route_pattern: Some("/me") } },
    );
    let expected = WireResponse {
        status: 201,
        headers: handler_response(HandlerBody::File(0)).headers,
        route_pattern: Some("/me"),
        body: WireBody::Owned(b"ok".to_vec()),
    };
    assert_eq!(step, Some((FallbackState::Finished, Action::Respond { response: expected })));
}

#[test]
fn oversized_request_is_answered_400_without_the_handler() {
    let step = fallback_to_conduit(FallbackState::Received, request(Some(b"999999999999"), 0));
    assert_eq!(
        step,
        Some((
            FallbackState::Finished,
            Action::Reject { reason: Rejection::TooLarge, response: empty_400() }
        ))
    );
    assert_eq!(fallback_to_conduit(FallbackState::Finished, Event::BodyRead), None);
    assert_eq!(fallback_to_conduit(FallbackState::Finished, Event::HandlerFailed), None);
    assert_eq!(fallback_to_conduit(FallbackState::Finished, request(None, 0)), None);
}

#[test]
fn malformed_requests_are_answered_400() {
    for (header, reason) in [
        (&b"abc"[..], Rejection::NotU64),
        (&b""[..], Rejection::NotU64),
        (&b"\xe2\x82\xac"[..], Rejection::NotAscii),
    ] {
        let step = fallback_to_conduit(FallbackState::Received, request(Some(header), 0));
        assert_eq!(
            step,
            Some((FallbackState::Finished, Action::Reject { reason, response: empty_400() }))
        );
    }
}

#[test]
fn large_size_hint_is_answered_400() {
    let step = fallback_to_conduit(FallbackState::Received, request(None, u64::MAX));
    assert_eq!(
        step,
        Some((
            FallbackState::Finished,
            Action::Reject { reason: Rejection::SizeHintTooLarge, response: empty_400() }
        ))
    );
}

#[test]
fn failures_are_answered_500() {
    assert_eq!(
        fallback_to_conduit(FallbackState::ReadingBody, Event::BodyFailed),
        Some((
            FallbackState::Finished,
            Action::Fail { failure: Failure::Body, response: fixed_500() }
        ))
    );
    assert_eq!(
        fallback_to_conduit(FallbackState::CallingHandler, Event::HandlerFailed),
        Some((
            FallbackState::Finished,
            Action::Fail { failure: Failure::Handler, response: fixed_500() }
        ))
    );
    assert_eq!(
        fallback_to_conduit(FallbackState::CallingHandler, Event::WorkerFailed),
        Some((
            FallbackState::Finished,
            Action::Fail { failure: Failure::Worker, response: fixed_500() }
        ))
    );
}

#[test]
fn events_out_of_turn_do_nothing() {
    assert_eq!(fallback_to_conduit(FallbackState::Received, Event::BodyRead), None);
    assert_eq!(fallback_to_conduit(FallbackState::Received, Event::HandlerFailed), None);
    assert_eq!(fallback_to_conduit(FallbackState::ReadingBody, request(None, 0)), None);
    assert_eq!(fallback_to_conduit(FallbackState::ReadingBody, Event::WorkerFailed), None);
    assert_eq!(fallback_to_conduit(FallbackState::CallingHandler, Event::BodyRead), None);
    assert_eq!(fallback_to_conduit(FallbackState::CallingHandler, Event::BodyFailed), None);
    let response = handler_response(HandlerBody::File(1));
    assert_eq!(
        fallback_to_conduit(
            FallbackState::ReadingBody,
            Event::HandlerReturned { response, request: HandlerRequest { route_pattern: None } },
        ),
        None
    );
}
