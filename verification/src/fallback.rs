//! The fallback route: a request that no other route took is checked,
//! buffered, handed to a synchronous handler on a worker thread, and the
//! handler's response is turned into a response for the wire.

use crate::response::{
    HandlerBody, HandlerBodyView, HandlerRequest, HandlerResponse, HandlerResponseView, WireBody,
    WireBodyView, WireResponse, WireResponseView,
};
use crate::text::{parse_u64, spec_parse_u64};
use http::header::HeaderValue;
use vstd::prelude::*;
use vstd::string::*;

verus! {

/// The largest body size that a request may declare: 128 MiB.
///
/// A request that sends its body in chunks can still grow beyond this; such
/// requests have to be bounded by whatever stands in front of this route.
pub const MAX_CONTENT_LENGTH: u64 = 128 * 1024 * 1024;

/// Why a request was turned away before its body was read.
#[derive(Clone, Copy, Debug, PartialEq, Eq, Structural)]
pub enum Rejection {
    /// The `Content-Length` header holds a byte outside visible ASCII.
    NotAscii,
    /// The `Content-Length` header does not write an unsigned 64-bit number.
    NotU64,
    /// The `Content-Length` header declares more than the maximum.
    TooLarge,
    /// The transport's own lower bound on the body size is above the maximum.
    SizeHintTooLarge,
}

impl Rejection {
    /// The reason as it is written to the server's log. It is never sent to
    /// the client.
    pub fn message(&self) -> (text: &'static str)
        ensures
            text@ == match *self {
                Rejection::NotAscii => "not ASCII"@,
                Rejection::NotU64 => "not a u64"@,
                Rejection::TooLarge => "too large"@,
                Rejection::SizeHintTooLarge => "size_hint().lower() too large"@,
            },
    {
        match self {
            Rejection::NotAscii => "not ASCII",
            Rejection::NotU64 => "not a u64",
            Rejection::TooLarge => "too large",
            Rejection::SizeHintTooLarge => "size_hint().lower() too large",
        }
    }
}

/// Whether a header value shows `byte` as text: printable ASCII or a tab.
pub open spec fn is_visible_ascii(byte: u8) -> bool {
    32 <= byte < 127 || byte == 9
}

/// The text of a header value: its bytes read as characters, where all of them
/// are visible ASCII.
pub open spec fn header_text(bytes: Seq<u8>) -> Option<Seq<char>> {
    if forall|i: int| 0 <= i < bytes.len() ==> is_visible_ascii(#[trigger] bytes[i]) {
        Some(Seq::new(bytes.len(), |i: int| bytes[i] as char))
    } else {
        None
    }
}

/// Calls `http::header::HeaderValue::to_str` on the header value made of
/// `bytes`.
///
/// Believed of it: the text comes back exactly when every byte is printable
/// ASCII or a tab, and it is then those bytes, one character each. Bytes that
/// make no header value at all (other control bytes) give no text either.
#[verifier::external_body]
fn header_value_to_str(bytes: &[u8]) -> (text: Option<String>)
    ensures
        text.deep_view() == header_text(bytes@),
{
    match HeaderValue::from_bytes(bytes) {
        Ok(value) => match value.to_str() {
            Ok(text) => Some(text.to_owned()),
            Err(_) => None,
        },
        Err(_) => None,
    }
}

/// The verdict on the size that a request declares.
///
/// A `Content-Length` header, where there is one, must be visible ASCII, must
/// write a `u64`, and that number must not exceed [`MAX_CONTENT_LENGTH`]. With
/// or without the header, the transport's lower bound on the body size must
/// not exceed it either.
pub open spec fn content_length_verdict(
    content_length: Option<Seq<u8>>,
    size_hint_lower: u64,
) -> Result<(), Rejection> {
    let declared = match content_length {
        None => Ok(()),
        Some(bytes) => match header_text(bytes) {
            None => Err(Rejection::NotAscii),
            Some(text) => match spec_parse_u64(text) {
                None => Err(Rejection::NotU64),
                Some(length) => if length > MAX_CONTENT_LENGTH {
                    Err(Rejection::TooLarge)
                } else {
                    Ok(())
                },
            },
        },
    };
    if declared is Err {
        declared
    } else if size_hint_lower > MAX_CONTENT_LENGTH {
        Err(Rejection::SizeHintTooLarge)
    } else {
        Ok(())
    }
}

/// Checks the size that a request declares, before any of its body is read.
///
/// `content_length` is the value of the `Content-Length` header, where the
/// request has one; `size_hint_lower` is the transport's lower bound on the
/// size of the body.
pub fn check_content_length(
    content_length: Option<&[u8]>,
    size_hint_lower: u64,
) -> (verdict: Result<(), Rejection>)
    ensures
        verdict == content_length_verdict(
            match content_length {
                Some(bytes) => Some(bytes@),
                None => None,
            },
            size_hint_lower,
        ),
{
    if let Some(bytes) = content_length {
        let text: String = match header_value_to_str(bytes) {
            Some(text) => text,
            None => {
                return Err(Rejection::NotAscii);
            },
        };
        let length: u64 = match parse_u64(text.as_str()) {
            Some(length) => length,
            None => {
                return Err(Rejection::NotU64);
            },
        };
        if length > MAX_CONTENT_LENGTH {
            return Err(Rejection::TooLarge);
        }
    }
    if size_hint_lower > MAX_CONTENT_LENGTH {
        return Err(Rejection::SizeHintTooLarge);
    }
    Ok(())
}

/// The bytes of ASCII text, one for each character.
pub open spec fn ascii_bytes(text: Seq<char>) -> Seq<u8> {
    Seq::new(text.len(), |i: int| text[i] as u8)
}

/// The answer to a request that was turned away: status 400, no headers, an
/// empty body. The reason is not disclosed.
pub open spec fn bad_request_view<P, F>() -> WireResponseView<P, F> {
    WireResponseView {
        status: 400,
        headers: Seq::empty(),
        route_pattern: None,
        body: WireBodyView::Owned(Seq::empty()),
    }
}

/// The answer when handling failed: status 500, no headers, and a fixed text
/// that discloses nothing of the failure.
pub open spec fn server_error_view<P, F>() -> WireResponseView<P, F> {
    WireResponseView {
        status: 500,
        headers: Seq::empty(),
        route_pattern: None,
        body: WireBodyView::Static(ascii_bytes("Internal Server Error"@)),
    }
}

/// The wire response for a handler's response.
///
/// Status and headers are kept. A route pattern that the request carries goes
/// onto the response, in place of any that the response had. The body keeps
/// its bytes: static bytes are sent as they are, an owned buffer is handed
/// over, and a file is streamed.
pub open spec fn wire_response_view<P, F>(
    response: HandlerResponseView<P, F>,
    request: HandlerRequest<P>,
) -> WireResponseView<P, F> {
    WireResponseView {
        status: response.status,
        headers: response.headers,
        route_pattern: match request.route_pattern {
            Some(pattern) => Some(pattern),
            None => response.route_pattern,
        },
        body: match response.body {
            HandlerBodyView::Static(bytes) => WireBodyView::Static(bytes),
            HandlerBodyView::Owned(bytes) => WireBodyView::Owned(bytes),
            HandlerBodyView::File(file) => WireBodyView::Streamed(file),
        },
    }
}

/// The response to a request whose declared size was refused.
pub fn bad_request<P, F>() -> (response: WireResponse<P, F>)
    ensures
        response@ == bad_request_view::<P, F>(),
{
    let response = WireResponse {
        status: 400,
        headers: Vec::new(),
        route_pattern: None,
        body: WireBody::Owned(Vec::new()),
    };
    assert(response@.headers =~= Seq::empty());
    assert(response@.body == WireBodyView::<F>::Owned(Seq::empty()));
    response
}

/// The generic response to a request whose handling failed.
pub fn server_error_response<P, F>() -> (response: WireResponse<P, F>)
    ensures
        response@ == server_error_view::<P, F>(),
{
    let text: &'static str = "Internal Server Error";
    let bytes: &'static [u8] = text.as_bytes();
    proof {
        reveal_strlit("Internal Server Error");
        assert(is_ascii(text));
        is_ascii_spec_bytes(text);
        assert(bytes@ =~= ascii_bytes(text@));
    }
    let response = WireResponse {
        status: 500,
        headers: Vec::new(),
        route_pattern: None,
        body: WireBody::Static(bytes),
    };
    assert(response@.headers =~= Seq::empty());
    response
}

/// Turns a handler's response into the response for the wire.
///
/// `request` is the request as the handler left it: a route pattern found on
/// it is moved onto the response.
pub fn conduit_into_axum<P, F>(
    response: HandlerResponse<P, F>,
    request: HandlerRequest<P>,
) -> (wire: WireResponse<P, F>)
    ensures
        wire@ == wire_response_view(response@, request),
{
    let HandlerResponse { status, headers, route_pattern, body } = response;
    let route_pattern = match request.route_pattern {
        Some(pattern) => Some(pattern),
        None => route_pattern,
    };
    let body = match body {
        HandlerBody::Static(slice) => WireBody::Static(slice),
        HandlerBody::Owned(vec) => WireBody::Owned(vec),
        HandlerBody::File(file) => WireBody::Streamed(file),
    };
    WireResponse { status, headers, route_pattern, body }
}

/// The conversion changes neither status nor headers, and the wire body is
/// the handler's body: the same bytes where it holds bytes, the same file
/// where it is a file.
pub proof fn lemma_conversion_keeps_response<P, F>(
    response: HandlerResponseView<P, F>,
    request: HandlerRequest<P>,
)
    ensures
        wire_response_view(response, request).status == response.status,
        wire_response_view(response, request).headers == response.headers,
        wire_response_view(response, request).body.bytes() == response.body.bytes(),
        wire_response_view(response, request).body.file() == response.body.file(),
{
}

/// A route pattern on the request is found on the wire response.
pub proof fn lemma_conversion_carries_route_pattern<P, F>(
    response: HandlerResponseView<P, F>,
    request: HandlerRequest<P>,
    pattern: P,
)
    requires
        request.route_pattern == Some(pattern),
    ensures
        wire_response_view(response, request).route_pattern == Some(pattern),
{
}

/// How far the handling of one request has come.
#[derive(Clone, Copy, Debug, PartialEq, Eq, Structural)]
pub enum FallbackState {
    /// The request has arrived; nothing was done yet.
    Received,
    /// The declared size was accepted; the body is being read into memory.
    ReadingBody,
    /// The handler runs on a worker thread.
    CallingHandler,
    /// The response is decided.
    Finished,
}

/// The stage at which handling failed.
#[derive(Clone, Copy, Debug, PartialEq, Eq, Structural)]
pub enum Failure {
    /// The body could not be read.
    Body,
    /// The handler returned an error.
    Handler,
    /// The worker thread delivered no result.
    Worker,
}

/// What happened outside, reported to [`fallback_to_conduit`].
#[derive(Debug, PartialEq, Eq)]
pub enum FallbackEvent<P, F> {
    /// A request arrived, with this `Content-Length` header value, if any, and
    /// this lower bound on the size of its body.
    Request { content_length: Option<Vec<u8>>, size_hint_lower: u64 },
    /// The body was read in full.
    BodyRead,
    /// Reading the body failed.
    BodyFailed,
    /// The handler returned a response; `request` is the request as the
    /// handler left it.
    HandlerReturned { response: HandlerResponse<P, F>, request: HandlerRequest<P> },
    /// The handler returned an error.
    HandlerFailed,
    /// The worker thread ended without a result.
    WorkerFailed,
}

/// The model of a [`FallbackEvent`].
pub enum FallbackEventView<P, F> {
    Request { content_length: Option<Seq<u8>>, size_hint_lower: u64 },
    BodyRead,
    BodyFailed,
    HandlerReturned { response: HandlerResponseView<P, F>, request: HandlerRequest<P> },
    HandlerFailed,
    WorkerFailed,
}

impl<P, F> View for FallbackEvent<P, F> {
    type V = FallbackEventView<P, F>;

    open spec fn view(&self) -> FallbackEventView<P, F> {
        match *self {
            FallbackEvent::Request { content_length, size_hint_lower } => FallbackEventView::Request {
                content_length: match content_length {
                    Some(bytes) => Some(bytes@),
                    None => None,
                },
                size_hint_lower,
            },
            FallbackEvent::BodyRead => FallbackEventView::BodyRead,
            FallbackEvent::BodyFailed => FallbackEventView::BodyFailed,
            FallbackEvent::HandlerReturned { response, request } => FallbackEventView::HandlerReturned {
                response: response@,
                request,
            },
            FallbackEvent::HandlerFailed => FallbackEventView::HandlerFailed,
            FallbackEvent::WorkerFailed => FallbackEventView::WorkerFailed,
        }
    }
}

/// What is to be done next for the request.
#[derive(Debug, PartialEq, Eq)]
pub enum FallbackAction<P, F> {
    /// Read the whole body into memory.
    ReadBody,
    /// Run the handler on a worker thread, off the reactor.
    CallHandler,
    /// Log the reason as a warning and send the response. Nothing is reported
    /// to the error sink.
    Reject { reason: Rejection, response: WireResponse<P, F> },
    /// Send the handler's response.
    Respond { response: WireResponse<P, F> },
    /// Log and report the failure, and send the response.
    Fail { failure: Failure, response: WireResponse<P, F> },
}

/// The model of a [`FallbackAction`].
pub enum FallbackActionView<P, F> {
    ReadBody,
    CallHandler,
    Reject { reason: Rejection, response: WireResponseView<P, F> },
    Respond { response: WireResponseView<P, F> },
    Fail { failure: Failure, response: WireResponseView<P, F> },
}

impl<P, F> View for FallbackAction<P, F> {
    type V = FallbackActionView<P, F>;

    open spec fn view(&self) -> FallbackActionView<P, F> {
        match *self {
            FallbackAction::ReadBody => FallbackActionView::ReadBody,
            FallbackAction::CallHandler => FallbackActionView::CallHandler,
            FallbackAction::Reject { reason, response } => FallbackActionView::Reject {
                reason,
                response: response@,
            },
            FallbackAction::Respond { response } => FallbackActionView::Respond {
                response: response@,
            },
            FallbackAction::Fail { failure, response } => FallbackActionView::Fail {
                failure,
                response: response@,
            },
        }
    }
}

/// The next state and the action to take, for an event that the state
/// expects; `None` for any other event.
///
/// A request is checked first: one that is refused is answered at once, and
/// neither its body nor the handler is touched. Then the body is read, then
/// the handler is called. A failure at either stage is answered with the
/// generic server error.
pub open spec fn fallback_next<P, F>(
    state: FallbackState,
    event: FallbackEventView<P, F>,
) -> Option<(FallbackState, FallbackActionView<P, F>)> {
    match (state, event) {
        (
            FallbackState::Received,
            FallbackEventView::Request { content_length, size_hint_lower },
        ) => match content_length_verdict(content_length, size_hint_lower) {
            Ok(_) => Some((FallbackState::ReadingBody, FallbackActionView::ReadBody)),
            Err(reason) => Some(
                (
                    FallbackState::Finished,
                    FallbackActionView::Reject { reason, response: bad_request_view() },
                ),
            ),
        },
        (FallbackState::ReadingBody, FallbackEventView::BodyRead) => Some(
            (FallbackState::CallingHandler, FallbackActionView::CallHandler),
        ),
        (FallbackState::ReadingBody, FallbackEventView::BodyFailed) => Some(
            (
                FallbackState::Finished,
                FallbackActionView::Fail { failure: Failure::Body, response: server_error_view() },
            ),
        ),
        (
            FallbackState::CallingHandler,
            FallbackEventView::HandlerReturned { response, request },
        ) => Some(
            (
                FallbackState::Finished,
                FallbackActionView::Respond { response: wire_response_view(response, request) },
            ),
        ),
        (FallbackState::CallingHandler, FallbackEventView::HandlerFailed) => Some(
            (
                FallbackState::Finished,
                FallbackActionView::Fail {
                    failure: Failure::Handler,
                    response: server_error_view(),
                },
            ),
        ),
        (FallbackState::CallingHandler, FallbackEventView::WorkerFailed) => Some(
            (
                FallbackState::Finished,
                FallbackActionView::Fail { failure: Failure::Worker, response: server_error_view() },
            ),
        ),
        _ => None,
    }
}

/// The model of what [`fallback_to_conduit`] returns.
pub open spec fn step_view<P, F>(
    step: Option<(FallbackState, FallbackAction<P, F>)>,
) -> Option<(FallbackState, FallbackActionView<P, F>)> {
    match step {
        Some((state, action)) => Some((state, action@)),
        None => None,
    }
}

/// Decides what to do for a request in `state` when `event` has happened.
///
/// The caller does what the action says (it reads, runs the handler, sends)
/// and comes back with the next event. `None` means that `state` does not
/// expect `event`: nothing is to be done, and the state stays.
pub fn fallback_to_conduit<P, F>(
    state: FallbackState,
    event: FallbackEvent<P, F>,
) -> (step: Option<(FallbackState, FallbackAction<P, F>)>)
    ensures
        step_view(step) == fallback_next(state, event@),
{
    match (state, event) {
        (FallbackState::Received, FallbackEvent::Request { content_length, size_hint_lower }) => {
            let verdict = match &content_length {
                Some(bytes) => check_content_length(Some(bytes.as_slice()), size_hint_lower),
                None => check_content_length(None, size_hint_lower),
            };
            match verdict {
                Ok(_) => Some((FallbackState::ReadingBody, FallbackAction::ReadBody)),
                Err(reason) => Some(
                    (FallbackState::Finished, FallbackAction::Reject { reason, response: bad_request() }),
                ),
            }
        },
        (FallbackState::ReadingBody, FallbackEvent::BodyRead) => Some(
            (FallbackState::CallingHandler, FallbackAction::CallHandler),
        ),
        (FallbackState::ReadingBody, FallbackEvent::BodyFailed) => Some(
            (
                FallbackState::Finished,
                FallbackAction::Fail { failure: Failure::Body, response: server_error_response() },
            ),
        ),
        (FallbackState::CallingHandler, FallbackEvent::HandlerReturned { response, request }) => Some(
            (
                FallbackState::Finished,
                FallbackAction::Respond { response: conduit_into_axum(response, request) },
            ),
        ),
        (FallbackState::CallingHandler, FallbackEvent::HandlerFailed) => Some(
            (
                FallbackState::Finished,
                FallbackAction::Fail { failure: Failure::Handler, response: server_error_response() },
            ),
        ),
        (FallbackState::CallingHandler, FallbackEvent::WorkerFailed) => Some(
            (
                FallbackState::Finished,
                FallbackAction::Fail { failure: Failure::Worker, response: server_error_response() },
            ),
        ),
        _ => None,
    }
}

/// The actions taken, in order, when `events` happen one after another to a
/// request in `state`. An event that the state does not expect is passed over.
pub open spec fn fallback_actions<P, F>(
    state: FallbackState,
    events: Seq<FallbackEventView<P, F>>,
) -> Seq<FallbackActionView<P, F>>
    decreases events.len(),
{
    if events.len() == 0 {
        Seq::empty()
    } else {
        match fallback_next(state, events[0]) {
            Some((next, action)) => seq![action] + fallback_actions(next, events.drop_first()),
            None => fallback_actions(state, events.drop_first()),
        }
    }
}

/// Once the response is decided, no event leads to another action.
pub proof fn lemma_finished_is_final<P, F>(events: Seq<FallbackEventView<P, F>>)
    ensures
        fallback_actions(FallbackState::Finished, events) == Seq::<FallbackActionView<P, F>>::empty(),
    decreases events.len(),
{
    if events.len() > 0 {
        lemma_finished_is_final(events.drop_first());
    }
}

/// A request whose `Content-Length` header writes a number above the maximum
/// is answered with status 400, and nothing else is ever done for it: its
/// body is not read and the handler is not called, whatever happens later.
pub proof fn lemma_oversized_request_is_rejected<P, F>(
    header: Seq<u8>,
    length: u64,
    size_hint_lower: u64,
    later: Seq<FallbackEventView<P, F>>,
)
    requires
        header_text(header) is Some,
        spec_parse_u64(header_text(header)->0) == Some(length),
        length > MAX_CONTENT_LENGTH,
    ensures
        bad_request_view::<P, F>().status == 400,
        fallback_actions(
            FallbackState::Received,
            seq![
                FallbackEventView::Request { content_length: Some(header), size_hint_lower },
            ] + later,
        ) == seq![
            FallbackActionView::Reject {
                reason: Rejection::TooLarge,
                response: bad_request_view::<P, F>(),
            },
        ],
{
    let first = FallbackEventView::<P, F>::Request { content_length: Some(header), size_hint_lower };
    let events = seq![first] + later;
    assert(events[0] == first);
    assert(events.drop_first() =~= later);
    lemma_finished_is_final(later);
}

/// A request whose `Content-Length` header is not visible ASCII, or is not
/// the text of a `u64`, is answered with status 400, and nothing else is ever
/// done for it.
pub proof fn lemma_malformed_request_is_rejected<P, F>(
    header: Seq<u8>,
    size_hint_lower: u64,
    later: Seq<FallbackEventView<P, F>>,
)
    requires
        header_text(header) is None || spec_parse_u64(header_text(header)->0) is None,
    ensures
        bad_request_view::<P, F>().status == 400,
        fallback_actions(
            FallbackState::Received,
            seq![
                FallbackEventView::Request { content_length: Some(header), size_hint_lower },
            ] + later,
        ) == seq![
            FallbackActionView::Reject {
                reason: if header_text(header) is None {
                    Rejection::NotAscii
                } else {
                    Rejection::NotU64
                },
                response: bad_request_view::<P, F>(),
            },
        ],
{
    let first = FallbackEventView::<P, F>::Request { content_length: Some(header), size_hint_lower };
    let events = seq![first] + later;
    assert(events[0] == first);
    assert(events.drop_first() =~= later);
    lemma_finished_is_final(later);
}

/// Whether `actions` come in the order of the route: reading the body can
/// only be the first action, calling the handler only the second, right after
/// the body was read, and an answer only the last.
pub open spec fn in_order<P, F>(actions: Seq<FallbackActionView<P, F>>) -> bool {
    forall|i: int|
        0 <= i < actions.len() ==> match #[trigger] actions[i] {
            FallbackActionView::ReadBody => i == 0,
            FallbackActionView::CallHandler => i == 1 && actions[0] is ReadBody,
            _ => i == actions.len() - 1,
        }
}

/// While the handler runs, all that can still be done is to answer, once.
proof fn lemma_actions_while_calling<P, F>(events: Seq<FallbackEventView<P, F>>)
    ensures
        fallback_actions(FallbackState::CallingHandler, events).len() <= 1,
        fallback_actions(FallbackState::CallingHandler, events).len() == 1 ==> {
            let action = fallback_actions(FallbackState::CallingHandler, events)[0];
            action is Respond || action is Fail
        },
    decreases events.len(),
{
    if events.len() > 0 {
        lemma_actions_while_calling(events.drop_first());
        lemma_finished_is_final(events.drop_first());
    }
}

/// While the body is read, what can still be done is to call the handler and
/// then answer, or to answer at once.
proof fn lemma_actions_while_reading<P, F>(events: Seq<FallbackEventView<P, F>>)
    ensures
        ({
            let actions = fallback_actions(FallbackState::ReadingBody, events);
            &&& actions.len() <= 2
            &&& actions.len() >= 1 ==> actions[0] is CallHandler || (actions[0] is Fail
                && actions.len() == 1)
            &&& actions.len() == 2 ==> actions[0] is CallHandler && (actions[1] is Respond
                || actions[1] is Fail)
        }),
    decreases events.len(),
{
    if events.len() > 0 {
        lemma_actions_while_reading(events.drop_first());
        lemma_actions_while_calling(events.drop_first());
        lemma_finished_is_final(events.drop_first());
    }
}

/// Whatever happens to a request, and in whatever order it is reported, the
/// actions taken for it are in order: the declared size is judged before the
/// body is read, the body is read before the handler is called, and after an
/// answer nothing more is done.
pub proof fn lemma_actions_in_order<P, F>(events: Seq<FallbackEventView<P, F>>)
    ensures
        in_order(fallback_actions(FallbackState::Received, events)),
        fallback_actions(FallbackState::Received, events).len() <= 3,
    decreases events.len(),
{
    if events.len() > 0 {
        lemma_actions_in_order(events.drop_first());
        lemma_actions_while_reading(events.drop_first());
        lemma_finished_is_final(events.drop_first());
    }
}

} // verus!
