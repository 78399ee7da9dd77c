//! The request gateway: everything that is decided about one HTTP call.
//!
//! A call is described by an [`ApiRequest`]. [`prepare`] validates it and
//! fixes what goes on the wire: the method, the Basic authorization header and
//! the transport policy. Whoever performs the call hands the outcome back as
//! plain values, and [`is_success`], [`http_failure`] and
//! [`classify_transport`] say what it means.
//!
//! [`step`] strings these decisions together: it takes the phase of a call and
//! the event that occurred and returns the next phase and what to do. A call is
//! attempted once; nothing here retries.

use vstd::prelude::*;
use vstd::utf8::encode_utf8;
use crate::error::{
    ApiError,
    ApiErrorView,
    HttpError,
    HttpErrorView,
    NetworkError,
    NetworkErrorView,
    ValidationError,
};
use crate::payload::{MemberView, Payload};
use crate::text::{chars_of, contains, contains_text, same_text, text_of};

verus! {

/// The request methods the gateway issues.
#[derive(Debug, Clone, Copy, PartialEq, Eq)]
pub enum Method {
    Get,
    Post,
    Patch,
    Put,
}

/// The method that a request type names. The four names are matched exactly,
/// in upper case; every other text names no method.
pub open spec fn method_named(name: Seq<char>) -> Option<Method> {
    if name == "GET"@ {
        Some(Method::Get)
    } else if name == "POST"@ {
        Some(Method::Post)
    } else if name == "PATCH"@ {
        Some(Method::Patch)
    } else if name == "PUT"@ {
        Some(Method::Put)
    } else {
        None
    }
}

/// Each of the four names is the name of its own method and of no other.
pub proof fn lemma_method_names()
    ensures
        method_named("GET"@) == Some(Method::Get),
        method_named("POST"@) == Some(Method::Post),
        method_named("PATCH"@) == Some(Method::Patch),
        method_named("PUT"@) == Some(Method::Put),
{
    reveal_strlit("GET");
    reveal_strlit("POST");
    reveal_strlit("PATCH");
    reveal_strlit("PUT");
    assert("GET"@.len() == 3 && "POST"@.len() == 4 && "PATCH"@.len() == 5 && "PUT"@.len() == 3);
    assert("GET"@[0] == 'G' && "PUT"@[0] == 'P');
}

/// Validates a request type.
pub fn parse_method(request_type: &str) -> (parsed: Result<Method, ApiError>)
    ensures
        match method_named(request_type@) {
            Some(method) => parsed == Ok::<Method, ApiError>(method),
            None => parsed matches Err(e) && e@ == ApiErrorView::Validation(
                ValidationError::InvalidMethod,
            ),
        },
{
    if same_text(request_type, "GET") {
        Ok(Method::Get)
    } else if same_text(request_type, "POST") {
        Ok(Method::Post)
    } else if same_text(request_type, "PATCH") {
        Ok(Method::Patch)
    } else if same_text(request_type, "PUT") {
        Ok(Method::Put)
    } else {
        Err(ApiError::Validation(ValidationError::InvalidMethod))
    }
}

/// One extra request header.
#[derive(Debug, Clone, PartialEq, Eq)]
pub struct Header {
    pub name: String,
    pub value: String,
}

/// Mathematical value of a [`Header`].
pub struct HeaderView {
    pub name: Seq<char>,
    pub value: Seq<char>,
}

impl View for Header {
    type V = HeaderView;

    open spec fn view(&self) -> HeaderView {
        HeaderView { name: self.name@, value: self.value@ }
    }
}

impl DeepView for Header {
    type V = HeaderView;

    open spec fn deep_view(&self) -> HeaderView {
        self@
    }
}

/// One call as its caller asks for it.
#[derive(Debug, Clone, PartialEq, Eq)]
pub struct ApiRequest {
    pub request_type: String,
    pub url: String,
    pub payload: Option<Payload>,
    pub headers: Vec<Header>,
    pub timeout_seconds: Option<u64>,
    pub api_key: Option<String>,
    pub api_secret: Option<String>,
}

/// Mathematical value of an [`ApiRequest`].
pub struct ApiRequestView {
    pub request_type: Seq<char>,
    pub url: Seq<char>,
    pub payload: Option<Seq<MemberView>>,
    pub headers: Seq<HeaderView>,
    pub timeout_seconds: Option<u64>,
    pub api_key: Option<Seq<char>>,
    pub api_secret: Option<Seq<char>>,
}

impl View for ApiRequest {
    type V = ApiRequestView;

    open spec fn view(&self) -> ApiRequestView {
        ApiRequestView {
            request_type: self.request_type@,
            url: self.url@,
            payload: self.payload.deep_view(),
            headers: self.headers.deep_view(),
            timeout_seconds: self.timeout_seconds,
            api_key: self.api_key.deep_view(),
            api_secret: self.api_secret.deep_view(),
        }
    }
}

/// One call as it goes on the wire.
#[derive(Debug, Clone, PartialEq, Eq)]
pub struct PreparedRequest {
    pub method: Method,
    pub url: String,
    /// The value of the `Authorization` header, if credentials were given.
    pub authorization: Option<String>,
    /// What may be logged about the `Authorization` header.
    pub authorization_preview: Option<String>,
    /// Extra headers, applied after the authorization header.
    pub headers: Vec<Header>,
    pub payload: Option<Payload>,
    /// Deadline for the whole request and response, if any.
    pub timeout_seconds: Option<u64>,
    /// Appliances commonly present self-signed certificates, so certificate
    /// validation is switched off on purpose: always `true`.
    pub accept_invalid_certs: bool,
}

/// Mathematical value of a [`PreparedRequest`].
pub struct PreparedRequestView {
    pub method: Method,
    pub url: Seq<char>,
    pub authorization: Option<Seq<char>>,
    pub authorization_preview: Option<Seq<char>>,
    pub headers: Seq<HeaderView>,
    pub payload: Option<Seq<MemberView>>,
    pub timeout_seconds: Option<u64>,
    pub accept_invalid_certs: bool,
}

impl View for PreparedRequest {
    type V = PreparedRequestView;

    open spec fn view(&self) -> PreparedRequestView {
        PreparedRequestView {
            method: self.method,
            url: self.url@,
            authorization: self.authorization.deep_view(),
            authorization_preview: self.authorization_preview.deep_view(),
            headers: self.headers.deep_view(),
            payload: self.payload.deep_view(),
            timeout_seconds: self.timeout_seconds,
            accept_invalid_certs: self.accept_invalid_certs,
        }
    }
}

/// The standard base64 encoding of `input`, with padding, as the `base64`
/// crate's `STANDARD` engine produces it.
pub uninterp spec fn base64_standard(input: Seq<u8>) -> Seq<char>;

/// Trusted: `base64::Engine::encode` on `general_purpose::STANDARD` returns
/// the standard padded base64 text of its input and depends on nothing else.
/// It panics only if the encoded length overflows `usize`, which no slice can
/// cause: a slice holds at most `isize::MAX` bytes.
#[verifier::external_body]
fn base64_encode(input: &[u8]) -> (encoded: String)
    ensures
        encoded@ == base64_standard(input@),
{
    base64::Engine::encode(&base64::engine::general_purpose::STANDARD, input)
}

/// The credential of HTTP Basic authentication: the base64 text of the UTF-8
/// bytes of `key`, a colon, and `secret`.
pub open spec fn credential_text(key: Seq<char>, secret: Seq<char>) -> Seq<char> {
    base64_standard(encode_utf8(key + seq![':'] + secret))
}

/// The encoded credential for `key` and `secret`.
pub fn encode_credential(key: &str, secret: &str) -> (encoded: String)
    ensures
        encoded@ == credential_text(key@, secret@),
{
    let mut pair = String::from_str(key);
    pair.push(':');
    pair.append(secret);
    assert(pair@ =~= key@ + seq![':'] + secret@);
    base64_encode(pair.as_str().as_bytes())
}

/// What may be shown of an encoded credential: its first six and its last
/// four characters with `...` between them. A credential shorter than that
/// shows as many as it has on either side.
pub open spec fn preview_text(encoded: Seq<char>) -> Seq<char> {
    let head = if encoded.len() < 6 {
        encoded.len() as int
    } else {
        6
    };
    let tail = if encoded.len() < 4 {
        0
    } else {
        encoded.len() - 4
    };
    encoded.take(head) + "..."@ + encoded.skip(tail)
}

/// The preview of a credential of ten characters or more shows nothing of
/// what lies between its first six and its last four characters: two
/// credentials that agree on those have the same preview.
pub proof fn lemma_preview_hides_middle(a: Seq<char>, b: Seq<char>)
    requires
        a.len() >= 10,
        b.len() >= 10,
        a.take(6) == b.take(6),
        a.skip(a.len() - 4) == b.skip(b.len() - 4),
    ensures
        preview_text(a) == preview_text(b),
{
}

/// The loggable preview of an encoded credential.
pub fn credential_preview(encoded: &str) -> (preview: String)
    ensures
        preview@ == preview_text(encoded@),
{
    let chars = chars_of(encoded);
    let head: usize = if chars.len() < 6 {
        chars.len()
    } else {
        6
    };
    let tail: usize = if chars.len() < 4 {
        0
    } else {
        chars.len() - 4
    };
    let mut preview = text_of(&chars, 0, head);
    preview.append("...");
    let end = text_of(&chars, tail, chars.len());
    preview.append(end.as_str());
    preview
}

/// The `Authorization` header for the given credentials: present exactly when
/// both key and secret are given.
pub open spec fn authorization_text(
    key: Option<Seq<char>>,
    secret: Option<Seq<char>>,
) -> Option<Seq<char>> {
    match (key, secret) {
        (Some(k), Some(s)) => Some("Basic "@ + credential_text(k, s)),
        _ => None,
    }
}

/// What may be logged about the `Authorization` header: the scheme and the
/// preview of the credential, never the credential itself.
pub open spec fn authorization_preview_text(
    key: Option<Seq<char>>,
    secret: Option<Seq<char>>,
) -> Option<Seq<char>> {
    match (key, secret) {
        (Some(k), Some(s)) => Some("Basic "@ + preview_text(credential_text(k, s))),
        _ => None,
    }
}

/// The request that goes on the wire for `request`, if its request type is
/// valid.
pub open spec fn prepared(request: ApiRequestView) -> Option<PreparedRequestView> {
    match method_named(request.request_type) {
        Some(method) => Some(
            PreparedRequestView {
                method,
                url: request.url,
                authorization: authorization_text(request.api_key, request.api_secret),
                authorization_preview: authorization_preview_text(
                    request.api_key,
                    request.api_secret,
                ),
                headers: request.headers,
                payload: request.payload,
                timeout_seconds: request.timeout_seconds,
                accept_invalid_certs: true,
            },
        ),
        None => None,
    }
}

/// Validates `request` and fixes what is sent for it.
///
/// A request type other than `GET`, `POST`, `PATCH` or `PUT` is refused with
/// `InvalidMethod`, and then there is nothing to send. Otherwise the prepared
/// request carries URL, payload, extra headers and timeout unchanged, Basic
/// authorization when both key and secret are given, and the instruction to
/// accept any certificate.
pub fn prepare(request: ApiRequest) -> (outcome: Result<PreparedRequest, ApiError>)
    ensures
        match prepared(request@) {
            Some(wire) => outcome matches Ok(p) && p@ == wire,
            None => outcome matches Err(e) && e@ == ApiErrorView::Validation(
                ValidationError::InvalidMethod,
            ),
        },
{
    let method = match parse_method(request.request_type.as_str()) {
        Ok(method) => method,
        Err(e) => {
            return Err(e);
        },
    };
    let mut authorization: Option<String> = None;
    let mut authorization_preview: Option<String> = None;
    match (&request.api_key, &request.api_secret) {
        (Some(key), Some(secret)) => {
            let encoded = encode_credential(key.as_str(), secret.as_str());
            let mut header = String::from_str("Basic ");
            header.append(encoded.as_str());
            let mut shown = String::from_str("Basic ");
            let preview = credential_preview(encoded.as_str());
            shown.append(preview.as_str());
            authorization = Some(header);
            authorization_preview = Some(shown);
        },
        _ => {},
    }
    Ok(
        PreparedRequest {
            method,
            url: request.url,
            authorization,
            authorization_preview,
            headers: request.headers,
            payload: request.payload,
            timeout_seconds: request.timeout_seconds,
            accept_invalid_certs: true,
        },
    )
}

/// A response counts as delivered exactly for the status codes 200 to 299.
pub open spec fn is_success_status(status: u16) -> bool {
    200 <= status <= 299
}

/// Whether a response with this status is handed to the caller as it is, its
/// body unread.
pub fn is_success(status: u16) -> (delivered: bool)
    ensures
        delivered == is_success_status(status),
{
    200 <= status && status <= 299
}

/// The failure that a response with `status` and `body` stands for.
pub open spec fn http_error_of(status: u16, body: Seq<char>) -> HttpErrorView {
    if status == 401 {
        HttpErrorView::Unauthorized
    } else if status == 403 {
        HttpErrorView::Forbidden
    } else if status == 404 {
        HttpErrorView::NotFound
    } else {
        HttpErrorView::Other { status, body }
    }
}

/// Classifies a response that was not delivered. `body` is the response
/// body, or `None` where it could not be read, which counts as an empty body.
pub fn http_failure(status: u16, body: Option<String>) -> (error: ApiError)
    ensures
        error@ == ApiErrorView::Http(
            http_error_of(
                status,
                match body {
                    Some(text) => text@,
                    None => Seq::empty(),
                },
            ),
        ),
{
    if status == 401 {
        ApiError::Http(HttpError::Unauthorized)
    } else if status == 403 {
        ApiError::Http(HttpError::Forbidden)
    } else if status == 404 {
        ApiError::Http(HttpError::NotFound)
    } else {
        let body = match body {
            Some(text) => text,
            None => String::new(),
        };
        ApiError::Http(HttpError::Other { status, body })
    }
}

/// What the transport reports of a request that got no response.
#[derive(Debug, Clone, PartialEq, Eq)]
pub struct TransportFailure {
    /// The deadline passed.
    pub timed_out: bool,
    /// The connection could not be established.
    pub connect_failed: bool,
    /// The transport's own description of the failure.
    pub description: String,
}

/// Mathematical value of a [`TransportFailure`].
pub struct TransportFailureView {
    pub timed_out: bool,
    pub connect_failed: bool,
    pub description: Seq<char>,
}

impl View for TransportFailure {
    type V = TransportFailureView;

    open spec fn view(&self) -> TransportFailureView {
        TransportFailureView {
            timed_out: self.timed_out,
            connect_failed: self.connect_failed,
            description: self.description@,
        }
    }
}

/// The kind of a transport failure. The probes are tried in this order:
/// deadline, connection, then the description for a name-resolution failure
/// (`dns error`) and for a certificate failure (`certificate`, `SSL`, `TLS`).
/// Whatever matches none of them keeps its description as detail.
pub open spec fn network_error_of(
    timed_out: bool,
    connect_failed: bool,
    description: Seq<char>,
) -> NetworkErrorView {
    if timed_out {
        NetworkErrorView::Timeout
    } else if connect_failed {
        NetworkErrorView::ConnectionRefused
    } else if contains_text(description, "dns error"@) {
        NetworkErrorView::DnsFailure
    } else if contains_text(description, "certificate"@) || contains_text(description, "SSL"@)
        || contains_text(description, "TLS"@) {
        NetworkErrorView::TlsFailure
    } else {
        NetworkErrorView::Other { detail: description }
    }
}

/// Classifies a request that got no response.
pub fn classify_transport(failure: &TransportFailure) -> (error: ApiError)
    ensures
        error@ == ApiErrorView::Network(
            network_error_of(failure.timed_out, failure.connect_failed, failure.description@),
        ),
{
    let description = failure.description.as_str();
    if failure.timed_out {
        ApiError::Network(NetworkError::Timeout)
    } else if failure.connect_failed {
        ApiError::Network(NetworkError::ConnectionRefused)
    } else if contains(description, "dns error") {
        ApiError::Network(NetworkError::DnsFailure)
    } else if contains(description, "certificate") || contains(description, "SSL") || contains(
        description,
        "TLS",
    ) {
        ApiError::Network(NetworkError::TlsFailure)
    } else {
        ApiError::Network(NetworkError::Other { detail: failure.description.clone() })
    }
}

/// Where one call stands.
#[derive(Debug, Clone, Copy, PartialEq, Eq)]
pub enum Phase {
    /// Nothing was sent yet.
    Ready,
    /// The request is on the wire.
    Sent,
    /// A response with this status arrived and is not delivered; its body is
    /// being read for the failure report.
    Refused { status: u16 },
    /// The call is over.
    Done,
}

/// What happens to a call.
#[derive(Debug, Clone, PartialEq, Eq)]
pub enum Event {
    /// The caller asks for the call.
    Request(ApiRequest),
    /// The head of a response arrived.
    Response { status: u16 },
    /// The body of a refused response was read, or could not be read.
    Body { text: Option<String> },
    /// The transport gave up without a response.
    Failure(TransportFailure),
}

/// Mathematical value of an [`Event`].
pub enum EventView {
    Request(ApiRequestView),
    Response { status: u16 },
    Body { text: Option<Seq<char>> },
    Failure(TransportFailureView),
}

impl View for Event {
    type V = EventView;

    open spec fn view(&self) -> EventView {
        match self {
            Event::Request(request) => EventView::Request(request@),
            Event::Response { status } => EventView::Response { status: *status },
            Event::Body { text } => EventView::Body { text: text.deep_view() },
            Event::Failure(failure) => EventView::Failure(failure@),
        }
    }
}

/// What whoever performs the call does next.
#[derive(Debug, Clone, PartialEq, Eq)]
pub enum Action {
    /// Put this request on the wire, then report the response head or the
    /// transport failure.
    Send(PreparedRequest),
    /// Hand the response to the caller, body unread.
    Deliver,
    /// Read the response body, then report it.
    ReadBody,
    /// Hand this failure to the caller.
    Fail(ApiError),
}

/// Mathematical value of an [`Action`].
pub enum ActionView {
    Send(PreparedRequestView),
    Deliver,
    ReadBody,
    Fail(ApiErrorView),
}

impl View for Action {
    type V = ActionView;

    open spec fn view(&self) -> ActionView {
        match self {
            Action::Send(wire) => ActionView::Send(wire@),
            Action::Deliver => ActionView::Deliver,
            Action::ReadBody => ActionView::ReadBody,
            Action::Fail(error) => ActionView::Fail(error@),
        }
    }
}

/// The course of one call: the phase that follows `phase` on `event`, and
/// what to do. An event that does not belong to the phase has no successor.
///
/// * A request is validated; a valid one is sent, an invalid one fails at
///   once and nothing is sent.
/// * A response with a status from 200 to 299 is delivered; for any other
///   the body is read first and the failure follows from status and body.
/// * A transport failure ends the call with the failure it stands for.
pub open spec fn next_step(phase: Phase, event: EventView) -> Option<(Phase, ActionView)> {
    match (phase, event) {
        (Phase::Ready, EventView::Request(request)) => match prepared(request) {
            Some(wire) => Some((Phase::Sent, ActionView::Send(wire))),
            None => Some(
                (
                    Phase::Done,
                    ActionView::Fail(ApiErrorView::Validation(ValidationError::InvalidMethod)),
                ),
            ),
        },
        (Phase::Sent, EventView::Response { status }) => if is_success_status(status) {
            Some((Phase::Done, ActionView::Deliver))
        } else {
            Some((Phase::Refused { status }, ActionView::ReadBody))
        },
        (Phase::Sent, EventView::Failure(failure)) => Some(
            (
                Phase::Done,
                ActionView::Fail(
                    ApiErrorView::Network(
                        network_error_of(
                            failure.timed_out,
                            failure.connect_failed,
                            failure.description,
                        ),
                    ),
                ),
            ),
        ),
        (Phase::Refused { status }, EventView::Body { text }) => Some(
            (
                Phase::Done,
                ActionView::Fail(
                    ApiErrorView::Http(
                        http_error_of(
                            status,
                            match text {
                                Some(body) => body,
                                None => Seq::empty(),
                            },
                        ),
                    ),
                ),
            ),
        ),
        _ => None,
    }
}

/// Advances one call by one event: see [`next_step`].
pub fn step(phase: Phase, event: Event) -> (outcome: Option<(Phase, Action)>)
    ensures
        match next_step(phase, event@) {
            Some((next, action)) => outcome matches Some((n, a)) && n == next && a@ == action,
            None => outcome is None,
        },
{
    match phase {
        Phase::Ready => match event {
            Event::Request(request) => match prepare(request) {
                Ok(wire) => Some((Phase::Sent, Action::Send(wire))),
                Err(error) => Some((Phase::Done, Action::Fail(error))),
            },
            _ => None,
        },
        Phase::Sent => match event {
            Event::Response { status } => if is_success(status) {
                Some((Phase::Done, Action::Deliver))
            } else {
                Some((Phase::Refused { status }, Action::ReadBody))
            },
            Event::Failure(failure) => Some(
                (Phase::Done, Action::Fail(classify_transport(&failure))),
            ),
            _ => None,
        },
        Phase::Refused { status } => match event {
            Event::Body { text } => Some((Phase::Done, Action::Fail(http_failure(status, text)))),
            _ => None,
        },
        Phase::Done => None,
    }
}

/// The actions that a sequence of events leads to, starting in `phase`.
/// Events that do not belong to the phase they meet are passed over.
pub open spec fn actions_of(phase: Phase, events: Seq<EventView>) -> Seq<ActionView>
    decreases events.len(),
{
    if events.len() == 0 {
        Seq::empty()
    } else {
        match next_step(phase, events[0]) {
            Some((next, action)) => seq![action] + actions_of(next, events.skip(1)),
            None => actions_of(phase, events.skip(1)),
        }
    }
}

/// How many of `actions` put a request on the wire.
pub open spec fn attempts(actions: Seq<ActionView>) -> nat
    decreases actions.len(),
{
    if actions.len() == 0 {
        0
    } else {
        let rest = attempts(actions.skip(1));
        if actions[0] is Send {
            rest + 1
        } else {
            rest
        }
    }
}

/// A call is attempted at most once, whatever happens to it: nothing is ever
/// sent a second time, and once the request is out nothing more is sent.
pub proof fn lemma_attempted_once(phase: Phase, events: Seq<EventView>)
    ensures
        attempts(actions_of(phase, events)) <= 1,
        phase != Phase::Ready ==> attempts(actions_of(phase, events)) == 0,
    decreases events.len(),
{
    if events.len() > 0 {
        let rest = events.skip(1);
        match next_step(phase, events[0]) {
            Some((next, action)) => {
                lemma_attempted_once(next, rest);
                assert((seq![action] + actions_of(next, rest)).skip(1) =~= actions_of(next, rest));
            },
            None => {
                lemma_attempted_once(phase, rest);
            },
        }
    }
}

/// A request whose type names no method is never sent: the call fails on
/// the spot and is over.
pub proof fn lemma_invalid_method_sends_nothing(request: ApiRequestView, later: Seq<EventView>)
    requires
        method_named(request.request_type) is None,
    ensures
        actions_of(Phase::Ready, seq![EventView::Request(request)] + later) == seq![
            ActionView::Fail(ApiErrorView::Validation(ValidationError::InvalidMethod)),
        ],
{
    let events = seq![EventView::Request(request)] + later;
    assert(events.skip(1) =~= later);
    lemma_done_is_final(later);
    assert(actions_of(Phase::Ready, events) =~= seq![
        ActionView::Fail(ApiErrorView::Validation(ValidationError::InvalidMethod)),
    ]);
}

/// Once a call is over, no event leads to any further action.
pub proof fn lemma_done_is_final(events: Seq<EventView>)
    ensures
        actions_of(Phase::Done, events) == Seq::<ActionView>::empty(),
    decreases events.len(),
{
    if events.len() > 0 {
        lemma_done_is_final(events.skip(1));
    }
}

} // verus!
