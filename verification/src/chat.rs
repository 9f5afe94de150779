//! The chat mapper: requests to the Responses API are answered by an upstream
//! that speaks the Chat Completions API.

use vstd::prelude::*;
use vstd::string::*;
use vstd::utf8::*;

use crate::error_body::{BodyView, ErrorBody};
use crate::failure_event;
use crate::headers;
use crate::json;
use crate::json::Json;
use crate::text;
use crate::upstream_error;

verus! {

/// What the mapper reads of a provider.
pub struct Provider {
    pub id: String,
    pub name: String,
    pub base_url: String,
}

/// Why a request cannot be mapped.
pub enum AdapterError {
    BadRequest(String),
    Internal(String),
}

/// A request as it goes to the upstream, and what its answer will need. `S` is
/// the session that the answer belongs to.
pub struct RequestPlan<S> {
    pub upstream_path: String,
    pub body: Vec<u8>,
    pub upstream_headers: http::HeaderMap,
    pub response_session: Option<S>,
    pub adapter_metadata: Option<serde_json::Value>,
    pub is_compact: bool,
    pub original_responses_request: Option<serde_json::Value>,
}

/// A Responses request converted to a Chat Completions request.
pub struct Conversion<S> {
    pub body: serde_json::Value,
    pub history_lost: bool,
    pub response_session: S,
}

/// How the body of the answer is made of `U`, the body with which the upstream
/// answered.
pub enum ResponseBody<'a, S, U> {
    /// The upstream's answer, wrapped as a compact response.
    Compact { upstream: U },
    /// The events that report the failure of a request, read from the upstream's
    /// error body.
    Failure { upstream_status: u16, upstream: U, request: Option<&'a serde_json::Value> },
    /// The upstream's events, converted for a request and its session.
    Converted {
        upstream: U,
        session: Option<&'a S>,
        think_tag_split: bool,
        request: Option<&'a serde_json::Value>,
    },
}

/// The answer to the client.
pub struct ResponsePlan<'a, S, U> {
    pub status: u16,
    pub headers: http::HeaderMap,
    pub body: ResponseBody<'a, S, U>,
}

/// The upstream sent more headers than a header map can hold with those that the
/// answer adds.
pub struct HeadersFull;

/// What an optional value holds.
pub open spec fn held(value: Option<serde_json::Value>) -> Option<Json> {
    match value {
        Some(v) => Some(json::json_of(v)),
        None => None,
    }
}

/// An optional value, lent.
pub open spec fn lent<T>(value: &Option<T>) -> Option<&T> {
    match value {
        Some(v) => Some(v),
        None => None,
    }
}

/// Whether one of the texts by which a provider is known is that of MiniMax.
pub open spec fn is_minimax(value: Seq<char>) -> bool {
    text::has_part(text::lower(value), "minimax"@)
}

/// Whether the content of the provider's answers can hold its thoughts in
/// `<think>` tags, which are then split off. Of the known ones only MiniMax does
/// so, through the endpoint that is compatible with OpenAI's.
pub fn provider_needs_think_tag_split(provider: &Provider) -> (needed: bool)
    ensures
        needed == (is_minimax(provider.id@) || is_minimax(provider.name@) || is_minimax(
            provider.base_url@,
        )),
        needed <==> text::has_part(text::lower(provider.id@), "minimax"@) || text::has_part(
            text::lower(provider.name@),
            "minimax"@,
        ) || text::has_part(text::lower(provider.base_url@), "minimax"@),
{
    names_minimax(provider.id.as_str()) || names_minimax(provider.name.as_str()) || names_minimax(
        provider.base_url.as_str(),
    )
}

fn names_minimax(value: &str) -> (named: bool)
    ensures
        named == is_minimax(value@),
{
    let lower = value.to_ascii_lowercase();
    text::contains(lower.as_str(), "minimax")
}

/// Whether `plan` is the request for a compact response with this body.
pub open spec fn is_compact_plan<S>(plan: RequestPlan<S>, body: Seq<u8>) -> bool {
    &&& plan.upstream_path@ == "/chat/completions"@
    &&& plan.body@ == body
    &&& headers::header_values(plan.upstream_headers) == headers::no_values()
    &&& plan.response_session is None
    &&& plan.adapter_metadata is None
    &&& plan.is_compact
    &&& plan.original_responses_request is None
}

/// What is noted of a request for its answer: that its history was lost.
pub open spec fn metadata_for(history_lost: bool) -> Option<Json> {
    if history_lost {
        Some(Json::Object(json::no_entries().insert("history_lost"@, Json::Bool(true))))
    } else {
        None
    }
}

/// Whether `plan` is the request that `conversion` makes of `request`.
pub open spec fn is_chat_plan<S>(
    plan: RequestPlan<S>,
    upstream_path: Seq<char>,
    request: Json,
    conversion: Conversion<S>,
) -> bool {
    &&& plan.upstream_path@ == upstream_path
    &&& plan.body@ == encode_utf8(json::json_text(json::json_of(conversion.body)))
    &&& headers::header_values(plan.upstream_headers) == headers::no_values()
    &&& plan.response_session == Some(conversion.response_session)
    &&& held(plan.adapter_metadata) == metadata_for(conversion.history_lost)
    &&& !plan.is_compact
    &&& held(plan.original_responses_request) == Some(request)
}

/// The request for a compact response.
pub fn compact_plan<S>(new_body: Vec<u8>) -> (plan: RequestPlan<S>)
    ensures
        is_compact_plan(plan, new_body@),
{
    RequestPlan {
        upstream_path: "/chat/completions".to_owned(),
        body: new_body,
        upstream_headers: headers::no_headers(),
        response_session: None,
        adapter_metadata: None,
        is_compact: true,
        original_responses_request: None,
    }
}

/// The request that a conversion makes of a request that was parsed.
pub fn chat_plan<S>(
    upstream_path: String,
    parsed: serde_json::Value,
    conversion: Conversion<S>,
) -> (plan: Result<RequestPlan<S>, AdapterError>)
    ensures
        plan is Ok,
        is_chat_plan(plan->Ok_0, upstream_path@, json::json_of(parsed), conversion),
{
    let new_body = match json::to_bytes(&conversion.body) {
        Ok(bytes) => bytes,
        Err(e) => {
            let mut message = "re-serialize: ".to_owned();
            message.append(e.as_str());
            return Err(AdapterError::Internal(message));
        },
    };
    let adapter_metadata = if conversion.history_lost {
        let mut metadata = json::empty_object();
        json::set(&mut metadata, "history_lost", json::from_bool(true));
        Some(metadata)
    } else {
        None
    };
    Ok(
        RequestPlan {
            upstream_path,
            body: new_body,
            upstream_headers: headers::no_headers(),
            response_session: Some(conversion.response_session),
            adapter_metadata,
            is_compact: false,
            original_responses_request: Some(parsed),
        },
    )
}

/// Maps a request to the Responses API to one to the upstream.
///
/// A request for a compact response is wrapped by `build_compact`. Any other one
/// goes where `redirect` says, as `convert` has converted it.
pub fn prepare_responses_request<P, S, IsCompact, BuildCompact, Redirect, Convert>(
    client_path: &str,
    body: &[u8],
    provider: &P,
    is_compact_path: IsCompact,
    build_compact: BuildCompact,
    redirect: Redirect,
    convert: Convert,
) -> (plan: Result<RequestPlan<S>, AdapterError>) where
    IsCompact: Fn(&str) -> bool,
    BuildCompact: Fn(&[u8], &P) -> Result<Vec<u8>, AdapterError>,
    Redirect: Fn(&str) -> String,
    Convert: Fn(&serde_json::Value, &P) -> Result<Conversion<S>, AdapterError>,

    requires
        is_compact_path.requires((client_path,)),
        build_compact.requires((body, provider)),
        redirect.requires((client_path,)),
        forall|request: &serde_json::Value| convert.requires((request, provider)),
    ensures
        exists|compact: bool|
            {
                &&& is_compact_path.ensures((client_path,), compact)
                &&& if compact {
                    exists|built: Result<Vec<u8>, AdapterError>|
                        {
                            &&& build_compact.ensures((body, provider), built)
                            &&& match built {
                                Ok(new_body) => plan is Ok && is_compact_plan(
                                    plan->Ok_0,
                                    new_body@,
                                ),
                                Err(e) => plan == Err::<RequestPlan<S>, AdapterError>(e),
                            }
                        }
                } else {
                    match json::json_parsed_bytes(body@) {
                        Err(e) => plan matches Err(AdapterError::BadRequest(message)) && message@
                            == "body 不是合法 JSON: "@ + e,
                        Ok(request) => exists|
                            upstream_path: String,
                            parsed: &serde_json::Value,
                            converted: Result<Conversion<S>, AdapterError>,
                        |
                            {
                                &&& redirect.ensures((client_path,), upstream_path)
                                &&& json::json_of(*parsed) == request
                                &&& convert.ensures((parsed, provider), converted)
                                &&& match converted {
                                    Ok(conversion) => plan is Ok && is_chat_plan(
                                        plan->Ok_0,
                                        upstream_path@,
                                        request,
                                        conversion,
                                    ),
                                    Err(e) => plan == Err::<RequestPlan<S>, AdapterError>(e),
                                }
                            },
                    }
                }
            },
{
    if is_compact_path(client_path) {
        return match build_compact(body, provider) {
            Ok(new_body) => Ok(compact_plan(new_body)),
            Err(e) => Err(e),
        };
    }
    let upstream_path = redirect(client_path);
    let parsed = match json::parse_bytes(body) {
        Ok(value) => value,
        Err(e) => {
            let mut message = "body 不是合法 JSON: ".to_owned();
            message.append(e.as_str());
            return Err(AdapterError::BadRequest(message));
        },
    };
    match convert(&parsed, provider) {
        Ok(conversion) => chat_plan(upstream_path, parsed, conversion),
        Err(e) => Err(e),
    }
}

/// Whether the metadata of a request says that its history was lost.
pub open spec fn says_history_lost(metadata: Option<Json>) -> bool {
    json::bool_of(json::field_of(metadata, "history_lost"@)) == Some(true)
}

/// The headers of an answer, from those of the upstream: the body is a stream of
/// events of unknown length, not encoded, and the client is told where its
/// history was lost.
pub open spec fn answer_headers(
    upstream: Map<Seq<char>, Seq<Seq<u8>>>,
    history_lost: bool,
) -> Map<Seq<char>, Seq<Seq<u8>>> {
    let streamed = upstream.insert(
        "content-type"@,
        seq![encode_utf8("text/event-stream"@)],
    ).remove("content-length"@).remove("content-encoding"@);
    if history_lost {
        streamed.insert("x-session-history-lost"@, seq![encode_utf8("1"@)])
    } else {
        streamed
    }
}

/// Whether an HTTP status reports success.
pub open spec fn is_success(status: u16) -> bool {
    200 <= status < 300
}

/// Whether `plan` answers a request that is not compact: with the upstream's
/// status and its events converted, for the session and the original request of
/// the request's plan, where it reports success, else with the status 200 and the
/// events that report the failure of the original request.
pub open spec fn is_answer<S, U>(
    plan: ResponsePlan<S, U>,
    upstream_status: u16,
    upstream_headers: Map<Seq<char>, Seq<Seq<u8>>>,
    upstream_stream: U,
    provider: Provider,
    request_plan: RequestPlan<S>,
) -> bool {
    let request = lent(&request_plan.original_responses_request);
    &&& headers::header_values(plan.headers) == answer_headers(
        upstream_headers,
        says_history_lost(held(request_plan.adapter_metadata)),
    )
    &&& if is_success(upstream_status) {
        &&& plan.status == upstream_status
        &&& plan.body == (ResponseBody::Converted {
            upstream: upstream_stream,
            session: lent(&request_plan.response_session),
            think_tag_split: is_minimax(provider.id@) || is_minimax(provider.name@) || is_minimax(
                provider.base_url@,
            ),
            request,
        })
    } else {
        &&& plan.status == 200
        &&& plan.body == (ResponseBody::Failure::<S, U> {
            upstream_status,
            upstream: upstream_stream,
            request,
        })
    }
}

proof fn lemma_header_names()
    ensures
        headers::is_header_name("content-type"@),
        headers::is_header_name("content-length"@),
        headers::is_header_name("content-encoding"@),
        headers::is_header_name("x-session-history-lost"@),
        headers::is_header_text("text/event-stream"@),
        headers::is_header_text("1"@),
{
    reveal_strlit("content-type");
    reveal_strlit("content-length");
    reveal_strlit("content-encoding");
    reveal_strlit("x-session-history-lost");
    reveal_strlit("text/event-stream");
    reveal_strlit("1");
}

fn history_lost(metadata: &Option<serde_json::Value>) -> (lost: bool)
    ensures
        lost == says_history_lost(held(*metadata)),
{
    match metadata {
        Some(m) => match json::get(m, "history_lost") {
            Some(entry) => match entry.as_bool() {
                Some(b) => b,
                None => false,
            },
            None => false,
        },
        None => false,
    }
}

/// Plans the answer to a request, from the status, the headers and the body with
/// which the upstream answered it.
///
/// The answer to a request for a compact response is left to that. Any other
/// answer is a stream of events, also where the upstream failed. It can be planned
/// unless the upstream's headers fill the header map.
pub fn transform_responses_response_stream<'a, S, U>(
    upstream_status: u16,
    upstream_headers: http::HeaderMap,
    upstream_stream: U,
    provider: &Provider,
    request_plan: &'a RequestPlan<S>,
) -> (plan: Result<ResponsePlan<'a, S, U>, HeadersFull>)
    ensures
        request_plan.is_compact ==> plan == Ok::<ResponsePlan<S, U>, HeadersFull>(
            ResponsePlan {
                status: upstream_status,
                headers: upstream_headers,
                body: ResponseBody::Compact { upstream: upstream_stream },
            },
        ),
        !request_plan.is_compact && plan is Ok ==> is_answer(
            plan->Ok_0,
            upstream_status,
            headers::header_values(upstream_headers),
            upstream_stream,
            *provider,
            *request_plan,
        ),
        !request_plan.is_compact && plan is Ok ==> {
            let answer = plan->Ok_0;
            &&& 200 <= upstream_status <= 299 ==> answer.status == upstream_status
                && answer.body is Converted
            &&& upstream_status < 200 || upstream_status > 299 ==> answer.status == 200
                && answer.body is Failure
        },
        headers::header_values(upstream_headers).dom().len() < headers::HEADER_ROOM ==> plan is Ok,
{
    if request_plan.is_compact {
        return Ok(
            ResponsePlan {
                status: upstream_status,
                headers: upstream_headers,
                body: ResponseBody::Compact { upstream: upstream_stream },
            },
        );
    }
    let mut answer = upstream_headers;
    proof {
        lemma_header_names();
    }
    if !headers::insert(&mut answer, "content-type", "text/event-stream") {
        return Err(HeadersFull);
    }
    let ghost typed = headers::header_values(answer).dom();
    headers::remove(&mut answer, "content-length");
    headers::remove(&mut answer, "content-encoding");
    proof {
        let names = headers::header_values(upstream_headers).dom();
        assert(typed =~= names.insert("content-type"@));
        vstd::set_lib::lemma_set_subset_finite(typed, names);
        assert(headers::header_values(answer).dom() =~= typed.remove("content-length"@).remove(
            "content-encoding"@,
        ));
    }
    if history_lost(&request_plan.adapter_metadata) {
        if !headers::insert(&mut answer, "x-session-history-lost", "1") {
            return Err(HeadersFull);
        }
    }
    let request = request_plan.original_responses_request.as_ref();
    if !(200 <= upstream_status && upstream_status < 300) {
        return Ok(
            ResponsePlan {
                status: 200,
                headers: answer,
                body: ResponseBody::Failure { upstream_status, upstream: upstream_stream, request },
            },
        );
    }
    let think_tag_split = provider_needs_think_tag_split(provider);
    Ok(
        ResponsePlan {
            status: upstream_status,
            headers: answer,
            body: ResponseBody::Converted {
                upstream: upstream_stream,
                session: request_plan.response_session.as_ref(),
                think_tag_split,
                request,
            },
        },
    )
}

/// What is known of an upstream failure: what its body says, and the message and
/// the kind that the client gets to see.
pub struct UpstreamFailure {
    pub upstream_message: Option<String>,
    pub upstream_status_text: Option<String>,
    pub error_message: String,
    pub error_kind: String,
}

/// `UpstreamFailure`, over sequences.
pub struct FailureView {
    pub upstream_message: Option<Seq<char>>,
    pub upstream_status_text: Option<Seq<char>>,
    pub error_message: Seq<char>,
    pub error_kind: Seq<char>,
}

impl View for UpstreamFailure {
    type V = FailureView;

    open spec fn view(&self) -> FailureView {
        FailureView {
            upstream_message: text::string_chars(self.upstream_message),
            upstream_status_text: text::string_chars(self.upstream_status_text),
            error_message: self.error_message@,
            error_kind: self.error_kind@,
        }
    }
}

/// What is known of a failure, from its status, the body that was read, the text
/// of that body and, where it is JSON, its content. Where the connection broke,
/// that is its kind.
pub open spec fn failure_known(
    status: u16,
    read: BodyView,
    raw_text: Seq<char>,
    parsed: Option<Json>,
) -> FailureView {
    let message = upstream_error::body_message(parsed, raw_text);
    let status_text = upstream_error::body_status(parsed);
    FailureView {
        upstream_message: message,
        upstream_status_text: status_text,
        error_message: upstream_error::user_message(
            upstream_error::error_message(
                status,
                message,
                read.transport_err,
                read.truncated,
                !valid_utf8(read.body),
            ),
        ),
        error_kind: if read.transport_err is Some {
            "transport_error"@
        } else {
            upstream_error::error_kind(status, status_text, message)
        },
    }
}

/// What is known of a failure, from its status and the body that was read.
pub open spec fn failure_read(status: u16, read: BodyView) -> FailureView {
    let raw_text = text::lossy_text(read.body);
    failure_known(status, read, raw_text, json::json_parsed(raw_text))
}

/// What the client is told of a failure.
pub open spec fn reported_failure(
    status: u16,
    read: BodyView,
    request: Option<Json>,
    code: Seq<char>,
) -> failure_event::Failure {
    failure_event::Failure {
        request,
        code,
        message: failure_read(status, read).error_message,
        http_status: status as nat,
        upstream_error_kind: failure_read(status, read).error_kind,
    }
}

/// What is known of a failure, from the text of the body that was read and, where
/// it is JSON, its content.
pub fn describe_failure(
    upstream_status: u16,
    received: &ErrorBody,
    raw_text: &str,
    parsed: Option<&serde_json::Value>,
) -> (failure: UpstreamFailure)
    ensures
        failure@ == failure_known(
            upstream_status,
            received@,
            raw_text@,
            json::json_of_option(parsed),
        ),
{
    let was_lossy = !text::is_utf8(received.body.as_slice());
    let (upstream_message, upstream_status_text, kind) =
        upstream_error::extract_upstream_error_fields(parsed, raw_text, upstream_status);
    let error_message = upstream_error::limit_user_message(
        upstream_error::build_error_message(
            upstream_status,
            text::as_text(&upstream_message),
            text::as_text(&received.transport_err),
            received.truncated,
            was_lossy,
        ),
    );
    let error_kind = if received.transport_err.is_some() {
        "transport_error".to_owned()
    } else {
        kind
    };
    UpstreamFailure { upstream_message, upstream_status_text, error_message, error_kind }
}

/// What is known of a failure, from the body that was read.
pub fn read_failure(upstream_status: u16, received: &ErrorBody) -> (failure: UpstreamFailure)
    ensures
        failure@ == failure_read(upstream_status, received@),
{
    let raw_text = text::decode_lossy(received.body.as_slice());
    let parsed = json::parse(raw_text.as_str());
    match &parsed {
        Some(value) => describe_failure(upstream_status, received, raw_text.as_str(), Some(value)),
        None => describe_failure(upstream_status, received, raw_text.as_str(), None),
    }
}

/// The stream that answers a request whose upstream failed, from the error body
/// that was read: the events that report the failure, with the code that
/// `error_code` gives for its status, the status text and the message.
pub fn convert_chat_error_to_responses_failure_stream<ErrorCode>(
    upstream_status: u16,
    received: &ErrorBody,
    original_request: Option<&serde_json::Value>,
    error_code: ErrorCode,
) -> (out: Vec<u8>) where ErrorCode: Fn(u16, Option<&str>, Option<&str>) -> &'static str
    requires
        forall|status_text: Option<&str>, message: Option<&str>|
            error_code.requires((upstream_status, status_text, message)),
    ensures
        exists|
            status_text: Option<&str>,
            message: Option<&str>,
            code: &'static str,
            first: Option<u128>,
            second: Option<u128>,
        |
            {
                &&& text::str_chars(status_text) == failure_read(
                    upstream_status,
                    received@,
                ).upstream_status_text
                &&& text::str_chars(message) == failure_read(
                    upstream_status,
                    received@,
                ).upstream_message
                &&& #[trigger] error_code.ensures((upstream_status, status_text, message), code)
                &&& #[trigger] failure_event::is_clock_reading(first)
                &&& #[trigger] failure_event::is_clock_reading(second)
                &&& failure_event::reports(
                    out@,
                    failure_event::nanos_of(first),
                    failure_event::seconds_of(second),
                    reported_failure(
                        upstream_status,
                        received@,
                        json::json_of_option(original_request),
                        code@,
                    ),
                )
            },
        original_request matches Some(request) ==> failure_event::repeats_request(
            out@,
            json::json_of(*request),
        ),
        exists|
            status_text: Option<&str>,
            message: Option<&str>,
            code: &'static str,
            events: Seq<Json>,
        |
            {
                let body = text::lossy_text(received.body@);
                let error = json::field_of(json::field(events[2], "response"@), "error"@);
                &&& text::str_chars(status_text) == upstream_error::body_status(
                    json::json_parsed(body),
                )
                &&& text::str_chars(message) == upstream_error::body_message(
                    json::json_parsed(body),
                    body,
                )
                &&& #[trigger] error_code.ensures((upstream_status, status_text, message), code)
                &&& #[trigger] failure_event::holds_events(out@, events)
                &&& json::field_of(error, "code"@) == Some(Json::Text(code@))
                &&& json::field_of(error, "type"@) == Some(
                    Json::Text("upstream_http_"@ + text::decimal(upstream_status as nat)),
                )
                &&& json::field_of(error, "message"@) == Some(
                    Json::Text(failure_read(upstream_status, received@).error_message),
                )
                &&& json::field_of(error, "upstream_error_kind"@) == Some(
                    Json::Text(failure_read(upstream_status, received@).error_kind),
                )
            },
{
    let failure = read_failure(upstream_status, received);
    let status_text = text::as_text(&failure.upstream_status_text);
    let message = text::as_text(&failure.upstream_message);
    let code: &'static str = error_code(upstream_status, status_text, message);
    let out = failure_event::build_response_failed_sse(
        original_request,
        code,
        failure.error_message.as_str(),
        upstream_status,
        failure.error_kind.as_str(),
    );
    proof {
        let reported = reported_failure(
            upstream_status,
            received@,
            json::json_of_option(original_request),
            code@,
        );
        let (first, second) = choose|first: Option<u128>, second: Option<u128>|
            {
                &&& #[trigger] failure_event::is_clock_reading(first)
                &&& #[trigger] failure_event::is_clock_reading(second)
                &&& failure_event::reports(
                    out@,
                    failure_event::nanos_of(first),
                    failure_event::seconds_of(second),
                    reported,
                )
            };
        assert(error_code.ensures((upstream_status, status_text, message), code));
        assert(failure_event::is_clock_reading(first));
        assert(failure_event::is_clock_reading(second));
        let nanos = failure_event::nanos_of(first);
        let created_at = failure_event::seconds_of(second);
        failure_event::law_events_state_the_failure(nanos, created_at, reported);
        let events = failure_event::law_client_gets_three_events(out@, nanos, created_at, reported);
        assert(events[2] == failure_event::payloads(nanos, created_at, reported)[2]);
        assert(failure_event::holds_events(out@, events));
    }
    out
}

/// That the history of a request was lost reaches the client: what the conversion
/// found is noted in the plan of the request, and the answer has the header that
/// says so exactly where it was found. Elsewhere that header is the upstream's.
pub proof fn law_lost_history_is_told<S, U>(
    request_plan: RequestPlan<S>,
    upstream_path: Seq<char>,
    request: Json,
    conversion: Conversion<S>,
    plan: ResponsePlan<S, U>,
    upstream_status: u16,
    upstream: Map<Seq<char>, Seq<Seq<u8>>>,
    upstream_stream: U,
    provider: Provider,
)
    requires
        is_chat_plan(request_plan, upstream_path, request, conversion),
        is_answer(plan, upstream_status, upstream, upstream_stream, provider, request_plan),
    ensures
        ({
            let name = "x-session-history-lost"@;
            let sent = headers::header_values(plan.headers);
            &&& conversion.history_lost ==> sent.contains_key(name) && sent[name]
                == seq![encode_utf8("1"@)]
            &&& !conversion.history_lost ==> sent.contains_key(name) == upstream.contains_key(name)
                && (sent.contains_key(name) ==> sent[name] == upstream[name])
        }),
{
    reveal_strlit("content-type");
    reveal_strlit("content-length");
    reveal_strlit("content-encoding");
    reveal_strlit("x-session-history-lost");
    assert("x-session-history-lost"@.len() == 22);
}

/// What a request was and the session it belongs to reach its answer: a conversion
/// of the upstream's events gets the session that the conversion of the request
/// gave, and it or the report of a failure gets the request as the client sent it.
pub proof fn law_request_and_session_reach_the_answer<S, U>(
    request_plan: RequestPlan<S>,
    upstream_path: Seq<char>,
    request: Json,
    conversion: Conversion<S>,
    plan: ResponsePlan<S, U>,
    upstream_status: u16,
    upstream: Map<Seq<char>, Seq<Seq<u8>>>,
    upstream_stream: U,
    provider: Provider,
)
    requires
        is_chat_plan(request_plan, upstream_path, request, conversion),
        is_answer(plan, upstream_status, upstream, upstream_stream, provider, request_plan),
    ensures
        match plan.body {
            ResponseBody::Converted { session, request: original, .. } => {
                &&& session == Some(&conversion.response_session)
                &&& json::json_of_option(original) == Some(request)
            },
            ResponseBody::Failure { request: original, .. } => json::json_of_option(original)
                == Some(request),
            ResponseBody::Compact { .. } => false,
        },
{
}

/// Every answer to a request that is not compact is a stream of events, of unknown
/// length and not encoded; the upstream's other headers are passed on.
pub proof fn law_answer_is_event_stream(
    upstream: Map<Seq<char>, Seq<Seq<u8>>>,
    history_lost: bool,
    name: Seq<char>,
)
    ensures
        ({
            let sent = answer_headers(upstream, history_lost);
            &&& sent.contains_key("content-type"@)
            &&& sent["content-type"@] == seq![encode_utf8("text/event-stream"@)]
            &&& !sent.contains_key("content-length"@)
            &&& !sent.contains_key("content-encoding"@)
            &&& (name != "content-type"@ && name != "content-length"@ && name
                != "content-encoding"@ && name != "x-session-history-lost"@) ==> {
                &&& sent.contains_key(name) == upstream.contains_key(name)
                &&& sent.contains_key(name) ==> sent[name] == upstream[name]
            }
        }),
{
    reveal_strlit("content-type");
    reveal_strlit("content-length");
    reveal_strlit("content-encoding");
    reveal_strlit("x-session-history-lost");
    assert("content-type"@.len() == 12);
    assert("content-length"@.len() == 14);
    assert("content-encoding"@.len() == 16);
    assert("x-session-history-lost"@.len() == 22);
}

/// A provider that names the international MiniMax names MiniMax.
pub proof fn law_minimaxi_is_minimax(value: Seq<char>)
    requires
        text::has_part(text::lower(value), "minimaxi"@),
    ensures
        is_minimax(value),
{
    reveal_strlit("minimax");
    reveal_strlit("minimaxi");
    let lower = text::lower(value);
    let at = choose|at: int| text::occurs_at(lower, "minimaxi"@, at);
    let found = lower.subrange(at, at + 8);
    assert(found == "minimaxi"@);
    assert forall|i: int| 0 <= i < 7 implies lower.subrange(at, at + 7)[i] == "minimax"@[i] by {
        assert(lower.subrange(at, at + 7)[i] == found[i]);
    }
    assert(lower.subrange(at, at + 7) =~= "minimax"@);
    assert(text::occurs_at(lower, "minimax"@, at));
}

/// Where the connection broke, that is the kind of the error that the client sees,
/// whatever the upstream had said until then.
pub proof fn law_broken_connection_is_told(
    status: u16,
    read: BodyView,
    raw_text: Seq<char>,
    parsed: Option<Json>,
)
    requires
        read.transport_err is Some,
    ensures
        failure_known(status, read, raw_text, parsed).error_kind == "transport_error"@,
{
}

/// The client of a request that failed gets the request back, and the error. For
/// every request that is given to the conversion, each of the three events that are
/// read from its output carries what that request has under `model`, `tools`,
/// `tool_choice`, `parallel_tool_calls`, `reasoning`, `text`, `metadata`,
/// `previous_response_id`, `instructions`, `temperature`, `top_p` and
/// `max_output_tokens`, and the last one carries the error.
pub proof fn law_failure_stream_carries_the_request(
    out: Seq<u8>,
    nanos: nat,
    created_at: nat,
    status: u16,
    read: BodyView,
    request: Json,
    code: Seq<char>,
) -> (events: Seq<Json>)
    requires
        failure_event::reports(
            out,
            nanos,
            created_at,
            reported_failure(status, read, Some(request), code),
        ),
    ensures
        events.len() == 3,
        out == encode_utf8(
            "event: response.created\ndata: "@ + json::json_text(events[0])
                + "\n\nevent: response.in_progress\ndata: "@ + json::json_text(events[1])
                + "\n\nevent: response.failed\ndata: "@ + json::json_text(events[2]) + "\n\n"@,
        ),
        forall|i: int, key: Seq<char>|
            0 <= i < 3 ==> {
                let response = json::field(#[trigger] events[i], "response"@);
                &&& (key == "tools"@ || key == "tool_choice"@ || key == "parallel_tool_calls"@
                    || key == "reasoning"@ || key == "text"@ || key == "metadata"@ || key
                    == "previous_response_id"@ || key == "instructions"@ || key == "temperature"@
                    || key == "top_p"@ || key == "max_output_tokens"@) && #[trigger] json::field(
                    request,
                    key,
                ) is Some ==> json::field_of(response, key) == json::field(request, key)
                &&& json::field(request, "model"@) matches Some(Json::Text(_)) ==> json::field_of(
                    response,
                    "model"@,
                ) == json::field(request, "model"@)
            },
        ({
            let response = json::field(events[2], "response"@);
            let error = json::field_of(response, "error"@);
            &&& json::field_of(response, "status"@) == Some(Json::Text("failed"@))
            &&& json::field_of(error, "code"@) == Some(Json::Text(code))
            &&& json::field_of(error, "message"@) == Some(
                Json::Text(failure_read(status, read).error_message),
            )
            &&& json::field_of(error, "type"@) == Some(
                Json::Text("upstream_http_"@ + text::decimal(status as nat)),
            )
            &&& json::field_of(error, "upstream_error_kind"@) == Some(
                Json::Text(failure_read(status, read).error_kind),
            )
        }),
{
    let failure = reported_failure(status, read, Some(request), code);
    failure_event::law_events_repeat_the_request(
        nanos,
        created_at,
        request,
        failure.code,
        failure.message,
        failure.http_status,
        failure.upstream_error_kind,
    );
    failure_event::law_events_state_the_failure(nanos, created_at, failure);
    let events = failure_event::law_client_gets_three_events(out, nanos, created_at, failure);
    assert(events[2] == failure_event::payloads(nanos, created_at, failure)[2]);
    events
}

/// Where the request is not known, the events of its failure name no model and
/// repeat nothing.
pub proof fn law_unknown_request_is_not_made_up(
    nanos: nat,
    created_at: nat,
    status: u16,
    read: BodyView,
    code: Seq<char>,
)
    ensures
        reported_failure(status, read, None, code).request is None,
        forall|i: int|
            0 <= i < 3 ==> {
                let response = json::field(
                    #[trigger] failure_event::payloads(
                        nanos,
                        created_at,
                        reported_failure(status, read, None, code),
                    )[i],
                    "response"@,
                );
                &&& json::field_of(response, "model"@) == Some(Json::Text("unknown"@))
                &&& json::field_of(response, "metadata"@) == Some(Json::Null)
                &&& json::field_of(response, "previous_response_id"@) == Some(Json::Null)
                &&& json::field_of(response, "instructions"@) == Some(Json::Null)
            },
{
    failure_event::law_events_fill_in_what_the_request_lacks(
        nanos,
        created_at,
        reported_failure(status, read, None, code),
    );
}

/// What is known of a failure comes from its body: the message and the status that
/// the body states, as they are, and in the message for the client all of it, with
/// the HTTP status, up to 2000 characters. That the body was truncated or is no
/// UTF-8 is told, and the kind goes by the HTTP status unless the connection broke.
pub proof fn law_failure_is_described_by_its_body(
    status: u16,
    read: BodyView,
    raw_text: Seq<char>,
    parsed: Option<Json>,
)
    ensures
        ({
            let known = failure_known(status, read, raw_text, parsed);
            let said = upstream_error::body_message(parsed, raw_text);
            let full = upstream_error::error_message(
                status,
                said,
                read.transport_err,
                read.truncated,
                !valid_utf8(read.body),
            );
            &&& known.upstream_message == said
            &&& known.upstream_status_text == upstream_error::body_status(parsed)
            &&& full.len() <= 2_000 ==> known.error_message == full
            &&& full.len() > 2_000 ==> known.error_message == full.take(2_000).push('\u{2026}')
            &&& read.transport_err is None ==> known.error_kind == upstream_error::error_kind(
                status,
                upstream_error::body_status(parsed),
                said,
            )
            &&& read.transport_err is Some ==> known.error_kind == "transport_error"@
        }),
        failure_read(status, read) == failure_known(
            status,
            read,
            text::lossy_text(read.body),
            json::json_parsed(text::lossy_text(read.body)),
        ),
{
    let full = upstream_error::error_message(
        status,
        upstream_error::body_message(parsed, raw_text),
        read.transport_err,
        read.truncated,
        !valid_utf8(read.body),
    );
    if full.len() > 2_000 {
        assert(full =~= full.take(2_000) + full.skip(2_000));
        upstream_error::law_long_message_is_cut(full.take(2_000), full.skip(2_000));
    }
}

/// The client is told what the upstream's `error` says: where a whole body has an
/// `error` with a `message`, that message stands behind the HTTP status.
pub proof fn law_upstream_message_reaches_the_client(
    status: u16,
    read: BodyView,
    document: Json,
    message: Seq<char>,
)
    requires
        json::json_parsed(text::lossy_text(read.body)) == Some(document),
        json::field_of(json::field(document, "error"@), "message"@) == Some(Json::Text(message)),
        read.transport_err is None,
        !read.truncated,
        valid_utf8(read.body),
        message.len() <= 1_900,
    ensures
        failure_read(status, read).error_message == "Upstream error (HTTP "@ + text::decimal(
            status as nat,
        ) + ")"@ + ": "@ + message,
        failure_read(status, read).upstream_message == Some(message),
{
    let raw_text = text::lossy_text(read.body);
    upstream_error::law_message_is_what_the_error_says(document, document, raw_text);
    upstream_error::law_error_message_by_parts(status, message, None, message, None, false);
    law_failure_is_described_by_its_body(status, read, raw_text, Some(document));
    reveal_strlit("Upstream error (HTTP ");
    reveal_strlit(")");
    reveal_strlit(": ");
    reveal_with_fuel(text::digits, 6);
    assert(text::decimal(status as nat).len() <= 5);
}

/// What the client gets for an upstream status. From 200 to 299 that status, and the
/// upstream's events converted for the session and the original request of the
/// plan; for every other status, so for every error of the client or the server, the
/// status 200 and the report of the failure of that request.
pub proof fn law_answer_by_upstream_status<S, U>(
    plan: ResponsePlan<S, U>,
    upstream_status: u16,
    upstream: Map<Seq<char>, Seq<Seq<u8>>>,
    upstream_stream: U,
    provider: Provider,
    request_plan: RequestPlan<S>,
)
    requires
        is_answer(plan, upstream_status, upstream, upstream_stream, provider, request_plan),
    ensures
        200 <= upstream_status <= 299 ==> plan.status == upstream_status && (
        plan.body matches ResponseBody::Converted { upstream: stream, session, request, .. }
            && stream == upstream_stream && (match request_plan.response_session {
            Some(s) => session == Some(&s),
            None => session is None,
        }) && json::json_of_option(request) == held(request_plan.original_responses_request)),
        upstream_status < 200 || upstream_status > 299 ==> plan.status == 200 && (
        plan.body matches ResponseBody::Failure { upstream_status: status, upstream: stream, request }
            && status == upstream_status && stream == upstream_stream && json::json_of_option(
            request,
        ) == held(request_plan.original_responses_request)),
        plan.body is Converted <==> 200 <= upstream_status <= 299,
        plan.body is Failure <==> !(200 <= upstream_status <= 299),
{
}

/// Thoughts are split off an answer exactly where the id, the name or the address of
/// the provider has `minimax` in it, in any case.
pub proof fn law_think_tags_are_split_for_minimax<S, U>(
    plan: ResponsePlan<S, U>,
    upstream_status: u16,
    upstream: Map<Seq<char>, Seq<Seq<u8>>>,
    upstream_stream: U,
    provider: Provider,
    request_plan: RequestPlan<S>,
)
    requires
        is_answer(plan, upstream_status, upstream, upstream_stream, provider, request_plan),
    ensures
        plan.body matches ResponseBody::Converted { think_tag_split, .. } ==> (think_tag_split
            <==> text::has_part(text::lower(provider.id@), "minimax"@) || text::has_part(
            text::lower(provider.name@),
            "minimax"@,
        ) || text::has_part(text::lower(provider.base_url@), "minimax"@)),
{
}

/// The headers of an answer, over those of the upstream: it is an event stream of no
/// stated length and encoding, it says that the history was lost exactly where the
/// metadata of the request has `history_lost` true, and the rest is passed on.
pub proof fn law_answer_headers_by_name<S, U>(
    plan: ResponsePlan<S, U>,
    upstream_status: u16,
    upstream: Map<Seq<char>, Seq<Seq<u8>>>,
    upstream_stream: U,
    provider: Provider,
    request_plan: RequestPlan<S>,
    name: Seq<char>,
)
    requires
        is_answer(plan, upstream_status, upstream, upstream_stream, provider, request_plan),
    ensures
        ({
            let sent = headers::header_values(plan.headers);
            let lost = json::field_of(held(request_plan.adapter_metadata), "history_lost"@) == Some(
                Json::Bool(true),
            );
            let told = "x-session-history-lost"@;
            &&& sent.contains_key("content-type"@)
            &&& sent["content-type"@] == seq![encode_utf8("text/event-stream"@)]
            &&& !sent.contains_key("content-length"@)
            &&& !sent.contains_key("content-encoding"@)
            &&& lost ==> sent.contains_key(told) && sent[told] == seq![encode_utf8("1"@)]
            &&& (name != "content-type"@ && name != "content-length"@ && name
                != "content-encoding"@ && (name != told || !lost)) ==> {
                &&& sent.contains_key(name) == upstream.contains_key(name)
                &&& sent.contains_key(name) ==> sent[name] == upstream[name]
            }
        }),
{
    reveal_strlit("content-type");
    reveal_strlit("content-length");
    reveal_strlit("content-encoding");
    reveal_strlit("x-session-history-lost");
    assert("content-type"@.len() == 12);
    assert("content-length"@.len() == 14);
    assert("content-encoding"@.len() == 16);
    assert("x-session-history-lost"@.len() == 22);
}

/// A request that is not compact is planned as its conversion says: the body that it
/// made, as JSON, goes to the path; the session that it gave and the request as the
/// client sent it are kept for the answer; and that the history was lost is noted
/// exactly where it was.
pub proof fn law_request_plan_is_the_conversion<S>(
    plan: RequestPlan<S>,
    upstream_path: Seq<char>,
    request: Json,
    conversion: Conversion<S>,
)
    requires
        is_chat_plan(plan, upstream_path, request, conversion),
    ensures
        !plan.is_compact,
        plan.upstream_path@ == upstream_path,
        plan.body@ == encode_utf8(json::json_text(json::json_of(conversion.body))),
        headers::header_values(plan.upstream_headers).dom().is_empty(),
        plan.response_session == Some(conversion.response_session),
        plan.original_responses_request matches Some(original) && json::json_of(original)
            == request,
        conversion.history_lost ==> (plan.adapter_metadata matches Some(metadata) && json::field(
            json::json_of(metadata),
            "history_lost"@,
        ) == Some(Json::Bool(true))),
        !conversion.history_lost ==> plan.adapter_metadata is None,
{
}

/// A request for a compact response goes to `/chat/completions` with its own body,
/// and keeps nothing for the answer.
pub proof fn law_compact_request_keeps_nothing<S>(plan: RequestPlan<S>, body: Seq<u8>)
    requires
        is_compact_plan(plan, body),
    ensures
        plan.is_compact,
        plan.upstream_path@ == "/chat/completions"@,
        plan.body@ == body,
        headers::header_values(plan.upstream_headers).dom().is_empty(),
        plan.response_session is None,
        plan.adapter_metadata is None,
        plan.original_responses_request is None,
{
}

} // verus!
