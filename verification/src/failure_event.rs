//! The events that tell a Responses client that its request failed: one
//! server-sent event each for `response.created`, `response.in_progress` and
//! `response.failed`.

use vstd::prelude::*;
use vstd::string::*;
use vstd::utf8::*;

use crate::json;
use crate::json::Json;
use crate::text;

verus! {

/// What is reported of a failed request: the request as the client sent it,
/// where it is known, and the error.
pub struct Failure {
    pub request: Option<Json>,
    pub code: Seq<char>,
    pub message: Seq<char>,
    pub http_status: nat,
    pub upstream_error_kind: Seq<char>,
}

/// The failure that the arguments of the functions below stand for.
pub open spec fn failure_of(
    request: Option<&serde_json::Value>,
    code: &str,
    message: &str,
    http_status: u16,
    upstream_error_kind: &str,
) -> Failure {
    Failure {
        request: json::json_of_option(request),
        code: code@,
        message: message@,
        http_status: http_status as nat,
        upstream_error_kind: upstream_error_kind@,
    }
}

/// The entry of the request under `key`, or `fallback` where it has none.
pub open spec fn request_field_or(request: Option<Json>, key: Seq<char>, fallback: Json) -> Json {
    match json::field_of(request, key) {
        Some(entry) => entry,
        None => fallback,
    }
}

/// The model that the request names.
pub open spec fn request_model(request: Option<Json>) -> Seq<char> {
    match json::text_of(json::field_of(request, "model"@)) {
        Some(model) => model,
        None => "unknown"@,
    }
}

/// The `reasoning` of a response to a request that sets none.
pub open spec fn default_reasoning() -> Json {
    Json::Object(
        json::no_entries().insert("effort"@, Json::Null).insert("summary"@, Json::Null),
    )
}

/// The `text` of a response to a request that sets none.
pub open spec fn default_text() -> Json {
    Json::Object(
        json::no_entries().insert(
            "format"@,
            Json::Object(json::no_entries().insert("type"@, Json::Text("text"@))),
        ),
    )
}

/// The `error` of the failed response.
pub open spec fn failure_error(failure: Failure) -> Json {
    Json::Object(
        json::no_entries().insert("code"@, Json::Text(failure.code)).insert(
            "message"@,
            Json::Text(failure.message),
        ).insert(
            "type"@,
            Json::Text("upstream_http_"@ + text::decimal(failure.http_status)),
        ).insert("upstream_error_kind"@, Json::Text(failure.upstream_error_kind)),
    )
}

/// The failed response, made `nanos` nanoseconds after the epoch and dated
/// `created_at` seconds after it.
pub open spec fn failed_response(nanos: nat, created_at: nat, failure: Failure) -> Map<
    Seq<char>,
    Json,
> {
    let request = failure.request;
    json::no_entries().insert(
        "id"@,
        Json::Text("resp_"@ + text::hexadecimal(nanos)),
    ).insert("object"@, Json::Text("response"@)).insert(
        "created_at"@,
        json::integer(created_at as int),
    ).insert("status"@, Json::Text("failed"@)).insert(
        "model"@,
        Json::Text(request_model(request)),
    ).insert(
        "tools"@,
        request_field_or(request, "tools"@, Json::Array(Seq::empty())),
    ).insert(
        "tool_choice"@,
        request_field_or(request, "tool_choice"@, Json::Text("auto"@)),
    ).insert(
        "parallel_tool_calls"@,
        request_field_or(request, "parallel_tool_calls"@, Json::Bool(true)),
    ).insert(
        "reasoning"@,
        request_field_or(request, "reasoning"@, default_reasoning()),
    ).insert("text"@, request_field_or(request, "text"@, default_text())).insert(
        "metadata"@,
        request_field_or(request, "metadata"@, Json::Null),
    ).insert(
        "previous_response_id"@,
        request_field_or(request, "previous_response_id"@, Json::Null),
    ).insert(
        "instructions"@,
        request_field_or(request, "instructions"@, Json::Null),
    ).insert(
        "temperature"@,
        request_field_or(request, "temperature"@, Json::Null),
    ).insert("top_p"@, request_field_or(request, "top_p"@, Json::Null)).insert(
        "max_output_tokens"@,
        request_field_or(request, "max_output_tokens"@, Json::Null),
    ).insert("truncation"@, Json::Text("disabled"@)).insert(
        "output"@,
        Json::Array(Seq::empty()),
    ).insert("usage"@, Json::Null).insert("incomplete_details"@, Json::Null).insert(
        "error"@,
        failure_error(failure),
    )
}

/// The response as it stands before the failure: in progress, without an error.
pub open spec fn open_response(failed: Map<Seq<char>, Json>) -> Map<Seq<char>, Json> {
    failed.insert("status"@, Json::Text("in_progress"@)).insert("error"@, Json::Null)
}

/// The data of an event that carries a response.
pub open spec fn event_data(
    event: Seq<char>,
    sequence_number: int,
    response: Map<Seq<char>, Json>,
) -> Json {
    Json::Object(
        json::no_entries().insert("type"@, Json::Text(event)).insert(
            "sequence_number"@,
            json::integer(sequence_number),
        ).insert("response"@, Json::Object(response)),
    )
}

/// A server-sent event: its name and its data.
pub struct SseEvent {
    pub name: Seq<char>,
    pub data: Seq<char>,
}

/// The lines of an event.
pub open spec fn event_text(event: SseEvent) -> Seq<char> {
    "event: "@ + event.name + "\n"@ + "data: "@ + event.data + "\n\n"@
}

/// The three events, in their order.
pub open spec fn failure_events(nanos: nat, created_at: nat, failure: Failure) -> Seq<SseEvent> {
    let failed = failed_response(nanos, created_at, failure);
    let open = open_response(failed);
    seq![
        SseEvent {
            name: "response.created"@,
            data: json::json_text(event_data("response.created"@, 0, open)),
        },
        SseEvent {
            name: "response.in_progress"@,
            data: json::json_text(event_data("response.in_progress"@, 1, open)),
        },
        SseEvent {
            name: "response.failed"@,
            data: json::json_text(event_data("response.failed"@, 2, failed)),
        },
    ]
}

/// The text of the three events.
pub open spec fn failure_text(nanos: nat, created_at: nat, failure: Failure) -> Seq<char> {
    let events = failure_events(nanos, created_at, failure);
    event_text(events[0]) + event_text(events[1]) + event_text(events[2])
}

/// What a reader of the stream takes its first event to be, and what is left.
/// An event is a line `event: ` with its name, a line `data: ` with its data and
/// an empty line; a carriage return would end a line too.
pub open spec fn read_event(stream: Seq<char>) -> Option<(SseEvent, Seq<char>)> {
    match text::cut(stream, '\n') {
        Some((first, after_first)) => match text::cut(after_first, '\n') {
            Some((second, after_second)) => match text::cut(after_second, '\n') {
                Some((third, rest)) => if "event: "@.is_prefix_of(first)
                    && "data: "@.is_prefix_of(second) && third.len() == 0 && !first.contains('\r')
                    && !second.contains('\r') {
                    Some(
                        (
                            SseEvent {
                                name: first.skip("event: "@.len() as int),
                                data: second.skip("data: "@.len() as int),
                            },
                            rest,
                        ),
                    )
                } else {
                    None
                },
                None => None,
            },
            None => None,
        },
        None => None,
    }
}

/// Whether a reader of the stream finds exactly the events `events` in it.
pub open spec fn reads_as(stream: Seq<char>, events: Seq<SseEvent>) -> bool
    decreases events.len(),
{
    if events.len() == 0 {
        stream.len() == 0
    } else {
        match read_event(stream) {
            Some((event, rest)) => event == events[0] && reads_as(rest, events.drop_first()),
            None => false,
        }
    }
}

/// Whether `out` holds the events that report `failure` at the given time, and a
/// reader of it finds exactly them.
pub open spec fn reports(out: Seq<u8>, nanos: nat, created_at: nat, failure: Failure) -> bool {
    let stream = failure_text(nanos, created_at, failure);
    &&& out == encode_utf8(stream)
    &&& reads_as(stream, failure_events(nanos, created_at, failure))
}

/// Whether `out` holds three events with the given data.
pub open spec fn holds_events(out: Seq<u8>, events: Seq<Json>) -> bool {
    &&& events.len() == 3
    &&& out == encode_utf8(
        "event: response.created\ndata: "@ + json::json_text(events[0])
            + "\n\nevent: response.in_progress\ndata: "@ + json::json_text(events[1])
            + "\n\nevent: response.failed\ndata: "@ + json::json_text(events[2]) + "\n\n"@,
    )
}

/// Whether each of the three events in `out` carries a response with what `request`
/// asked for.
pub open spec fn repeats_request(out: Seq<u8>, request: Json) -> bool {
    exists|events: Seq<Json>|
        {
            &&& #[trigger] holds_events(out, events)
            &&& forall|i: int, key: Seq<char>|
                0 <= i < 3 ==> {
                    let response = json::field(#[trigger] events[i], "response"@);
                    &&& (key == "tools"@ || key == "tool_choice"@ || key == "parallel_tool_calls"@
                        || key == "reasoning"@ || key == "text"@ || key == "metadata"@ || key
                        == "previous_response_id"@ || key == "instructions"@ || key
                        == "temperature"@ || key == "top_p"@ || key == "max_output_tokens"@)
                        && #[trigger] json::field(request, key) is Some ==> json::field_of(
                        response,
                        key,
                    ) == json::field(request, key)
                    &&& json::field(request, "model"@) matches Some(Json::Text(_))
                        ==> json::field_of(response, "model"@) == json::field(request, "model"@)
                }
        }
}

/// Whether a clock can show this many nanoseconds since the epoch, or that it
/// stands before it: the seconds are counted in 64 bits.
pub open spec fn is_clock_reading(nanos: Option<u128>) -> bool {
    nanos matches Some(n) ==> n < 0x1_0000_0000_0000_0000 * 1_000_000_000
}

/// The nanoseconds of a clock reading: none where the clock stands before the epoch.
pub open spec fn nanos_of(reading: Option<u128>) -> nat {
    match reading {
        Some(n) => n as nat,
        None => 0,
    }
}

/// The whole seconds of a clock reading: none where the clock stands before the
/// epoch.
pub open spec fn seconds_of(reading: Option<u128>) -> nat {
    nanos_of(reading) / 1_000_000_000
}

/// `std::time::SystemTime::elapsed` of the epoch, in nanoseconds: nothing where the
/// clock stands before it. A `Duration` counts its seconds in 64 bits. What the
/// clock shows is not stated.
#[verifier::external_body]
fn unix_nanos() -> (nanos: Option<u128>)
    ensures
        is_clock_reading(nanos),
{
    std::time::UNIX_EPOCH.elapsed().ok().map(|d| d.as_nanos())
}

/// The nanoseconds that name a response and the second of its creation, from two
/// readings of the clock.
pub fn response_times(first: Option<u128>, second: Option<u128>) -> (times: (u128, u64))
    requires
        is_clock_reading(second),
    ensures
        times.0 == nanos_of(first),
        times.1 == seconds_of(second),
{
    let nanos: u128 = match first {
        Some(n) => n,
        None => 0,
    };
    let created_at: u64 = match second {
        Some(n) => (n / 1_000_000_000) as u64,
        None => 0,
    };
    (nanos, created_at)
}

fn request_field(
    original_request: Option<&serde_json::Value>,
    key: &str,
    fallback: serde_json::Value,
) -> (entry: serde_json::Value)
    ensures
        json::json_of(entry) == request_field_or(
            json::json_of_option(original_request),
            key@,
            json::json_of(fallback),
        ),
{
    match original_request {
        Some(request) => match json::get(request, key) {
            Some(entry) => entry.clone(),
            None => fallback,
        },
        None => fallback,
    }
}

fn request_model_text(original_request: Option<&serde_json::Value>) -> (model: String)
    ensures
        model@ == request_model(json::json_of_option(original_request)),
{
    let model: Option<&str> = match original_request {
        Some(request) => match json::get(request, "model") {
            Some(entry) => entry.as_str(),
            None => None,
        },
        None => None,
    };
    match model {
        Some(model) => model.to_owned(),
        None => "unknown".to_owned(),
    }
}

fn reasoning_value() -> (value: serde_json::Value)
    ensures
        json::json_of(value) == default_reasoning(),
{
    let mut value = json::empty_object();
    json::set(&mut value, "effort", json::null());
    json::set(&mut value, "summary", json::null());
    value
}

fn text_value() -> (value: serde_json::Value)
    ensures
        json::json_of(value) == default_text(),
{
    let mut format = json::empty_object();
    json::set(&mut format, "type", json::from_text("text"));
    let mut value = json::empty_object();
    json::set(&mut value, "format", format);
    value
}

fn error_value(code: &str, message: &str, http_status: u16, upstream_error_kind: &str) -> (value:
    serde_json::Value)
    ensures
        json::json_of(value) == failure_error(
            failure_of(None, code, message, http_status, upstream_error_kind),
        ),
{
    let mut error_type = "upstream_http_".to_owned();
    error_type.append(text::decimal_text(http_status as u64).as_str());
    let mut value = json::empty_object();
    json::set(&mut value, "code", json::from_text(code));
    json::set(&mut value, "message", json::from_text(message));
    json::set(&mut value, "type", json::from_text(error_type.as_str()));
    json::set(&mut value, "upstream_error_kind", json::from_text(upstream_error_kind));
    value
}

fn empty_list() -> (value: serde_json::Value)
    ensures
        json::json_of(value) == Json::Array(Seq::empty()),
{
    let values: Vec<serde_json::Value> = Vec::new();
    assert(json::json_of_all(values@) =~= Seq::<Json>::empty());
    json::from_list(values)
}

fn failed_response_value(
    nanos: u128,
    created_at: u64,
    original_request: Option<&serde_json::Value>,
    code: &str,
    message: &str,
    http_status: u16,
    upstream_error_kind: &str,
) -> (value: serde_json::Value)
    ensures
        json::json_of(value) == Json::Object(
            failed_response(
                nanos as nat,
                created_at as nat,
                failure_of(original_request, code, message, http_status, upstream_error_kind),
            ),
        ),
{
    let request = original_request;
    let mut id = "resp_".to_owned();
    id.append(text::hexadecimal_text(nanos).as_str());
    let model = request_model_text(request);
    let mut v = json::empty_object();
    json::set(&mut v, "id", json::from_text(id.as_str()));
    json::set(&mut v, "object", json::from_text("response"));
    json::set(&mut v, "created_at", json::from_u64(created_at));
    json::set(&mut v, "status", json::from_text("failed"));
    json::set(&mut v, "model", json::from_text(model.as_str()));
    json::set(&mut v, "tools", request_field(request, "tools", empty_list()));
    json::set(&mut v, "tool_choice", request_field(request, "tool_choice", json::from_text("auto")));
    json::set(
        &mut v,
        "parallel_tool_calls",
        request_field(request, "parallel_tool_calls", json::from_bool(true)),
    );
    json::set(&mut v, "reasoning", request_field(request, "reasoning", reasoning_value()));
    json::set(&mut v, "text", request_field(request, "text", text_value()));
    json::set(&mut v, "metadata", request_field(request, "metadata", json::null()));
    json::set(
        &mut v,
        "previous_response_id",
        request_field(request, "previous_response_id", json::null()),
    );
    json::set(&mut v, "instructions", request_field(request, "instructions", json::null()));
    json::set(&mut v, "temperature", request_field(request, "temperature", json::null()));
    json::set(&mut v, "top_p", request_field(request, "top_p", json::null()));
    json::set(
        &mut v,
        "max_output_tokens",
        request_field(request, "max_output_tokens", json::null()),
    );
    json::set(&mut v, "truncation", json::from_text("disabled"));
    json::set(&mut v, "output", empty_list());
    json::set(&mut v, "usage", json::null());
    json::set(&mut v, "incomplete_details", json::null());
    json::set(&mut v, "error", error_value(code, message, http_status, upstream_error_kind));
    v
}

fn event_data_text(event: &str, sequence_number: u64, response: &serde_json::Value) -> (data: String)
    requires
        json::json_of(*response) is Object,
    ensures
        data@ == json::json_text(
            event_data(event@, sequence_number as int, json::json_of(*response)->Object_0),
        ),
        !data@.contains('\n'),
        !data@.contains('\r'),
{
    let mut payload = json::empty_object();
    json::set(&mut payload, "type", json::from_text(event));
    json::set(&mut payload, "sequence_number", json::from_u64(sequence_number));
    json::set(&mut payload, "response", response.clone());
    json::to_text(&payload)
}

fn push_event(out: &mut String, name: &str, data: &str)
    ensures
        final(out)@ == old(out)@ + event_text((SseEvent { name: name@, data: data@ })),
{
    out.append("event: ");
    out.append(name);
    out.append("\n");
    out.append("data: ");
    out.append(data);
    out.append("\n\n");
    assert(out@ =~= old(out)@ + event_text(SseEvent { name: name@, data: data@ }));
}

/// The bytes of the events that report a failure, for a given time.
///
/// A reader of the stream finds exactly the three events in it, each with its
/// data on one line.
pub fn response_failed_sse_at(
    nanos: u128,
    created_at: u64,
    original_request: Option<&serde_json::Value>,
    code: &str,
    message: &str,
    http_status: u16,
    upstream_error_kind: &str,
) -> (out: Vec<u8>)
    ensures
        reports(
            out@,
            nanos as nat,
            created_at as nat,
            failure_of(original_request, code, message, http_status, upstream_error_kind),
        ),
        original_request matches Some(request) ==> repeats_request(
            out@,
            json::json_of(*request),
        ),
{
    let ghost failure = failure_of(
        original_request,
        code,
        message,
        http_status,
        upstream_error_kind,
    );
    let failed = failed_response_value(
        nanos,
        created_at,
        original_request,
        code,
        message,
        http_status,
        upstream_error_kind,
    );
    let mut open = failed.clone();
    json::set(&mut open, "status", json::from_text("in_progress"));
    json::set(&mut open, "error", json::null());

    let created = event_data_text("response.created", 0, &open);
    let in_progress = event_data_text("response.in_progress", 1, &open);
    let finished = event_data_text("response.failed", 2, &failed);

    let mut out = String::new();
    push_event(&mut out, "response.created", created.as_str());
    push_event(&mut out, "response.in_progress", in_progress.as_str());
    push_event(&mut out, "response.failed", finished.as_str());
    proof {
        let events = failure_events(nanos as nat, created_at as nat, failure);
        let rest2 = event_text(events[2]);
        let rest1 = event_text(events[1]) + rest2;
        let stream = failure_text(nanos as nat, created_at as nat, failure);
        assert(stream =~= event_text(events[0]) + rest1);
        assert(rest2 =~= event_text(events[2]) + Seq::empty());
        lemma_event_names();
        lemma_read_event(events[0], rest1);
        lemma_read_event(events[1], rest2);
        lemma_read_event(events[2], Seq::empty());
        let tail1 = events.drop_first();
        let tail2 = tail1.drop_first();
        assert(tail2.drop_first().len() == 0);
        assert(reads_as(Seq::empty(), tail2.drop_first()));
        assert(reads_as(rest2, tail2));
        assert(reads_as(rest1, tail1));
        assert(out@ =~= stream);
    }
    let bytes = out.as_str().as_bytes_vec();
    proof {
        if let Some(request) = original_request {
            law_events_repeat_the_request(
                nanos as nat,
                created_at as nat,
                json::json_of(*request),
                failure.code,
                failure.message,
                failure.http_status,
                failure.upstream_error_kind,
            );
            let events = law_client_gets_three_events(
                bytes@,
                nanos as nat,
                created_at as nat,
                failure,
            );
            assert(holds_events(bytes@, events));
        }
    }
    bytes
}

/// The bytes of the events that report a failure at the present time, for which the
/// clock is read twice.
pub fn build_response_failed_sse(
    original_request: Option<&serde_json::Value>,
    code: &str,
    message: &str,
    http_status: u16,
    upstream_error_kind: &str,
) -> (out: Vec<u8>)
    ensures
        exists|first: Option<u128>, second: Option<u128>|
            {
                &&& #[trigger] is_clock_reading(first)
                &&& #[trigger] is_clock_reading(second)
                &&& reports(
                    out@,
                    nanos_of(first),
                    seconds_of(second),
                    failure_of(original_request, code, message, http_status, upstream_error_kind),
                )
            },
        original_request matches Some(request) ==> repeats_request(
            out@,
            json::json_of(*request),
        ),
{
    let first = unix_nanos();
    let second = unix_nanos();
    let (nanos, created_at) = response_times(first, second);
    response_failed_sse_at(
        nanos,
        created_at,
        original_request,
        code,
        message,
        http_status,
        upstream_error_kind,
    )
}

/// The names of the events are single lines.
proof fn lemma_event_names()
    ensures
        !"response.created"@.contains('\n'),
        !"response.in_progress"@.contains('\n'),
        !"response.failed"@.contains('\n'),
        !"response.created"@.contains('\r'),
        !"response.in_progress"@.contains('\r'),
        !"response.failed"@.contains('\r'),
{
    reveal_strlit("response.created");
    reveal_strlit("response.in_progress");
    reveal_strlit("response.failed");
}

/// A reader finds an event where it was written, and what follows it.
proof fn lemma_read_event(event: SseEvent, rest: Seq<char>)
    requires
        !event.name.contains('\n'),
        !event.data.contains('\n'),
        !event.name.contains('\r'),
        !event.data.contains('\r'),
    ensures
        read_event(event_text(event) + rest) == Some((event, rest)),
{
    reveal_strlit("event: ");
    reveal_strlit("data: ");
    reveal_strlit("\n");
    reveal_strlit("\n\n");
    let first = "event: "@ + event.name;
    let second = "data: "@ + event.data;
    let newline = seq!['\n'];
    assert forall|i: int| 0 <= i < first.len() implies first[i] != '\n' && first[i] != '\r' by {
        if i >= 7 {
            assert(first[i] == event.name[i - 7]);
        }
    }
    assert forall|i: int| 0 <= i < second.len() implies second[i] != '\n' && second[i]
        != '\r' by {
        if i >= 6 {
            assert(second[i] == event.data[i - 6]);
        }
    }
    let third = Seq::<char>::empty();
    let after_second = third + newline + rest;
    let after_first = second + newline + after_second;
    assert(event_text(event) + rest =~= first + newline + after_first);
    text::lemma_cut_at(first, '\n', after_first);
    text::lemma_cut_at(second, '\n', after_second);
    text::lemma_cut_at(third, '\n', rest);
    assert(first.skip(7) =~= event.name);
    assert(second.skip(6) =~= event.data);
}

/// The parts of a request that the response to it repeats.
pub open spec fn is_repeated(key: Seq<char>) -> bool {
    ||| key == "tools"@
    ||| key == "tool_choice"@
    ||| key == "parallel_tool_calls"@
    ||| key == "reasoning"@
    ||| key == "text"@
    ||| key == "metadata"@
    ||| key == "previous_response_id"@
    ||| key == "instructions"@
    ||| key == "temperature"@
    ||| key == "top_p"@
    ||| key == "max_output_tokens"@
}

/// No two keys of a response are the same: where they are of one length, a
/// character tells them apart.
proof fn lemma_keys_differ()
    ensures
        "id"@.len() == 2,
        "object"@.len() == 6,
        "created_at"@.len() == 10,
        "status"@.len() == 6,
        "model"@.len() == 5,
        "tools"@.len() == 5,
        "tool_choice"@.len() == 11,
        "parallel_tool_calls"@.len() == 19,
        "reasoning"@.len() == 9,
        "text"@.len() == 4,
        "metadata"@.len() == 8,
        "previous_response_id"@.len() == 20,
        "instructions"@.len() == 12,
        "temperature"@.len() == 11,
        "top_p"@.len() == 5,
        "max_output_tokens"@.len() == 17,
        "truncation"@.len() == 10,
        "output"@.len() == 6,
        "usage"@.len() == 5,
        "incomplete_details"@.len() == 18,
        "error"@.len() == 5,
        "object"@[1] == 'b',
        "status"@[1] == 't',
        "output"@[1] == 'u',
        "model"@[2] == 'd',
        "tools"@[2] == 'o',
        "top_p"@[2] == 'p',
        "usage"@[2] == 'a',
        "error"@[2] == 'r',
        "tool_choice"@[1] == 'o',
        "temperature"@[1] == 'e',
        "created_at"@[0] == 'c',
        "truncation"@[0] == 't',
{
    reveal_strlit("id");
    reveal_strlit("object");
    reveal_strlit("created_at");
    reveal_strlit("status");
    reveal_strlit("model");
    reveal_strlit("tools");
    reveal_strlit("tool_choice");
    reveal_strlit("parallel_tool_calls");
    reveal_strlit("reasoning");
    reveal_strlit("text");
    reveal_strlit("metadata");
    reveal_strlit("previous_response_id");
    reveal_strlit("instructions");
    reveal_strlit("temperature");
    reveal_strlit("top_p");
    reveal_strlit("max_output_tokens");
    reveal_strlit("truncation");
    reveal_strlit("output");
    reveal_strlit("usage");
    reveal_strlit("incomplete_details");
    reveal_strlit("error");
}

/// The failed response repeats these parts of the request as they are.
pub proof fn law_request_is_repeated(
    nanos: nat,
    created_at: nat,
    failure: Failure,
    key: Seq<char>,
)
    requires
        is_repeated(key),
    ensures
        json::field_of(failure.request, key) matches Some(entry) ==> failed_response(
            nanos,
            created_at,
            failure,
        )[key] == entry,
{
    lemma_keys_differ();
}

/// The failed response says that it failed, and why.
pub proof fn law_failure_is_stated(nanos: nat, created_at: nat, failure: Failure)
    ensures
        ({
            let response = failed_response(nanos, created_at, failure);
            &&& response["status"@] == Json::Text("failed"@)
            &&& response["error"@] == failure_error(failure)
            &&& json::field(response["error"@], "code"@) == Some(Json::Text(failure.code))
            &&& json::field(response["error"@], "message"@) == Some(Json::Text(failure.message))
            &&& json::field(response["error"@], "upstream_error_kind"@) == Some(
                Json::Text(failure.upstream_error_kind),
            )
        }),
{
    lemma_keys_differ();
    reveal_strlit("code");
    reveal_strlit("message");
    reveal_strlit("type");
    reveal_strlit("upstream_error_kind");
    assert("code"@[0] != "type"@[0]);
    assert("code"@.len() < "message"@.len() < "upstream_error_kind"@.len());
}

/// Before the failure the response is in progress, without an error, and in all
/// else the one that fails.
pub proof fn law_open_response(failed: Map<Seq<char>, Json>, key: Seq<char>)
    ensures
        open_response(failed)["status"@] == Json::Text("in_progress"@),
        open_response(failed)["error"@] == Json::Null,
        key != "status"@ && key != "error"@ ==> json::field(
            Json::Object(open_response(failed)),
            key,
        ) == json::field(Json::Object(failed), key),
{
    reveal_strlit("status");
    reveal_strlit("error");
    assert("status"@.len() != "error"@.len());
}

/// The arguments of a report are what is reported.
pub proof fn law_arguments_are_reported(
    request: Option<&serde_json::Value>,
    code: &str,
    message: &str,
    http_status: u16,
    upstream_error_kind: &str,
)
    ensures
        ({
            let failure = failure_of(request, code, message, http_status, upstream_error_kind);
            &&& request matches Some(value) ==> failure.request == Some(json::json_of(*value))
            &&& request is None ==> failure.request is None
            &&& failure.code == code@
            &&& failure.message == message@
            &&& failure.http_status == http_status
            &&& failure.upstream_error_kind == upstream_error_kind@
        }),
{
}

/// The whole seconds of a clock reading are those that have passed, and the
/// nanoseconds are its own; a clock that stands before the epoch counts as none.
pub proof fn law_times_follow_the_clock(n: u128)
    ensures
        nanos_of(Some(n)) == n,
        seconds_of(Some(n)) * 1_000_000_000 <= n < (seconds_of(Some(n)) + 1) * 1_000_000_000,
        nanos_of(None) == 0,
        seconds_of(None) == 0,
{
}

/// What the client gets: three events, named `response.created`,
/// `response.in_progress` and `response.failed` and numbered from zero, each on a
/// line `event: ` and a line `data: ` before an empty one, and each with the
/// response as JSON.
pub proof fn law_client_gets_three_events(
    out: Seq<u8>,
    nanos: nat,
    created_at: nat,
    failure: Failure,
) -> (events: Seq<Json>)
    requires
        reports(out, nanos, created_at, failure),
    ensures
        events == payloads(nanos, created_at, failure),
        events.len() == 3,
        out == encode_utf8(
            "event: response.created\ndata: "@ + json::json_text(events[0])
                + "\n\nevent: response.in_progress\ndata: "@ + json::json_text(events[1])
                + "\n\nevent: response.failed\ndata: "@ + json::json_text(events[2]) + "\n\n"@,
        ),
        json::field(events[0], "type"@) == Some(Json::Text("response.created"@)),
        json::field(events[1], "type"@) == Some(Json::Text("response.in_progress"@)),
        json::field(events[2], "type"@) == Some(Json::Text("response.failed"@)),
        forall|i: int|
            0 <= i < 3 ==> {
                &&& json::field(#[trigger] events[i], "sequence_number"@) == Some(
                    Json::Number(json::JsonNumber::Integer(i)),
                )
                &&& json::field(events[i], "response"@) is Some
            },
{
    reveal_strlit("event: response.created\ndata: ");
    reveal_strlit("\n\nevent: response.in_progress\ndata: ");
    reveal_strlit("\n\nevent: response.failed\ndata: ");
    reveal_strlit("event: ");
    reveal_strlit("data: ");
    reveal_strlit("\n");
    reveal_strlit("\n\n");
    reveal_strlit("response.created");
    reveal_strlit("response.in_progress");
    reveal_strlit("response.failed");
    lemma_event_keys_differ();
    let events = payloads(nanos, created_at, failure);
    let (first, second, third) = (
        json::json_text(events[0]),
        json::json_text(events[1]),
        json::json_text(events[2]),
    );
    let start0 = "event: response.created\ndata: "@;
    let start1 = "\n\nevent: response.in_progress\ndata: "@;
    let start2 = "\n\nevent: response.failed\ndata: "@;
    let written = failure_events(nanos, created_at, failure);
    assert(start0 =~= "event: "@ + written[0].name + "\n"@ + "data: "@);
    assert(start1 =~= "\n\n"@ + ("event: "@ + written[1].name + "\n"@ + "data: "@));
    assert(start2 =~= "\n\n"@ + ("event: "@ + written[2].name + "\n"@ + "data: "@));
    assert(written[0].data == first && written[1].data == second && written[2].data == third);
    assert(failure_text(nanos, created_at, failure) =~= start0 + first + start1 + second + start2
        + third + "\n\n"@);
    events
}

/// What the three events carry.
pub open spec fn payloads(nanos: nat, created_at: nat, failure: Failure) -> Seq<Json> {
    let failed = failed_response(nanos, created_at, failure);
    let open = open_response(failed);
    seq![
        event_data("response.created"@, 0, open),
        event_data("response.in_progress"@, 1, open),
        event_data("response.failed"@, 2, failed),
    ]
}

proof fn lemma_event_keys_differ()
    ensures
        "type"@.len() == 4,
        "sequence_number"@.len() == 15,
        "response"@.len() == 8,
{
    reveal_strlit("type");
    reveal_strlit("sequence_number");
    reveal_strlit("response");
}

/// Every event repeats what the request had under `tools`, `tool_choice`,
/// `parallel_tool_calls`, `reasoning`, `text`, `metadata`, `previous_response_id`,
/// `instructions`, `temperature`, `top_p` and `max_output_tokens`, and the model that
/// it named.
pub proof fn law_events_repeat_the_request(
    nanos: nat,
    created_at: nat,
    request: Json,
    code: Seq<char>,
    message: Seq<char>,
    http_status: nat,
    upstream_error_kind: Seq<char>,
)
    ensures
        ({
            let events = payloads(
                nanos,
                created_at,
                Failure { request: Some(request), code, message, http_status, upstream_error_kind },
            );
            forall|i: int, key: Seq<char>|
                0 <= i < 3 ==> {
                    let response = json::field(#[trigger] events[i], "response"@);
                    &&& (key == "tools"@ || key == "tool_choice"@ || key == "parallel_tool_calls"@
                        || key == "reasoning"@ || key == "text"@ || key == "metadata"@ || key
                        == "previous_response_id"@ || key == "instructions"@ || key
                        == "temperature"@ || key == "top_p"@ || key == "max_output_tokens"@)
                        && #[trigger] json::field(request, key) is Some ==> json::field_of(
                        response,
                        key,
                    ) == json::field(request, key)
                    &&& json::field(request, "model"@) matches Some(Json::Text(_))
                        ==> json::field_of(response, "model"@) == json::field(request, "model"@)
                }
        }),
{
    lemma_keys_differ();
    lemma_event_keys_differ();
}

/// Where a request is not known, or has no entry of the kind, every event has the
/// usual value: the model is `unknown`, there are no tools and the choice among them
/// is automatic, calls may be parallel, the text has the format `text`, and nothing
/// is set of the rest.
pub proof fn law_events_fill_in_what_the_request_lacks(
    nanos: nat,
    created_at: nat,
    failure: Failure,
)
    ensures
        forall|i: int|
            0 <= i < 3 ==> {
                let response = json::field(
                    #[trigger] payloads(nanos, created_at, failure)[i],
                    "response"@,
                );
                let lacks = |key: Seq<char>| json::field_of(failure.request, key) is None;
                &&& !(json::field_of(failure.request, "model"@) matches Some(Json::Text(_)))
                    ==> json::field_of(response, "model"@) == Some(Json::Text("unknown"@))
                &&& lacks("tools"@) ==> json::field_of(response, "tools"@) == Some(
                    Json::Array(Seq::empty()),
                )
                &&& lacks("tool_choice"@) ==> json::field_of(response, "tool_choice"@) == Some(
                    Json::Text("auto"@),
                )
                &&& lacks("parallel_tool_calls"@) ==> json::field_of(
                    response,
                    "parallel_tool_calls"@,
                ) == Some(Json::Bool(true))
                &&& lacks("reasoning"@) ==> {
                    let reasoning = json::field_of(response, "reasoning"@);
                    &&& json::field_of(reasoning, "effort"@) == Some(Json::Null)
                    &&& json::field_of(reasoning, "summary"@) == Some(Json::Null)
                }
                &&& lacks("text"@) ==> json::field_of(
                    json::field_of(json::field_of(response, "text"@), "format"@),
                    "type"@,
                ) == Some(Json::Text("text"@))
                &&& lacks("metadata"@) ==> json::field_of(response, "metadata"@) == Some(Json::Null)
                &&& lacks("previous_response_id"@) ==> json::field_of(
                    response,
                    "previous_response_id"@,
                ) == Some(Json::Null)
                &&& lacks("instructions"@) ==> json::field_of(response, "instructions"@) == Some(
                    Json::Null,
                )
                &&& lacks("temperature"@) ==> json::field_of(response, "temperature"@) == Some(
                    Json::Null,
                )
                &&& lacks("top_p"@) ==> json::field_of(response, "top_p"@) == Some(Json::Null)
                &&& lacks("max_output_tokens"@) ==> json::field_of(response, "max_output_tokens"@)
                    == Some(Json::Null)
            },
{
    lemma_keys_differ();
    lemma_event_keys_differ();
    reveal_strlit("effort");
    reveal_strlit("summary");
    reveal_strlit("format");
}

/// Every event names the same response, by the time that it was made at, and dates
/// it; none has an output. Only the last says that the response failed, and why.
pub proof fn law_events_state_the_failure(nanos: nat, created_at: nat, failure: Failure)
    ensures
        forall|i: int|
            0 <= i < 3 ==> {
                let response = json::field(
                    #[trigger] payloads(nanos, created_at, failure)[i],
                    "response"@,
                );
                &&& json::field_of(response, "id"@) == Some(
                    Json::Text("resp_"@ + text::hexadecimal(nanos)),
                )
                &&& json::field_of(response, "object"@) == Some(Json::Text("response"@))
                &&& json::field_of(response, "created_at"@) == Some(
                    Json::Number(json::JsonNumber::Integer(created_at as int)),
                )
                &&& json::field_of(response, "truncation"@) == Some(Json::Text("disabled"@))
                &&& json::field_of(response, "output"@) == Some(Json::Array(Seq::empty()))
                &&& json::field_of(response, "usage"@) == Some(Json::Null)
                &&& json::field_of(response, "incomplete_details"@) == Some(Json::Null)
                &&& i < 2 ==> {
                    &&& json::field_of(response, "status"@) == Some(Json::Text("in_progress"@))
                    &&& json::field_of(response, "error"@) == Some(Json::Null)
                }
                &&& i == 2 ==> {
                    let error = json::field_of(response, "error"@);
                    &&& json::field_of(response, "status"@) == Some(Json::Text("failed"@))
                    &&& json::field_of(error, "code"@) == Some(Json::Text(failure.code))
                    &&& json::field_of(error, "message"@) == Some(Json::Text(failure.message))
                    &&& json::field_of(error, "type"@) == Some(
                        Json::Text("upstream_http_"@ + text::decimal(failure.http_status)),
                    )
                    &&& json::field_of(error, "upstream_error_kind"@) == Some(
                        Json::Text(failure.upstream_error_kind),
                    )
                }
            },
{
    lemma_keys_differ();
    lemma_event_keys_differ();
    law_failure_is_stated(nanos, created_at, failure);
    reveal_strlit("code");
    reveal_strlit("message");
    reveal_strlit("upstream_error_kind");
    assert("code"@[0] == 'c');
    reveal_strlit("type");
    assert("type"@[0] == 't');
}

} // verus!
