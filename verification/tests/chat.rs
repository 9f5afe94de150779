use codex_transfer::chat::{
    chat_plan, compact_plan, convert_chat_error_to_responses_failure_stream, describe_failure,
    prepare_responses_request, provider_needs_think_tag_split, read_failure,
    transform_responses_response_stream, AdapterError, Conversion, Provider, RequestPlan,
    ResponseBody,
};
use codex_transfer::error_body::{BodyChunk, ErrorBody, MAX_UPSTREAM_ERROR_BODY_BYTES};
use codex_transfer::failure_event::{
    build_response_failed_sse, response_failed_sse_at, response_times,
};
use codex_transfer::upstream_error::{
    build_error_message, extract_upstream_error_fields, infer_upstream_error_kind,
    limit_user_message,
};
use http::HeaderMap;
use serde_json::Value;

fn parse(text: &str) -> Value {
    serde_json::from_str(text).unwrap()
}

fn provider(id: &str, name: &str, base_url: &str) -> Provider {
    Provider { id: id.into(), name: name.into(), base_url: base_url.into() }
}

fn make_provider() -> Provider {
    provider("kimi-code", "Kimi Code", "https://api.kimi.com/coding/v1")
}

fn original_request() -> Value {
    parse(
        r#"{
            "model": "kimi-for-coding",
            "tools": [],
            "tool_choice": "auto",
            "parallel_tool_calls": true,
            "reasoning": {"effort": "medium", "summary": null},
            "text": {"format": {"type":"text"}},
            "metadata": {"trace": "abc"},
            "previous_response_id": "resp_prev",
            "instructions": "help",
            "temperature": 0.2,
            "top_p": 0.9,
            "max_output_tokens": 1024
        }"#,
    )
}

fn make_request_plan(history_lost: bool) -> RequestPlan<()> {
    RequestPlan {
        upstream_path: "/chat/completions".into(),
        body: br#"{"model":"kimi-for-coding"}"#.to_vec(),
        upstream_headers: HeaderMap::new(),
        response_session: None,
        adapter_metadata: if history_lost { Some(parse(r#"{"history_lost": true}"#)) } else { None },
        is_compact: false,
        original_responses_request: Some(original_request()),
    }
}

fn data(bytes: &[u8]) -> BodyChunk {
    BodyChunk::Data(bytes.to_vec())
}

/// The codes of the proxy for the statuses that occur in these tests.
fn error_code(status: u16, _status_text: Option<&str>, message: Option<&str>) -> &'static str {
    match status {
        401 => "invalid_prompt",
        429 if message.is_some_and(|m| m.to_lowercase().contains("quota")) => "quota_exceeded",
        429 => "rate_limited",
        _ => "server_error",
    }
}

fn failure_text(status: u16, chunks: Vec<BodyChunk>, request: &RequestPlan<()>) -> String {
    let plan = transform_responses_response_stream(
        status,
        HeaderMap::new(),
        chunks,
        &make_provider(),
        request,
    );
    let plan = plan.ok().unwrap();
    assert_eq!(plan.status, 200);
    let out = match plan.body {
        ResponseBody::Failure { upstream_status, upstream, request } => {
            convert_chat_error_to_responses_failure_stream(
                upstream_status,
                &ErrorBody::read(upstream),
                request,
                error_code,
            )
        }
        _ => panic!("no failure"),
    };
    String::from_utf8(out).unwrap()
}

/// The name and the data of each event.
fn events(stream: &str) -> Vec<(String, Value)> {
    let mut found = Vec::new();
    for event in stream.split_terminator("\n\n") {
        let (name, data) = event.split_once('\n').unwrap();
        found.push((
            name.strip_prefix("event: ").unwrap().to_owned(),
            parse(data.strip_prefix("data: ").unwrap()),
        ));
    }
    found
}

#[test]
fn upstream_401_becomes_response_failed_invalid_prompt() {
    let out = failure_text(
        401,
        vec![data(br#"{"error":{"message":"API key invalid","status":"UNAUTHENTICATED"}}"#)],
        &make_request_plan(false),
    );
    assert!(out.contains("event: response.failed"));
    assert!(out.contains(r#""code":"invalid_prompt""#));
    assert!(out.contains(r#""upstream_error_kind":"auth_error""#));
    assert!(out.contains("API key invalid"));
}

#[test]
fn upstream_429_preserves_retryable_semantics() {
    let out = failure_text(
        429,
        vec![data(br#"{"error":{"message":"Quota exceeded","status":"RESOURCE_EXHAUSTED"}}"#)],
        &make_request_plan(false),
    );
    assert!(out.contains(r#""code":"quota_exceeded""#));
    assert!(out.contains(r#""upstream_error_kind":"quota_exceeded""#));
}

#[test]
fn upstream_429_plain_text_quota_still_maps_to_quota_exceeded() {
    let out = failure_text(
        429,
        vec![data(b"quota exceeded for current plan")],
        &make_request_plan(false),
    );
    assert!(out.contains(r#""code":"quota_exceeded""#));
    assert!(out.contains("quota exceeded for current plan"));
}

#[test]
fn upstream_429_rate_limit_exceeded_stays_rate_limited() {
    let out = failure_text(
        429,
        vec![data(b"rate limit exceeded, retry later")],
        &make_request_plan(false),
    );
    assert!(out.contains(r#""code":"rate_limited""#));
    assert!(out.contains(r#""upstream_error_kind":"rate_limited""#));
}

#[test]
fn upstream_500_non_json_becomes_server_error() {
    let out = failure_text(
        500,
        vec![data(b"<html>Internal Server Error</html>")],
        &make_request_plan(false),
    );
    assert!(out.contains(r#""code":"server_error""#));
    assert!(out.contains(r#""upstream_error_kind":"server_error""#));
    assert!(out.contains("HTTP 500"));
}

#[test]
fn transport_error_still_emits_response_failed() {
    let out = failure_text(
        429,
        vec![
            data(br#"{"error":{"message":"partial"#),
            BodyChunk::Failed("tcp reset by peer".into()),
        ],
        &make_request_plan(false),
    );
    assert!(out.contains("event: response.failed"));
    assert!(out.contains(r#""code":"rate_limited""#));
    assert!(out.contains(r#""upstream_error_kind":"transport_error""#));
    assert!(out.contains("tcp reset by peer"));
}

#[test]
fn success_path_still_sets_event_stream_content_type() {
    let request_plan = make_request_plan(false);
    let plan = transform_responses_response_stream(
        200,
        HeaderMap::new(),
        "events",
        &make_provider(),
        &request_plan,
    )
    .ok()
    .unwrap();
    assert_eq!(plan.status, 200);
    assert_eq!(
        plan.headers.get(http::header::CONTENT_TYPE).and_then(|v| v.to_str().ok()),
        Some("text/event-stream")
    );
    assert!(matches!(plan.body, ResponseBody::Converted { think_tag_split: false, .. }));
}

#[test]
fn history_lost_header_is_preserved_on_error_path() {
    let request_plan = make_request_plan(true);
    let plan = transform_responses_response_stream(
        401,
        HeaderMap::new(),
        "error",
        &make_provider(),
        &request_plan,
    )
    .ok()
    .unwrap();
    assert_eq!(plan.status, 200);
    assert_eq!(
        plan.headers.get("x-session-history-lost").and_then(|v| v.to_str().ok()),
        Some("1")
    );
}

#[test]
fn answer_headers_replace_and_drop_those_of_the_upstream() {
    let mut upstream = HeaderMap::new();
    upstream.append("content-type", "application/json".parse().unwrap());
    upstream.append("content-type", "text/plain".parse().unwrap());
    upstream.insert("content-length", "12".parse().unwrap());
    upstream.insert("content-encoding", "gzip".parse().unwrap());
    upstream.insert("x-request-id", "abc".parse().unwrap());
    let request_plan = make_request_plan(false);
    let plan = transform_responses_response_stream(
        206,
        upstream,
        "events",
        &provider("x", "MiniMax", "https://example.com"),
        &request_plan,
    )
    .ok()
    .unwrap();
    assert_eq!(plan.status, 206);
    assert_eq!(plan.headers.len(), 2);
    assert_eq!(plan.headers.get_all("content-type").iter().count(), 1);
    assert_eq!(plan.headers["content-type"], "text/event-stream");
    assert_eq!(plan.headers["x-request-id"], "abc");
    assert!(matches!(plan.body, ResponseBody::Converted { think_tag_split: true, .. }));
}

#[test]
fn compact_answer_is_left_alone() {
    let mut upstream = HeaderMap::new();
    upstream.insert("content-length", "12".parse().unwrap());
    let request: RequestPlan<()> = compact_plan(b"{}".to_vec());
    let plan =
        transform_responses_response_stream(500, upstream, "body", &make_provider(), &request)
            .ok()
            .unwrap();
    assert_eq!(plan.status, 500);
    assert_eq!(plan.headers["content-length"], "12");
    assert_eq!(plan.headers.len(), 1);
    assert!(matches!(plan.body, ResponseBody::Compact { upstream: "body" }));
}

#[test]
fn full_header_map_is_refused() {
    let mut upstream = HeaderMap::new();
    let mut i = 0;
    loop {
        let name = http::HeaderName::from_bytes(format!("x-{i}").as_bytes()).unwrap();
        if upstream.try_insert(name, http::HeaderValue::from_static("v")).is_err() {
            break;
        }
        i += 1;
    }
    let request_plan = make_request_plan(false);
    let plan = transform_responses_response_stream(
        200,
        upstream,
        "events",
        &make_provider(),
        &request_plan,
    );
    assert!(plan.is_err());
}

#[test]
fn header_map_with_room_takes_both_headers() {
    let mut upstream = HeaderMap::new();
    for i in 0..6_552 {
        let name = http::HeaderName::from_bytes(format!("x-{i}").as_bytes()).unwrap();
        upstream.insert(name, http::HeaderValue::from_static("v"));
    }
    let request_plan = make_request_plan(true);
    let plan = transform_responses_response_stream(
        200,
        upstream,
        "events",
        &make_provider(),
        &request_plan,
    )
    .ok()
    .unwrap();
    assert_eq!(plan.headers.len(), 6_554);
}

#[test]
fn think_tags_are_split_for_minimax_only() {
    assert!(!provider_needs_think_tag_split(&make_provider()));
    assert!(provider_needs_think_tag_split(&provider("MiniMax-cn", "", "")));
    assert!(provider_needs_think_tag_split(&provider("", "my minimax", "")));
    assert!(provider_needs_think_tag_split(&provider("", "", "https://api.MINIMAXI.com/v1")));
    assert!(!provider_needs_think_tag_split(&provider("mini", "max", "minima x")));
}

fn prepare(path: &str, body: &[u8], history_lost: bool) -> Result<RequestPlan<u32>, AdapterError> {
    prepare_responses_request(
        path,
        body,
        &7_u32,
        |p: &str| p.ends_with("/compact"),
        |b: &[u8], n: &u32| {
            if b.is_empty() {
                Err(AdapterError::BadRequest("empty".into()))
            } else {
                Ok(format!("compact {n}").into_bytes())
            }
        },
        |p: &str| p.replace("/responses", "/chat/completions"),
        |v: &Value, n: &u32| {
            if v.get("refuse").is_some() {
                return Err(AdapterError::Internal("refused".into()));
            }
            Ok(Conversion {
                body: v.get("input").cloned().unwrap_or(Value::Null),
                history_lost,
                response_session: *n,
            })
        },
    )
}

#[test]
fn request_is_converted_and_redirected() {
    let plan = prepare("/v1/responses", br#"{"input": {"b": 1, "a": [true]}}"#, false).ok().unwrap();
    assert_eq!(plan.upstream_path, "/v1/chat/completions");
    assert_eq!(plan.body, br#"{"a":[true],"b":1}"#.to_vec());
    assert!(plan.upstream_headers.is_empty());
    assert_eq!(plan.response_session, Some(7));
    assert!(plan.adapter_metadata.is_none());
    assert!(!plan.is_compact);
    assert_eq!(
        plan.original_responses_request,
        Some(parse(r#"{"input": {"b": 1, "a": [true]}}"#))
    );
}

#[test]
fn lost_history_is_noted_and_told() {
    let plan = prepare("/responses", b"{}", true).ok().unwrap();
    assert_eq!(plan.adapter_metadata, Some(parse(r#"{"history_lost": true}"#)));
    let answer =
        transform_responses_response_stream(200, HeaderMap::new(), "", &make_provider(), &plan)
            .ok()
            .unwrap();
    assert_eq!(answer.headers["x-session-history-lost"], "1");
    let kept = prepare("/responses", b"{}", false).ok().unwrap();
    let answer =
        transform_responses_response_stream(200, HeaderMap::new(), "", &make_provider(), &kept)
            .ok()
            .unwrap();
    assert!(answer.headers.get("x-session-history-lost").is_none());
}

#[test]
fn request_and_session_reach_the_answer() {
    let plan = prepare("/responses", br#"{"input": 1}"#, false).ok().unwrap();
    let request = parse(r#"{"input": 1}"#);
    let answer = |status: u16| {
        transform_responses_response_stream(
            status,
            HeaderMap::new(),
            "upstream",
            &make_provider(),
            &plan,
        )
        .ok()
        .unwrap()
    };
    match answer(204).body {
        ResponseBody::Converted { upstream, session, think_tag_split, request: original } => {
            assert_eq!(upstream, "upstream");
            assert_eq!(session, Some(&7));
            assert!(!think_tag_split);
            assert_eq!(original, Some(&request));
        }
        _ => panic!("not converted"),
    }
    match answer(503).body {
        ResponseBody::Failure { upstream_status, upstream, request: original } => {
            assert_eq!(upstream_status, 503);
            assert_eq!(upstream, "upstream");
            assert_eq!(original, Some(&request));
        }
        _ => panic!("no failure"),
    }
}

#[test]
fn compact_request_is_wrapped() {
    let plan = prepare("/responses/compact", b"not json", false).ok().unwrap();
    assert_eq!(plan.upstream_path, "/chat/completions");
    assert_eq!(plan.body, b"compact 7".to_vec());
    assert!(plan.is_compact);
    assert!(plan.response_session.is_none());
    assert!(plan.original_responses_request.is_none());
}

#[test]
fn request_errors_are_passed_on() {
    match prepare("/responses", b"{oops", false) {
        Err(AdapterError::BadRequest(message)) => assert_eq!(
            message,
            "body 不是合法 JSON: key must be a string at line 1 column 2"
        ),
        _ => panic!("not refused"),
    }
    match prepare("/responses", br#"{"refuse": 1}"#, false) {
        Err(AdapterError::Internal(message)) => assert_eq!(message, "refused"),
        _ => panic!("not refused"),
    }
    match prepare("/responses/compact", b"", false) {
        Err(AdapterError::BadRequest(message)) => assert_eq!(message, "empty"),
        _ => panic!("not refused"),
    }
}

#[test]
fn chat_plan_writes_the_converted_body() {
    let plan = chat_plan(
        "/p".to_owned(),
        parse("[1]"),
        Conversion { body: parse(r#"{"k": "\n"}"#), history_lost: true, response_session: 'x' },
    )
    .ok()
    .unwrap();
    assert_eq!(plan.body, br#"{"k":"\n"}"#.to_vec());
    assert_eq!(plan.response_session, Some('x'));
    assert_eq!(plan.original_responses_request, Some(parse("[1]")));
}

#[test]
fn error_body_keeps_all_below_the_limit() {
    let read = ErrorBody::read(vec![data(b"ab"), data(b""), data(b"cd")]);
    assert_eq!(read.body, b"abcd".to_vec());
    assert!(!read.truncated);
    assert!(read.transport_err.is_none());
}

#[test]
fn response_times_follow_the_clock() {
    assert_eq!(response_times(None, None), (0, 0));
    assert_eq!(
        response_times(Some(1_700_000_000_999_999_999), Some(1_700_000_001_999_999_999)),
        (1_700_000_000_999_999_999, 1_700_000_001)
    );
    assert_eq!(response_times(Some(5), Some(999_999_999)), (5, 0));
}

#[test]
fn error_body_over_the_limit_takes_no_more() {
    let mut read = ErrorBody::new();
    read.body = vec![3; MAX_UPSTREAM_ERROR_BODY_BYTES + 1];
    assert!(!read.accept(data(b"x")));
    assert_eq!(read.body.len(), MAX_UPSTREAM_ERROR_BODY_BYTES + 1);
    assert!(read.truncated);
}

#[test]
fn error_body_is_cut_at_the_limit() {
    let mut read = ErrorBody::new();
    assert!(read.accept(BodyChunk::Data(vec![1; MAX_UPSTREAM_ERROR_BODY_BYTES - 1])));
    assert!(!read.accept(data(b"xyz")));
    assert_eq!(read.body.len(), 65_536);
    assert_eq!(read.body[65_535], b'x');
    assert!(read.truncated);
    assert!(!read.accept(BodyChunk::Failed("late".into())));
    assert!(read.transport_err.is_none());
}

#[test]
fn chunk_after_a_full_body_counts_as_truncated() {
    let full = vec![2; MAX_UPSTREAM_ERROR_BODY_BYTES];
    let read = ErrorBody::read(vec![BodyChunk::Data(full.clone())]);
    assert!(!read.truncated);
    let mut halves = vec![BodyChunk::Data(full[..32_768].to_vec())];
    halves.push(BodyChunk::Data(full[32_768..].to_vec()));
    assert!(!ErrorBody::read(halves).truncated);
    assert!(ErrorBody::read(vec![BodyChunk::Data(full.clone()), data(b"x")]).truncated);
    let read = ErrorBody::read(vec![BodyChunk::Data(full.clone()), data(b"")]);
    assert!(read.truncated);
    assert_eq!(read.body, full);
}

#[test]
fn broken_connection_ends_the_body() {
    let read = ErrorBody::read(vec![
        data(b"ab"),
        BodyChunk::Failed("first".into()),
        data(b"cd"),
        BodyChunk::Failed("second".into()),
    ]);
    assert_eq!(read.body, b"ab".to_vec());
    assert_eq!(read.transport_err.as_deref(), Some("first"));
    assert!(!read.truncated);
}

fn fields(json: &str) -> (Option<String>, Option<String>, String) {
    extract_upstream_error_fields(Some(&parse(json)), json, 418)
}

#[test]
fn message_and_status_are_found_where_they_may_stand() {
    let kind = || "upstream_error".to_owned();
    let some = |s: &str| Some(s.to_owned());
    assert_eq!(fields(r#"{"error":{"error":"m","type":"t"}}"#), (some("m"), some("t"), kind()));
    assert_eq!(fields(r#"{"error":{"detail":"m","code":-5}}"#), (some("m"), some("-5"), kind()));
    assert_eq!(fields(r#"{"detail":"m","status":503}"#), (some("m"), some("503"), kind()));
    assert_eq!(fields(r#"{"error":{"message":7},"message":"m"}"#), (some("m"), None, kind()));
    assert_eq!(fields(r#"{"error":{"message":7,"detail":"d"}}"#), (None, None, kind()));
    assert_eq!(fields(r#"{"error":"e","code":1.5}"#), (None, None, kind()));
    assert_eq!(fields(r#"[{"message":"m"},{"message":"n"}]"#), (some("m"), None, kind()));
    assert_eq!(fields("[]"), (None, None, kind()));
    assert_eq!(fields(r#""text""#), (None, None, kind()));
    assert_eq!(
        fields(r#"{"code":-9223372036854775808}"#),
        (None, some("-9223372036854775808"), kind())
    );
    assert_eq!(fields(r#"{"code":18446744073709551615}"#), (None, None, kind()));
}

#[test]
fn body_that_is_no_json_is_the_message() {
    let plain = extract_upstream_error_fields(None, "\u{3000} oh no\n", 500);
    assert_eq!(plain, (Some("oh no".to_owned()), None, "server_error".to_owned()));
    let blank = extract_upstream_error_fields(None, " \t\n", 404);
    assert_eq!(blank, (None, None, "not_found".to_owned()));
}

#[test]
fn kinds_follow_the_status() {
    let kind = |status| infer_upstream_error_kind(status, None, Some("quota"));
    assert_eq!(kind(400), "bad_request");
    assert_eq!(kind(401), "auth_error");
    assert_eq!(kind(403), "permission_denied");
    assert_eq!(kind(404), "not_found");
    assert_eq!(kind(405), "method_not_allowed");
    assert_eq!(kind(408), "timeout");
    assert_eq!(kind(504), "timeout");
    assert_eq!(kind(429), "quota_exceeded");
    assert_eq!(kind(500), "server_error");
    assert_eq!(kind(599), "server_error");
    assert_eq!(kind(600), "upstream_error");
    assert_eq!(kind(302), "upstream_error");
    assert_eq!(infer_upstream_error_kind(429, Some("Resource_Exhausted"), None), "quota_exceeded");
    assert_eq!(infer_upstream_error_kind(429, None, Some("RESOURCE_EXHAUSTED")), "quota_exceeded");
    assert_eq!(infer_upstream_error_kind(429, Some("quota"), None), "rate_limited");
    assert_eq!(infer_upstream_error_kind(429, None, None), "rate_limited");
}

#[test]
fn error_message_says_what_is_known() {
    assert_eq!(build_error_message(502, None, None, false, false), "Upstream error (HTTP 502)");
    assert_eq!(
        build_error_message(7, Some("m"), Some("t"), true, true),
        "Upstream error (HTTP 7): m [transport error: t] [body truncated] [non-UTF-8 body]"
    );
}

#[test]
fn user_message_is_cut_after_the_limit() {
    let within = "é".repeat(2_000);
    assert_eq!(limit_user_message(within.clone()), within);
    let beyond = "é".repeat(2_001);
    assert_eq!(limit_user_message(beyond), format!("{within}…"));
}

#[test]
fn invalid_utf8_is_shown_with_replacements() {
    let received = ErrorBody::read(vec![data(b"bad \xff byte")]);
    let failure = read_failure(500, &received);
    assert_eq!(failure.upstream_message.as_deref(), Some("bad \u{fffd} byte"));
    assert_eq!(
        failure.error_message,
        "Upstream error (HTTP 500): bad \u{fffd} byte [non-UTF-8 body]"
    );
    assert_eq!(failure.error_kind, "server_error");
}

#[test]
fn failure_is_described_from_its_parts() {
    let received = ErrorBody::read(vec![data(b"x"), BodyChunk::Failed("reset".into())]);
    let parsed = parse(r#"{"error":{"message":"m","code":42}}"#);
    let failure = describe_failure(401, &received, "ignored", Some(&parsed));
    assert_eq!(failure.upstream_message.as_deref(), Some("m"));
    assert_eq!(failure.upstream_status_text.as_deref(), Some("42"));
    assert_eq!(failure.error_message, "Upstream error (HTTP 401): m [transport error: reset]");
    assert_eq!(failure.error_kind, "transport_error");
}

#[test]
fn failure_events_carry_the_response() {
    let request = original_request();
    let out = response_failed_sse_at(0xabc_def, 1_700_000_000, Some(&request), "c", "a\nb", 503, "k");
    let events = events(std::str::from_utf8(&out).unwrap());
    assert_eq!(events.len(), 3);
    let names = ["response.created", "response.in_progress", "response.failed"];
    for (i, (name, data)) in events.iter().enumerate() {
        assert_eq!(name, names[i]);
        assert_eq!(data["type"], names[i]);
        assert_eq!(data["sequence_number"], i as u64);
        let response = &data["response"];
        assert_eq!(response["id"], "resp_abcdef");
        assert_eq!(response["object"], "response");
        assert_eq!(response["created_at"], 1_700_000_000_u64);
        for (key, entry) in request.as_object().unwrap() {
            assert_eq!(&response[key], entry);
        }
        assert_eq!(response["truncation"], "disabled");
        assert_eq!(response["output"], parse("[]"));
        assert_eq!(response["usage"], Value::Null);
        assert_eq!(response["incomplete_details"], Value::Null);
        assert_eq!(response.as_object().unwrap().len(), 21);
    }
    for open in &events[..2] {
        assert_eq!(open.1["response"]["status"], "in_progress");
        assert_eq!(open.1["response"]["error"], Value::Null);
    }
    let failed = &events[2].1["response"];
    assert_eq!(failed["status"], "failed");
    assert_eq!(
        failed["error"],
        parse(
            r#"{"code":"c","message":"a\nb","type":"upstream_http_503","upstream_error_kind":"k"}"#
        )
    );
}

#[test]
fn failure_without_a_request_has_the_defaults() {
    let out = response_failed_sse_at(0, 0, None, "c", "m", 400, "k");
    let events = events(std::str::from_utf8(&out).unwrap());
    let response = &events[2].1["response"];
    assert_eq!(response["id"], "resp_0");
    assert_eq!(response["model"], "unknown");
    assert_eq!(response["tools"], parse("[]"));
    assert_eq!(response["tool_choice"], "auto");
    assert_eq!(response["parallel_tool_calls"], true);
    assert_eq!(response["reasoning"], parse(r#"{"effort":null,"summary":null}"#));
    assert_eq!(response["text"], parse(r#"{"format":{"type":"text"}}"#));
    for key in ["metadata", "previous_response_id", "instructions", "temperature", "top_p", "max_output_tokens"] {
        assert_eq!(response[key], Value::Null);
    }
}

#[test]
fn failure_is_dated_by_the_clock() {
    let before = std::time::SystemTime::now().duration_since(std::time::UNIX_EPOCH).unwrap();
    let out = build_response_failed_sse(None, "c", "m", 400, "k");
    let after = std::time::SystemTime::now().duration_since(std::time::UNIX_EPOCH).unwrap();
    let events = events(std::str::from_utf8(&out).unwrap());
    let response = &events[2].1["response"];
    let created = response["created_at"].as_u64().unwrap();
    assert!(before.as_secs() <= created && created <= after.as_secs());
    let id = response["id"].as_str().unwrap().strip_prefix("resp_").unwrap();
    let nanos = u128::from_str_radix(id, 16).unwrap();
    assert!(before.as_nanos() <= nanos && nanos <= after.as_nanos());
}
