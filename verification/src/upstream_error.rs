//! What an upstream error says: its message, its status and its kind, and the
//! message that the client gets to see.

use vstd::prelude::*;
use vstd::string::*;

use crate::json;
use crate::json::Json;
use crate::text;

verus! {

/// The most characters of an error message that the client gets to see.
pub const MAX_USER_ERROR_MESSAGE_CHARS: usize = 2_000;

/// The first of the entries of `json` under the three keys that is there.
pub open spec fn first_entry(
    json: Option<Json>,
    first: Seq<char>,
    second: Seq<char>,
    third: Seq<char>,
) -> Option<Json> {
    if json::field_of(json, first) is Some {
        json::field_of(json, first)
    } else if json::field_of(json, second) is Some {
        json::field_of(json, second)
    } else {
        json::field_of(json, third)
    }
}

/// The message of an error document: what its `error` says under `message`,
/// `error` or `detail`, and failing that what it says itself under `message` or
/// `detail`. An entry that is no string hides the ones after it.
pub open spec fn document_message(json: Json) -> Option<Seq<char>> {
    let inner = json::text_of(
        first_entry(json::field(json, "error"@), "message"@, "error"@, "detail"@),
    );
    if inner is Some {
        inner
    } else {
        json::text_of(first_entry(Some(json), "message"@, "detail"@, "detail"@))
    }
}

/// A status as text: a string as it is, an integer in decimal.
pub open spec fn status_of(json: Option<Json>) -> Option<Seq<char>> {
    match json {
        Some(Json::Text(status)) => Some(status),
        _ => match json::integer_within(json, i64::MIN as int, i64::MAX as int) {
            Some(n) => Some(text::signed_decimal(n)),
            None => None,
        },
    }
}

/// The status of an error document: what its `error` says under `status`, `type`
/// or `code`, and failing that what it says itself under these.
pub open spec fn document_status(json: Json) -> Option<Seq<char>> {
    let inner = status_of(first_entry(json::field(json, "error"@), "status"@, "type"@, "code"@));
    if inner is Some {
        inner
    } else {
        status_of(first_entry(Some(json), "status"@, "type"@, "code"@))
    }
}

/// The document that describes the error: the body itself where it is an object,
/// its first element where it is an array that has one.
pub open spec fn error_document(parsed: Json) -> Option<Json> {
    match parsed {
        Json::Object(_) => Some(parsed),
        Json::Array(elements) => if elements.len() > 0 {
            Some(elements[0])
        } else {
            None
        },
        _ => None,
    }
}

/// The message of an error body: that of its document, or the body itself,
/// trimmed, where it is not JSON and not blank.
pub open spec fn body_message(parsed: Option<Json>, raw_text: Seq<char>) -> Option<Seq<char>> {
    match parsed {
        Some(json) => match error_document(json) {
            Some(document) => document_message(document),
            None => None,
        },
        None => if text::trim(raw_text).len() == 0 {
            None
        } else {
            Some(text::trim(raw_text))
        },
    }
}

/// The status of an error body: that of its document.
pub open spec fn body_status(parsed: Option<Json>) -> Option<Seq<char>> {
    match parsed {
        Some(json) => match error_document(json) {
            Some(document) => document_status(document),
            None => None,
        },
        None => None,
    }
}

/// `s` in ASCII lower case, and the empty text where there is none.
pub open spec fn lower_or_empty(s: Option<Seq<char>>) -> Seq<char> {
    match s {
        Some(t) => text::lower(t),
        None => Seq::empty(),
    }
}

/// Whether an upstream that answers 429 says that a quota is used up.
pub open spec fn says_quota(status_text: Option<Seq<char>>, message: Option<Seq<char>>) -> bool {
    ||| lower_or_empty(status_text) == "resource_exhausted"@
    ||| text::has_part(lower_or_empty(message), "quota"@)
    ||| text::has_part(lower_or_empty(message), "resource_exhausted"@)
}

/// The kind of an upstream error.
pub open spec fn error_kind(
    status: u16,
    status_text: Option<Seq<char>>,
    message: Option<Seq<char>>,
) -> Seq<char> {
    if status == 400 {
        "bad_request"@
    } else if status == 401 {
        "auth_error"@
    } else if status == 403 {
        "permission_denied"@
    } else if status == 404 {
        "not_found"@
    } else if status == 405 {
        "method_not_allowed"@
    } else if status == 408 || status == 504 {
        "timeout"@
    } else if status == 429 {
        if says_quota(status_text, message) {
            "quota_exceeded"@
        } else {
            "rate_limited"@
        }
    } else if 500 <= status <= 599 {
        "server_error"@
    } else {
        "upstream_error"@
    }
}

/// The text `mark` where `present`, else nothing.
pub open spec fn when(present: bool, mark: Seq<char>) -> Seq<char> {
    if present {
        mark
    } else {
        Seq::empty()
    }
}

/// The message that reports an upstream error.
pub open spec fn error_message(
    status: u16,
    message: Option<Seq<char>>,
    transport_err: Option<Seq<char>>,
    truncated: bool,
    was_lossy: bool,
) -> Seq<char> {
    "Upstream error (HTTP "@ + text::decimal(status as nat) + ")"@ + (match message {
        Some(m) => ": "@ + m,
        None => Seq::empty(),
    }) + (match transport_err {
        Some(e) => " [transport error: "@ + e + "]"@,
        None => Seq::empty(),
    }) + when(truncated, " [body truncated]"@) + when(was_lossy, " [non-UTF-8 body]"@)
}

/// A message as the client gets to see it: cut off after the limit, with an
/// ellipsis in place of what is missing.
pub open spec fn user_message(message: Seq<char>) -> Seq<char> {
    if message.len() > MAX_USER_ERROR_MESSAGE_CHARS {
        message.take(MAX_USER_ERROR_MESSAGE_CHARS as int) + "\u{2026}"@
    } else {
        message
    }
}

fn present_entry<'a>(
    value: &'a serde_json::Value,
    first: &str,
    second: &str,
    third: &str,
) -> (entry: Option<&'a serde_json::Value>)
    ensures
        json::json_of_option(entry) == first_entry(
            Some(json::json_of(*value)),
            first@,
            second@,
            third@,
        ),
{
    match json::get(value, first) {
        Some(entry) => Some(entry),
        None => match json::get(value, second) {
            Some(entry) => Some(entry),
            None => json::get(value, third),
        },
    }
}

fn entry_text(entry: Option<&serde_json::Value>) -> (found: Option<String>)
    ensures
        text::string_chars(found) == json::text_of(json::json_of_option(entry)),
{
    match entry {
        Some(value) => match value.as_str() {
            Some(s) => Some(s.to_owned()),
            None => None,
        },
        None => None,
    }
}

fn entry_status(entry: Option<&serde_json::Value>) -> (found: Option<String>)
    ensures
        text::string_chars(found) == status_of(json::json_of_option(entry)),
{
    match entry {
        Some(value) => match value.as_str() {
            Some(s) => Some(s.to_owned()),
            None => match value.as_i64() {
                Some(n) => Some(text::signed_decimal_text(n)),
                None => None,
            },
        },
        None => None,
    }
}

fn extract_message(document: &serde_json::Value) -> (message: Option<String>)
    ensures
        text::string_chars(message) == document_message(json::json_of(*document)),
{
    let inner = match json::get(document, "error") {
        Some(error) => entry_text(present_entry(error, "message", "error", "detail")),
        None => None,
    };
    match inner {
        Some(message) => Some(message),
        None => entry_text(present_entry(document, "message", "detail", "detail")),
    }
}

fn extract_status(document: &serde_json::Value) -> (status: Option<String>)
    ensures
        text::string_chars(status) == document_status(json::json_of(*document)),
{
    let inner = match json::get(document, "error") {
        Some(error) => entry_status(present_entry(error, "status", "type", "code")),
        None => None,
    };
    match inner {
        Some(status) => Some(status),
        None => entry_status(present_entry(document, "status", "type", "code")),
    }
}

fn describing_document(parsed: &serde_json::Value) -> (document: Option<&serde_json::Value>)
    ensures
        json::json_of_option(document) == error_document(json::json_of(*parsed)),
{
    if parsed.is_object() {
        return Some(parsed);
    }
    match parsed.as_array() {
        Some(elements) => if elements.len() > 0 {
            Some(&elements[0])
        } else {
            None
        },
        None => None,
    }
}

/// The kind of an upstream error, from its HTTP status and, for a 429, from what
/// the upstream says.
pub fn infer_upstream_error_kind(
    status_u16: u16,
    upstream_status_text: Option<&str>,
    upstream_message: Option<&str>,
) -> (kind: String)
    ensures
        kind@ == error_kind(
            status_u16,
            text::str_chars(upstream_status_text),
            text::str_chars(upstream_message),
        ),
{
    let status_lower = match upstream_status_text {
        Some(s) => s.to_ascii_lowercase(),
        None => String::new(),
    };
    let message_lower = match upstream_message {
        Some(s) => s.to_ascii_lowercase(),
        None => String::new(),
    };
    if status_u16 == 400 {
        "bad_request".to_owned()
    } else if status_u16 == 401 {
        "auth_error".to_owned()
    } else if status_u16 == 403 {
        "permission_denied".to_owned()
    } else if status_u16 == 404 {
        "not_found".to_owned()
    } else if status_u16 == 405 {
        "method_not_allowed".to_owned()
    } else if status_u16 == 408 || status_u16 == 504 {
        "timeout".to_owned()
    } else if status_u16 == 429 {
        if text::same(status_lower.as_str(), "resource_exhausted") || text::contains(
            message_lower.as_str(),
            "quota",
        ) || text::contains(message_lower.as_str(), "resource_exhausted") {
            "quota_exceeded".to_owned()
        } else {
            "rate_limited".to_owned()
        }
    } else if 500 <= status_u16 && status_u16 <= 599 {
        "server_error".to_owned()
    } else {
        "upstream_error".to_owned()
    }
}

/// The message, the status and the kind of an upstream error, from its body,
/// parsed where it is JSON.
pub fn extract_upstream_error_fields(
    parsed: Option<&serde_json::Value>,
    raw_text: &str,
    status_u16: u16,
) -> (fields: (Option<String>, Option<String>, String))
    ensures
        ({
            let json = json::json_of_option(parsed);
            let message = body_message(json, raw_text@);
            &&& text::string_chars(fields.0) == message
            &&& text::string_chars(fields.1) == body_status(json)
            &&& fields.2@ == error_kind(status_u16, body_status(json), message)
        }),
        fields.2@ == error_kind(
            status_u16,
            text::string_chars(fields.1),
            text::string_chars(fields.0),
        ),
        parsed matches Some(value) ==> {
            let error = json::field(json::json_of(*value), "error"@);
            &&& json::field_of(error, "message"@) matches Some(Json::Text(m)) ==> (
            fields.0 matches Some(found) && found@ == m)
            &&& json::field_of(error, "status"@) matches Some(Json::Text(t)) ==> (
            fields.1 matches Some(found) && found@ == t)
        },
{
    let (message, status_text): (Option<String>, Option<String>) = match parsed {
        Some(value) => match describing_document(value) {
            Some(document) => (extract_message(document), extract_status(document)),
            None => (None, None),
        },
        None => {
            let trimmed = raw_text.trim();
            if trimmed.is_empty() {
                (None, None)
            } else {
                (Some(trimmed.to_owned()), None)
            }
        },
    };
    let kind = infer_upstream_error_kind(
        status_u16,
        text::as_text(&status_text),
        text::as_text(&message),
    );
    (message, status_text, kind)
}

/// The message that reports an upstream error.
pub fn build_error_message(
    status_u16: u16,
    upstream_message: Option<&str>,
    transport_err: Option<&str>,
    truncated: bool,
    was_lossy: bool,
) -> (msg: String)
    ensures
        msg@ == error_message(
            status_u16,
            text::str_chars(upstream_message),
            text::str_chars(transport_err),
            truncated,
            was_lossy,
        ),
{
    let mut msg = "Upstream error (HTTP ".to_owned();
    msg.append(text::decimal_text(status_u16 as u64).as_str());
    msg.append(")");
    if let Some(m) = upstream_message {
        msg.append(": ");
        msg.append(m);
    }
    if let Some(te) = transport_err {
        msg.append(" [transport error: ");
        msg.append(te);
        msg.append("]");
    }
    if truncated {
        msg.append(" [body truncated]");
    }
    if was_lossy {
        msg.append(" [non-UTF-8 body]");
    }
    assert(msg@ =~= error_message(
        status_u16,
        text::str_chars(upstream_message),
        text::str_chars(transport_err),
        truncated,
        was_lossy,
    ));
    msg
}

/// A message as the client gets to see it.
pub fn limit_user_message(message: String) -> (limited: String)
    ensures
        limited@ == user_message(message@),
{
    if message.as_str().unicode_len() > MAX_USER_ERROR_MESSAGE_CHARS {
        let mut limited = message.as_str().substring_char(
            0,
            MAX_USER_ERROR_MESSAGE_CHARS,
        ).to_owned();
        limited.append("\u{2026}");
        limited
    } else {
        message
    }
}

/// The client never gets to see more than the limit and an ellipsis, what it sees
/// begins as the message does, and a message within the limit is shown whole.
pub proof fn law_user_message_is_bounded(message: Seq<char>)
    ensures
        user_message(message).len() <= MAX_USER_ERROR_MESSAGE_CHARS + 1,
        message.len() <= MAX_USER_ERROR_MESSAGE_CHARS ==> user_message(message) == message,
        message.len() > MAX_USER_ERROR_MESSAGE_CHARS ==> message.take(
            MAX_USER_ERROR_MESSAGE_CHARS as int,
        ) == user_message(message).take(MAX_USER_ERROR_MESSAGE_CHARS as int),
{
    reveal_strlit("\u{2026}");
    if message.len() > MAX_USER_ERROR_MESSAGE_CHARS {
        assert(message.take(MAX_USER_ERROR_MESSAGE_CHARS as int) =~= user_message(message).take(
            MAX_USER_ERROR_MESSAGE_CHARS as int,
        ));
    }
}

/// What the upstream said, and why the connection broke, stand in the message that
/// reports the error.
pub proof fn law_error_message_is_complete(
    status: u16,
    message: Option<Seq<char>>,
    transport_err: Option<Seq<char>>,
    truncated: bool,
    was_lossy: bool,
)
    ensures
        ({
            let whole = error_message(status, message, transport_err, truncated, was_lossy);
            &&& ("Upstream error (HTTP "@ + text::decimal(status as nat) + ")"@).is_prefix_of(whole)
            &&& message matches Some(m) ==> text::has_part(whole, m)
            &&& transport_err matches Some(e) ==> text::has_part(whole, e)
        }),
{
    let whole = error_message(status, message, transport_err, truncated, was_lossy);
    let start = "Upstream error (HTTP "@ + text::decimal(status as nat) + ")"@;
    assert(start.is_prefix_of(whole));
    let said = match message {
        Some(m) => ": "@ + m,
        None => Seq::empty(),
    };
    if let Some(m) = message {
        let at = (start.len() + ": "@.len()) as int;
        assert(whole.subrange(at, at + m.len()) =~= m);
        assert(text::occurs_at(whole, m, at));
    }
    if let Some(e) = transport_err {
        let at = (start.len() + said.len() + " [transport error: "@.len()) as int;
        assert(whole.subrange(at, at + e.len()) =~= e);
        assert(text::occurs_at(whole, e, at));
    }
}

/// A 429 is a used-up quota where the upstream says so and a rate limit elsewhere,
/// and no other status is either.
pub proof fn law_quota_and_rate_limit(
    status: u16,
    status_text: Option<Seq<char>>,
    message: Option<Seq<char>>,
)
    ensures
        error_kind(status, status_text, message) == "quota_exceeded"@ <==> status == 429
            && says_quota(status_text, message),
        error_kind(status, status_text, message) == "rate_limited"@ <==> status == 429
            && !says_quota(status_text, message),
{
    reveal_strlit("bad_request");
    reveal_strlit("auth_error");
    reveal_strlit("permission_denied");
    reveal_strlit("not_found");
    reveal_strlit("method_not_allowed");
    reveal_strlit("timeout");
    reveal_strlit("quota_exceeded");
    reveal_strlit("rate_limited");
    reveal_strlit("server_error");
    reveal_strlit("upstream_error");
    assert("rate_limited"@[0] != "server_error"@[0]);
    assert("quota_exceeded"@[0] != "upstream_error"@[0]);
}

/// The message of an error body, be it a document or a list that begins with one.
/// The `message` of its `error` is the message where it is a string. An `error`
/// counts where there is no `message`, and a `detail` where there is neither.
/// Where these say nothing, the document's own `message` counts, and its `detail`
/// where it has none.
pub proof fn law_message_is_what_the_error_says(parsed: Json, document: Json, raw_text: Seq<char>)
    requires
        (document is Object && parsed == document) || (parsed matches Json::Array(elements)
            && elements.len() > 0 && elements[0] == document),
    ensures
        ({
            let said = body_message(Some(parsed), raw_text);
            let message = json::field_of(json::field(document, "error"@), "message"@);
            let error = json::field_of(json::field(document, "error"@), "error"@);
            let detail = json::field_of(json::field(document, "error"@), "detail"@);
            let own_message = json::field(document, "message"@);
            let own_detail = json::field(document, "detail"@);
            &&& message matches Some(Json::Text(t)) ==> said == Some(t)
            &&& message is None ==> (error matches Some(Json::Text(t)) ==> said == Some(t))
            &&& message is None && error is None ==> (detail matches Some(Json::Text(t)) ==> said
                == Some(t))
            &&& (!(message matches Some(Json::Text(_))) && (message is Some || (!(
            error matches Some(Json::Text(_))) && (error is Some || !(detail matches Some(
                Json::Text(_),
            )))))) ==> {
                &&& own_message matches Some(Json::Text(t)) ==> said == Some(t)
                &&& own_message is None ==> (own_detail matches Some(Json::Text(t)) ==> said
                    == Some(t))
                &&& said is Some ==> (own_message matches Some(Json::Text(_))) || (own_message is None
                    && own_detail matches Some(Json::Text(_)))
            }
        }),
{
}

/// Whether an entry can be no status: it is missing, or neither a string nor an
/// integer of 64 bits.
pub open spec fn says_no_status(entry: Option<Json>) -> bool {
    match entry {
        Some(Json::Text(_)) => false,
        Some(Json::Number(json::JsonNumber::Integer(n))) => !(-0x8000_0000_0000_0000 <= n
            <= 0x7fff_ffff_ffff_ffff),
        _ => true,
    }
}

/// The status of an error body, be it a document or a list that begins with one.
/// The `status` of its `error` is the status where it is a string or an integer,
/// whatever stands beside it. A `type` counts where there is no `status`, and a
/// `code` where there is neither. Where these say nothing, the same holds of the
/// document itself.
pub proof fn law_status_is_what_the_error_says(
    parsed: Json,
    document: Json,
    entry: Json,
    n: int,
    status: Seq<char>,
)
    requires
        (document is Object && parsed == document) || (parsed matches Json::Array(elements)
            && elements.len() > 0 && elements[0] == document),
        entry == Json::Text(status) || (entry == Json::Number(json::JsonNumber::Integer(n))
            && -0x8000_0000_0000_0000 <= n <= 0x7fff_ffff_ffff_ffff && status
            == text::signed_decimal(n)),
    ensures
        ({
            let said = body_status(Some(parsed));
            let status_entry = json::field_of(json::field(document, "error"@), "status"@);
            let type_entry = json::field_of(json::field(document, "error"@), "type"@);
            let code_entry = json::field_of(json::field(document, "error"@), "code"@);
            let own_status = json::field(document, "status"@);
            let own_type = json::field(document, "type"@);
            let own_code = json::field(document, "code"@);
            &&& status_entry == Some(entry) ==> said == Some(status)
            &&& status_entry is None && type_entry == Some(entry) ==> said == Some(status)
            &&& status_entry is None && type_entry is None && code_entry == Some(entry) ==> said
                == Some(status)
            &&& (says_no_status(status_entry) && (status_entry is Some || (says_no_status(
                type_entry,
            ) && (type_entry is Some || says_no_status(code_entry))))) ==> {
                &&& own_status == Some(entry) ==> said == Some(status)
                &&& own_status is None && own_type == Some(entry) ==> said == Some(status)
                &&& own_status is None && own_type is None && own_code == Some(entry) ==> said
                    == Some(status)
                &&& (says_no_status(own_status) && (own_status is Some || (says_no_status(own_type)
                    && (own_type is Some || says_no_status(own_code))))) ==> said is None
            }
        }),
{
}

/// JSON that is neither an object nor a list with an element says nothing, and
/// neither does a list that begins with anything but an object.
pub proof fn law_other_json_says_nothing(parsed: Json, raw_text: Seq<char>)
    requires
        !(parsed is Object),
        parsed matches Json::Array(elements) ==> elements.len() == 0 || !(elements[0] is Object),
    ensures
        body_message(Some(parsed), raw_text) is None,
        body_status(Some(parsed)) is None,
{
}

/// A body that is not JSON is its own message, without the whitespace around it,
/// and has no status; of whitespace alone there is no message either.
pub proof fn law_plain_body_is_the_message(before: Seq<char>, said: Seq<char>, after: Seq<char>)
    requires
        text::is_blank(before),
        text::is_trimmed(said),
        text::is_blank(after),
    ensures
        said.len() > 0 ==> body_message(None, before + said + after) == Some(said),
        said.len() == 0 ==> body_message(None, before + said + after) is None,
        body_status(None) is None,
{
    if said.len() > 0 {
        text::lemma_trim_padded(before, said, after);
    } else {
        let whole = before + said + after;
        assert forall|i: int| 0 <= i < whole.len() implies text::is_whitespace(
            #[trigger] whole[i],
        ) by {
            if i < before.len() {
                assert(whole[i] == before[i]);
            } else {
                assert(whole[i] == after[i - before.len()]);
            }
        }
        text::lemma_trim_blank(whole);
    }
}

/// The kind of an error by its status: those of the client have one each, a
/// timeout is one wherever it happened, a 429 is one of two, any other status of
/// the server is an error of the server, and the rest is of no special kind.
pub proof fn law_kind_by_status(
    status: u16,
    status_text: Option<Seq<char>>,
    message: Option<Seq<char>>,
)
    ensures
        ({
            let kind = error_kind(status, status_text, message);
            &&& status == 400 ==> kind == "bad_request"@
            &&& status == 401 ==> kind == "auth_error"@
            &&& status == 403 ==> kind == "permission_denied"@
            &&& status == 404 ==> kind == "not_found"@
            &&& status == 405 ==> kind == "method_not_allowed"@
            &&& status == 408 ==> kind == "timeout"@
            &&& status == 504 ==> kind == "timeout"@
            &&& status == 429 ==> kind == "quota_exceeded"@ || kind == "rate_limited"@
            &&& 500 <= status <= 599 && status != 504 ==> kind == "server_error"@
            &&& (status < 400 || status == 402 || status == 406 || status == 407 || 409 <= status
                <= 428 || 430 <= status <= 499 || status >= 600) ==> kind == "upstream_error"@
        }),
{
}

/// A 429 is a used-up quota exactly where its status is `resource_exhausted`, or its
/// message speaks of that or of a quota, in any case; elsewhere it is a rate limit.
pub proof fn law_used_up_quota_is_told(status_text: Option<Seq<char>>, message: Option<Seq<char>>)
    ensures
        ({
            let kind = error_kind(429, status_text, message);
            let by_status = status_text matches Some(t) && text::lower(t)
                == "resource_exhausted"@;
            let by_quota = message matches Some(m) && text::has_part(text::lower(m), "quota"@);
            let by_message = message matches Some(m) && text::has_part(
                text::lower(m),
                "resource_exhausted"@,
            );
            &&& by_status || by_quota || by_message ==> kind == "quota_exceeded"@
            &&& !by_status && !by_quota && !by_message ==> kind == "rate_limited"@
        }),
{
    reveal_strlit("resource_exhausted");
    reveal_strlit("quota");
    let nothing = Seq::<char>::empty();
    assert(!text::has_part(nothing, "quota"@));
    assert(!text::has_part(nothing, "resource_exhausted"@));
    assert("resource_exhausted"@.len() == 18);
}

/// A 429 whose body has an `error` with the status `RESOURCE_EXHAUSTED`, in any case,
/// is a used-up quota, whatever else the body says.
pub proof fn law_exhausted_resource_is_a_used_up_quota(
    document: Json,
    status: Seq<char>,
    raw_text: Seq<char>,
)
    requires
        json::field_of(json::field(document, "error"@), "status"@) == Some(Json::Text(status)),
        text::lower(status) == "resource_exhausted"@,
    ensures
        error_kind(429, body_status(Some(document)), body_message(Some(document), raw_text))
            == "quota_exceeded"@,
{
    law_status_is_what_the_error_says(document, document, Json::Text(status), 0, status);
    law_used_up_quota_is_told(Some(status), body_message(Some(document), raw_text));
}

/// The case of what the upstream says makes no difference to the kind of the error.
pub proof fn law_kind_ignores_case(
    status: u16,
    status_text: Seq<char>,
    message: Seq<char>,
    other_status_text: Seq<char>,
    other_message: Seq<char>,
)
    requires
        text::lower(status_text) == text::lower(other_status_text),
        text::lower(message) == text::lower(other_message),
    ensures
        error_kind(status, Some(status_text), Some(message)) == error_kind(
            status,
            Some(other_status_text),
            Some(other_message),
        ),
{
}

/// How the message that reports an error is put together: the HTTP status, what the
/// upstream said, why the connection broke, that the body was truncated and that it
/// was no UTF-8, each of them only where it holds.
pub proof fn law_error_message_by_parts(
    status: u16,
    message: Seq<char>,
    said: Option<Seq<char>>,
    transport_err: Seq<char>,
    broken: Option<Seq<char>>,
    truncated: bool,
)
    ensures
        error_message(status, None, None, false, false) == "Upstream error (HTTP "@ + text::decimal(
            status as nat,
        ) + ")"@,
        error_message(status, Some(message), None, false, false) == error_message(
            status,
            None,
            None,
            false,
            false,
        ) + ": "@ + message,
        error_message(status, said, Some(transport_err), false, false) == error_message(
            status,
            said,
            None,
            false,
            false,
        ) + " [transport error: "@ + transport_err + "]"@,
        error_message(status, said, broken, true, false) == error_message(
            status,
            said,
            broken,
            false,
            false,
        ) + " [body truncated]"@,
        error_message(status, said, broken, truncated, true) == error_message(
            status,
            said,
            broken,
            truncated,
            false,
        ) + " [non-UTF-8 body]"@,
{
    assert(error_message(status, None, None, false, false) =~= "Upstream error (HTTP "@
        + text::decimal(status as nat) + ")"@);
    assert(error_message(status, Some(message), None, false, false) =~= error_message(
        status,
        None,
        None,
        false,
        false,
    ) + ": "@ + message);
    assert(error_message(status, said, Some(transport_err), false, false) =~= error_message(
        status,
        said,
        None,
        false,
        false,
    ) + " [transport error: "@ + transport_err + "]"@);
    assert(error_message(status, said, broken, true, false) =~= error_message(
        status,
        said,
        broken,
        false,
        false,
    ) + " [body truncated]"@);
    assert(error_message(status, said, broken, truncated, true) =~= error_message(
        status,
        said,
        broken,
        truncated,
        false,
    ) + " [non-UTF-8 body]"@);
}

/// A message of more than 2000 characters is shown by its first 2000 and an
/// ellipsis, any other as it is.
pub proof fn law_long_message_is_cut(message: Seq<char>, more: Seq<char>)
    requires
        message.len() == 2_000,
    ensures
        user_message(message) == message,
        more.len() > 0 ==> user_message(message + more) == message.push('\u{2026}'),
        more.len() <= 2_000 ==> user_message(more) == more,
{
    reveal_strlit("\u{2026}");
    assert((message + more).take(2_000) =~= message);
    if more.len() > 0 {
        assert(user_message(message + more) =~= message.push('\u{2026}'));
    }
}

} // verus!
