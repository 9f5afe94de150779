//! Which bearer tokens are ChatGPT's, and which of them is in use.

use vstd::prelude::*;
use vstd::string::*;

use crate::json;
use crate::json::Json;
use crate::text;

verus! {

/// The token of a value `Bearer <token>`: the scheme is read in any case, and the
/// whitespace around the value and the token does not count.
pub open spec fn bearer_token(value: Seq<char>) -> Option<Seq<char>> {
    match text::cut(text::trim(value), ' ') {
        Some((scheme, token)) => if text::lower(scheme) == text::lower("bearer"@) && text::trim(
            token,
        ).len() > 0 {
            Some(text::trim(token))
        } else {
            None
        },
        None => None,
    }
}

/// The token of an `Authorization: Bearer ...` value.
pub fn extract_bearer_token(value: &str) -> (token: Option<&str>)
    ensures
        text::str_chars(token) == bearer_token(value@),
{
    let trimmed = value.trim();
    let (scheme, token) = match text::split_once(trimmed, ' ') {
        Some(parts) => parts,
        None => {
            return None;
        },
    };
    if scheme.eq_ignore_ascii_case("bearer") {
        let token = token.trim();
        if token.is_empty() {
            None
        } else {
            Some(token)
        }
    } else {
        None
    }
}

/// Whether a token is a key of the transfer gateway: past the whitespace in front of
/// it, it starts with `cas_`.
pub open spec fn is_gateway_key(token: Seq<char>) -> bool {
    "cas_"@.is_prefix_of(text::trim_start(token))
}

/// Whether a token is a key of the transfer gateway, which is no ChatGPT token.
pub fn is_gateway_bearer(token: &str) -> (is: bool)
    ensures
        is == "cas_"@.is_prefix_of(text::trim_start(token@)),
        is == is_gateway_key(token@),
{
    text::starts_with(token.trim_start(), "cas_")
}

/// The payload of a token that consists of three segments between dots, of which
/// the second, the payload, and the third, the signature, are not empty.
pub open spec fn token_payload(token: Seq<char>) -> Option<Seq<char>> {
    match text::cut(token, '.') {
        Some((_, after_header)) => match text::cut(after_header, '.') {
            Some((payload, signature)) => if text::cut(signature, '.') is None && signature.len()
                > 0 && payload.len() > 0 {
                Some(payload)
            } else {
                None
            },
            None => None,
        },
        None => None,
    }
}

/// Whether the claims of a token name a ChatGPT account.
pub open spec fn names_account(claims: Json) -> bool {
    match json::text_of(
        json::field_of(json::field(claims, "https://api.openai.com/auth"@), "chatgpt_account_id"@),
    ) {
        Some(account) => text::trim(account).len() > 0,
        None => false,
    }
}

/// What base64 decodes a text to, with the alphabet for URLs and no padding;
/// nothing where it fails.
pub uninterp spec fn base64_url_decoded(text: Seq<char>) -> Option<Seq<u8>>;

/// `Engine::decode` of `base64::engine::general_purpose::URL_SAFE_NO_PAD`, with the
/// error dropped.
#[verifier::external_body]
fn decode_base64_url(text: &str) -> (bytes: Option<Vec<u8>>)
    ensures
        match bytes {
            Some(b) => base64_url_decoded(text@) == Some(b@),
            None => base64_url_decoded(text@) is None,
        },
{
    base64::Engine::decode(&base64::engine::general_purpose::URL_SAFE_NO_PAD, text).ok()
}

/// Whether a token is an access token of ChatGPT: a JWT whose claims name an
/// account.
pub open spec fn is_access_token(token: Seq<char>) -> bool {
    match token_payload(token) {
        Some(payload) => match base64_url_decoded(payload) {
            Some(raw) => match json::json_parsed_bytes(raw) {
                Ok(claims) => names_account(claims),
                Err(_) => false,
            },
            None => false,
        },
        None => false,
    }
}

/// The payload of a token of three segments.
pub fn jwt_payload(token: &str) -> (payload: Option<&str>)
    ensures
        text::str_chars(payload) == token_payload(token@),
{
    match text::split_once(token, '.') {
        Some((_, after_header)) => match text::split_once(after_header, '.') {
            Some((payload, signature)) => if text::split_once(signature, '.').is_none()
                && !signature.is_empty() && !payload.is_empty() {
                Some(payload)
            } else {
                None
            },
            None => None,
        },
        None => None,
    }
}

/// Whether the claims of a token name a ChatGPT account.
pub fn claims_name_account(claims: &serde_json::Value) -> (named: bool)
    ensures
        named == names_account(json::json_of(*claims)),
{
    let account: Option<&str> = match json::get(claims, "https://api.openai.com/auth") {
        Some(auth) => match json::get(auth, "chatgpt_account_id") {
            Some(entry) => entry.as_str(),
            None => None,
        },
        None => None,
    };
    match account {
        Some(account) => !account.trim().is_empty(),
        None => false,
    }
}

/// Whether a token is an access token of ChatGPT.
pub fn is_chatgpt_access_token(token: &str) -> (is: bool)
    ensures
        is == is_access_token(token@),
{
    let payload = match jwt_payload(token) {
        Some(payload) => payload,
        None => {
            return false;
        },
    };
    let raw = match decode_base64_url(payload) {
        Some(raw) => raw,
        None => {
            return false;
        },
    };
    match json::parse_bytes(raw.as_slice()) {
        Ok(claims) => claims_name_account(&claims),
        Err(_) => false,
    }
}

/// The access token that `auth.json` holds for ChatGPT: none where another way of
/// signing in is active.
pub open spec fn active_token(auth: Json) -> Option<Seq<char>> {
    if json::text_of(json::field(auth, "auth_mode"@)) == Some("chatgpt"@) {
        json::text_of(json::field_of(json::field(auth, "tokens"@), "access_token"@))
    } else {
        None
    }
}

/// Whether a token is the one that `auth.json` holds for ChatGPT, which is not
/// empty.
pub open spec fn is_active_token(auth: Json, token: Seq<char>) -> bool {
    token.len() > 0 && active_token(auth) == Some(token)
}

/// Whether a token is the one in use, by the text of `auth.json`: none is where
/// there is no such file, or it is no JSON.
pub open spec fn matches_auth_text(auth_json: Option<Seq<char>>, token: Seq<char>) -> bool {
    match auth_json {
        Some(content) => match json::json_parsed(content) {
            Some(auth) => is_active_token(auth, token),
            None => false,
        },
        None => false,
    }
}

/// Whether a token is the one that the content of `auth.json` holds for ChatGPT.
pub fn auth_holds_token(auth: &serde_json::Value, token: &str) -> (holds: bool)
    ensures
        holds == is_active_token(json::json_of(*auth), token@),
        holds <==> token@.len() > 0 && json::field(json::json_of(*auth), "auth_mode"@) == Some(
            Json::Text("chatgpt"@),
        ) && json::field_of(json::field(json::json_of(*auth), "tokens"@), "access_token"@) == Some(
            Json::Text(token@),
        ),
{
    let is_chatgpt = match json::get(auth, "auth_mode") {
        Some(mode) => match mode.as_str() {
            Some(mode) => text::same(mode, "chatgpt"),
            None => false,
        },
        None => false,
    };
    if !is_chatgpt {
        return false;
    }
    let active: Option<&str> = match json::get(auth, "tokens") {
        Some(tokens) => match json::get(tokens, "access_token") {
            Some(entry) => entry.as_str(),
            None => None,
        },
        None => None,
    };
    match active {
        Some(active) => !active.is_empty() && text::same(active, token),
        None => false,
    }
}

/// Whether a token is, to the letter, the one that Codex uses, by the text of its
/// `auth.json`.
pub fn token_matches_active_chatgpt(token: &str, auth_json: Option<&str>) -> (matches: bool)
    ensures
        matches == matches_auth_text(text::str_chars(auth_json), token@),
{
    match auth_json {
        Some(content) => match json::parse(content) {
            Some(auth) => auth_holds_token(&auth, token),
            None => false,
        },
        None => false,
    }
}

/// Whether a token is an access token of ChatGPT and the one in use, by the text of
/// `auth.json`.
pub open spec fn is_active_bearer(auth_json: Option<Seq<char>>, token: Seq<char>) -> bool {
    is_access_token(token) && matches_auth_text(auth_json, token)
}

/// Whether a token is an access token of ChatGPT and the one in use. To have the
/// shape of an access token is not enough.
pub fn is_active_chatgpt_bearer(token: &str, auth_json: Option<&str>) -> (is: bool)
    ensures
        is == (is_access_token(token@) && matches_auth_text(text::str_chars(auth_json), token@)),
        is == is_active_bearer(text::str_chars(auth_json), token@),
{
    is_chatgpt_access_token(token) && token_matches_active_chatgpt(token, auth_json)
}

/// Where `auth.json` is looked for.
pub enum AuthBase<D> {
    /// The directory that `CODEX_HOME` names.
    CodexHome(D),
    /// The directory `.codex` in the one that `HOME` names.
    UserHome(D),
}

/// Where `auth.json` is looked for, from the values of `CODEX_HOME` and `HOME`.
pub open spec fn base_from<D>(codex_home: Option<D>, home: Option<D>) -> Option<AuthBase<D>> {
    match (codex_home, home) {
        (Some(dir), _) => Some(AuthBase::CodexHome(dir)),
        (None, Some(dir)) => Some(AuthBase::UserHome(dir)),
        (None, None) => None,
    }
}

/// Where `auth.json` is looked for, from the values of `CODEX_HOME` and `HOME`:
/// the first one counts where both are set.
pub fn auth_base<D>(codex_home: Option<D>, home: Option<D>) -> (base: Option<AuthBase<D>>)
    ensures
        base == (match (codex_home, home) {
            (Some(dir), _) => Some(AuthBase::CodexHome(dir)),
            (None, Some(dir)) => Some(AuthBase::UserHome(dir)),
            (None, None) => None,
        }),
        base == base_from(codex_home, home),
{
    match codex_home {
        Some(dir) => Some(AuthBase::CodexHome(dir)),
        None => match home {
            Some(dir) => Some(AuthBase::UserHome(dir)),
            None => None,
        },
    }
}

/// Whatever the case of the scheme and the whitespace around it and the token, the
/// token of a bearer value is found.
pub proof fn law_bearer_token_is_found(
    before: Seq<char>,
    scheme: Seq<char>,
    gap: Seq<char>,
    token: Seq<char>,
    after: Seq<char>,
)
    requires
        text::is_blank(before),
        text::lower(scheme) == text::lower("bearer"@),
        text::is_blank(gap),
        token.len() > 0,
        text::is_trimmed(token),
        text::is_blank(after),
    ensures
        bearer_token(before + scheme + " "@ + gap + token + after) == Some(token),
{
    reveal_strlit("bearer");
    reveal_strlit(" ");
    let lowered = text::lower(scheme);
    assert(lowered.len() == 6);
    assert forall|i: int| 0 <= i < 6 implies !text::is_whitespace(#[trigger] scheme[i]) by {
        assert(lowered[i] == text::lower_char(scheme[i]));
        assert(lowered[i] == text::lower_char("bearer"@[i]));
    }
    let space = seq![' '];
    assert(" "@ =~= space);
    let credentials = scheme + space + (gap + token);
    assert(before + scheme + " "@ + gap + token + after =~= before + credentials + after);
    assert(credentials.last() == token.last());
    assert(credentials[0] == scheme[0]);
    text::lemma_trim_padded(before, credentials, after);
    assert(!scheme.contains(' '));
    text::lemma_cut_at(scheme, ' ', gap + token);
    assert(gap + token =~= gap + token + Seq::<char>::empty());
    text::lemma_trim_padded(gap, token, Seq::empty());
}

/// The token that is found is not empty, and no whitespace stands at its ends.
pub proof fn law_bearer_token_is_trimmed(value: Seq<char>)
    ensures
        bearer_token(value) matches Some(token) ==> token.len() > 0 && text::is_trimmed(token),
{
    if let Some((_, token)) = text::cut(text::trim(value), ' ') {
        text::lemma_trim_is_trimmed(token);
    }
}

/// At most one token is in use at a time.
pub proof fn law_one_active_token(
    auth_json: Option<Seq<char>>,
    token: Seq<char>,
    other: Seq<char>,
)
    requires
        matches_auth_text(auth_json, token),
        matches_auth_text(auth_json, other),
    ensures
        token == other,
{
}

/// A token that has no dots in it is never an access token of ChatGPT.
pub proof fn law_dotless_token_is_no_access_token(token: Seq<char>)
    requires
        !token.contains('.'),
    ensures
        !is_access_token(token),
{
    text::lemma_cut_none(token, '.');
}

/// A token is found only in a value that consists of the scheme `bearer`, in any
/// case, a space and that token, with nothing but whitespace around them.
pub proof fn law_only_bearer_tokens_are_found(value: Seq<char>) -> (parts: (
    Seq<char>,
    Seq<char>,
    Seq<char>,
    Seq<char>,
))
    ensures
        bearer_token(value) matches Some(token) ==> {
            let (before, scheme, gap, after) = parts;
            &&& value == before + scheme + " "@ + gap + token + after
            &&& text::is_blank(before)
            &&& text::lower(scheme) == "bearer"@
            &&& text::is_blank(gap)
            &&& text::is_blank(after)
        },
{
    reveal_strlit("bearer");
    reveal_strlit(" ");
    let trimmed = text::trim(value);
    let (before, after) = text::lemma_trim_splits(value);
    text::lemma_cut_splits(trimmed, ' ');
    match text::cut(trimmed, ' ') {
        Some((scheme, token)) => {
            let (gap, end) = text::lemma_trim_splits(token);
            assert(" "@ =~= seq![' ']);
            assert(text::lower("bearer"@) =~= "bearer"@);
            let tail = end + after;
            assert forall|i: int| 0 <= i < tail.len() implies text::is_whitespace(
                #[trigger] tail[i],
            ) by {
                if i < end.len() {
                    assert(tail[i] == end[i]);
                } else {
                    assert(tail[i] == after[i - end.len()]);
                }
            }
            assert(value =~= before + scheme + " "@ + gap + text::trim(token) + tail);
            (before, scheme, gap, tail)
        },
        None => (before, trimmed, after, after),
    }
}

/// A key of the gateway is whitespace, `cas_` and anything: whatever follows these
/// is a key, and nothing else is.
pub proof fn law_gateway_key_starts_with_cas(blank: Seq<char>, rest: Seq<char>, token: Seq<char>)
    requires
        text::is_blank(blank),
    ensures
        is_gateway_key(blank + "cas_"@ + rest),
        is_gateway_key(token) ==> exists|padding: Seq<char>, tail: Seq<char>|
            text::is_blank(padding) && token == #[trigger] (padding + "cas_"@ + tail),
{
    reveal_strlit("cas_");
    let key = "cas_"@ + rest;
    assert(blank + "cas_"@ + rest =~= blank + key);
    text::lemma_trim_start_padded(blank, key);
    assert("cas_"@.is_prefix_of(key));
    if is_gateway_key(token) {
        let padding = text::lemma_trim_start_splits(token);
        let tail = text::trim_start(token).skip(4);
        assert(text::trim_start(token) =~= "cas_"@ + tail);
        assert(token =~= padding + "cas_"@ + tail);
    }
}

/// The payload of a token is what stands between its two dots, where it has exactly
/// two, and neither the payload nor the signature behind it is empty.
pub proof fn law_payload_is_the_second_segment(
    header: Seq<char>,
    payload: Seq<char>,
    signature: Seq<char>,
)
    requires
        !header.contains('.'),
        !payload.contains('.'),
        !signature.contains('.'),
    ensures
        payload.len() > 0 && signature.len() > 0 ==> token_payload(
            header + "."@ + payload + "."@ + signature,
        ) == Some(payload),
        payload.len() == 0 || signature.len() == 0 ==> token_payload(
            header + "."@ + payload + "."@ + signature,
        ) is None,
{
    reveal_strlit(".");
    let dot = seq!['.'];
    assert("."@ =~= dot);
    let after_header = payload + dot + signature;
    assert(header + "."@ + payload + "."@ + signature =~= header + dot + after_header);
    text::lemma_cut_at(header, '.', after_header);
    text::lemma_cut_at(payload, '.', signature);
    text::lemma_cut_none(signature, '.');
}

/// A token that has a payload consists of three segments between dots.
pub proof fn law_payload_needs_three_segments(token: Seq<char>) -> (ends: (Seq<char>, Seq<char>))
    ensures
        token_payload(token) matches Some(payload) ==> {
            let (header, signature) = ends;
            &&& token == header + "."@ + payload + "."@ + signature
            &&& !header.contains('.')
            &&& !payload.contains('.')
            &&& !signature.contains('.')
            &&& payload.len() > 0
            &&& signature.len() > 0
        },
{
    reveal_strlit(".");
    assert("."@ =~= seq!['.']);
    text::lemma_cut_splits(token, '.');
    match text::cut(token, '.') {
        Some((header, after_header)) => {
            text::lemma_cut_splits(after_header, '.');
            match text::cut(after_header, '.') {
                Some((payload, signature)) => {
                    text::lemma_cut_splits(signature, '.');
                    assert(token =~= header + "."@ + payload + "."@ + signature);
                    (header, signature)
                },
                None => (header, after_header),
            }
        },
        None => (token, token),
    }
}

/// A JWT is an access token of ChatGPT exactly where its payload decodes to claims
/// whose entry `https://api.openai.com/auth` has a `chatgpt_account_id` that is a
/// string and not blank, whatever else the claims hold.
pub proof fn law_access_token_names_an_account(
    header: Seq<char>,
    payload: Seq<char>,
    signature: Seq<char>,
    raw: Seq<u8>,
    claims: Json,
)
    requires
        !header.contains('.'),
        !payload.contains('.'),
        !signature.contains('.'),
        payload.len() > 0,
        signature.len() > 0,
        base64_url_decoded(payload) == Some(raw),
        json::json_parsed_bytes(raw) == Ok::<Json, Seq<char>>(claims),
    ensures
        is_access_token(header + "."@ + payload + "."@ + signature) <==> (json::field_of(
            json::field(claims, "https://api.openai.com/auth"@),
            "chatgpt_account_id"@,
        ) matches Some(Json::Text(account)) && !text::is_blank(account)),
{
    law_payload_is_the_second_segment(header, payload, signature);
    if let Some(Json::Text(account)) = json::field_of(
        json::field(claims, "https://api.openai.com/auth"@),
        "chatgpt_account_id"@,
    ) {
        if text::is_blank(account) {
            text::lemma_trim_blank(account);
        } else if text::trim(account).len() == 0 {
            let (before, after) = text::lemma_trim_splits(account);
            assert forall|i: int| 0 <= i < account.len() implies text::is_whitespace(
                #[trigger] account[i],
            ) by {
                if i < before.len() {
                    assert(account[i] == before[i]);
                } else {
                    assert(account[i] == after[i - before.len()]);
                }
            }
        }
    }
}

/// What is no JWT, or has a payload that is no base64 or no JSON, is no access token
/// of ChatGPT.
pub proof fn law_access_token_can_be_read(token: Seq<char>)
    requires
        is_access_token(token),
    ensures
        exists|
            header: Seq<char>,
            payload: Seq<char>,
            signature: Seq<char>,
        |
            {
                &&& token == #[trigger] (header + "."@ + payload + "."@ + signature)
                &&& !header.contains('.')
                &&& !signature.contains('.')
                &&& payload.len() > 0
                &&& signature.len() > 0
                &&& base64_url_decoded(payload) matches Some(raw)
                &&& json::json_parsed_bytes(raw) is Ok
            },
{
    let (header, signature) = law_payload_needs_three_segments(token);
    let payload = token_payload(token)->Some_0;
    assert(token == header + "."@ + payload + "."@ + signature);
}

/// Where `auth.json` signs in by `chatgpt` and its `tokens` have an `access_token`
/// that is not empty, exactly that token is in use, whatever else it holds.
pub proof fn law_access_token_of_auth_json_is_in_use(
    content: Seq<char>,
    auth: Json,
    active: Seq<char>,
    token: Seq<char>,
)
    requires
        json::json_parsed(content) == Some(auth),
        json::field(auth, "auth_mode"@) == Some(Json::Text("chatgpt"@)),
        json::field_of(json::field(auth, "tokens"@), "access_token"@) == Some(Json::Text(active)),
        active.len() > 0,
    ensures
        matches_auth_text(Some(content), token) <==> token == active,
        is_active_bearer(Some(content), token) <==> token == active && is_access_token(active),
        is_active_token(auth, token) <==> token == active,
{
}

/// No token is in use where there is no `auth.json`, where it is no JSON, where it
/// signs in otherwise than by `chatgpt`, or where its `tokens` have no
/// `access_token` that is a string and not empty.
pub proof fn law_no_token_is_in_use_without_chatgpt(content: Seq<char>, token: Seq<char>)
    ensures
        !matches_auth_text(None, token),
        matches_auth_text(Some(content), token) ==> {
            &&& json::json_parsed(content) matches Some(auth)
            &&& json::field(auth, "auth_mode"@) == Some(Json::Text("chatgpt"@))
            &&& json::field_of(json::field(auth, "tokens"@), "access_token"@) == Some(
                Json::Text(token),
            )
            &&& token.len() > 0
        },
{
}

/// A token that is accepted as the one in use has passed both tests: the shape of an
/// access token, and to be the one that `auth.json` holds.
pub proof fn law_accepted_token_has_shape_and_matches(
    auth_json: Option<Seq<char>>,
    token: Seq<char>,
)
    ensures
        is_active_bearer(auth_json, token) ==> is_access_token(token) && matches_auth_text(
            auth_json,
            token,
        ),
        !is_active_bearer(auth_json, token) ==> !is_access_token(token) || !matches_auth_text(
            auth_json,
            token,
        ),
{
}

/// `CODEX_HOME` counts wherever it is set, `HOME` only where it is not, and without
/// both there is nowhere to look.
pub proof fn law_codex_home_counts_first<D>(dir: D, home: Option<D>, other: Option<D>)
    ensures
        base_from(Some(dir), home) == Some(AuthBase::CodexHome(dir)),
        base_from(Some(dir), home) == base_from(Some(dir), other),
        base_from(None, Some(dir)) == Some(AuthBase::UserHome(dir)),
        base_from(None::<D>, None) is None,
{
}

} // verus!
