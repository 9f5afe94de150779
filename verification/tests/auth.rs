use base64::Engine;
use codex_transfer::chatgpt_auth::{
    auth_base, auth_holds_token, claims_name_account, extract_bearer_token,
    is_active_chatgpt_bearer, is_chatgpt_access_token, is_gateway_bearer, jwt_payload,
    token_matches_active_chatgpt, AuthBase,
};

fn encode(payload: &str) -> String {
    base64::engine::general_purpose::URL_SAFE_NO_PAD.encode(payload)
}

fn chatgpt_jwt(account_id: &str) -> String {
    let payload =
        format!(r#"{{"https://api.openai.com/auth":{{"chatgpt_account_id":"{account_id}"}}}}"#);
    let p = encode(&payload);
    format!("eyJhbGciOiJub25lIn0.{p}.sig")
}

#[test]
fn extracts_bearer_token_case_insensitively() {
    assert_eq!(extract_bearer_token("Bearer abc"), Some("abc"));
    assert_eq!(extract_bearer_token("bearer   abc  "), Some("abc"));
    assert_eq!(extract_bearer_token("Basic abc"), None);
    assert_eq!(extract_bearer_token("abc"), None);
}

#[test]
fn bearer_token_is_trimmed_and_not_empty() {
    assert_eq!(extract_bearer_token("\t BEARER \u{3000}a b\n"), Some("a b"));
    assert_eq!(extract_bearer_token("Bearer "), None);
    assert_eq!(extract_bearer_token("Bearer\tabc"), None);
    assert_eq!(extract_bearer_token("Bearerx abc"), None);
    assert_eq!(extract_bearer_token(""), None);
}

#[test]
fn whitespace_is_that_of_unicode() {
    for code in 0..=0x10_ffff_u32 {
        if let Some(c) = char::from_u32(code) {
            let listed = matches!(
                code,
                0x9..=0xd | 0x20 | 0x85 | 0xa0 | 0x1680 | 0x2000..=0x200a | 0x2028 | 0x2029
                    | 0x202f | 0x205f | 0x3000
            );
            let value = format!("{c}cas_");
            assert_eq!(is_gateway_bearer(&value), listed || value.starts_with("cas_"));
        }
    }
}

#[test]
fn gateway_bearer_is_cas_prefix_only() {
    assert!(is_gateway_bearer("cas_test"));
    assert!(!is_gateway_bearer("sk-test"));
    assert!(!is_gateway_bearer(&chatgpt_jwt("acc_test")));
}

#[test]
fn gateway_key_may_follow_whitespace() {
    assert!(is_gateway_bearer(" \ncas_"));
    assert!(!is_gateway_bearer("CAS_test"));
    assert!(!is_gateway_bearer("cas"));
    assert!(!is_chatgpt_access_token("cas_test"));
}

#[test]
fn active_chatgpt_bearer_requires_local_auth_match() {
    let active = chatgpt_jwt("acc_test");
    let content = format!(
        r#"{{"auth_mode":"chatgpt","tokens":{{"access_token":"{active}","refresh_token":"rt"}}}}"#
    );
    let auth = Some(content.as_str());
    assert!(is_active_chatgpt_bearer(&active, auth));
    assert!(!is_active_chatgpt_bearer(&chatgpt_jwt("acc_other"), auth));
    assert!(!is_active_chatgpt_bearer("cas_test", auth));
}

#[test]
fn access_token_has_three_segments_and_an_account() {
    let good = chatgpt_jwt("acc");
    assert!(is_chatgpt_access_token(&good));
    assert!(!is_chatgpt_access_token(&chatgpt_jwt("  ")));
    assert!(!is_chatgpt_access_token(&format!("{good}.more")));
    assert!(!is_chatgpt_access_token(good.trim_end_matches("sig")));
    assert!(!is_chatgpt_access_token("h..sig"));
    assert!(!is_chatgpt_access_token("h.!!!.sig"));
    assert!(!is_chatgpt_access_token(&format!("h.{}.sig", encode("not json"))));
    assert!(!is_chatgpt_access_token(&format!("h.{}.sig", encode("{}"))));
    assert!(!is_chatgpt_access_token(&format!("h.{}=.sig", encode("{\"a\":1}"))));
    let payload = r#"{"https://api.openai.com/auth":{"chatgpt_account_id":"a"}}"#;
    assert!(is_chatgpt_access_token(&format!(".{}.s", encode(payload))));
}

#[test]
fn payload_is_the_middle_segment() {
    assert_eq!(jwt_payload("a.b.c"), Some("b"));
    assert_eq!(jwt_payload(".b.c"), Some("b"));
    assert_eq!(jwt_payload("a.b."), None);
    assert_eq!(jwt_payload("a.b"), None);
    assert_eq!(jwt_payload("a.b.c.d"), None);
}

#[test]
fn claims_without_a_text_name_no_account() {
    let claims = |s: &str| serde_json::from_str::<serde_json::Value>(s).unwrap();
    assert!(claims_name_account(&claims(
        r#"{"https://api.openai.com/auth":{"chatgpt_account_id":" a "}}"#
    )));
    assert!(!claims_name_account(&claims(
        r#"{"https://api.openai.com/auth":{"chatgpt_account_id":5}}"#
    )));
    assert!(!claims_name_account(&claims(r#"{"https://api.openai.com/auth":"a"}"#)));
}

#[test]
fn only_the_token_of_chatgpt_is_active() {
    let matches = |content: &str, token: &str| token_matches_active_chatgpt(token, Some(content));
    assert!(matches(r#"{"auth_mode":"chatgpt","tokens":{"access_token":"t"}}"#, "t"));
    assert!(!matches(r#"{"auth_mode":"chatgpt","tokens":{"access_token":"t"}}"#, "T"));
    assert!(!matches(r#"{"auth_mode":"apikey","tokens":{"access_token":"t"}}"#, "t"));
    assert!(!matches(r#"{"tokens":{"access_token":"t"}}"#, "t"));
    assert!(!matches(r#"{"auth_mode":"chatgpt","tokens":{"access_token":""}}"#, ""));
    assert!(!matches(r#"{"auth_mode":"chatgpt"}"#, "t"));
    assert!(!matches("no json", "t"));
    assert!(!token_matches_active_chatgpt("t", None));
    let auth = serde_json::from_str(r#"{"auth_mode":"chatgpt","tokens":{"access_token":"t"}}"#);
    assert!(auth_holds_token(&auth.unwrap(), "t"));
}

#[test]
fn codex_home_goes_before_home() {
    assert!(matches!(auth_base(Some("c"), Some("h")), Some(AuthBase::CodexHome("c"))));
    assert!(matches!(auth_base(Some("c"), None), Some(AuthBase::CodexHome("c"))));
    assert!(matches!(auth_base(None, Some("h")), Some(AuthBase::UserHome("h"))));
    assert!(auth_base::<&str>(None, None).is_none());
}
