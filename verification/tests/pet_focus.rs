use codex_transfer::cdp::{
    drain_until_response, inject_into_target, judge_reply, locate_avatar_overlay_ws_urls, make_msg,
    page_list_answered, page_list_failed, page_list_ready, wait_is_over, Arrival, Command,
    Injection,
};
use codex_transfer::pet_focus::{
    anti_focus_script, apply_if_enabled, apply_patch, avatar_overlay_ws_urls,
    suppress_pet_focus_steal_enabled, suppress_pet_focus_steal_enabled_from_registry, PatchPhase,
};
use codex_transfer::text::{decimal_text, hexadecimal_text, signed_decimal_text};
use serde_json::Value;

fn parse(text: &str) -> Value {
    serde_json::from_str(text).unwrap()
}

#[test]
fn setting_defaults_to_enabled() {
    assert!(suppress_pet_focus_steal_enabled(&parse("{}")));
    let enabled = parse(r#"{"suppressCodexPetFocusSteal": true}"#);
    assert!(suppress_pet_focus_steal_enabled(&enabled));
    let disabled = parse(r#"{"suppressCodexPetFocusSteal": false}"#);
    assert!(!suppress_pet_focus_steal_enabled(&disabled));
}

#[test]
fn registry_leaves_the_script_on_unless_it_says_otherwise() {
    let enabled = |s: &str| suppress_pet_focus_steal_enabled_from_registry(Some(&parse(s)));
    assert!(suppress_pet_focus_steal_enabled_from_registry(None));
    assert!(enabled("{}"));
    assert!(enabled(r#"{"settings":{"suppressCodexPetFocusSteal":"false"}}"#));
    assert!(enabled(r#"{"suppressCodexPetFocusSteal":false}"#));
    assert!(!enabled(r#"{"settings":{"suppressCodexPetFocusSteal":false}}"#));
}

#[test]
fn avatar_overlay_filter_only_returns_overlay_pages() {
    let pages = parse(
        r#"[
            {"type":"page","url":"file:///index.html","webSocketDebuggerUrl":"ws://main"},
            {"type":"page","url":"file:///index.html#avatar-overlay","webSocketDebuggerUrl":"ws://overlay"},
            {"type":"iframe","url":"avatar-overlay","webSocketDebuggerUrl":"ws://iframe"},
            {"type":"page","url":"avatar-overlay"}
        ]"#,
    );
    let urls = avatar_overlay_ws_urls(pages.as_array().unwrap());
    assert_eq!(urls, vec!["ws://overlay"]);
}

#[test]
fn overlay_pages_keep_their_order() {
    let pages = parse(
        r#"[
            {"type":"page","url":"avatar-overlay/2","webSocketDebuggerUrl":"ws://2"},
            {"type":"page","webSocketDebuggerUrl":"ws://no-url"},
            {"type":"page","url":"avatar-overlay/1","webSocketDebuggerUrl":"ws://1"}
        ]"#,
    );
    assert_eq!(avatar_overlay_ws_urls(pages.as_array().unwrap()), vec!["ws://2", "ws://1"]);
}

#[test]
fn script_contains_focus_and_ipc_patches() {
    let script = anti_focus_script();
    assert!(script.contains("__codexAppTransferPetFocusPatchV1"));
    assert!(script.contains("window.focus"));
    assert!(script.contains("ipcRenderer"));
    assert!(script.contains("focus|activate"));
}

#[test]
fn script_that_is_off_goes_nowhere() {
    let off = parse(r#"{"settings":{"suppressCodexPetFocusSteal":false}}"#);
    assert!(matches!(apply_if_enabled(Some(&off)), PatchPhase::Done(Ok(0))));
    assert!(matches!(apply_if_enabled(None), PatchPhase::Locating));
}

#[test]
fn every_page_gets_a_turn() {
    assert!(matches!(apply_patch(Ok(vec![])), PatchPhase::Done(Ok(0))));
    match apply_patch(Err("e".into())) {
        PatchPhase::Done(Err(e)) => assert_eq!(e, "e"),
        _ => panic!("not over"),
    }
    let targets = vec!["a".to_owned(), "b".to_owned(), "c".to_owned()];
    let mut phase = apply_patch(Ok(targets));
    for (target, injected) in [("a", true), ("b", false), ("c", true)] {
        phase = match phase {
            PatchPhase::Injecting(run) => {
                assert_eq!(run.current(), target);
                run.record(injected)
            }
            _ => panic!("over too soon"),
        };
    }
    assert!(matches!(phase, PatchPhase::Done(Ok(2))));
}

#[test]
fn page_list_needs_a_port_and_a_success() {
    assert_eq!(page_list_ready(0), Err("CDP port not ready".to_owned()));
    assert_eq!(page_list_ready(9_222), Ok(()));
    assert_eq!(page_list_answered(204), Ok(()));
    assert_eq!(
        page_list_answered(404),
        Err("CDP /json/list returned 404 Not Found".to_owned())
    );
    assert_eq!(
        page_list_answered(999),
        Err("CDP /json/list returned 999 <unknown status code>".to_owned())
    );
    assert_eq!(page_list_failed("refused"), "CDP /json/list request failed: refused");
}

#[test]
fn page_list_yields_the_overlay() {
    let page = parse(r#"{"type":"page","url":"avatar-overlay","webSocketDebuggerUrl":"ws://x"}"#);
    assert_eq!(locate_avatar_overlay_ws_urls(Ok(vec![page])), Ok(vec!["ws://x".to_owned()]));
    assert_eq!(
        locate_avatar_overlay_ws_urls(Err("eof".into())),
        Err("CDP /json/list JSON parse failed: eof".to_owned())
    );
}

#[test]
fn message_has_id_method_and_params() {
    let (text, id) = make_msg(12, "A.b", parse(r#"{"x": [1]}"#));
    assert_eq!(text, r#"{"id":12,"method":"A.b","params":{"x":[1]}}"#);
    assert_eq!(id, 12);
}

#[test]
fn commands_carry_the_script() {
    assert_eq!(Command::EnablePage.text(), r#"{"id":1,"method":"Page.enable","params":{}}"#);
    let add = parse(&Command::AddScript.text());
    assert_eq!(add["id"], 2);
    assert_eq!(add["method"], "Page.addScriptToEvaluateOnNewDocument");
    assert_eq!(add["params"]["source"], anti_focus_script());
    assert_eq!(add["params"].as_object().unwrap().len(), 1);
    let evaluate = parse(&Command::Evaluate.text());
    assert_eq!(evaluate["id"], Command::Evaluate.id());
    assert_eq!(evaluate["method"], "Runtime.evaluate");
    assert_eq!(evaluate["params"]["expression"], anti_focus_script());
    assert_eq!(evaluate["params"]["returnByValue"], true);
}

#[test]
fn injection_goes_step_by_step() {
    let mut step = Injection::Connect;
    let mut sent = Vec::new();
    let mut awaited = Vec::new();
    let mut steps = 0;
    loop {
        match &step {
            Injection::Send(command) => sent.push(command.id()),
            Injection::Await(command) => awaited.push(command.id()),
            Injection::Done(_) => break,
            _ => {}
        }
        steps += 1;
        step = inject_into_target(step, Ok(()));
    }
    assert!(matches!(step, Injection::Done(Ok(()))));
    assert_eq!(steps, 8);
    assert_eq!(sent, vec![1, 2, 3]);
    assert_eq!(awaited, vec![1, 2, 3]);
}

#[test]
fn injection_ends_with_the_first_failure() {
    let fail = |step| match inject_into_target(step, Err("x".into())) {
        Injection::Done(Err(e)) => e,
        _ => panic!("goes on"),
    };
    assert_eq!(fail(Injection::Connect), "CDP websocket connect failed: x");
    assert_eq!(fail(Injection::Send(Command::EnablePage)), "CDP Page.enable send failed: x");
    assert_eq!(fail(Injection::Send(Command::AddScript)), "CDP addScript send failed: x");
    assert_eq!(fail(Injection::Send(Command::Evaluate)), "CDP Runtime.evaluate send failed: x");
    assert_eq!(fail(Injection::Await(Command::AddScript)), "x");
    assert!(matches!(
        inject_into_target(Injection::Close, Err("x".into())),
        Injection::Done(Ok(()))
    ));
}

fn arrived(text: &str) -> Option<Result<(), String>> {
    drain_until_response(5, Arrival::Text(text.to_owned()))
}

#[test]
fn only_the_reply_decides() {
    assert_eq!(arrived("no json"), None);
    assert_eq!(arrived(r#"{"method":"Page.loaded"}"#), None);
    assert_eq!(arrived(r#"{"id":4,"error":1}"#), None);
    assert_eq!(arrived(r#"{"id":"5"}"#), None);
    assert_eq!(arrived(r#"{"id":5.0}"#), None);
    assert_eq!(arrived(r#"{"id":5}"#), Some(Ok(())));
    assert_eq!(arrived(r#"{"id":5,"result":{"value":1}}"#), Some(Ok(())));
    assert_eq!(drain_until_response(5, Arrival::Idle), None);
    assert_eq!(drain_until_response(5, Arrival::Other), None);
}

#[test]
fn errors_of_a_reply_are_passed_on() {
    let err = |s: &str| Some(Err(s.to_owned()));
    assert_eq!(
        arrived(r#"{"id":5,"error":{"code":-32000, "message":"no"}}"#),
        err(r#"CDP error for id=5: {"code":-32000,"message":"no"}"#)
    );
    assert_eq!(arrived(r#"{"id":5,"error":null}"#), err("CDP error for id=5: null"));
    assert_eq!(
        arrived(r#"{"id":5,"result":{"exceptionDetails":{"text":"Uncaught"}}}"#),
        err(r#"CDP exception for id=5: {"text":"Uncaught"}"#)
    );
    assert_eq!(
        drain_until_response(5, Arrival::DeadlinePassed),
        err("CDP response timeout for id=5")
    );
    assert_eq!(drain_until_response(5, Arrival::Failed("io".into())), err("CDP read error: io"));
    assert_eq!(drain_until_response(5, Arrival::Closed), err("CDP connection closed"));
    assert_eq!(judge_reply(7, &parse(r#"{"id":7}"#)), Some(Ok(())));
}

#[test]
fn unanswered_command_times_out_after_eight_seconds() {
    assert!(!wait_is_over(0));
    assert!(!wait_is_over(8_000));
    assert!(wait_is_over(8_001));
    assert!(wait_is_over(u64::MAX));
    let mut waited = 0;
    let outcome = loop {
        let arrival = if wait_is_over(waited) {
            Arrival::DeadlinePassed
        } else if waited % 1_000 == 0 {
            Arrival::Text(r#"{"id":6,"result":{}}"#.to_owned())
        } else {
            Arrival::Idle
        };
        if let Some(outcome) = drain_until_response(5, arrival) {
            break outcome;
        }
        waited += 500;
    };
    assert_eq!(outcome, Err("CDP response timeout for id=5".to_owned()));
    assert_eq!(waited, 8_500);
}

#[test]
fn numbers_are_written_as_std_writes_them() {
    for n in [0, 9, 10, 16, 255, 256, 65_535, u64::MAX] {
        assert_eq!(decimal_text(n), n.to_string());
        assert_eq!(hexadecimal_text(n as u128), format!("{n:x}"));
    }
    assert_eq!(hexadecimal_text(u128::MAX), format!("{:x}", u128::MAX));
    for n in [i64::MIN, -10, -1, 0, 1, i64::MAX] {
        assert_eq!(signed_decimal_text(n), n.to_string());
    }
}
