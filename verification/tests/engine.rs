use pam_zoftoken::config::Config;
use pam_zoftoken::engine::{
    begin, classify, conclude, decide, finish, identify, interpret, is_exempt, step, Action,
    AuthRequest, Event, QueryOutcome, State, TokenStatusResponse, Transition,
};
use pam_zoftoken::error::AuthError;
use pam_zoftoken::log::{
    bad_status_detail, bypass_message, closed_message, failure_message, gate, open_message,
    url_message,
};
use pam_zoftoken::verdict::Verdict;

fn config(no_2fa_user: &str, debug: bool) -> Config {
    Config::new(
        "ssh".to_string(),
        "k1".to_string(),
        "auth.example.com".to_string(),
        no_2fa_user.to_string(),
        debug,
    )
}

fn request(user: &str) -> AuthRequest {
    AuthRequest { user: user.to_string() }
}

fn directives(raw: &[&str]) -> Vec<String> {
    raw.iter().map(|s| s.to_string()).collect()
}

fn answered(http_status: u16, status: i32) -> QueryOutcome {
    QueryOutcome::Answered { http_status, response: TokenStatusResponse { status } }
}

fn finished(verdict: Verdict, log: Option<&str>) -> Transition {
    Transition {
        next: State::Finished { verdict },
        action: Action::Finish { verdict },
        log: log.map(|s| s.to_string()),
    }
}

const ALICE_URL: &str = "https://auth.example.com/token/status?id=alice&service=ssh&authKey=k1";

#[test]
fn gate_passes_enabled_messages_only() {
    assert_eq!(gate("line".to_string(), true), Some("line".to_string()));
    assert_eq!(gate("line".to_string(), false), None);
}

#[test]
fn messages_have_their_fixed_wording() {
    assert_eq!(open_message(), "[zoftoken]: OK");
    assert_eq!(closed_message(), "[zoftoken]: Error token closed");
    assert_eq!(bypass_message("root"), "[zoftoken]: no_2fa_user logged in: root");
    assert_eq!(url_message("https://h/"), "[zoftoken]: url: https://h/");
    assert_eq!(failure_message("timed out"), "Error: timed out");
    assert_eq!(bad_status_detail(), "remote service answered with an unsuccessful HTTP status");
}

#[test]
fn finish_ends_with_the_verdict() {
    assert_eq!(finish(Verdict::Success, None), finished(Verdict::Success, None));
    assert_eq!(
        finish(Verdict::Deny, Some("why".to_string())),
        finished(Verdict::Deny, Some("why"))
    );
}

#[test]
fn identify_takes_the_named_user() {
    assert_eq!(identify(Some("alice".to_string())), Ok(request("alice")));
    assert_eq!(identify(Some(String::new())), Ok(request("")));
}

#[test]
fn identify_fails_without_a_user() {
    assert_eq!(identify(None), Err(AuthError::IdentityUnavailable));
}

#[test]
fn exemption_needs_an_exact_match() {
    assert!(is_exempt(&config("svc-deploy", false), &request("svc-deploy")));
    assert!(!is_exempt(&config("svc-deploy", false), &request("Svc-Deploy")));
    assert!(!is_exempt(&config("svc-deploy", false), &request("svc-deploy ")));
    assert!(!is_exempt(&config("svc-deploy", false), &request("svc")));
    assert!(!is_exempt(&config("svc-deploy", false), &request("")));
}

#[test]
fn no_exemption_configured_exempts_nobody() {
    assert!(!is_exempt(&config("", false), &request("")));
    assert!(!is_exempt(&config("", false), &request("alice")));
}

#[test]
fn decide_ignores_the_exempt_user() {
    assert_eq!(
        decide(&config("svc-deploy", false), &request("svc-deploy")),
        finished(Verdict::Ignore, None)
    );
    assert_eq!(
        decide(&config("svc-deploy", true), &request("svc-deploy")),
        finished(Verdict::Ignore, Some("[zoftoken]: no_2fa_user logged in: svc-deploy"))
    );
}

#[test]
fn decide_queries_for_every_other_user() {
    assert_eq!(
        decide(&config("svc-deploy", false), &request("alice")),
        Transition {
            next: State::QueryInFlight { debug: false },
            action: Action::Query { url: ALICE_URL.to_string(), timeout_secs: 10 },
            log: None,
        }
    );
    assert_eq!(
        decide(&config("", true), &request("alice")),
        Transition {
            next: State::QueryInFlight { debug: true },
            action: Action::Query { url: ALICE_URL.to_string(), timeout_secs: 10 },
            log: Some(format!("[zoftoken]: url: {}", ALICE_URL)),
        }
    );
}

#[test]
fn decide_queries_for_the_empty_user_when_nobody_is_exempt() {
    let transition = decide(&config("", false), &request(""));
    assert_eq!(
        transition.action,
        Action::Query {
            url: "https://auth.example.com/token/status?id=&service=ssh&authKey=k1".to_string(),
            timeout_secs: 10,
        }
    );
}

#[test]
fn begin_denies_when_a_required_directive_is_missing() {
    for given in [
        directives(&["auth_key=k1", "host=auth.example.com"]),
        directives(&["service=ssh", "host=auth.example.com"]),
        directives(&["service=ssh", "auth_key=k1"]),
        directives(&["no_2fa_user=alice", "debug=true"]),
        directives(&[]),
    ] {
        assert_eq!(begin(&given, Some("alice".to_string())), finished(Verdict::Deny, None));
    }
}

#[test]
fn begin_denies_an_unreadable_debug_value() {
    let given = directives(&["service=ssh", "auth_key=k1", "host=h", "debug=1"]);
    assert_eq!(begin(&given, Some("alice".to_string())), finished(Verdict::Deny, None));
}

#[test]
fn begin_denies_without_identity() {
    let given = directives(&["service=ssh", "auth_key=k1", "host=h", "debug=true"]);
    assert_eq!(begin(&given, None), finished(Verdict::Deny, None));
}

#[test]
fn begin_denies_without_identity_even_with_exemption() {
    let given = directives(&["service=ssh", "auth_key=k1", "host=h", "no_2fa_user=root"]);
    assert_eq!(begin(&given, None), finished(Verdict::Deny, None));
}

#[test]
fn begin_does_not_exempt_when_directives_do_not_resolve() {
    let given = directives(&["no_2fa_user=root", "service=ssh"]);
    assert_eq!(begin(&given, Some("root".to_string())), finished(Verdict::Deny, None));
}

#[test]
fn begin_hands_out_the_query() {
    let given = directives(&["service=ssh", "auth_key=k1", "host=auth.example.com"]);
    assert_eq!(
        begin(&given, Some("alice".to_string())),
        Transition {
            next: State::QueryInFlight { debug: false },
            action: Action::Query { url: ALICE_URL.to_string(), timeout_secs: 10 },
            log: None,
        }
    );
}

#[test]
fn classify_accepts_successful_responses() {
    assert_eq!(classify(&answered(200, 1)), Ok(TokenStatusResponse { status: 1 }));
    assert_eq!(classify(&answered(204, 0)), Ok(TokenStatusResponse { status: 0 }));
    assert_eq!(classify(&answered(299, -7)), Ok(TokenStatusResponse { status: -7 }));
}

#[test]
fn classify_refuses_unsuccessful_http_statuses() {
    for code in [0u16, 100, 199, 300, 301, 404, 500, 65535] {
        assert_eq!(classify(&answered(code, 1)), Err(AuthError::RemoteQueryFailed));
    }
}

#[test]
fn classify_refuses_failed_queries() {
    let transport = QueryOutcome::TransportFailed { detail: "dns".to_string() };
    let decode = QueryOutcome::DecodeFailed { detail: "eof".to_string() };
    assert_eq!(classify(&transport), Err(AuthError::RemoteQueryFailed));
    assert_eq!(classify(&decode), Err(AuthError::RemoteQueryFailed));
}

#[test]
fn interpret_grants_status_one_only() {
    assert_eq!(interpret(TokenStatusResponse { status: 1 }), Verdict::Success);
    for status in [0, 2, -1, 10, 11, 255, i32::MAX, i32::MIN] {
        assert_eq!(interpret(TokenStatusResponse { status }), Verdict::Deny);
    }
}

#[test]
fn conclude_open_token() {
    assert_eq!(conclude(false, &answered(200, 1)), finished(Verdict::Success, None));
    assert_eq!(
        conclude(true, &answered(200, 1)),
        finished(Verdict::Success, Some("[zoftoken]: OK"))
    );
}

#[test]
fn conclude_closed_token() {
    assert_eq!(conclude(false, &answered(200, 0)), finished(Verdict::Deny, None));
    assert_eq!(
        conclude(true, &answered(200, 0)),
        finished(Verdict::Deny, Some("[zoftoken]: Error token closed"))
    );
    assert_eq!(
        conclude(true, &answered(200, 2)),
        finished(Verdict::Deny, Some("[zoftoken]: Error token closed"))
    );
}

#[test]
fn conclude_unsuccessful_http_status_is_a_failure() {
    let expected = finished(
        Verdict::Deny,
        Some("Error: remote service answered with an unsuccessful HTTP status"),
    );
    assert_eq!(conclude(false, &answered(500, 1)), expected);
    assert_eq!(conclude(true, &answered(404, 1)), expected);
    assert_eq!(conclude(false, &answered(302, 0)), expected);
}

#[test]
fn conclude_failure_is_logged_even_without_debug() {
    let transport = QueryOutcome::TransportFailed { detail: "connection refused".to_string() };
    let decode = QueryOutcome::DecodeFailed { detail: "expected value at line 1".to_string() };
    assert_eq!(
        conclude(false, &transport),
        finished(Verdict::Deny, Some("Error: connection refused"))
    );
    assert_eq!(
        conclude(true, &transport),
        finished(Verdict::Deny, Some("Error: connection refused"))
    );
    assert_eq!(
        conclude(false, &decode),
        finished(Verdict::Deny, Some("Error: expected value at line 1"))
    );
}

#[test]
fn step_from_start_begins_the_attempt() {
    let args = directives(&["service=ssh", "auth_key=k1", "host=auth.example.com", "debug=true"]);
    let event = Event::Attempt { args: args.clone(), identity: Some("alice".to_string()) };
    assert_eq!(step(State::Start, event), begin(&args, Some("alice".to_string())));
}

#[test]
fn step_in_flight_concludes_the_attempt() {
    let event = Event::Response { outcome: answered(200, 1) };
    assert_eq!(
        step(State::QueryInFlight { debug: true }, event),
        conclude(true, &answered(200, 1))
    );
}

#[test]
fn step_denies_an_event_out_of_turn() {
    let response = Event::Response { outcome: answered(200, 1) };
    assert_eq!(step(State::Start, response), finished(Verdict::Deny, None));
    let args = directives(&["service=ssh", "auth_key=k1", "host=h", "no_2fa_user=root"]);
    let attempt = Event::Attempt { args, identity: Some("root".to_string()) };
    assert_eq!(
        step(State::QueryInFlight { debug: true }, attempt),
        finished(Verdict::Deny, None)
    );
}

#[test]
fn step_keeps_a_finished_attempt_finished() {
    for verdict in [Verdict::Success, Verdict::Deny, Verdict::Ignore] {
        let response = Event::Response { outcome: answered(200, 1) };
        assert_eq!(step(State::Finished { verdict }, response), finished(verdict, None));
        let args = directives(&["service=ssh", "auth_key=k1", "host=h"]);
        let attempt = Event::Attempt { args, identity: Some("alice".to_string()) };
        assert_eq!(step(State::Finished { verdict }, attempt), finished(verdict, None));
    }
}
