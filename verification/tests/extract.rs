use nutt_web::http::status::StatusCode;
use nutt_web::modules::extract::{classify, unresolved, ArgKind, Unresolved};

#[test]
fn state_parameters_are_told_by_their_type() {
    assert_eq!(classify("State<i32>"), ArgKind::State);
    assert_eq!(classify("State"), ArgKind::State);
    assert_eq!(classify(" State <HashMap<String, String>>"), ArgKind::State);
    assert_eq!(classify("State::<i32>"), ArgKind::State);
}

#[test]
fn session_and_cookie_parameters_are_told_by_their_type() {
    assert_eq!(classify("CookieSession"), ArgKind::Session);
    assert_eq!(classify("CookieJar"), ArgKind::Session);
    assert_eq!(classify("CookieSession<String>"), ArgKind::Session);
}

#[test]
fn every_other_parameter_comes_from_the_body() {
    assert_eq!(classify("Data"), ArgKind::Body);
    assert_eq!(classify("NewStateJson"), ArgKind::Body);
    assert_eq!(classify("Vec<State<i32>>"), ArgKind::Body);
    assert_eq!(classify("state"), ArgKind::Body);
    assert_eq!(classify("States"), ArgKind::Body);
    assert_eq!(classify("module::State<i32>"), ArgKind::Body);
    assert_eq!(classify(""), ArgKind::Body);
    assert_eq!(classify("<State>"), ArgKind::Body);
}

#[test]
fn body_that_cannot_be_supplied_is_a_bad_request() {
    match unresolved(ArgKind::Body) {
        Some(Unresolved::Refuse(response)) => {
            assert_eq!(response.status(), StatusCode::BadRequest);
            assert_eq!(response.body(), "\"\"");
        }
        _ => panic!("a refusal was owed"),
    }
}

#[test]
fn state_that_cannot_be_supplied_is_a_misconfiguration() {
    assert!(matches!(unresolved(ArgKind::State), Some(Unresolved::Misconfigured)));
}

#[test]
fn session_can_always_be_supplied() {
    assert!(unresolved(ArgKind::Session).is_none());
}
