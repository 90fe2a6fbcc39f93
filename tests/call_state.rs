use async_middleware::{auth_step, map_success, AuthAction, AuthEvent, AuthPhase};

type Event = AuthEvent<&'static str, u32, String>;

#[test]
fn decision_to_let_through_calls_inner() {
    let event: Event = AuthEvent::Decided(Ok("req"));
    let (phase, action) = auth_step(AuthPhase::AwaitingPolicy, event);
    assert_eq!(phase, AuthPhase::AwaitingInner);
    assert!(matches!(action, AuthAction::CallInner("req")));
}

#[test]
fn rejection_finishes_as_success() {
    let event: Event = AuthEvent::Decided(Err(401));
    let (phase, action) = auth_step(AuthPhase::AwaitingPolicy, event);
    assert_eq!(phase, AuthPhase::Finished);
    assert!(matches!(action, AuthAction::Respond(Ok(401))));
}

#[test]
fn inner_result_is_returned_as_is() {
    let ok: Event = AuthEvent::InnerReturned(Ok(200));
    let (phase, action) = auth_step(AuthPhase::AwaitingInner, ok);
    assert_eq!(phase, AuthPhase::Finished);
    assert!(matches!(action, AuthAction::Respond(Ok(200))));

    let err: Event = AuthEvent::InnerReturned(Err("down".to_owned()));
    let (phase, action) = auth_step(AuthPhase::AwaitingInner, err);
    assert_eq!(phase, AuthPhase::Finished);
    match action {
        AuthAction::Respond(Err(e)) => assert_eq!(e, "down"),
        _ => panic!("expected the inner error"),
    }
}

#[test]
fn inner_result_before_decision_is_unexpected() {
    let event: Event = AuthEvent::InnerReturned(Ok(200));
    let (phase, action) = auth_step(AuthPhase::AwaitingPolicy, event);
    assert_eq!(phase, AuthPhase::AwaitingPolicy);
    assert!(matches!(action, AuthAction::Unexpected(AuthEvent::InnerReturned(Ok(200)))));
}

#[test]
fn second_decision_is_unexpected() {
    let event: Event = AuthEvent::Decided(Ok("again"));
    let (phase, action) = auth_step(AuthPhase::AwaitingInner, event);
    assert_eq!(phase, AuthPhase::AwaitingInner);
    assert!(matches!(action, AuthAction::Unexpected(AuthEvent::Decided(Ok("again")))));
}

#[test]
fn finished_call_takes_no_more_events() {
    let event: Event = AuthEvent::Decided(Err(403));
    let (phase, action) = auth_step(AuthPhase::Finished, event);
    assert_eq!(phase, AuthPhase::Finished);
    assert!(matches!(action, AuthAction::Unexpected(AuthEvent::Decided(Err(403)))));
}

#[test]
fn map_success_maps_ok_and_keeps_err() {
    let double = |x: u32| x * 2;
    assert_eq!(map_success(&double, Ok::<u32, String>(21)), Ok(42));
    assert_eq!(
        map_success(&double, Err::<u32, String>("bad".to_owned())),
        Err("bad".to_owned())
    );
}
