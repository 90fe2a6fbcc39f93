use vstd::prelude::*;

verus! {

/// Where one call through the authorization middleware stands.
#[derive(Clone, Copy, Debug, PartialEq, Eq, Structural)]
pub enum AuthPhase {
    /// The policy is deciding on the request.
    AwaitingPolicy,
    /// The request was let through and the inner service is working on it.
    AwaitingInner,
    /// The call has its result.
    Finished,
}

/// What the outside world reports to a call in progress.
pub enum AuthEvent<Fwd, Resp, E> {
    /// The policy decided: `Ok` lets the (rewritten) request through, `Err`
    /// answers it.
    Decided(Result<Fwd, Resp>),
    /// The inner service returned.
    InnerReturned(Result<Resp, E>),
}

/// What the call asks the outside world to do next.
pub enum AuthAction<Fwd, Resp, E> {
    /// Hand this request to the inner service.
    CallInner(Fwd),
    /// Return this result to the caller.
    Respond(Result<Resp, E>),
    /// The event does not belong to this phase; it is handed back.
    Unexpected(AuthEvent<Fwd, Resp, E>),
}

/// The transition table of one call: a decision is awaited first, a
/// rejection is answered as a success without reaching the inner service,
/// and the inner service's result is returned as it came.
pub open spec fn auth_transition<Fwd, Resp, E>(
    phase: AuthPhase,
    event: AuthEvent<Fwd, Resp, E>,
) -> (AuthPhase, AuthAction<Fwd, Resp, E>) {
    match (phase, event) {
        (AuthPhase::AwaitingPolicy, AuthEvent::Decided(Ok(fwd))) => (
            AuthPhase::AwaitingInner,
            AuthAction::CallInner(fwd),
        ),
        (AuthPhase::AwaitingPolicy, AuthEvent::Decided(Err(resp))) => (
            AuthPhase::Finished,
            AuthAction::Respond(Ok(resp)),
        ),
        (AuthPhase::AwaitingInner, AuthEvent::InnerReturned(r)) => (
            AuthPhase::Finished,
            AuthAction::Respond(r),
        ),
        (p, e) => (p, AuthAction::Unexpected(e)),
    }
}

/// Advance one call by one event.
pub fn auth_step<Fwd, Resp, E>(phase: AuthPhase, event: AuthEvent<Fwd, Resp, E>) -> (r: (
    AuthPhase,
    AuthAction<Fwd, Resp, E>,
))
    ensures
        r == auth_transition(phase, event),
{
    match phase {
        AuthPhase::AwaitingPolicy => match event {
            AuthEvent::Decided(Ok(fwd)) => (AuthPhase::AwaitingInner, AuthAction::CallInner(fwd)),
            AuthEvent::Decided(Err(resp)) => (AuthPhase::Finished, AuthAction::Respond(Ok(resp))),
            e => (phase, AuthAction::Unexpected(e)),
        },
        AuthPhase::AwaitingInner => match event {
            AuthEvent::InnerReturned(r) => (AuthPhase::Finished, AuthAction::Respond(r)),
            e => (phase, AuthAction::Unexpected(e)),
        },
        AuthPhase::Finished => (phase, AuthAction::Unexpected(event)),
    }
}

/// A call that the policy lets through as `fwd` reaches the inner service
/// with `fwd` and returns exactly what the inner service returned.
pub proof fn let_through_call_returns_inner_result<Fwd, Resp, E>(
    fwd: Fwd,
    inner: Result<Resp, E>,
)
    ensures
        auth_transition(AuthPhase::AwaitingPolicy, AuthEvent::<Fwd, Resp, E>::Decided(Ok(fwd)))
            == (AuthPhase::AwaitingInner, AuthAction::<Fwd, Resp, E>::CallInner(fwd)),
        auth_transition(AuthPhase::AwaitingInner, AuthEvent::<Fwd, Resp, E>::InnerReturned(inner))
            == (AuthPhase::Finished, AuthAction::<Fwd, Resp, E>::Respond(inner)),
{
}

/// A call that the policy rejects with `resp` finishes at once with `resp` as
/// a success; no event of the policy's phase ever asks for the inner service
/// but a decision to let the request through.
pub proof fn rejected_call_never_reaches_inner<Fwd, Resp, E>(
    resp: Resp,
    event: AuthEvent<Fwd, Resp, E>,
)
    ensures
        auth_transition(AuthPhase::AwaitingPolicy, AuthEvent::<Fwd, Resp, E>::Decided(Err(resp)))
            == (AuthPhase::Finished, AuthAction::<Fwd, Resp, E>::Respond(Ok(resp))),
        auth_transition(AuthPhase::AwaitingPolicy, event).1 is CallInner ==> event matches AuthEvent::Decided(Ok(_)),
        auth_transition(AuthPhase::Finished, event).0 == AuthPhase::Finished,
        !(auth_transition(AuthPhase::Finished, event).1 is CallInner),
{
}

} // verus!
