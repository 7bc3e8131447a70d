use server::error::ApiError;
use server::user::sign_out::{SignOutAction, SignOutEvent, SignOutFlow, SignOutScope, SignOutState};
use uuid::Uuid;

fn run(scope: SignOutScope, events: Vec<SignOutEvent>) -> Vec<SignOutAction> {
    let (mut flow, first) = SignOutFlow::start(scope, Uuid::from_u128(1));
    let mut actions = vec![first];
    for e in events {
        let (next, a) = flow.step(e);
        flow = next;
        actions.push(a);
    }
    actions
}

#[test]
fn sign_out_deletes_validated_session() {
    let sid = Uuid::from_u128(42);
    let a = run(
        SignOutScope::Session,
        vec![
            SignOutEvent::SessionFetched(Ok(sid)),
            SignOutEvent::TokenValidated(Ok(true)),
            SignOutEvent::Deleted(Ok(())),
        ],
    );
    assert!(matches!(a[0], SignOutAction::FetchSession { id } if id == Uuid::from_u128(1)));
    assert!(matches!(a[1], SignOutAction::ValidateToken));
    assert!(matches!(a[2], SignOutAction::DeleteSession { id } if id == sid));
    assert!(matches!(a[3], SignOutAction::Respond(Ok(()))));
}

#[test]
fn sign_out_all_deletes_all_sessions() {
    let sid = Uuid::from_u128(42);
    let a = run(
        SignOutScope::AllSessions,
        vec![SignOutEvent::SessionFetched(Ok(sid)), SignOutEvent::TokenValidated(Ok(true))],
    );
    assert!(matches!(a[2], SignOutAction::DeleteAllSessions { id } if id == sid));
}

#[test]
fn sign_out_refuses_foreign_token() {
    let a = run(
        SignOutScope::Session,
        vec![SignOutEvent::SessionFetched(Ok(Uuid::from_u128(2))), SignOutEvent::TokenValidated(Ok(false))],
    );
    assert!(matches!(a[2], SignOutAction::Respond(Err(ApiError::Forbidden))));
}

#[test]
fn sign_out_passes_errors_on() {
    let a = run(SignOutScope::Session, vec![SignOutEvent::SessionFetched(Err(ApiError::BadRequest))]);
    assert!(matches!(a[1], SignOutAction::Respond(Err(ApiError::BadRequest))));
    let b = run(
        SignOutScope::Session,
        vec![SignOutEvent::SessionFetched(Ok(Uuid::from_u128(2))), SignOutEvent::TokenValidated(Err(ApiError::InternalServerError))],
    );
    assert!(matches!(b[2], SignOutAction::Respond(Err(ApiError::InternalServerError))));
    let c = run(
        SignOutScope::AllSessions,
        vec![
            SignOutEvent::SessionFetched(Ok(Uuid::from_u128(2))),
            SignOutEvent::TokenValidated(Ok(true)),
            SignOutEvent::Deleted(Err(ApiError::InternalServerError)),
        ],
    );
    assert!(matches!(c[3], SignOutAction::Respond(Err(ApiError::InternalServerError))));
}

#[test]
fn sign_out_ends_done() {
    let (flow, _) = SignOutFlow::start(SignOutScope::Session, Uuid::from_u128(1));
    let (flow, _) = flow.step(SignOutEvent::SessionFetched(Err(ApiError::Forbidden)));
    assert!(matches!(flow.state, SignOutState::Done));
}
