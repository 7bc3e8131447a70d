use server::error::ApiError;
use server::passwordless::verify::{
    ConfirmedSession, PasswordlessToken, Veriy, VerifyAction, VerifyEvent, VerifyFlow,
    VerifyState, ACCESS_TOKEN_LIFETIME_NANOS, SESSION_LIFETIME_NANOS, TOKEN_GRACE_NANOS,
};
use uuid::Uuid;

const NOW: i128 = 1_700_000_000_000_000_000;

fn id(n: u128) -> Uuid {
    Uuid::from_u128(n)
}

fn body() -> Veriy {
    Veriy { token: "refresh".to_string(), session: id(20), id: id(10) }
}

fn token(user: Option<Uuid>) -> PasswordlessToken {
    PasswordlessToken {
        confirmed: true,
        is_valid: true,
        created_at: NOW - 60_000_000_000,
        email: "ann@example.com".to_string(),
        project_id: id(30),
        user_id: user,
    }
}

fn step(flow: VerifyFlow, e: VerifyEvent) -> (VerifyFlow, VerifyAction) {
    flow.step(e)
}

#[test]
fn redeems_token_of_new_user() {
    let (flow, a) = VerifyFlow::start(&body(), id(99));
    assert!(matches!(a, VerifyAction::FetchToken { id: t } if t == id(10)));

    let (flow, a) = step(flow, VerifyEvent::TokenFetched { token: Ok(token(None)), now: NOW });
    match a {
        VerifyAction::RemoveTokens { email, project_id } => {
            assert_eq!(email, "ann@example.com");
            assert_eq!(project_id, id(30));
        }
        _ => panic!("expected removal"),
    }
    let (flow, a) = step(flow, VerifyEvent::TokensRemoved(Ok(())));
    assert!(matches!(a, VerifyAction::FetchSession { id: s } if s == id(20)));
    let (flow, a) = step(flow, VerifyEvent::SessionFetched(Ok(id(21))));
    assert!(matches!(a, VerifyAction::CheckRefreshToken));
    let (flow, a) = step(flow, VerifyEvent::RefreshTokenChecked(Ok(())));
    assert!(matches!(a, VerifyAction::CheckTokenUnused { session_id } if session_id == id(21)));
    let (flow, a) = step(flow, VerifyEvent::UseChecked(Ok(true)));
    match a {
        VerifyAction::CreateUser { email, project_id } => {
            assert_eq!(email, "ann@example.com");
            assert_eq!(project_id, id(30));
        }
        _ => panic!("expected user creation"),
    }
    let (flow, a) = step(flow, VerifyEvent::UserLoaded { user: Ok(id(40)), now: NOW + 5 });
    match a {
        VerifyAction::ConfirmSession { session_id, user_id, expire_at } => {
            assert_eq!(session_id, id(21));
            assert_eq!(user_id, id(40));
            assert_eq!(expire_at, NOW + 5 + SESSION_LIFETIME_NANOS);
            assert_eq!(SESSION_LIFETIME_NANOS, 30 * 24 * 60 * 60 * 1_000_000_000);
        }
        _ => panic!("expected confirmation"),
    }
    let confirmed = ConfirmedSession { id: id(21), user_id: Some(id(40)), expire_at: NOW + 77 };
    let (flow, a) = step(flow, VerifyEvent::SessionConfirmed(Ok(confirmed)));
    assert!(matches!(a, VerifyAction::FetchPrivateKey { project_id } if project_id == id(30)));
    let (flow, a) = step(flow, VerifyEvent::KeyLoaded { key: Ok(vec![1, 2, 3]), now: NOW + 9 });
    match a {
        VerifyAction::SignAccessToken { user_id, key, expire_at, project_id } => {
            assert_eq!(user_id, id(40));
            assert_eq!(key, vec![1, 2, 3]);
            assert_eq!(expire_at, NOW + 9 + ACCESS_TOKEN_LIFETIME_NANOS);
            assert_eq!(ACCESS_TOKEN_LIFETIME_NANOS, 15 * 60 * 1_000_000_000);
            assert_eq!(project_id, id(99));
        }
        _ => panic!("expected signing"),
    }
    let (flow, a) = step(flow, VerifyEvent::AccessTokenSigned(Some("jwt".to_string())));
    match a {
        VerifyAction::Respond(Ok(r)) => {
            assert_eq!(r.access_token, "jwt");
            assert!(r.created);
            assert_eq!(r.user_id, id(40));
            assert_eq!(r.session, id(21));
            assert_eq!(r.expire_at, NOW + 77);
        }
        _ => panic!("expected success"),
    }
    assert!(matches!(flow.state, VerifyState::Done));
}

#[test]
fn existing_user_is_loaded_not_created() {
    let (flow, _) = VerifyFlow::start(&body(), id(99));
    let (flow, _) = step(flow, VerifyEvent::TokenFetched { token: Ok(token(Some(id(41)))), now: NOW });
    let (flow, _) = step(flow, VerifyEvent::TokensRemoved(Ok(())));
    let (flow, _) = step(flow, VerifyEvent::SessionFetched(Ok(id(21))));
    let (flow, _) = step(flow, VerifyEvent::RefreshTokenChecked(Ok(())));
    let (flow, a) = step(flow, VerifyEvent::UseChecked(Ok(true)));
    assert!(matches!(a, VerifyAction::FetchUser { id: u, project_id } if u == id(41) && project_id == id(30)));
    let (flow, _) = step(flow, VerifyEvent::UserLoaded { user: Ok(id(41)), now: NOW });
    let s = ConfirmedSession { id: id(21), user_id: Some(id(41)), expire_at: NOW };
    let (flow, _) = step(flow, VerifyEvent::SessionConfirmed(Ok(s)));
    let (flow, a) = step(flow, VerifyEvent::KeyLoaded { key: Ok(vec![7]), now: NOW });
    assert!(matches!(a, VerifyAction::SignAccessToken { user_id, ref key, .. } if user_id == id(41) && *key == vec![7]));
    let (_, a) = step(flow, VerifyEvent::AccessTokenSigned(Some("jwt".to_string())));
    assert!(matches!(a, VerifyAction::Respond(Ok(ref r)) if !r.created && r.user_id == id(41)));
}

fn refusal_for(t: PasswordlessToken, now: i128) -> VerifyAction {
    let (flow, _) = VerifyFlow::start(&body(), id(99));
    let (flow, a) = step(flow, VerifyEvent::TokenFetched { token: Ok(t), now });
    assert!(matches!(flow.state, VerifyState::Done));
    a
}

#[test]
fn unconfirmed_token_is_refused_first() {
    let mut t = token(None);
    t.confirmed = false;
    t.is_valid = false;
    assert!(matches!(refusal_for(t, NOW), VerifyAction::Respond(Err(ApiError::PasswordlessAwaitConfirm))));
}

#[test]
fn invalid_token_is_refused() {
    let mut t = token(None);
    t.is_valid = false;
    assert!(matches!(refusal_for(t, NOW), VerifyAction::Respond(Err(ApiError::PasswordlessInvalidToken))));
}

#[test]
fn expiry_compares_half_hour_before_creation_with_now() {
    let mut t = token(None);
    t.created_at = NOW + TOKEN_GRACE_NANOS + 1;
    assert!(matches!(refusal_for(t, NOW), VerifyAction::Respond(Err(ApiError::PasswordlessTokenExpire))));

    let mut edge = token(None);
    edge.created_at = NOW + TOKEN_GRACE_NANOS;
    let (flow, _) = VerifyFlow::start(&body(), id(99));
    let (_, a) = step(flow, VerifyEvent::TokenFetched { token: Ok(edge), now: NOW });
    assert!(matches!(a, VerifyAction::RemoveTokens { .. }));
}

#[test]
fn reused_refresh_token_is_forbidden() {
    let (flow, _) = VerifyFlow::start(&body(), id(99));
    let (flow, _) = step(flow, VerifyEvent::TokenFetched { token: Ok(token(None)), now: NOW });
    let (flow, _) = step(flow, VerifyEvent::TokensRemoved(Ok(())));
    let (flow, _) = step(flow, VerifyEvent::SessionFetched(Ok(id(21))));
    let (flow, _) = step(flow, VerifyEvent::RefreshTokenChecked(Ok(())));
    let (flow, a) = step(flow, VerifyEvent::UseChecked(Ok(false)));
    assert!(matches!(a, VerifyAction::Respond(Err(ApiError::Forbidden))));
    assert!(matches!(flow.state, VerifyState::Done));
}

#[test]
fn failures_are_passed_on() {
    let (flow, _) = VerifyFlow::start(&body(), id(99));
    let (_, a) = step(flow, VerifyEvent::TokenFetched { token: Err(ApiError::BadRequest), now: NOW });
    assert!(matches!(a, VerifyAction::Respond(Err(ApiError::BadRequest))));

    let (flow, _) = VerifyFlow::start(&body(), id(99));
    let (flow, _) = step(flow, VerifyEvent::TokenFetched { token: Ok(token(None)), now: NOW });
    let (flow, _) = step(flow, VerifyEvent::TokensRemoved(Ok(())));
    let (_, a) = step(flow, VerifyEvent::SessionFetched(Err(ApiError::Forbidden)));
    assert!(matches!(a, VerifyAction::Respond(Err(ApiError::Forbidden))));
}

#[test]
fn signing_failure_is_internal_error() {
    let (flow, _) = VerifyFlow::start(&body(), id(99));
    let (flow, _) = step(flow, VerifyEvent::TokenFetched { token: Ok(token(None)), now: NOW });
    let (flow, _) = step(flow, VerifyEvent::TokensRemoved(Ok(())));
    let (flow, _) = step(flow, VerifyEvent::SessionFetched(Ok(id(21))));
    let (flow, _) = step(flow, VerifyEvent::RefreshTokenChecked(Ok(())));
    let (flow, _) = step(flow, VerifyEvent::UseChecked(Ok(true)));
    let (flow, _) = step(flow, VerifyEvent::UserLoaded { user: Ok(id(40)), now: NOW });
    let s = ConfirmedSession { id: id(21), user_id: None, expire_at: NOW };
    let (flow, _) = step(flow, VerifyEvent::SessionConfirmed(Ok(s)));
    let (flow, _) = step(flow, VerifyEvent::KeyLoaded { key: Ok(vec![1, 2, 3]), now: NOW });
    let (_, a) = step(flow, VerifyEvent::AccessTokenSigned(None));
    assert!(matches!(a, VerifyAction::Respond(Err(ApiError::InternalServerError))));
}

#[test]
fn redeemed_token_cannot_be_redeemed_again() {
    let (flow, _) = VerifyFlow::start(&body(), id(99));
    let (flow, a) = step(flow, VerifyEvent::TokenFetched { token: Ok(token(Some(id(41)))), now: NOW });
    assert!(matches!(a, VerifyAction::RemoveTokens { ref email, project_id } if email == "ann@example.com" && project_id == id(30)));
    let (flow, _) = step(flow, VerifyEvent::TokensRemoved(Ok(())));
    let (flow, _) = step(flow, VerifyEvent::SessionFetched(Ok(id(21))));
    let (flow, _) = step(flow, VerifyEvent::RefreshTokenChecked(Ok(())));
    let (flow, _) = step(flow, VerifyEvent::UseChecked(Ok(true)));
    let (flow, _) = step(flow, VerifyEvent::UserLoaded { user: Ok(id(41)), now: NOW });
    let s = ConfirmedSession { id: id(21), user_id: Some(id(41)), expire_at: NOW };
    let (flow, _) = step(flow, VerifyEvent::SessionConfirmed(Ok(s)));
    let (flow, _) = step(flow, VerifyEvent::KeyLoaded { key: Ok(vec![7]), now: NOW });
    let (_, a) = step(flow, VerifyEvent::AccessTokenSigned(Some("jwt".to_string())));
    assert!(matches!(a, VerifyAction::Respond(Ok(_))));

    // The removal took the token away: fetching it again fails, and the second attempt is refused.
    let (flow, a) = VerifyFlow::start(&body(), id(99));
    assert!(matches!(a, VerifyAction::FetchToken { id: t } if t == id(10)));
    let (flow, a) = step(flow, VerifyEvent::TokenFetched { token: Err(ApiError::BadRequest), now: NOW });
    assert!(matches!(a, VerifyAction::Respond(Err(ApiError::BadRequest))));
    assert!(matches!(flow.state, VerifyState::Done));
}
