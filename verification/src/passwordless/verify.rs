use vstd::prelude::*;

use crate::error::ApiError;
use uuid::Uuid;

verus! {

/// How long before its creation instant a passwordless token counts as
/// expired: 30 minutes.
pub const TOKEN_GRACE_NANOS: i128 = 1_800_000_000_000;

/// Lifetime of a confirmed session: 30 days.
pub const SESSION_LIFETIME_NANOS: i128 = 2_592_000_000_000_000;

/// Lifetime of an access token: 15 minutes.
pub const ACCESS_TOKEN_LIFETIME_NANOS: i128 = 900_000_000_000;

/// A passwordless sign-in token as stored: whether the link was confirmed,
/// whether it is still valid, when it was created, and for whom. Instants,
/// here and below, are nanoseconds since the Unix epoch.
pub struct PasswordlessToken {
    pub confirmed: bool,
    pub is_valid: bool,
    pub created_at: i128,
    pub email: String,
    pub project_id: Uuid,
    pub user_id: Option<Uuid>,
}

/// A session as confirmed by the database.
pub struct ConfirmedSession {
    pub id: Uuid,
    pub user_id: Option<Uuid>,
    pub expire_at: i128,
}

/// What a successful passwordless sign-in answers.
pub struct SessionResponse {
    pub access_token: String,
    pub created: bool,
    pub user_id: Uuid,
    pub session: Uuid,
    pub expire_at: i128,
}

/// The body of a passwordless sign-in request: the refresh token of the
/// session, the session to confirm, and the passwordless token to redeem.
pub struct Veriy {
    pub token: String,
    pub session: Uuid,
    pub id: Uuid,
}

/// What the request asks: the passwordless token to redeem, the session to
/// confirm, and the project the request came for.
#[derive(Clone, Copy)]
pub struct VerifyRequest {
    pub token_id: Uuid,
    pub session_id: Uuid,
    pub project_id: Uuid,
}

/// Where a passwordless sign-in stands. From `AwaitingRemoval` on, the
/// state holds the redeemed token and the instant at which it was checked.
pub enum VerifyState {
    AwaitingToken,
    AwaitingRemoval { token: PasswordlessToken, checked_at: i128 },
    AwaitingSession { token: PasswordlessToken, checked_at: i128 },
    AwaitingRefreshCheck { token: PasswordlessToken, checked_at: i128, session_id: Uuid },
    AwaitingUseCheck { token: PasswordlessToken, checked_at: i128, session_id: Uuid },
    AwaitingUser { token: PasswordlessToken, checked_at: i128, session_id: Uuid },
    AwaitingConfirmation { token: PasswordlessToken, checked_at: i128, user_id: Uuid },
    AwaitingKey { token: PasswordlessToken, checked_at: i128, user_id: Uuid, session: ConfirmedSession },
    AwaitingSignature { token: PasswordlessToken, checked_at: i128, user_id: Uuid, session: ConfirmedSession },
    Done,
}

/// What the caller reports back after carrying out an action.
pub enum VerifyEvent {
    /// The stored token, and the current instant.
    TokenFetched { token: Result<PasswordlessToken, ApiError>, now: i128 },
    /// The email's pending passwordless tokens were removed.
    TokensRemoved(Result<(), ApiError>),
    /// The id of the session named by the request.
    SessionFetched(Result<Uuid, ApiError>),
    /// The request's refresh token was checked against the session.
    RefreshTokenChecked(Result<(), ApiError>),
    /// Whether the refresh token is used for the first time.
    UseChecked(Result<bool, ApiError>),
    /// The id of the user signing in, and the current instant.
    UserLoaded { user: Result<Uuid, ApiError>, now: i128 },
    /// The confirmed session.
    SessionConfirmed(Result<ConfirmedSession, ApiError>),
    /// The project's private signing key, and the current instant.
    KeyLoaded { key: Result<Vec<u8>, ApiError>, now: i128 },
    /// The signed access token, `None` when signing failed.
    AccessTokenSigned(Option<String>),
}

/// What the caller is to do next.
pub enum VerifyAction {
    FetchToken { id: Uuid },
    RemoveTokens { email: String, project_id: Uuid },
    FetchSession { id: Uuid },
    /// Check the request's refresh token against the fetched session.
    CheckRefreshToken,
    CheckTokenUnused { session_id: Uuid },
    CreateUser { email: String, project_id: Uuid },
    FetchUser { id: Uuid, project_id: Uuid },
    ConfirmSession { session_id: Uuid, user_id: Uuid, expire_at: i128 },
    FetchPrivateKey { project_id: Uuid },
    /// Sign an access token for the user `user_id`, loaded for this sign-in,
    /// with the project's key `key`.
    SignAccessToken { user_id: Uuid, key: Vec<u8>, expire_at: i128, project_id: Uuid },
    Respond(Result<SessionResponse, ApiError>),
}

/// A passwordless sign-in in progress.
pub struct VerifyFlow {
    pub request: VerifyRequest,
    pub state: VerifyState,
}

/// The token's link is old: thirty minutes before its creation lies after
/// `now`.
pub open spec fn is_expired(created_at: i128, now: i128) -> bool {
    created_at - TOKEN_GRACE_NANOS > now
}

/// The token may be redeemed at `now`: its link was confirmed, it is still
/// valid, and it is not expired.
pub open spec fn redeemable(token: PasswordlessToken, now: i128) -> bool {
    token.confirmed && token.is_valid && !is_expired(token.created_at, now)
}

/// The error with which a token that may not be redeemed is refused.
pub open spec fn refusal(token: PasswordlessToken, now: i128) -> ApiError {
    if !token.confirmed {
        ApiError::PasswordlessAwaitConfirm
    } else if !token.is_valid {
        ApiError::PasswordlessInvalidToken
    } else {
        ApiError::PasswordlessTokenExpire
    }
}

/// The event that the flow waits for in `state`.
pub open spec fn accepts(state: VerifyState, event: VerifyEvent) -> bool {
    match state {
        VerifyState::AwaitingToken => event is TokenFetched,
        VerifyState::AwaitingRemoval { .. } => event is TokensRemoved,
        VerifyState::AwaitingSession { .. } => event is SessionFetched,
        VerifyState::AwaitingRefreshCheck { .. } => event is RefreshTokenChecked,
        VerifyState::AwaitingUseCheck { .. } => event is UseChecked,
        VerifyState::AwaitingUser { .. } => event is UserLoaded,
        VerifyState::AwaitingConfirmation { .. } => event is SessionConfirmed,
        VerifyState::AwaitingKey { .. } => event is KeyLoaded,
        VerifyState::AwaitingSignature { .. } => event is AccessTokenSigned,
        VerifyState::Done => false,
    }
}

/// The arithmetic on instants that the event asks for stays within `i128`,
/// and a signed access token comes with a session that names its user.
pub open spec fn well_formed_event(state: VerifyState, event: VerifyEvent) -> bool {
    &&& event matches VerifyEvent::TokenFetched { token: Ok(t), .. } ==> t.created_at
        >= i128::MIN + TOKEN_GRACE_NANOS
    &&& event matches VerifyEvent::UserLoaded { now, .. } ==> now <= i128::MAX
        - SESSION_LIFETIME_NANOS
    &&& event matches VerifyEvent::KeyLoaded { now, .. } ==> now <= i128::MAX
        - ACCESS_TOKEN_LIFETIME_NANOS
    &&& state matches VerifyState::AwaitingSignature { session, .. } ==> (
    event matches VerifyEvent::AccessTokenSigned(Some(_)) ==> session.user_id is Some)
}

/// Where the flow goes on `event`, and what it asks for.
pub open spec fn verify_step(flow: VerifyFlow, event: VerifyEvent) -> (VerifyFlow, VerifyAction) {
    let req = flow.request;
    let done = VerifyFlow { request: req, state: VerifyState::Done };
    match (flow.state, event) {
        (VerifyState::AwaitingToken, VerifyEvent::TokenFetched { token, now }) => match token {
            Err(e) => (done, VerifyAction::Respond(Err(e))),
            Ok(t) => if redeemable(t, now) {
                (
                    VerifyFlow {
                        request: req,
                        state: VerifyState::AwaitingRemoval { token: t, checked_at: now },
                    },
                    VerifyAction::RemoveTokens { email: t.email, project_id: t.project_id },
                )
            } else {
                (done, VerifyAction::Respond(Err(refusal(t, now))))
            },
        },
        (VerifyState::AwaitingRemoval { token, checked_at }, VerifyEvent::TokensRemoved(r)) => match r {
            Err(e) => (done, VerifyAction::Respond(Err(e))),
            Ok(_) => (
                VerifyFlow { request: req, state: VerifyState::AwaitingSession { token, checked_at } },
                VerifyAction::FetchSession { id: req.session_id },
            ),
        },
        (VerifyState::AwaitingSession { token, checked_at }, VerifyEvent::SessionFetched(r)) => match r {
            Err(e) => (done, VerifyAction::Respond(Err(e))),
            Ok(sid) => (
                VerifyFlow {
                    request: req,
                    state: VerifyState::AwaitingRefreshCheck { token, checked_at, session_id: sid },
                },
                VerifyAction::CheckRefreshToken,
            ),
        },
        (
            VerifyState::AwaitingRefreshCheck { token, checked_at, session_id },
            VerifyEvent::RefreshTokenChecked(r),
        ) => match r {
            Err(e) => (done, VerifyAction::Respond(Err(e))),
            Ok(_) => (
                VerifyFlow {
                    request: req,
                    state: VerifyState::AwaitingUseCheck { token, checked_at, session_id },
                },
                VerifyAction::CheckTokenUnused { session_id },
            ),
        },
        (VerifyState::AwaitingUseCheck { token, checked_at, session_id }, VerifyEvent::UseChecked(r)) => match r {
            Err(e) => (done, VerifyAction::Respond(Err(e))),
            Ok(false) => (done, VerifyAction::Respond(Err(ApiError::Forbidden))),
            Ok(true) => (
                VerifyFlow {
                    request: req,
                    state: VerifyState::AwaitingUser { token, checked_at, session_id },
                },
                match token.user_id {
                    None => VerifyAction::CreateUser { email: token.email, project_id: token.project_id },
                    Some(uid) => VerifyAction::FetchUser { id: uid, project_id: token.project_id },
                },
            ),
        },
        (VerifyState::AwaitingUser { token, checked_at, session_id }, VerifyEvent::UserLoaded { user, now }) => match user {
            Err(e) => (done, VerifyAction::Respond(Err(e))),
            Ok(uid) => (
                VerifyFlow {
                    request: req,
                    state: VerifyState::AwaitingConfirmation { token, checked_at, user_id: uid },
                },
                VerifyAction::ConfirmSession {
                    session_id,
                    user_id: uid,
                    expire_at: (now + SESSION_LIFETIME_NANOS) as i128,
                },
            ),
        },
        (VerifyState::AwaitingConfirmation { token, checked_at, user_id }, VerifyEvent::SessionConfirmed(r)) => match r {
            Err(e) => (done, VerifyAction::Respond(Err(e))),
            Ok(s) => (
                VerifyFlow {
                    request: req,
                    state: VerifyState::AwaitingKey { token, checked_at, user_id, session: s },
                },
                VerifyAction::FetchPrivateKey { project_id: token.project_id },
            ),
        },
        (VerifyState::AwaitingKey { token, checked_at, user_id, session }, VerifyEvent::KeyLoaded { key, now }) => match key {
            Err(e) => (done, VerifyAction::Respond(Err(e))),
            Ok(k) => (
                VerifyFlow {
                    request: req,
                    state: VerifyState::AwaitingSignature { token, checked_at, user_id, session },
                },
                VerifyAction::SignAccessToken {
                    user_id,
                    key: k,
                    expire_at: (now + ACCESS_TOKEN_LIFETIME_NANOS) as i128,
                    project_id: req.project_id,
                },
            ),
        },
        (VerifyState::AwaitingSignature { token, session, .. }, VerifyEvent::AccessTokenSigned(signed)) => match signed {
            None => (done, VerifyAction::Respond(Err(ApiError::InternalServerError))),
            Some(access_token) => (
                done,
                VerifyAction::Respond(
                    Ok(
                        SessionResponse {
                            access_token,
                            created: token.user_id is None,
                            user_id: session.user_id.unwrap(),
                            session: session.id,
                            expire_at: session.expire_at,
                        },
                    ),
                ),
            ),
        },
        _ => (done, VerifyAction::Respond(Err(ApiError::InternalServerError))),
    }
}

impl VerifyFlow {
    /// Starts redeeming the passwordless token named by `body` for the
    /// project `project_id`: first fetch the token.
    pub fn start(body: &Veriy, project_id: Uuid) -> (r: (VerifyFlow, VerifyAction))
        ensures
            r.0.request == (VerifyRequest { token_id: body.id, session_id: body.session, project_id }),
            r.0.state is AwaitingToken,
            r.1 == (VerifyAction::FetchToken { id: body.id }),
    {
        let request = VerifyRequest { token_id: body.id, session_id: body.session, project_id };
        (VerifyFlow { request, state: VerifyState::AwaitingToken }, VerifyAction::FetchToken { id: body.id })
    }

    /// Takes in what the last action produced and decides the next one.
    pub fn step(self, event: VerifyEvent) -> (r: (VerifyFlow, VerifyAction))
        requires
            accepts(self.state, event),
            well_formed_event(self.state, event),
        ensures
            r == verify_step(self, event),
    {
        let req = self.request;
        match (self.state, event) {
            (VerifyState::AwaitingToken, VerifyEvent::TokenFetched { token, now }) => match token {
                Err(e) => (VerifyFlow { request: req, state: VerifyState::Done }, VerifyAction::Respond(Err(e))),
                Ok(t) => {
                    if !t.confirmed {
                        return (
                            VerifyFlow { request: req, state: VerifyState::Done },
                            VerifyAction::Respond(Err(ApiError::PasswordlessAwaitConfirm)),
                        );
                    }
                    if !t.is_valid {
                        return (
                            VerifyFlow { request: req, state: VerifyState::Done },
                            VerifyAction::Respond(Err(ApiError::PasswordlessInvalidToken)),
                        );
                    }
                    let expires_at = t.created_at - TOKEN_GRACE_NANOS;
                    if expires_at > now {
                        return (
                            VerifyFlow { request: req, state: VerifyState::Done },
                            VerifyAction::Respond(Err(ApiError::PasswordlessTokenExpire)),
                        );
                    }
                    let email = t.email.clone();
                    let project_id = t.project_id;
                    (
                        VerifyFlow {
                            request: req,
                            state: VerifyState::AwaitingRemoval { token: t, checked_at: now },
                        },
                        VerifyAction::RemoveTokens { email, project_id },
                    )
                },
            },
            (VerifyState::AwaitingRemoval { token, checked_at }, VerifyEvent::TokensRemoved(r)) => match r {
                Err(e) => (VerifyFlow { request: req, state: VerifyState::Done }, VerifyAction::Respond(Err(e))),
                Ok(_) => (
                    VerifyFlow { request: req, state: VerifyState::AwaitingSession { token, checked_at } },
                    VerifyAction::FetchSession { id: req.session_id },
                ),
            },
            (VerifyState::AwaitingSession { token, checked_at }, VerifyEvent::SessionFetched(r)) => match r {
                Err(e) => (VerifyFlow { request: req, state: VerifyState::Done }, VerifyAction::Respond(Err(e))),
                Ok(sid) => (
                    VerifyFlow {
                        request: req,
                        state: VerifyState::AwaitingRefreshCheck { token, checked_at, session_id: sid },
                    },
                    VerifyAction::CheckRefreshToken,
                ),
            },
            (
                VerifyState::AwaitingRefreshCheck { token, checked_at, session_id },
                VerifyEvent::RefreshTokenChecked(r),
            ) => match r {
                Err(e) => (VerifyFlow { request: req, state: VerifyState::Done }, VerifyAction::Respond(Err(e))),
                Ok(_) => (
                    VerifyFlow {
                        request: req,
                        state: VerifyState::AwaitingUseCheck { token, checked_at, session_id },
                    },
                    VerifyAction::CheckTokenUnused { session_id },
                ),
            },
            (VerifyState::AwaitingUseCheck { token, checked_at, session_id }, VerifyEvent::UseChecked(r)) => match r {
                Err(e) => (VerifyFlow { request: req, state: VerifyState::Done }, VerifyAction::Respond(Err(e))),
                Ok(is_valid) => {
                    if !is_valid {
                        return (
                            VerifyFlow { request: req, state: VerifyState::Done },
                            VerifyAction::Respond(Err(ApiError::Forbidden)),
                        );
                    }
                    let action = match token.user_id {
                        None => VerifyAction::CreateUser {
                            email: token.email.clone(),
                            project_id: token.project_id,
                        },
                        Some(uid) => VerifyAction::FetchUser { id: uid, project_id: token.project_id },
                    };
                    (
                        VerifyFlow {
                            request: req,
                            state: VerifyState::AwaitingUser { token, checked_at, session_id },
                        },
                        action,
                    )
                },
            },
            (
                VerifyState::AwaitingUser { token, checked_at, session_id },
                VerifyEvent::UserLoaded { user, now },
            ) => match user {
                Err(e) => (VerifyFlow { request: req, state: VerifyState::Done }, VerifyAction::Respond(Err(e))),
                Ok(uid) => (
                    VerifyFlow {
                        request: req,
                        state: VerifyState::AwaitingConfirmation { token, checked_at, user_id: uid },
                    },
                    VerifyAction::ConfirmSession {
                        session_id,
                        user_id: uid,
                        expire_at: now + SESSION_LIFETIME_NANOS,
                    },
                ),
            },
            (VerifyState::AwaitingConfirmation { token, checked_at, user_id }, VerifyEvent::SessionConfirmed(r)) => match r {
                Err(e) => (VerifyFlow { request: req, state: VerifyState::Done }, VerifyAction::Respond(Err(e))),
                Ok(s) => {
                    let project_id = token.project_id;
                    (
                        VerifyFlow {
                            request: req,
                            state: VerifyState::AwaitingKey { token, checked_at, user_id, session: s },
                        },
                        VerifyAction::FetchPrivateKey { project_id },
                    )
                },
            },
            (VerifyState::AwaitingKey { token, checked_at, user_id, session }, VerifyEvent::KeyLoaded { key, now }) => match key {
                Err(e) => (VerifyFlow { request: req, state: VerifyState::Done }, VerifyAction::Respond(Err(e))),
                Ok(k) => (
                    VerifyFlow {
                        request: req,
                        state: VerifyState::AwaitingSignature { token, checked_at, user_id, session },
                    },
                    VerifyAction::SignAccessToken {
                        user_id,
                        key: k,
                        expire_at: now + ACCESS_TOKEN_LIFETIME_NANOS,
                        project_id: req.project_id,
                    },
                ),
            },
            (VerifyState::AwaitingSignature { token, session, .. }, VerifyEvent::AccessTokenSigned(signed)) => match signed {
                None => (
                    VerifyFlow { request: req, state: VerifyState::Done },
                    VerifyAction::Respond(Err(ApiError::InternalServerError)),
                ),
                Some(access_token) => {
                    let user_id = match session.user_id {
                        Some(u) => u,
                        None => {
                            proof {
                                assert(false);
                            }
                            req.session_id
                        },
                    };
                    (
                        VerifyFlow { request: req, state: VerifyState::Done },
                        VerifyAction::Respond(
                            Ok(
                                SessionResponse {
                                    access_token,
                                    created: token.user_id.is_none(),
                                    user_id,
                                    session: session.id,
                                    expire_at: session.expire_at,
                                },
                            ),
                        ),
                    )
                },
            },
            (_, _) => {
                proof {
                    assert(false);
                }
                (
                    VerifyFlow { request: req, state: VerifyState::Done },
                    VerifyAction::Respond(Err(ApiError::InternalServerError)),
                )
            },
        }
    }
}

/// The redeemed token a state holds, with the instant it was checked at.
pub open spec fn held_token(state: VerifyState) -> Option<(PasswordlessToken, i128)> {
    match state {
        VerifyState::AwaitingRemoval { token, checked_at } => Some((token, checked_at)),
        VerifyState::AwaitingSession { token, checked_at } => Some((token, checked_at)),
        VerifyState::AwaitingRefreshCheck { token, checked_at, .. } => Some((token, checked_at)),
        VerifyState::AwaitingUseCheck { token, checked_at, .. } => Some((token, checked_at)),
        VerifyState::AwaitingUser { token, checked_at, .. } => Some((token, checked_at)),
        VerifyState::AwaitingConfirmation { token, checked_at, .. } => Some((token, checked_at)),
        VerifyState::AwaitingKey { token, checked_at, .. } => Some((token, checked_at)),
        VerifyState::AwaitingSignature { token, checked_at, .. } => Some((token, checked_at)),
        _ => None,
    }
}

/// Every token a sign-in holds could be redeemed when it was checked.
pub open spec fn verify_invariant(flow: VerifyFlow) -> bool {
    held_token(flow.state) matches Some(p) ==> redeemable(p.0, p.1)
}

/// A sign-in starts in a state that holds no token.
pub proof fn lemma_start_invariant(request: VerifyRequest)
    ensures
        verify_invariant(VerifyFlow { request, state: VerifyState::AwaitingToken }),
{
}

/// Each step keeps the invariant: a token enters the flow only once it was
/// found confirmed, valid and unexpired, and is carried along unchanged.
pub proof fn lemma_step_keeps_invariant(flow: VerifyFlow, event: VerifyEvent)
    requires
        verify_invariant(flow),
    ensures
        verify_invariant(verify_step(flow, event).0),
{
}

/// A session is confirmed only for the session that passed the refresh and
/// single-use checks, after the user was loaded, and only while the flow
/// holds a token that could be redeemed.
pub proof fn lemma_confirm_only_after_checks(flow: VerifyFlow, event: VerifyEvent)
    requires
        verify_invariant(flow),
        verify_step(flow, event).1 is ConfirmSession,
    ensures
        flow.state matches VerifyState::AwaitingUser { token, checked_at, session_id } && redeemable(
            token,
            checked_at,
        ) && verify_step(flow, event).1->ConfirmSession_session_id == session_id,
        event matches VerifyEvent::UserLoaded { user: Ok(_), .. },
{
}

/// The user is loaded or created only after the refresh token was found
/// unused.
pub proof fn lemma_user_stage_only_after_unused(flow: VerifyFlow, event: VerifyEvent)
    requires
        verify_step(flow, event).0.state is AwaitingUser,
    ensures
        flow.state is AwaitingUseCheck,
        event == VerifyEvent::UseChecked(Ok(true)),
{
}

/// A new user is created exactly when the token names no user; otherwise
/// the named user of the token's project is loaded.
pub proof fn lemma_user_created_iff_unknown(flow: VerifyFlow, event: VerifyEvent)
    requires
        flow.state matches VerifyState::AwaitingUseCheck { .. },
        event == VerifyEvent::UseChecked(Ok(true)),
    ensures
        flow.state matches VerifyState::AwaitingUseCheck { token, .. } && match token.user_id {
            None => verify_step(flow, event).1 == (VerifyAction::CreateUser {
                email: token.email,
                project_id: token.project_id,
            }),
            Some(id) => verify_step(flow, event).1 == (VerifyAction::FetchUser {
                id,
                project_id: token.project_id,
            }),
        },
{
}

/// A successful answer comes only after the access token was signed, names
/// the confirmed session and its user, and reports whether the user was
/// created.
pub proof fn lemma_success_reports_session(flow: VerifyFlow, event: VerifyEvent)
    requires
        verify_step(flow, event).1 matches VerifyAction::Respond(Ok(_)),
    ensures
        flow.state matches VerifyState::AwaitingSignature { token, session, .. } && event
            matches VerifyEvent::AccessTokenSigned(Some(signed)) && verify_step(flow, event).1
            matches VerifyAction::Respond(Ok(resp)) && resp.access_token == signed
            && resp.created == (token.user_id is None) && resp.user_id == session.user_id.unwrap()
            && resp.session == session.id && resp.expire_at == session.expire_at,
{
}

/// A token that may not be redeemed ends the sign-in with the reason it was
/// refused: unconfirmed before invalid before expired.
pub proof fn lemma_refused_token_ends_flow(flow: VerifyFlow, t: PasswordlessToken, now: i128)
    requires
        flow.state is AwaitingToken,
        !redeemable(t, now),
    ensures
        verify_step(flow, VerifyEvent::TokenFetched { token: Ok(t), now }).0.state is Done,
        verify_step(flow, VerifyEvent::TokenFetched { token: Ok(t), now }).1
            == VerifyAction::Respond(Err(refusal(t, now))),
{
}

/// The flow and the actions that a sequence of events drives a sign-in
/// through, one step per event.
pub open spec fn verify_run(flow: VerifyFlow, events: Seq<VerifyEvent>) -> (VerifyFlow, Seq<VerifyAction>)
    decreases events.len(),
{
    if events.len() == 0 {
        (flow, Seq::empty())
    } else {
        let (next, action) = verify_step(flow, events[0]);
        let (last, rest) = verify_run(next, events.drop_first());
        (last, seq![action] + rest)
    }
}

/// The event reports a token that could be redeemed at the reported instant.
pub open spec fn reports_redeemable_token(e: VerifyEvent) -> bool {
    e matches VerifyEvent::TokenFetched { token: Ok(t), now } && redeemable(t, now)
}

/// The event reports that the refresh token was used for the first time.
pub open spec fn reports_unused_token(e: VerifyEvent) -> bool {
    e == VerifyEvent::UseChecked(Ok(true))
}

proof fn lemma_run_len(flow: VerifyFlow, events: Seq<VerifyEvent>)
    ensures
        verify_run(flow, events).1.len() == events.len(),
    decreases events.len(),
{
    if events.len() > 0 {
        lemma_run_len(verify_step(flow, events[0]).0, events.drop_first());
    }
}

proof fn lemma_confirm_needs_earlier_reports(flow: VerifyFlow, events: Seq<VerifyEvent>, k: int)
    requires
        0 <= k < events.len(),
        verify_run(flow, events).1[k] is ConfirmSession,
    ensures
        flow.state is AwaitingToken ==> exists|i: int|
            0 <= i < k && #[trigger] reports_redeemable_token(events[i]),
        match flow.state {
            VerifyState::AwaitingToken
            | VerifyState::AwaitingRemoval { .. }
            | VerifyState::AwaitingSession { .. }
            | VerifyState::AwaitingRefreshCheck { .. }
            | VerifyState::AwaitingUseCheck { .. } => exists|j: int|
                0 <= j < k && #[trigger] reports_unused_token(events[j]),
            VerifyState::AwaitingUser { .. } => true,
            _ => false,
        },
    decreases events.len(),
{
    let (next, action) = verify_step(flow, events[0]);
    let rest = events.drop_first();
    lemma_run_len(next, rest);
    if k == 0 {
        assert(verify_run(flow, events).1[0] == action);
    } else {
        assert(verify_run(flow, events).1[k] == verify_run(next, rest).1[k - 1]);
        lemma_confirm_needs_earlier_reports(next, rest, k - 1);
        if flow.state is AwaitingToken {
            if next.state is AwaitingRemoval {
                assert(reports_redeemable_token(events[0]));
            }
        }
        if next.state is AwaitingUser {
            assert(reports_unused_token(events[0]));
        }
        if exists|i: int| 0 <= i < k - 1 && #[trigger] reports_redeemable_token(rest[i]) {
            let i = choose|i: int| 0 <= i < k - 1 && #[trigger] reports_redeemable_token(rest[i]);
            assert(reports_redeemable_token(events[i + 1]));
        }
        if exists|j: int| 0 <= j < k - 1 && #[trigger] reports_unused_token(rest[j]) {
            let j = choose|j: int| 0 <= j < k - 1 && #[trigger] reports_unused_token(rest[j]);
            assert(reports_unused_token(events[j + 1]));
        }
    }
}

/// Whatever the caller reports, a sign-in started on a request confirms a
/// session only after it was told of a token that could be redeemed
/// (confirmed, valid, unexpired) and of a refresh token used for the first
/// time.
pub proof fn lemma_confirmation_needs_checks(request: VerifyRequest, events: Seq<VerifyEvent>, k: int)
    requires
        0 <= k < events.len(),
        verify_run(VerifyFlow { request, state: VerifyState::AwaitingToken }, events).1[k] is ConfirmSession,
    ensures
        exists|i: int| 0 <= i < k && #[trigger] reports_redeemable_token(events[i]),
        exists|j: int| 0 <= j < k && #[trigger] reports_unused_token(events[j]),
{
    lemma_confirm_needs_earlier_reports(VerifyFlow { request, state: VerifyState::AwaitingToken }, events, k);
}

/// At position `j` of a run, the email's passwordless tokens were reported
/// removed, right after the redeemed token was fetched and their removal was
/// asked for.
pub open spec fn removal_after_fetch(events: Seq<VerifyEvent>, actions: Seq<VerifyAction>, j: int) -> bool {
    &&& 0 < j < events.len()
    &&& events[j - 1] matches VerifyEvent::TokenFetched { token: Ok(t), .. }
    &&& actions[j - 1] == (VerifyAction::RemoveTokens { email: t.email, project_id: t.project_id })
    &&& events[j] matches VerifyEvent::TokensRemoved(Ok(_))
}

proof fn lemma_success_needs_earlier_removal(flow: VerifyFlow, events: Seq<VerifyEvent>, k: int)
    requires
        0 <= k < events.len(),
        verify_run(flow, events).1[k] matches VerifyAction::Respond(Ok(_)),
    ensures
        match flow.state {
            VerifyState::AwaitingToken => exists|j: int|
                j < k && #[trigger] removal_after_fetch(events, verify_run(flow, events).1, j),
            VerifyState::AwaitingRemoval { .. } => 0 < k && events[0] matches VerifyEvent::TokensRemoved(Ok(_)),
            VerifyState::Done => false,
            _ => true,
        },
    decreases events.len(),
{
    let (next, action) = verify_step(flow, events[0]);
    let rest = events.drop_first();
    let actions = verify_run(flow, events).1;
    lemma_run_len(next, rest);
    assert(actions[0] == action);
    if k > 0 {
        assert(actions[k] == verify_run(next, rest).1[k - 1]);
        lemma_success_needs_earlier_removal(next, rest, k - 1);
        if flow.state is AwaitingToken {
            assert(rest[0] == events[1]);
            assert(removal_after_fetch(events, actions, 1));
        }
    }
}

/// Whatever the caller reports, a sign-in answers success only after it
/// asked to remove the passwordless tokens of the redeemed token's email and
/// project, and was told that they were removed.
pub proof fn lemma_success_needs_removal(request: VerifyRequest, events: Seq<VerifyEvent>, k: int)
    requires
        0 <= k < events.len(),
        verify_run(VerifyFlow { request, state: VerifyState::AwaitingToken }, events).1[k] matches VerifyAction::Respond(
            Ok(_),
        ),
    ensures
        exists|j: int|
            j < k && #[trigger] removal_after_fetch(
                events,
                verify_run(VerifyFlow { request, state: VerifyState::AwaitingToken }, events).1,
                j,
            ),
{
    lemma_success_needs_earlier_removal(
        VerifyFlow { request, state: VerifyState::AwaitingToken },
        events,
        k,
    );
}

/// The passwordless tokens of `store`, keyed by id, that are left once those
/// of `email` in `project_id` are removed.
pub open spec fn remove_tokens(
    store: Map<Uuid, PasswordlessToken>,
    email: Seq<char>,
    project_id: Uuid,
) -> Map<Uuid, PasswordlessToken> {
    Map::new(
        |id: Uuid|
            store.contains_key(id) && !(store[id].email@ == email && store[id].project_id
                == project_id),
        |id: Uuid| store[id],
    )
}

/// The event answers the fetch of token `id` from `store`: the stored token
/// when there is one, an error when there is none.
pub open spec fn fetch_answers_from(store: Map<Uuid, PasswordlessToken>, id: Uuid, e: VerifyEvent) -> bool {
    e matches VerifyEvent::TokenFetched { token, .. } && match token {
        Ok(t) => store.contains_key(id) && store[id] == t,
        Err(_) => !store.contains_key(id),
    }
}

/// A passwordless token is redeemed once. When a sign-in whose token was
/// fetched from `store` succeeds, it first asked to remove the tokens of the
/// redeemed token's email and project and was told they were removed; the
/// redeemed token is among them, so a later sign-in for the same token,
/// fetching it from what the removal left, is refused.
pub proof fn lemma_redeemed_token_is_single_use(
    request: VerifyRequest,
    store: Map<Uuid, PasswordlessToken>,
    events: Seq<VerifyEvent>,
    k: int,
    second: VerifyRequest,
    e: VerifyEvent,
)
    requires
        0 <= k < events.len(),
        fetch_answers_from(store, request.token_id, events[0]),
        verify_run(VerifyFlow { request, state: VerifyState::AwaitingToken }, events).1[k] matches VerifyAction::Respond(
            Ok(_),
        ),
        second.token_id == request.token_id,
        fetch_answers_from(
            remove_tokens(
                store,
                verify_run(VerifyFlow { request, state: VerifyState::AwaitingToken }, events).1[0]->RemoveTokens_email@,
                verify_run(VerifyFlow { request, state: VerifyState::AwaitingToken }, events).1[0]->RemoveTokens_project_id,
            ),
            second.token_id,
            e,
        ),
    ensures
        verify_run(VerifyFlow { request, state: VerifyState::AwaitingToken }, events).1[0] is RemoveTokens,
        events[1] matches VerifyEvent::TokensRemoved(Ok(_)),
        verify_step(VerifyFlow { request: second, state: VerifyState::AwaitingToken }, e).0.state is Done,
        verify_step(VerifyFlow { request: second, state: VerifyState::AwaitingToken }, e).1 matches VerifyAction::Respond(
            Err(_),
        ),
{
    let flow = VerifyFlow { request, state: VerifyState::AwaitingToken };
    let (next, action) = verify_step(flow, events[0]);
    let rest = events.drop_first();
    let actions = verify_run(flow, events).1;
    lemma_run_len(next, rest);
    assert(actions[0] == action);
    if k == 0 {
        assert(false);
    } else {
        assert(actions[k] == verify_run(next, rest).1[k - 1]);
        lemma_success_needs_earlier_removal(next, rest, k - 1);
        assert(rest[0] == events[1]);
    }
    let after = remove_tokens(store, actions[0]->RemoveTokens_email@, actions[0]->RemoveTokens_project_id);
    assert(!after.contains_key(request.token_id));
}

/// At position `i` of a run, the user `user_id` was reported loaded and the
/// session was asked to be confirmed for that user.
pub open spec fn user_loaded_at(events: Seq<VerifyEvent>, actions: Seq<VerifyAction>, i: int, user_id: Uuid) -> bool {
    &&& 0 <= i < events.len()
    &&& events[i] matches VerifyEvent::UserLoaded { user: Ok(u), .. }
    &&& u == user_id
    &&& actions[i] matches VerifyAction::ConfirmSession { user_id: c, .. }
    &&& c == user_id
}

proof fn lemma_signing_needs_earlier_user(flow: VerifyFlow, events: Seq<VerifyEvent>, k: int)
    requires
        0 <= k < events.len(),
        verify_run(flow, events).1[k] is SignAccessToken,
    ensures
        ({
            let u = verify_run(flow, events).1[k]->SignAccessToken_user_id;
            match flow.state {
                VerifyState::AwaitingConfirmation { user_id, .. } => u == user_id,
                VerifyState::AwaitingKey { user_id, .. } => u == user_id,
                VerifyState::AwaitingSignature { .. } => false,
                VerifyState::Done => false,
                _ => exists|i: int| i < k && #[trigger] user_loaded_at(events, verify_run(flow, events).1, i, u),
            }
        }),
    decreases events.len(),
{
    let (next, action) = verify_step(flow, events[0]);
    let rest = events.drop_first();
    let actions = verify_run(flow, events).1;
    lemma_run_len(next, rest);
    assert(actions[0] == action);
    if k > 0 {
        assert(actions[k] == verify_run(next, rest).1[k - 1]);
        lemma_signing_needs_earlier_user(next, rest, k - 1);
        let u = actions[k]->SignAccessToken_user_id;
        if next.state is AwaitingConfirmation && flow.state is AwaitingUser {
            assert(user_loaded_at(events, actions, 0, u));
        }
        if exists|i: int| i < k - 1 && #[trigger] user_loaded_at(rest, verify_run(next, rest).1, i, u) {
            let i = choose|i: int| i < k - 1 && #[trigger] user_loaded_at(rest, verify_run(next, rest).1, i, u);
            assert(actions[i + 1] == verify_run(next, rest).1[i]);
            assert(user_loaded_at(events, actions, i + 1, u));
        }
    }
}

/// Whatever the caller reports, a sign-in signs an access token only for the
/// user that was reported loaded for it, the same user its session was
/// confirmed for, and with the key that was reported loaded just before.
pub proof fn lemma_signs_for_loaded_user(request: VerifyRequest, events: Seq<VerifyEvent>, k: int)
    requires
        0 <= k < events.len(),
        verify_run(VerifyFlow { request, state: VerifyState::AwaitingToken }, events).1[k] is SignAccessToken,
    ensures
        exists|i: int|
            i < k && #[trigger] user_loaded_at(
                events,
                verify_run(VerifyFlow { request, state: VerifyState::AwaitingToken }, events).1,
                i,
                verify_run(VerifyFlow { request, state: VerifyState::AwaitingToken }, events).1[k]->SignAccessToken_user_id,
            ),
{
    lemma_signing_needs_earlier_user(VerifyFlow { request, state: VerifyState::AwaitingToken }, events, k);
}

/// The access token is signed with the key just reported and for the user
/// the flow holds; it expires fifteen minutes after the reported instant and
/// names the request's project.
pub proof fn lemma_signing_step(flow: VerifyFlow, event: VerifyEvent)
    requires
        verify_step(flow, event).1 is SignAccessToken,
    ensures
        flow.state matches VerifyState::AwaitingKey { user_id, .. } && event matches VerifyEvent::KeyLoaded {
            key: Ok(k),
            now,
        } && verify_step(flow, event).1 == (VerifyAction::SignAccessToken {
            user_id,
            key: k,
            expire_at: (now + ACCESS_TOKEN_LIFETIME_NANOS) as i128,
            project_id: flow.request.project_id,
        }),
{
}

/// The lifetimes are those of the service: a link counts as expired from
/// thirty minutes before its creation on, a session lives thirty days and an
/// access token fifteen minutes.
pub proof fn lemma_lifetimes()
    ensures
        TOKEN_GRACE_NANOS == 30 * 60 * 1_000_000_000,
        SESSION_LIFETIME_NANOS == 30 * 24 * 60 * 60 * 1_000_000_000,
        ACCESS_TOKEN_LIFETIME_NANOS == 15 * 60 * 1_000_000_000,
{
}

/// The fetched token decides the first step: an unconfirmed link is refused
/// with `PasswordlessAwaitConfirm`, then an invalid one with
/// `PasswordlessInvalidToken`, then one whose creation lies more than thirty
/// minutes after `now` with `PasswordlessTokenExpire`; any other token is
/// redeemed, and the pending tokens of its email and project are to be
/// removed.
pub proof fn lemma_token_check(request: VerifyRequest, t: PasswordlessToken, now: i128)
    ensures
        ({
            let r = verify_step(
                VerifyFlow { request, state: VerifyState::AwaitingToken },
                VerifyEvent::TokenFetched { token: Ok(t), now },
            );
            let done = VerifyFlow { request, state: VerifyState::Done };
            &&& !t.confirmed ==> r == (done, VerifyAction::Respond(
                Err(ApiError::PasswordlessAwaitConfirm),
            ))
            &&& t.confirmed && !t.is_valid ==> r == (done, VerifyAction::Respond(
                Err(ApiError::PasswordlessInvalidToken),
            ))
            &&& t.confirmed && t.is_valid && t.created_at - 30 * 60 * 1_000_000_000int > now ==> r
                == (done, VerifyAction::Respond(Err(ApiError::PasswordlessTokenExpire)))
            &&& t.confirmed && t.is_valid && t.created_at - 30 * 60 * 1_000_000_000int <= now ==> r
                == (VerifyFlow {
                request,
                state: VerifyState::AwaitingRemoval { token: t, checked_at: now },
            }, VerifyAction::RemoveTokens { email: t.email, project_id: t.project_id })
        }),
{
}

/// The token a sign-in holds, from the removal of pending tokens on, was
/// confirmed and valid and not expired at the instant it was checked.
pub open spec fn holds_checked_token(state: VerifyState) -> bool {
    held_token(state) matches Some(p) ==> p.0.confirmed && p.0.is_valid && p.0.created_at - 30
        * 60 * 1_000_000_000int <= p.1
}

/// Every step keeps `holds_checked_token`: no sign-in goes on with a token
/// whose link was not confirmed, that is invalid or that is expired.
pub proof fn lemma_only_checked_tokens_held(flow: VerifyFlow, event: VerifyEvent)
    requires
        holds_checked_token(flow.state),
    ensures
        holds_checked_token(verify_step(flow, event).0.state),
{
}

/// Once the user is loaded, the request's session is to be confirmed for
/// that user, to expire thirty days after the reported instant, whether the
/// user was just created or already existed.
pub proof fn lemma_session_confirmed_for_thirty_days(
    request: VerifyRequest,
    token: PasswordlessToken,
    checked_at: i128,
    session_id: Uuid,
    user: Uuid,
    now: i128,
)
    requires
        now <= i128::MAX - SESSION_LIFETIME_NANOS,
    ensures
        verify_step(
            VerifyFlow { request, state: VerifyState::AwaitingUser { token, checked_at, session_id } },
            VerifyEvent::UserLoaded { user: Ok(user), now },
        ) == (VerifyFlow {
            request,
            state: VerifyState::AwaitingConfirmation { token, checked_at, user_id: user },
        }, VerifyAction::ConfirmSession {
            session_id,
            user_id: user,
            expire_at: (now + 30 * 24 * 60 * 60 * 1_000_000_000int) as i128,
        }),
        now + 30 * 24 * 60 * 60 * 1_000_000_000int <= i128::MAX,
{
}

/// Once the key is loaded, the access token is to be signed for the loaded
/// user with that key, for the request's project, to expire fifteen minutes
/// after the reported instant.
pub proof fn lemma_access_token_for_fifteen_minutes(
    flow: VerifyFlow,
    key: Vec<u8>,
    now: i128,
)
    requires
        flow.state is AwaitingKey,
        now <= i128::MAX - ACCESS_TOKEN_LIFETIME_NANOS,
    ensures
        verify_step(flow, VerifyEvent::KeyLoaded { key: Ok(key), now }).1 == (
        VerifyAction::SignAccessToken {
            user_id: flow.state->AwaitingKey_user_id,
            key,
            expire_at: (now + 15 * 60 * 1_000_000_000int) as i128,
            project_id: flow.request.project_id,
        }),
{
}

/// A signed access token ends the sign-in with success: the token, whether
/// the user was created (the redeemed token named none), the confirmed
/// session's user, id and expiry.
pub proof fn lemma_signed_token_answers(flow: VerifyFlow, signed: String)
    requires
        flow.state is AwaitingSignature,
    ensures
        ({
            let token = flow.state->AwaitingSignature_token;
            let session = flow.state->AwaitingSignature_session;
            verify_step(flow, VerifyEvent::AccessTokenSigned(Some(signed))) == (VerifyFlow {
                request: flow.request,
                state: VerifyState::Done,
            }, VerifyAction::Respond(
                Ok(
                    SessionResponse {
                        access_token: signed,
                        created: token.user_id is None,
                        user_id: session.user_id.unwrap(),
                        session: session.id,
                        expire_at: session.expire_at,
                    },
                ),
            ))
        }),
        verify_step(flow, VerifyEvent::AccessTokenSigned(None)).1 == VerifyAction::Respond(
            Err(ApiError::InternalServerError),
        ),
{
}

/// The event reports that the action failed with `e`.
pub open spec fn reports_failure(event: VerifyEvent, e: ApiError) -> bool {
    match event {
        VerifyEvent::TokenFetched { token, .. } => token == Err::<PasswordlessToken, ApiError>(e),
        VerifyEvent::TokensRemoved(r) => r == Err::<(), ApiError>(e),
        VerifyEvent::SessionFetched(r) => r == Err::<Uuid, ApiError>(e),
        VerifyEvent::RefreshTokenChecked(r) => r == Err::<(), ApiError>(e),
        VerifyEvent::UseChecked(r) => r == Err::<bool, ApiError>(e),
        VerifyEvent::UserLoaded { user, .. } => user == Err::<Uuid, ApiError>(e),
        VerifyEvent::SessionConfirmed(r) => r == Err::<ConfirmedSession, ApiError>(e),
        VerifyEvent::KeyLoaded { key, .. } => key == Err::<Vec<u8>, ApiError>(e),
        VerifyEvent::AccessTokenSigned(_) => false,
    }
}

/// An error reported for the action the sign-in waits on ends it with that
/// error.
pub proof fn lemma_failures_end_sign_in(flow: VerifyFlow, event: VerifyEvent, e: ApiError)
    requires
        accepts(flow.state, event),
        reports_failure(event, e),
    ensures
        verify_step(flow, event).0 == (VerifyFlow { request: flow.request, state: VerifyState::Done }),
        verify_step(flow, event).1 == VerifyAction::Respond(Err(e)),
{
}

/// A refresh token that was used before ends the sign-in with `Forbidden`.
pub proof fn lemma_reused_refresh_token_forbidden(flow: VerifyFlow)
    requires
        flow.state is AwaitingUseCheck,
    ensures
        verify_step(flow, VerifyEvent::UseChecked(Ok(false))).0.state is Done,
        verify_step(flow, VerifyEvent::UseChecked(Ok(false))).1 == VerifyAction::Respond(
            Err(ApiError::Forbidden),
        ),
{
}

/// After the removal of pending tokens, the request's session is fetched.
pub proof fn lemma_removal_then_session(flow: VerifyFlow)
    requires
        flow.state is AwaitingRemoval,
    ensures
        verify_step(flow, VerifyEvent::TokensRemoved(Ok(()))).1 == (VerifyAction::FetchSession {
            id: flow.request.session_id,
        }),
{
}

/// After the session is fetched, the refresh token is checked, and then
/// tested for first use on that session.
pub proof fn lemma_session_then_checks(flow: VerifyFlow, sid: Uuid)
    requires
        flow.state is AwaitingSession,
    ensures
        verify_step(flow, VerifyEvent::SessionFetched(Ok(sid))).1 == VerifyAction::CheckRefreshToken,
        verify_step(
            verify_step(flow, VerifyEvent::SessionFetched(Ok(sid))).0,
            VerifyEvent::RefreshTokenChecked(Ok(())),
        ).1 == (VerifyAction::CheckTokenUnused { session_id: sid }),
{
}

/// After the session is confirmed, the key of the redeemed token's project
/// is loaded.
pub proof fn lemma_confirmation_then_key(flow: VerifyFlow, s: ConfirmedSession)
    requires
        flow.state is AwaitingConfirmation,
    ensures
        verify_step(flow, VerifyEvent::SessionConfirmed(Ok(s))).1 == (VerifyAction::FetchPrivateKey {
            project_id: flow.state->AwaitingConfirmation_token.project_id,
        }),
{
}

} // verus!
