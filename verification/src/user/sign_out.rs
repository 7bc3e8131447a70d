use vstd::prelude::*;

use crate::error::ApiError;
use uuid::Uuid;

verus! {

/// Which sessions a sign-out ends: the one named by the request, or every
/// session of its user.
#[derive(Clone, Copy, PartialEq, Eq, Structural)]
pub enum SignOutScope {
    Session,
    AllSessions,
}

/// Where a sign-out stands.
pub enum SignOutState {
    AwaitingSession,
    AwaitingValidation { session_id: Uuid },
    AwaitingDeletion,
    Done,
}

/// What the caller reports back after carrying out an action.
pub enum SignOutEvent {
    /// The id of the session named by the request.
    SessionFetched(Result<Uuid, ApiError>),
    /// Whether the request's refresh token belongs to that session.
    TokenValidated(Result<bool, ApiError>),
    /// The sessions were deleted.
    Deleted(Result<(), ApiError>),
}

/// What the caller is to do next.
pub enum SignOutAction {
    FetchSession { id: Uuid },
    /// Check the request's refresh token against the fetched session.
    ValidateToken,
    DeleteSession { id: Uuid },
    DeleteAllSessions { id: Uuid },
    Respond(Result<(), ApiError>),
}

/// A sign-out in progress.
pub struct SignOutFlow {
    pub scope: SignOutScope,
    pub state: SignOutState,
}

/// The event that the flow waits for in `state`.
pub open spec fn sign_out_accepts(state: SignOutState, event: SignOutEvent) -> bool {
    match state {
        SignOutState::AwaitingSession => event is SessionFetched,
        SignOutState::AwaitingValidation { .. } => event is TokenValidated,
        SignOutState::AwaitingDeletion => event is Deleted,
        SignOutState::Done => false,
    }
}

/// Where the sign-out goes on `event`, and what it asks for.
pub open spec fn sign_out_step(flow: SignOutFlow, event: SignOutEvent) -> (SignOutFlow, SignOutAction) {
    let done = SignOutFlow { scope: flow.scope, state: SignOutState::Done };
    match (flow.state, event) {
        (SignOutState::AwaitingSession, SignOutEvent::SessionFetched(r)) => match r {
            Err(e) => (done, SignOutAction::Respond(Err(e))),
            Ok(id) => (
                SignOutFlow { scope: flow.scope, state: SignOutState::AwaitingValidation { session_id: id } },
                SignOutAction::ValidateToken,
            ),
        },
        (SignOutState::AwaitingValidation { session_id }, SignOutEvent::TokenValidated(r)) => match r {
            Err(e) => (done, SignOutAction::Respond(Err(e))),
            Ok(false) => (done, SignOutAction::Respond(Err(ApiError::Forbidden))),
            Ok(true) => (
                SignOutFlow { scope: flow.scope, state: SignOutState::AwaitingDeletion },
                match flow.scope {
                    SignOutScope::Session => SignOutAction::DeleteSession { id: session_id },
                    SignOutScope::AllSessions => SignOutAction::DeleteAllSessions { id: session_id },
                },
            ),
        },
        (SignOutState::AwaitingDeletion, SignOutEvent::Deleted(r)) => match r {
            Err(e) => (done, SignOutAction::Respond(Err(e))),
            Ok(_) => (done, SignOutAction::Respond(Ok(()))),
        },
        _ => (done, SignOutAction::Respond(Err(ApiError::InternalServerError))),
    }
}

impl SignOutFlow {
    /// Starts a sign-out of `session_id`: first fetch the session.
    pub fn start(scope: SignOutScope, session_id: Uuid) -> (r: (SignOutFlow, SignOutAction))
        ensures
            r.0.scope == scope,
            r.0.state is AwaitingSession,
            r.1 == (SignOutAction::FetchSession { id: session_id }),
    {
        (SignOutFlow { scope, state: SignOutState::AwaitingSession }, SignOutAction::FetchSession { id: session_id })
    }

    /// Takes in what the last action produced and decides the next one.
    pub fn step(self, event: SignOutEvent) -> (r: (SignOutFlow, SignOutAction))
        requires
            sign_out_accepts(self.state, event),
        ensures
            r == sign_out_step(self, event),
    {
        let scope = self.scope;
        match (self.state, event) {
            (SignOutState::AwaitingSession, SignOutEvent::SessionFetched(r)) => match r {
                Err(e) => (SignOutFlow { scope, state: SignOutState::Done }, SignOutAction::Respond(Err(e))),
                Ok(id) => (
                    SignOutFlow { scope, state: SignOutState::AwaitingValidation { session_id: id } },
                    SignOutAction::ValidateToken,
                ),
            },
            (SignOutState::AwaitingValidation { session_id }, SignOutEvent::TokenValidated(r)) => match r {
                Err(e) => (SignOutFlow { scope, state: SignOutState::Done }, SignOutAction::Respond(Err(e))),
                Ok(is_valid) => {
                    if !is_valid {
                        return (
                            SignOutFlow { scope, state: SignOutState::Done },
                            SignOutAction::Respond(Err(ApiError::Forbidden)),
                        );
                    }
                    let action = match scope {
                        SignOutScope::Session => SignOutAction::DeleteSession { id: session_id },
                        SignOutScope::AllSessions => SignOutAction::DeleteAllSessions { id: session_id },
                    };
                    (SignOutFlow { scope, state: SignOutState::AwaitingDeletion }, action)
                },
            },
            (SignOutState::AwaitingDeletion, SignOutEvent::Deleted(r)) => match r {
                Err(e) => (SignOutFlow { scope, state: SignOutState::Done }, SignOutAction::Respond(Err(e))),
                Ok(_) => (SignOutFlow { scope, state: SignOutState::Done }, SignOutAction::Respond(Ok(()))),
            },
            (_, _) => {
                proof {
                    assert(false);
                }
                (
                    SignOutFlow { scope, state: SignOutState::Done },
                    SignOutAction::Respond(Err(ApiError::InternalServerError)),
                )
            },
        }
    }
}

/// Sessions are deleted only when the request's refresh token was found to
/// belong to the fetched session, and only that session, or that session's
/// user, is signed out.
pub proof fn lemma_delete_only_after_validation(flow: SignOutFlow, event: SignOutEvent)
    requires
        sign_out_step(flow, event).1 is DeleteSession || sign_out_step(flow, event).1 is DeleteAllSessions,
    ensures
        flow.state matches SignOutState::AwaitingValidation { session_id } && event
            == SignOutEvent::TokenValidated(Ok(true)) && match sign_out_step(flow, event).1 {
            SignOutAction::DeleteSession { id } => id == session_id && flow.scope
                == SignOutScope::Session,
            SignOutAction::DeleteAllSessions { id } => id == session_id && flow.scope
                == SignOutScope::AllSessions,
            _ => false,
        },
{
}

/// A sign-out answers success only after the deletion succeeded.
pub proof fn lemma_success_only_after_deletion(flow: SignOutFlow, event: SignOutEvent)
    requires
        sign_out_step(flow, event).1 == SignOutAction::Respond(Ok(())),
    ensures
        flow.state is AwaitingDeletion,
        event matches SignOutEvent::Deleted(Ok(_)),
{
}

/// The flow and the actions that a sequence of events drives a sign-out
/// through, one step per event.
pub open spec fn sign_out_run(flow: SignOutFlow, events: Seq<SignOutEvent>) -> (SignOutFlow, Seq<SignOutAction>)
    decreases events.len(),
{
    if events.len() == 0 {
        (flow, Seq::empty())
    } else {
        let (next, action) = sign_out_step(flow, events[0]);
        let (last, rest) = sign_out_run(next, events.drop_first());
        (last, seq![action] + rest)
    }
}

/// The action deletes sessions.
pub open spec fn deletes(a: SignOutAction) -> bool {
    a is DeleteSession || a is DeleteAllSessions
}

/// The event reports that the refresh token belongs to the session.
pub open spec fn reports_valid_token(e: SignOutEvent) -> bool {
    e == SignOutEvent::TokenValidated(Ok(true))
}

proof fn lemma_sign_out_run_len(flow: SignOutFlow, events: Seq<SignOutEvent>)
    ensures
        sign_out_run(flow, events).1.len() == events.len(),
    decreases events.len(),
{
    if events.len() > 0 {
        lemma_sign_out_run_len(sign_out_step(flow, events[0]).0, events.drop_first());
    }
}

proof fn lemma_deletion_needs_earlier_validation(flow: SignOutFlow, events: Seq<SignOutEvent>, k: int)
    requires
        0 <= k < events.len(),
        deletes(sign_out_run(flow, events).1[k]),
    ensures
        match flow.state {
            SignOutState::AwaitingSession => exists|j: int|
                0 <= j <= k && #[trigger] reports_valid_token(events[j]),
            SignOutState::AwaitingValidation { .. } => exists|j: int|
                0 <= j <= k && #[trigger] reports_valid_token(events[j]),
            _ => false,
        },
    decreases events.len(),
{
    let (next, action) = sign_out_step(flow, events[0]);
    let rest = events.drop_first();
    lemma_sign_out_run_len(next, rest);
    if k == 0 {
        assert(sign_out_run(flow, events).1[0] == action);
        assert(reports_valid_token(events[0]));
    } else {
        assert(sign_out_run(flow, events).1[k] == sign_out_run(next, rest).1[k - 1]);
        lemma_deletion_needs_earlier_validation(next, rest, k - 1);
        let j = choose|j: int| 0 <= j <= k - 1 && #[trigger] reports_valid_token(rest[j]);
        assert(reports_valid_token(events[j + 1]));
    }
}

/// Whatever the caller reports, a sign-out deletes sessions only after it
/// was told that the request's refresh token belongs to the session.
pub proof fn lemma_sign_out_deletes_only_when_validated(
    scope: SignOutScope,
    events: Seq<SignOutEvent>,
    k: int,
)
    requires
        0 <= k < events.len(),
        deletes(sign_out_run(SignOutFlow { scope, state: SignOutState::AwaitingSession }, events).1[k]),
    ensures
        exists|j: int| 0 <= j <= k && #[trigger] reports_valid_token(events[j]),
{
    lemma_deletion_needs_earlier_validation(
        SignOutFlow { scope, state: SignOutState::AwaitingSession },
        events,
        k,
    );
}

/// Once the sessions are being deleted, a reported deletion ends the sign-out
/// with success, for either scope, and a failed one ends it with that
/// failure.
pub proof fn lemma_deletion_answers(scope: SignOutScope, r: Result<(), ApiError>)
    ensures
        r is Ok ==> sign_out_step(
            SignOutFlow { scope, state: SignOutState::AwaitingDeletion },
            SignOutEvent::Deleted(r),
        ) == (SignOutFlow { scope, state: SignOutState::Done }, SignOutAction::Respond(Ok(()))),
        r matches Err(e) ==> sign_out_step(
            SignOutFlow { scope, state: SignOutState::AwaitingDeletion },
            SignOutEvent::Deleted(r),
        ) == (SignOutFlow { scope, state: SignOutState::Done }, SignOutAction::Respond(Err(e))),
{
}

/// A sign-out whose session is found and whose refresh token belongs to it
/// deletes that session (or, for `AllSessions`, every session of its user),
/// and answers success once the deletion is reported done.
pub proof fn lemma_sign_out_succeeds(scope: SignOutScope, session_id: Uuid)
    ensures
        ({
            let events = seq![
                SignOutEvent::SessionFetched(Ok(session_id)),
                SignOutEvent::TokenValidated(Ok(true)),
                SignOutEvent::Deleted(Ok(())),
            ];
            let run = sign_out_run(SignOutFlow { scope, state: SignOutState::AwaitingSession }, events);
            &&& run.1.len() == 3
            &&& run.1[0] == SignOutAction::ValidateToken
            &&& run.1[1] == (match scope {
                SignOutScope::Session => SignOutAction::DeleteSession { id: session_id },
                SignOutScope::AllSessions => SignOutAction::DeleteAllSessions { id: session_id },
            })
            &&& run.1[2] == SignOutAction::Respond(Ok(()))
            &&& run.0.state is Done
        }),
{
    let events = seq![
        SignOutEvent::SessionFetched(Ok(session_id)),
        SignOutEvent::TokenValidated(Ok(true)),
        SignOutEvent::Deleted(Ok(())),
    ];
    let f0 = SignOutFlow { scope, state: SignOutState::AwaitingSession };
    let f1 = sign_out_step(f0, events[0]).0;
    let f2 = sign_out_step(f1, events[1]).0;
    let f3 = sign_out_step(f2, events[2]).0;
    assert(events.drop_first() =~= seq![events[1], events[2]]);
    assert(events.drop_first().drop_first() =~= seq![events[2]]);
    assert(events.drop_first().drop_first().drop_first() =~= Seq::<SignOutEvent>::empty());
    reveal_with_fuel(sign_out_run, 4);
    let r3 = sign_out_run(f3, events.drop_first().drop_first().drop_first());
    let r2 = sign_out_run(f2, events.drop_first().drop_first());
    let r1 = sign_out_run(f1, events.drop_first());
    assert(r3.1 =~= Seq::<SignOutAction>::empty());
    assert(r2.1 =~= seq![SignOutAction::Respond(Ok(()))]);
}

} // verus!
