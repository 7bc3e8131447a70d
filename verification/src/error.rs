use vstd::prelude::*;

verus! {

/// The errors a request can end in.
#[derive(Debug, Clone, Copy, PartialEq, Eq, Structural)]
pub enum ApiError {
    InternalServerError,
    BadRequest,
    Forbidden,
    AuthTokenMissing,
    AdminAuth,
    AdminExists,
    ProjectNotFound,
    ProjectNameExists,
    UserExists,
    UserInvalidProject,
    PasswordlessAwaitConfirm,
    PasswordlessInvalidToken,
    PasswordlessTokenExpire,
}

} // verus!
