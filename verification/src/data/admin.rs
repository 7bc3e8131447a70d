use vstd::prelude::*;

use crate::data::user::User;
use crate::db::{DbError, FOREIGN_KEY_VIOLATION, UNIQUE_VIOLATION};
use crate::error::ApiError;
use crate::session::data::token::{is_default_bcrypt_hash, verify_result, Token};
use crate::text::str_eq;
use uuid::Uuid;
use vstd::string::StringSliceAdditionalSpecFns;

verus! {

/// Constraint that ties a user to an existing project.
pub const PROJECT_FKEY: &'static str = "users_project_id_fkey";

/// Constraint that makes an email unique within a project.
pub const PROJECT_EMAIL_KEY: &'static str = "users_project_id_email_key";

/// Provider recorded for users created without one.
pub const DEFAULT_PROVIDER: &'static str = "email";

/// Profile data recorded for users created without any: an empty JSON object.
pub const EMPTY_DATA: &'static str = "{}";

/// HTTP status with which the admin guard rejects a request.
pub const BAD_REQUEST_STATUS: u16 = 400;

/// Trait that marks a user as an administrator.
pub const ADMIN_TRAIT: &'static str = "Admin";

/// Body of a request to create a project.
pub struct NewProject {
    pub name: String,
}

/// Body of a request to create an administrator.
pub struct NewAdmin {
    pub email: String,
    pub password: String,
}

/// Body of a request to create a user. `data` is the user's profile data as
/// JSON text.
pub struct NewUser {
    pub email: String,
    pub project_id: Uuid,
    pub password: Option<String>,
    pub display_name: Option<String>,
    pub data: Option<String>,
    pub provider_id: Option<String>,
}

/// The parameters with which an administrator's row is inserted.
pub struct AdminParams {
    pub email: String,
    pub password_hash: String,
    pub project: Uuid,
}

/// The parameters with which a user's row is inserted.
pub struct UserParams {
    pub email: String,
    pub password_hash: Option<String>,
    pub display_name: Option<String>,
    pub data: String,
    pub provider: String,
    pub project_id: Uuid,
}

/// How a request guard turned a request away: the HTTP status and the error.
#[derive(Debug, Clone, Copy, PartialEq, Eq, Structural)]
pub struct Rejection {
    pub status: u16,
    pub error: ApiError,
}

/// An authenticated administrator.
pub struct Admin(pub User);

/// The view of an optional string.
pub open spec fn opt_string_view(s: Option<String>) -> Option<Seq<char>> {
    match s {
        Some(v) => Some(v@),
        None => None,
    }
}

/// What creating an administrator answers, given what the insertion returned.
pub open spec fn create_result(outcome: Result<Uuid, DbError>) -> Result<Uuid, ApiError> {
    match outcome {
        Ok(id) => Ok(id),
        Err(DbError::Server { constraint: Some(c), .. }) => {
            if c@ == PROJECT_FKEY@ {
                Err(ApiError::ProjectNotFound)
            } else if c@ == PROJECT_EMAIL_KEY@ {
                Err(ApiError::AdminExists)
            } else {
                Err(ApiError::InternalServerError)
            }
        },
        Err(_) => Err(ApiError::InternalServerError),
    }
}

/// What creating a project answers, given what the insertion returned.
pub open spec fn create_project_result(outcome: Result<Uuid, DbError>) -> Result<Uuid, ApiError> {
    match outcome {
        Ok(id) => Ok(id),
        Err(e) => if e.has_code(UNIQUE_VIOLATION@) {
            Err(ApiError::ProjectNameExists)
        } else {
            Err(ApiError::InternalServerError)
        },
    }
}

/// What creating a user answers, given what the insertion returned.
pub open spec fn create_user_result(outcome: Result<Uuid, DbError>) -> Result<Uuid, ApiError> {
    match outcome {
        Ok(id) => Ok(id),
        Err(e) => if e.has_code(UNIQUE_VIOLATION@) {
            Err(ApiError::UserExists)
        } else if e.has_code(FOREIGN_KEY_VIOLATION@) {
            Err(ApiError::UserInvalidProject)
        } else {
            Err(ApiError::InternalServerError)
        },
    }
}

/// The project the installation's admin belongs to, given the ids of the
/// rows the lookup returned: the first row's id, none when there is no row.
pub open spec fn get_project_result(outcome: Result<Seq<Option<Uuid>>, DbError>) -> Result<
    Option<Uuid>,
    ApiError,
> {
    match outcome {
        Ok(rows) => if rows.len() == 0 {
            Ok(None)
        } else {
            Ok(rows[0])
        },
        Err(_) => Err(ApiError::InternalServerError),
    }
}

/// The token part of an `Authorization` header: everything after its first
/// seven bytes, the length of `Bearer `.
pub open spec fn bearer_token_bytes(header: Seq<u8>) -> Seq<u8> {
    header.subrange(7, header.len() as int)
}

impl Admin {
    /// The parameters for inserting an administrator of `project`: the email
    /// as given and a `$2b$12$` bcrypt hash of the password.
    pub fn create_params(body: &NewAdmin, project: Uuid) -> (r: Result<AdminParams, ApiError>)
        ensures
            match r {
                Ok(p) => p.email@ == body.email@ && p.project == project && is_default_bcrypt_hash(
                    p.password_hash@,
                ) && verify_result(body.password@, p.password_hash@) == Ok::<bool, ApiError>(true),
                Err(e) => e == ApiError::InternalServerError,
            },
    {
        let password_hash = Token::hash(&body.password)?;
        Ok(AdminParams { email: body.email.clone(), password_hash, project })
    }

    /// What creating an administrator answers: the new row's id, or the
    /// error that the violated constraint stands for. A failure that
    /// carries no cause at all is not handled (the caller stops there).
    pub fn create(outcome: Result<Uuid, DbError>) -> (r: Result<Uuid, ApiError>)
        requires
            outcome matches Err(DbError::Client { has_source }) ==> has_source,
        ensures
            r == create_result(outcome),
    {
        match outcome {
            Ok(id) => Ok(id),
            Err(DbError::Server { constraint: Some(c), .. }) => {
                if str_eq(c.as_str(), PROJECT_FKEY) {
                    Err(ApiError::ProjectNotFound)
                } else if str_eq(c.as_str(), PROJECT_EMAIL_KEY) {
                    Err(ApiError::AdminExists)
                } else {
                    Err(ApiError::InternalServerError)
                }
            },
            Err(_) => Err(ApiError::InternalServerError),
        }
    }

    /// Whether the installation has an administrator, given what the lookup
    /// returned.
    pub fn has_admin(outcome: Result<bool, DbError>) -> (r: Result<bool, ApiError>)
        ensures
            match outcome {
                Ok(b) => r == Ok::<bool, ApiError>(b),
                Err(_) => r == Err::<bool, ApiError>(ApiError::InternalServerError),
            },
    {
        match outcome {
            Ok(result) => Ok(result),
            Err(_) => Err(ApiError::InternalServerError),
        }
    }

    /// What creating a project answers: the new row's id, `ProjectNameExists`
    /// when the name is taken.
    pub fn create_project(outcome: Result<Uuid, DbError>) -> (r: Result<Uuid, ApiError>)
        ensures
            r == create_project_result(outcome),
    {
        match outcome {
            Ok(id) => Ok(id),
            Err(err) => {
                if err.code_is(UNIQUE_VIOLATION) {
                    Err(ApiError::ProjectNameExists)
                } else {
                    Err(ApiError::InternalServerError)
                }
            },
        }
    }

    /// The installation's project, given the ids of the rows the lookup
    /// returned.
    pub fn get_project(outcome: Result<Vec<Option<Uuid>>, DbError>) -> (r: Result<
        Option<Uuid>,
        ApiError,
    >)
        ensures
            r == get_project_result(
                match outcome {
                    Ok(rows) => Ok(rows@),
                    Err(e) => Err(e),
                },
            ),
    {
        match outcome {
            Ok(result) => {
                if result.len() == 0 {
                    Ok(None)
                } else {
                    Ok(result[0])
                }
            },
            Err(_) => Err(ApiError::InternalServerError),
        }
    }

    /// The parameters for inserting a user: the password is stored as its
    /// bcrypt hash, missing profile data becomes an empty JSON object, a
    /// missing provider becomes `email`.
    pub fn create_user_params(user: &NewUser) -> (r: Result<UserParams, ApiError>)
        ensures
            match r {
                Ok(p) => {
                    &&& p.email@ == user.email@
                    &&& p.project_id == user.project_id
                    &&& opt_string_view(p.display_name) == opt_string_view(user.display_name)
                    &&& p.data@ == match user.data {
                        Some(d) => d@,
                        None => EMPTY_DATA@,
                    }
                    &&& p.provider@ == match user.provider_id {
                        Some(id) => id@,
                        None => DEFAULT_PROVIDER@,
                    }
                    &&& match user.password {
                        Some(pw) => p.password_hash matches Some(h) && is_default_bcrypt_hash(h@)
                            && verify_result(pw@, h@) == Ok::<bool, ApiError>(true),
                        None => p.password_hash is None,
                    }
                },
                Err(e) => user.password is Some && e == ApiError::InternalServerError,
            },
    {
        let password_hash = match &user.password {
            Some(password) => Some(Token::hash(password)?),
            None => None,
        };
        let data = match &user.data {
            Some(json) => json.clone(),
            None => EMPTY_DATA.to_owned(),
        };
        let provider = match &user.provider_id {
            Some(id) => id.clone(),
            None => DEFAULT_PROVIDER.to_owned(),
        };
        let display_name = match &user.display_name {
            Some(n) => Some(n.clone()),
            None => None,
        };
        Ok(UserParams {
            email: user.email.clone(),
            password_hash,
            display_name,
            data,
            provider,
            project_id: user.project_id,
        })
    }

    /// What creating a user answers: the new row's id, `UserExists` when the
    /// email is taken, `UserInvalidProject` when the project does not exist.
    pub fn create_user(outcome: Result<Uuid, DbError>) -> (r: Result<Uuid, ApiError>)
        ensures
            r == create_user_result(outcome),
    {
        match outcome {
            Ok(id) => Ok(id),
            Err(err) => {
                if err.code_is(UNIQUE_VIOLATION) {
                    Err(ApiError::UserExists)
                } else if err.code_is(FOREIGN_KEY_VIOLATION) {
                    Err(ApiError::UserInvalidProject)
                } else {
                    Err(ApiError::InternalServerError)
                }
            },
        }
    }

    /// The token of a request's `Authorization` header: the header without
    /// its first seven bytes (`Bearer `). A request without the header is
    /// rejected with `AuthTokenMissing`. The header must be cut at a
    /// character boundary.
    pub fn bearer_token(header: Option<&str>) -> (r: Result<&str, Rejection>)
        requires
            header matches Some(h) ==> vstd::utf8::is_char_boundary(h.spec_bytes(), 7),
        ensures
            match header {
                None => r == Err::<&str, Rejection>(
                    Rejection { status: BAD_REQUEST_STATUS, error: ApiError::AuthTokenMissing },
                ),
                Some(h) => r matches Ok(t) && t.spec_bytes() == bearer_token_bytes(h.spec_bytes()),
            },
    {
        match header {
            None => Err(Rejection { status: BAD_REQUEST_STATUS, error: ApiError::AuthTokenMissing }),
            Some(token_string) => {
                let (_, token) = token_string.split_at(7);
                Ok(token)
            },
        }
    }

    /// The administrator a decoded access token names. `claims` is the user
    /// the token carries, `None` when the token did not decode or verify.
    /// Only a user with the `Admin` trait is let through.
    pub fn from_claims(claims: Option<User>) -> (r: Result<Admin, Rejection>)
        ensures
            match claims {
                None => r == Err::<Admin, Rejection>(
                    Rejection { status: BAD_REQUEST_STATUS, error: ApiError::BadRequest },
                ),
                Some(u) => if u.spec_has_trait(ADMIN_TRAIT@) {
                    r matches Ok(a) && a.0 == u
                } else {
                    r == Err::<Admin, Rejection>(
                        Rejection { status: BAD_REQUEST_STATUS, error: ApiError::AdminAuth },
                    )
                },
            },
    {
        match claims {
            None => Err(Rejection { status: BAD_REQUEST_STATUS, error: ApiError::BadRequest }),
            Some(user) => {
                if !user.has_trait(ADMIN_TRAIT) {
                    return Err(Rejection { status: BAD_REQUEST_STATUS, error: ApiError::AdminAuth });
                }
                Ok(Admin(user))
            },
        }
    }
}


/// The database's answer to an insertion, read as a server error: its
/// SQLSTATE code and the constraint it names, if any.
pub open spec fn server_error(e: DbError) -> Option<(Seq<char>, Option<Seq<char>>)> {
    match e {
        DbError::Server { code, constraint } => Some(
            (
                code@,
                match constraint {
                    Some(c) => Some(c@),
                    None => None,
                },
            ),
        ),
        DbError::Client { .. } => None,
    }
}

/// Creating a user answers the new id on success; a unique violation
/// (SQLSTATE `23505`, whichever constraint it names) is `UserExists`; a
/// foreign key violation (`23503`) is `UserInvalidProject`; any other failure
/// is an internal error.
pub proof fn lemma_create_user_answers(outcome: Result<Uuid, DbError>)
    ensures
        outcome matches Ok(id) ==> create_user_result(outcome) == Ok::<Uuid, ApiError>(id),
        outcome matches Err(e) && server_error(e) matches Some(p) && p.0 == "23505"@
            ==> create_user_result(outcome) == Err::<Uuid, ApiError>(ApiError::UserExists),
        outcome matches Err(e) && server_error(e) matches Some(p) && p.0 == "23503"@
            ==> create_user_result(outcome) == Err::<Uuid, ApiError>(ApiError::UserInvalidProject),
        outcome matches Err(e) && !(server_error(e) matches Some(p) && (p.0 == "23505"@ || p.0
            == "23503"@)) ==> create_user_result(outcome) == Err::<Uuid, ApiError>(
            ApiError::InternalServerError,
        ),
{
    reveal_strlit("23505");
    reveal_strlit("23503");
    assert("23505"@[4] != "23503"@[4]);
}

/// Creating a project answers the new id on success, `ProjectNameExists` on a
/// unique violation (SQLSTATE `23505`), and an internal error on any other
/// failure.
pub proof fn lemma_create_project_answers(outcome: Result<Uuid, DbError>)
    ensures
        outcome matches Ok(id) ==> create_project_result(outcome) == Ok::<Uuid, ApiError>(id),
        outcome matches Err(e) && server_error(e) matches Some(p) && p.0 == "23505"@
            ==> create_project_result(outcome) == Err::<Uuid, ApiError>(ApiError::ProjectNameExists),
        outcome matches Err(e) && !(server_error(e) matches Some(p) && p.0 == "23505"@)
            ==> create_project_result(outcome) == Err::<Uuid, ApiError>(
            ApiError::InternalServerError,
        ),
{
    reveal_strlit("23505");
}

/// Creating an administrator answers the new id on success; a violation of
/// `users_project_id_fkey` is `ProjectNotFound`, of
/// `users_project_id_email_key` is `AdminExists`; any other failure is an
/// internal error.
pub proof fn lemma_create_admin_answers(outcome: Result<Uuid, DbError>)
    ensures
        outcome matches Ok(id) ==> create_result(outcome) == Ok::<Uuid, ApiError>(id),
        outcome matches Err(e) && server_error(e) matches Some(p) && p.1 == Some(
            "users_project_id_fkey"@,
        ) ==> create_result(outcome) == Err::<Uuid, ApiError>(ApiError::ProjectNotFound),
        outcome matches Err(e) && server_error(e) matches Some(p) && p.1 == Some(
            "users_project_id_email_key"@,
        ) ==> create_result(outcome) == Err::<Uuid, ApiError>(ApiError::AdminExists),
        outcome matches Err(e) && !(server_error(e) matches Some(p) && (p.1 == Some(
            "users_project_id_fkey"@,
        ) || p.1 == Some("users_project_id_email_key"@))) ==> create_result(outcome)
            == Err::<Uuid, ApiError>(ApiError::InternalServerError),
{
    reveal_strlit("users_project_id_fkey");
    reveal_strlit("users_project_id_email_key");
    assert("users_project_id_fkey"@[17] != "users_project_id_email_key"@[17]);
}

/// The installation's project is the id of the first row the lookup
/// returned: none only when no row came back or the first row's id is null;
/// a failed lookup is an internal error.
pub proof fn lemma_get_project_answers(outcome: Result<Seq<Option<Uuid>>, DbError>)
    ensures
        outcome matches Ok(rows) ==> (rows.len() > 0 ==> get_project_result(outcome) == Ok::<
            Option<Uuid>,
            ApiError,
        >(rows[0])),
        outcome matches Ok(rows) && rows.len() == 0 ==> get_project_result(outcome) == Ok::<
            Option<Uuid>,
            ApiError,
        >(None),
        outcome is Err ==> get_project_result(outcome) == Err::<Option<Uuid>, ApiError>(
            ApiError::InternalServerError,
        ),
        get_project_result(outcome) == Ok::<Option<Uuid>, ApiError>(None) ==> (outcome matches Ok(
            rows,
        ) && (rows.len() == 0 || rows[0] is None)),
{
}

} // verus!
