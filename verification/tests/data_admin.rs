use server::data::admin::{Admin, NewAdmin, NewUser, BAD_REQUEST_STATUS};
use server::data::user::User;
use server::db::DbError;
use server::error::ApiError;
use server::session::data::token::Token;
use uuid::Uuid;

fn server_error(code: &str, constraint: Option<&str>) -> DbError {
    DbError::Server { code: code.to_string(), constraint: constraint.map(|c| c.to_string()) }
}

#[test]
fn create_returns_new_admin_id() {
    let id = Uuid::from_u128(7);
    assert_eq!(Admin::create(Ok(id)), Ok(id));
}

#[test]
fn create_maps_missing_project() {
    let e = server_error("23503", Some("users_project_id_fkey"));
    assert_eq!(Admin::create(Err(e)), Err(ApiError::ProjectNotFound));
}

#[test]
fn create_maps_duplicate_admin() {
    let e = server_error("23505", Some("users_project_id_email_key"));
    assert_eq!(Admin::create(Err(e)), Err(ApiError::AdminExists));
}

#[test]
fn create_maps_other_failures_to_internal_error() {
    let other = server_error("23505", Some("users_pkey"));
    assert_eq!(Admin::create(Err(other)), Err(ApiError::InternalServerError));
    let unnamed = server_error("23502", None);
    assert_eq!(Admin::create(Err(unnamed)), Err(ApiError::InternalServerError));
    let client = DbError::Client { has_source: true };
    assert_eq!(Admin::create(Err(client)), Err(ApiError::InternalServerError));
}

#[test]
fn create_params_hashes_password() {
    let body = NewAdmin { email: "root@example.com".to_string(), password: "hunter2".to_string() };
    let project = Uuid::from_u128(3);
    let p = Admin::create_params(&body, project).unwrap();
    assert_eq!(p.email, "root@example.com");
    assert_eq!(p.project, project);
    assert_eq!(p.password_hash.len(), 60);
    assert!(p.password_hash.starts_with("$2b$12$"));
    assert_ne!(p.password_hash, "hunter2");
    assert_eq!(Token::verify("hunter2", &p.password_hash), Ok(true));
    assert_eq!(Token::verify("hunter3", &p.password_hash), Ok(false));
}

#[test]
fn has_admin_passes_answer_through() {
    assert_eq!(Admin::has_admin(Ok(true)), Ok(true));
    assert_eq!(Admin::has_admin(Ok(false)), Ok(false));
    let e = DbError::Client { has_source: false };
    assert_eq!(Admin::has_admin(Err(e)), Err(ApiError::InternalServerError));
}

#[test]
fn create_project_maps_duplicate_name() {
    let id = Uuid::from_u128(11);
    assert_eq!(Admin::create_project(Ok(id)), Ok(id));
    assert_eq!(
        Admin::create_project(Err(server_error("23505", Some("projects_name_key")))),
        Err(ApiError::ProjectNameExists)
    );
    assert_eq!(
        Admin::create_project(Err(server_error("23503", None))),
        Err(ApiError::InternalServerError)
    );
    assert_eq!(
        Admin::create_project(Err(DbError::Client { has_source: true })),
        Err(ApiError::InternalServerError)
    );
}

#[test]
fn get_project_takes_first_row() {
    let a = Uuid::from_u128(1);
    let b = Uuid::from_u128(2);
    assert_eq!(Admin::get_project(Ok(vec![])), Ok(None));
    assert_eq!(Admin::get_project(Ok(vec![Some(a), Some(b)])), Ok(Some(a)));
    assert_eq!(Admin::get_project(Ok(vec![None, Some(b)])), Ok(None));
    assert_eq!(
        Admin::get_project(Err(DbError::Client { has_source: true })),
        Err(ApiError::InternalServerError)
    );
}

#[test]
fn create_user_maps_constraint_violations() {
    let id = Uuid::from_u128(5);
    assert_eq!(Admin::create_user(Ok(id)), Ok(id));
    assert_eq!(Admin::create_user(Err(server_error("23505", None))), Err(ApiError::UserExists));
    assert_eq!(
        Admin::create_user(Err(server_error("23503", Some("users_project_id_fkey")))),
        Err(ApiError::UserInvalidProject)
    );
    assert_eq!(
        Admin::create_user(Err(server_error("42P01", None))),
        Err(ApiError::InternalServerError)
    );
    assert_eq!(
        Admin::create_user(Err(DbError::Client { has_source: false })),
        Err(ApiError::InternalServerError)
    );
}

#[test]
fn create_user_params_fills_defaults() {
    let user = NewUser {
        email: "a@b.c".to_string(),
        project_id: Uuid::from_u128(9),
        password: None,
        display_name: None,
        data: None,
        provider_id: None,
    };
    let p = Admin::create_user_params(&user).unwrap();
    assert_eq!(p.email, "a@b.c");
    assert_eq!(p.project_id, Uuid::from_u128(9));
    assert!(p.password_hash.is_none());
    assert!(p.display_name.is_none());
    assert_eq!(p.data, "{}");
    assert_eq!(p.provider, "email");
}

#[test]
fn create_user_params_keeps_given_values() {
    let user = NewUser {
        email: "a@b.c".to_string(),
        project_id: Uuid::from_u128(9),
        password: Some("s3cret".to_string()),
        display_name: Some("Ann".to_string()),
        data: Some("{\"age\":3}".to_string()),
        provider_id: Some("github".to_string()),
    };
    let p = Admin::create_user_params(&user).unwrap();
    assert_eq!(p.display_name.as_deref(), Some("Ann"));
    assert_eq!(p.data, "{\"age\":3}");
    assert_eq!(p.provider, "github");
    let h = p.password_hash.unwrap();
    assert!(h.starts_with("$2b$12$"));
    assert_ne!(h, "s3cret");
    assert_eq!(Token::verify("s3cret", &h), Ok(true));
}

#[test]
fn bearer_token_strips_scheme() {
    assert_eq!(Admin::bearer_token(Some("Bearer abc.def.ghi")), Ok("abc.def.ghi"));
    assert_eq!(Admin::bearer_token(Some("Bearer ")), Ok(""));
    let missing = Admin::bearer_token(None).unwrap_err();
    assert_eq!(missing.status, BAD_REQUEST_STATUS);
    assert_eq!(missing.error, ApiError::AuthTokenMissing);
}

#[test]
fn from_claims_requires_admin_trait() {
    let admin = User { id: Uuid::from_u128(1), traits: vec!["User".to_string(), "Admin".to_string()] };
    let ok = Admin::from_claims(Some(admin)).ok().unwrap();
    assert_eq!(ok.0.id, Uuid::from_u128(1));

    let plain = User { id: Uuid::from_u128(2), traits: vec!["admin".to_string()] };
    let denied = Admin::from_claims(Some(plain)).err().unwrap();
    assert_eq!(denied.status, 400);
    assert_eq!(denied.error, ApiError::AdminAuth);

    let undecoded = Admin::from_claims(None).err().unwrap();
    assert_eq!(undecoded.status, 400);
    assert_eq!(undecoded.error, ApiError::BadRequest);
}
