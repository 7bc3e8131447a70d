//! Decision logic of an authentication server: admin guards, account
//! creation, passwordless sign-in, session sign-out, token handling and the
//! admin console's static assets.
//!
//! Everything that talks to the database, the network or the clock lives
//! outside this crate; the functions here take what those calls returned and
//! decide what happens next.

pub mod error;
pub mod ids;
pub mod text;
pub mod db;
pub mod admin;
pub mod data;
pub mod session;
pub mod user;
pub mod project;
pub mod passwordless;
