use vstd::prelude::*;

use crate::text::str_eq;

verus! {

/// SQLSTATE reported by Postgres for a unique constraint violation.
pub const UNIQUE_VIOLATION: &'static str = "23505";

/// SQLSTATE reported by Postgres for a foreign key violation.
pub const FOREIGN_KEY_VIOLATION: &'static str = "23503";

/// What a failed database call reported.
///
/// `Server` is an error the database server sent back: its SQLSTATE code and,
/// where the server named one, the constraint that was violated. `Client` is
/// any other failure (I/O, protocol, decoding); `has_source` tells whether the
/// client error carries an underlying cause.
#[derive(Debug, PartialEq, Eq)]
pub enum DbError {
    Server { code: String, constraint: Option<String> },
    Client { has_source: bool },
}

impl DbError {
    /// The SQLSTATE code, present exactly for errors the server reported.
    pub open spec fn spec_code(&self) -> Option<Seq<char>> {
        match self {
            DbError::Server { code, .. } => Some(code@),
            DbError::Client { .. } => None,
        }
    }

    /// True when the server reported the SQLSTATE `expected`.
    pub open spec fn has_code(&self, expected: Seq<char>) -> bool {
        self.spec_code() == Some(expected)
    }

    /// Tests whether the server reported the SQLSTATE `expected`.
    pub fn code_is(&self, expected: &str) -> (r: bool)
        ensures
            r == self.has_code(expected@),
    {
        match self {
            DbError::Server { code, .. } => str_eq(code.as_str(), expected),
            DbError::Client { .. } => false,
        }
    }
}

} // verus!
