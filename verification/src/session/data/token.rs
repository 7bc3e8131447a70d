use vstd::prelude::*;

use crate::db::DbError;
use crate::error::ApiError;
use rand::Rng;

verus! {

/// Number of characters in a freshly created token.
pub const TOKEN_LEN: usize = 32;

#[verifier::external_type_specification]
#[verifier::external_body]
pub struct ExBcryptError(bcrypt::BcryptError);

#[verifier::external_type_specification]
#[verifier::external_body]
pub struct ExThreadRng(rand::rngs::ThreadRng);

/// What `bcrypt::verify(password, hash)` returns for these arguments:
/// `Some(b)` for `Ok(b)`, `None` for an error.
pub uninterp spec fn bcrypt_verify_outcome(password: Seq<char>, hash: Seq<char>) -> Option<bool>;

/// The start of every hash this crate stores: bcrypt version `2b` at cost 12
/// (`bcrypt::DEFAULT_COST`).
pub open spec fn stored_hash_prefix() -> Seq<char> {
    seq!['$', '2', 'b', '$', '1', '2', '$']
}

/// A bcrypt hash string as `bcrypt::hash` writes it at the default cost: 60
/// characters starting with `$2b$12$`.
pub open spec fn is_default_bcrypt_hash(h: Seq<char>) -> bool {
    h.len() == 60 && h.subrange(0, 7) == stored_hash_prefix()
}

/// `bcrypt::hash(password, DEFAULT_COST)`, salted from the operating system's
/// randomness. Claimed: a hash it returns is 60 characters long, written as
/// `$2b$12$` followed by the encoded salt and hash, and `bcrypt::verify`
/// accepts `password` against it (the hash carries its cost
/// and salt, and verification recomputes it from them). Nothing is claimed of
/// when it fails: it fails only when the operating system gives no
/// randomness.
#[verifier::external_body]
fn bcrypt_hash(password: &str) -> (r: Result<String, bcrypt::BcryptError>)
    ensures
        r matches Ok(h) ==> is_default_bcrypt_hash(h@) && bcrypt_verify_outcome(password@, h@)
            == Some(true),
{
    bcrypt::hash(password, bcrypt::DEFAULT_COST)
}

/// `bcrypt::verify(password, hash)`. Claimed: its result is the named outcome
/// for these arguments, and it fails on a hash that is not 60 characters long
/// (the crate rejects anything but 60 ASCII bytes before hashing).
#[verifier::external_body]
fn bcrypt_verify(password: &str, hash: &str) -> (r: Result<bool, bcrypt::BcryptError>)
    ensures
        match r {
            Ok(b) => bcrypt_verify_outcome(password@, hash@) == Some(b),
            Err(_) => bcrypt_verify_outcome(password@, hash@) is None,
        },
        hash@.len() != 60 ==> r is Err,
{
    bcrypt::verify(password, hash)
}

/// `rand::thread_rng()`: the thread's random number generator. Nothing is
/// claimed of it; creating it, or drawing from it, panics when the operating
/// system gives no randomness, which depends on no argument.
#[verifier::external_body]
fn thread_rng() -> rand::rngs::ThreadRng {
    rand::thread_rng()
}

/// `rng.sample(rand::distributions::Alphanumeric)`. Claimed: the byte is
/// one of `A-Z`, `a-z`, `0-9` (the distribution's documented charset); which
/// one is left to chance.
#[verifier::external_body]
fn sample_alphanumeric(rng: &mut rand::rngs::ThreadRng) -> (b: u8)
    ensures
        is_alphanumeric(b as char),
{
    rng.sample(rand::distributions::Alphanumeric)
}

/// `String::push`: appends one character.
#[verifier::external_body]
fn push_char(s: &mut String, c: char)
    ensures
        final(s)@ == old(s)@.push(c),
{
    s.push(c)
}

/// ASCII letters and digits.
pub open spec fn is_alphanumeric(c: char) -> bool {
    ('A' <= c && c <= 'Z') || ('a' <= c && c <= 'z') || ('0' <= c && c <= '9')
}

/// What checking `token` against the stored hash `hash` answers.
pub open spec fn verify_result(token: Seq<char>, hash: Seq<char>) -> Result<bool, ApiError> {
    match bcrypt_verify_outcome(token, hash) {
        Some(b) => Ok(b),
        None => Err(ApiError::InternalServerError),
    }
}

/// What the single-use check of a session token answers, given what the
/// database returned for the insertion of the token's id.
pub open spec fn is_valid_result(row: Result<Option<bool>, DbError>) -> Result<bool, ApiError> {
    match row {
        Ok(Some(v)) => Ok(v),
        Ok(None) => Ok(false),
        Err(_) => Err(ApiError::InternalServerError),
    }
}

/// Session tokens: random strings handed to clients, stored only as bcrypt
/// hashes.
pub struct Token;

impl Token {
    /// Whether a refresh token is used for the first time. The database
    /// records the token's id and answers whether this insertion was new;
    /// `row` is that answer (`None` when the column came back null).
    pub fn is_valid(row: Result<Option<bool>, DbError>) -> (r: Result<bool, ApiError>)
        ensures
            r == is_valid_result(row),
    {
        match row {
            Ok(Some(v)) => Ok(v),
            Ok(None) => Ok(false),
            Err(_) => Err(ApiError::InternalServerError),
        }
    }

    /// The token spelled by `draws`, one character per drawn byte.
    pub fn from_draws(draws: &Vec<u8>) -> (t: String)
        ensures
            t@.len() == draws@.len(),
            forall|i: int| 0 <= i < draws@.len() ==> #[trigger] t@[i] == (draws@[i] as char),
    {
        let mut t = String::new();
        let mut i: usize = 0;
        while i < draws.len()
            invariant
                i <= draws@.len(),
                t@.len() == i,
                forall|j: int| 0 <= j < i ==> #[trigger] t@[j] == (draws@[j] as char),
            decreases draws@.len() - i,
        {
            push_char(&mut t, draws[i] as char);
            i = i + 1;
        }
        t
    }

    /// A fresh random token of 32 ASCII letters and digits, drawn one by one
    /// from the thread's random number generator.
    pub fn create() -> (t: String)
        ensures
            t@.len() == TOKEN_LEN,
            forall|i: int| 0 <= i < t@.len() ==> is_alphanumeric(#[trigger] t@[i]),
    {
        let mut rng = thread_rng();
        let mut draws: Vec<u8> = Vec::new();
        let mut i: usize = 0;
        while i < TOKEN_LEN
            invariant
                i <= TOKEN_LEN,
                draws@.len() == i,
                forall|j: int| 0 <= j < draws@.len() ==> is_alphanumeric(#[trigger] draws@[j] as char),
            decreases TOKEN_LEN - i,
        {
            let b = sample_alphanumeric(&mut rng);
            draws.push(b);
            i = i + 1;
        }
        let t = Token::from_draws(&draws);
        assert forall|j: int| 0 <= j < t@.len() implies is_alphanumeric(#[trigger] t@[j]) by {
            assert(t@[j] == (draws@[j] as char));
            assert(is_alphanumeric(draws@[j] as char));
        }
        t
    }

    /// The bcrypt hash under which `token` is stored: a `$2b$12$` hash of 60
    /// characters that [`Token::verify`] accepts `token` against.
    pub fn hash(token: &String) -> (r: Result<String, ApiError>)
        ensures
            match r {
                Ok(h) => is_default_bcrypt_hash(h@) && verify_result(token@, h@) == Ok::<
                    bool,
                    ApiError,
                >(true),
                Err(e) => e == ApiError::InternalServerError,
            },
    {
        match bcrypt_hash(token.as_str()) {
            Err(_) => Err(ApiError::InternalServerError),
            Ok(hashed) => Ok(hashed),
        }
    }

    /// Whether `token` matches the stored bcrypt hash `compare`; a malformed
    /// hash is an internal error.
    pub fn verify(token: &str, compare: &str) -> (r: Result<bool, ApiError>)
        ensures
            r == verify_result(token@, compare@),
            compare@.len() != 60 ==> r == Err::<bool, ApiError>(ApiError::InternalServerError),
    {
        match bcrypt_verify(token, compare) {
            Err(_) => Err(ApiError::InternalServerError),
            Ok(valid) => Ok(valid),
        }
    }
}

} // verus!
