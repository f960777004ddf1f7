//! Accounts: sign-up and log-in decisions, and reading the bearer token of
//! a request.
use vstd::prelude::*;
use vstd::string::StrSliceExecFns;
use crate::text::same_text;

verus! {

/// What a client sends to log in.
#[derive(Debug)]
pub struct LoginUser {
    pub username: String,
    pub password: String,
}

/// What a client sends to create an account.
#[derive(Debug)]
pub struct CreateUser {
    pub name: String,
    pub username: String,
    pub ign: String,
    pub password: String,
}

/// A stored account.
#[derive(Debug)]
pub struct User {
    pub id: i64,
    pub team_id: i64,
    pub name: String,
    pub username: String,
    pub ign: String,
    pub password: String,
}

/// What a session token says: whose it is (`sub`) and when it expires.
#[derive(Debug, Clone)]
pub struct Claims {
    pub sub: String,
    pub exp: usize,
}

/// The verified identity behind a request.
#[derive(Debug)]
pub struct AuthUser(pub Claims);

/// Why an account operation was refused.
#[derive(Debug, Clone, Copy, PartialEq, Eq, Structural)]
pub enum AccountError {
    /// No account has that username.
    UserNotFound,
    /// The password does not match the account's.
    WrongPassword,
    /// An account with that username exists already.
    UsernameTaken,
}

/// The scheme word that opens an `Authorization` header.
pub const BEARER_PREFIX: &'static str = "Bearer ";

/// The token of an `Authorization` header: what follows the `Bearer `
/// prefix, if the header starts with it.
pub open spec fn bearer_of(header: Seq<char>) -> Option<Seq<char>> {
    let n = BEARER_PREFIX@.len();
    if header.len() >= n && header.subrange(0, n as int) == BEARER_PREFIX@ {
        Some(header.subrange(n as int, header.len() as int))
    } else {
        None
    }
}

/// Reads the token of an `Authorization` header, as `bearer_of` says.
pub fn bearer_token(header: &str) -> (r: Option<String>)
    ensures
        match r {
            Some(t) => bearer_of(header@) == Some(t@),
            None => bearer_of(header@) is None,
        },
{
    let n = header.unicode_len();
    let p = BEARER_PREFIX.unicode_len();
    if n < p {
        return None;
    }
    let head = header.substring_char(0, p);
    if !same_text(head, BEARER_PREFIX) {
        return None;
    }
    Some(header.substring_char(p, n).to_owned())
}

/// The outcome of a log-in with `password` among the accounts found under
/// the requested username: refused when there is none, or when the first
/// one's password differs; otherwise that account's username.
pub open spec fn login_result(users: Seq<User>, password: Seq<char>) -> Result<Seq<char>, AccountError> {
    if users.len() == 0 {
        Err(AccountError::UserNotFound)
    } else if users[0].password@ != password {
        Err(AccountError::WrongPassword)
    } else {
        Ok(users[0].username@)
    }
}

/// Decides a log-in, as `login_result` says.
pub fn check_login(users: &Vec<User>, password: &str) -> (r: Result<String, AccountError>)
    ensures
        match r {
            Ok(name) => login_result(users@, password@) == Ok::<Seq<char>, AccountError>(name@),
            Err(e) => login_result(users@, password@) == Err::<Seq<char>, AccountError>(e),
        },
{
    if users.len() == 0 {
        return Err(AccountError::UserNotFound);
    }
    if !same_text(users[0].password.as_str(), password) {
        return Err(AccountError::WrongPassword);
    }
    Ok(users[0].username.clone())
}

/// Decides whether an account may be created, given the accounts that
/// already use the requested username: only when there are none.
pub fn check_new_username(existing: &Vec<User>) -> (r: Result<(), AccountError>)
    ensures
        existing@.len() == 0 <==> r is Ok,
        existing@.len() > 0 ==> r == Err::<(), AccountError>(AccountError::UsernameTaken),
{
    if existing.len() > 0 {
        Err(AccountError::UsernameTaken)
    } else {
        Ok(())
    }
}

} // verus!
