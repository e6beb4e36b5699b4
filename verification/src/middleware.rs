//! Finding the session token of a request and the user behind it.

use crate::models::User;
use vstd::prelude::*;
use vstd::string::StrSliceExecFns;

verus! {

/// The authenticated user of a request.
#[derive(Debug)]
pub struct JWTAuthMiddeware {
    pub user: User,
}

/// Why a request was not authenticated.
#[derive(Clone, Copy, Debug, PartialEq, Eq, Structural)]
pub enum AuthError {
    /// The request carries no token.
    TokenNotProvided,
    /// The token is not one of this service, or is no longer valid.
    InvalidToken,
    /// The user that the token names is gone.
    UserNoLongerExist,
}

/// The token of an `Authorization` header: what follows the word `Bearer`
/// and a space, where the header begins so.
pub open spec fn bearer_token_spec(header: Seq<char>) -> Option<Seq<char>> {
    if header.len() >= 7 && header.subrange(0, 7) == "Bearer "@ {
        Some(header.subrange(7, header.len() as int))
    } else {
        None
    }
}

/// The token of a request: the value of its `token` cookie, where it has
/// one, else the token of its `Authorization` header.
pub open spec fn request_token_spec(
    cookie: Option<String>,
    authorization: Option<&str>,
) -> Option<Seq<char>> {
    match cookie {
        Some(token) => Some(token@),
        None => match authorization {
            Some(header) => bearer_token_spec(header@),
            None => None,
        },
    }
}

pub fn bearer_token(header: &str) -> (r: Option<String>)
    ensures
        match r {
            Some(token) => bearer_token_spec(header@) == Some(token@),
            None => bearer_token_spec(header@) is None,
        },
{
    let len = header.unicode_len();
    if len < 7 {
        return None;
    }
    let scheme = header.substring_char(0, 7);
    if scheme.to_owned() == "Bearer ".to_owned() {
        Some(header.substring_char(7, len).to_owned())
    } else {
        None
    }
}

/// The token of a request, from its `token` cookie and its `Authorization`
/// header: `TokenNotProvided` where neither gives one.
pub fn request_token(cookie: Option<String>, authorization: Option<&str>) -> (r: Result<
    String,
    AuthError,
>)
    ensures
        match r {
            Ok(token) => request_token_spec(cookie, authorization) == Some(token@),
            Err(e) => request_token_spec(cookie, authorization) is None && e
                == AuthError::TokenNotProvided,
        },
{
    if let Some(token) = cookie {
        return Ok(token);
    }
    let header = match authorization {
        Some(header) => header,
        None => {
            return Err(AuthError::TokenNotProvided);
        },
    };
    match bearer_token(header) {
        Some(token) => Ok(token),
        None => Err(AuthError::TokenNotProvided),
    }
}

/// Authenticates a request whose token has been checked: `subject` is the
/// user that the token names, `None` where the token was refused, and `user`
/// the record found for that user, if any.
pub fn auth(subject: Option<u128>, user: Option<User>) -> (r: Result<JWTAuthMiddeware, AuthError>)
    ensures
        match r {
            Ok(session) => subject is Some && user == Some(session.user),
            Err(e) => match subject {
                None => e == AuthError::InvalidToken,
                Some(_) => user is None && e == AuthError::UserNoLongerExist,
            },
        },
{
    if subject.is_none() {
        return Err(AuthError::InvalidToken);
    }
    match user {
        Some(user) => Ok(JWTAuthMiddeware { user }),
        None => Err(AuthError::UserNoLongerExist),
    }
}

} // verus!
