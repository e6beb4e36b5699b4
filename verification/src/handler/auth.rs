//! Registration and login, once the persistence layer and the password
//! hasher have answered.

use crate::models::User;
use vstd::prelude::*;

verus! {

/// What the persistence layer reported of saving a new user.
#[derive(Clone, Copy, Debug, PartialEq, Eq, Structural)]
pub enum SaveUserOutcome {
    Saved,
    /// Another user has the address already.
    EmailTaken,
    Failed,
}

/// Why a registration failed after its request was accepted.
#[derive(Clone, Copy, Debug, PartialEq, Eq, Structural)]
pub enum RegisterError {
    EmailExist,
    Persistence,
}

/// Why a login failed. A user who does not exist and a password that does
/// not match are reported alike.
#[derive(Clone, Copy, Debug, PartialEq, Eq, Structural)]
pub enum LoginError {
    WrongCredentials,
}

/// The outcome of a registration whose user record the persistence layer
/// was asked to save. The key pair is generated only after `Ok`.
pub fn register(outcome: SaveUserOutcome) -> (r: Result<(), RegisterError>)
    ensures
        r == match outcome {
            SaveUserOutcome::Saved => Ok::<(), RegisterError>(()),
            SaveUserOutcome::EmailTaken => Err::<(), RegisterError>(RegisterError::EmailExist),
            SaveUserOutcome::Failed => Err::<(), RegisterError>(RegisterError::Persistence),
        },
{
    match outcome {
        SaveUserOutcome::Saved => Ok(()),
        SaveUserOutcome::EmailTaken => Err(RegisterError::EmailExist),
        SaveUserOutcome::Failed => Err(RegisterError::Persistence),
    }
}

/// The outcome of a login: the identifier of the user to issue a token for,
/// where the user was found under the address and the password matched the
/// stored hash.
pub fn login(user: Option<&User>, password_matches: bool) -> (r: Result<u128, LoginError>)
    ensures
        r == match user {
            Some(found) => if password_matches {
                Ok::<u128, LoginError>(found.id)
            } else {
                Err::<u128, LoginError>(LoginError::WrongCredentials)
            },
            None => Err::<u128, LoginError>(LoginError::WrongCredentials),
        },
{
    match user {
        Some(found) => if password_matches {
            Ok(found.id)
        } else {
            Err(LoginError::WrongCredentials)
        },
        None => Err(LoginError::WrongCredentials),
    }
}

/// The age in minutes that the session cookie is given: sixty times the
/// configured age of the token, `None` where that does not fit.
pub fn cookie_max_age_minutes(jwt_maxage: i64) -> (r: Option<i64>)
    ensures
        match r {
            Some(minutes) => minutes == jwt_maxage * 60,
            None => jwt_maxage * 60 > i64::MAX || jwt_maxage * 60 < i64::MIN,
        },
{
    jwt_maxage.checked_mul(60)
}

} // verus!
