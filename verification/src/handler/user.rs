//! Answers about users.

use crate::dtos::{EmailListResponseDto, FilterEmailDto, FilterUserDto, UserData, UserResponseDto};
use crate::models::User;
use vstd::prelude::*;

verus! {

/// Why a password was not changed after the request was accepted.
#[derive(Clone, Copy, Debug, PartialEq, Eq, Structural)]
pub enum PasswordUpdateError {
    /// The user that the session names is gone.
    InvalidToken,
    /// The old password does not match the stored hash.
    OldPasswordIncorrect,
}

/// The answer that shows the authenticated user.
pub fn get_me(user: &User) -> (r: UserResponseDto)
    requires
        user.created_at is Some,
        user.updated_at is Some,
    ensures
        r.status@ == "success"@,
        r.data.user.shows(user),
{
    UserResponseDto {
        status: "success".to_owned(),
        data: UserData { user: FilterUserDto::filter_user(user) },
    }
}

/// The answer to a change of name: the user as the persistence layer
/// returned it after the change.
pub fn update_user_name(updated: &User) -> (r: UserResponseDto)
    requires
        updated.created_at is Some,
        updated.updated_at is Some,
    ensures
        r.status@ == "success"@,
        r.data.user.shows(updated),
{
    get_me(updated)
}

/// Decides a change of password: the user must still exist, and the old
/// password must have matched the stored hash.
pub fn update_user_password(user: Option<&User>, old_password_matches: bool) -> (r: Result<
    (),
    PasswordUpdateError,
>)
    ensures
        r == match user {
            Some(_) => if old_password_matches {
                Ok::<(), PasswordUpdateError>(())
            } else {
                Err::<(), PasswordUpdateError>(PasswordUpdateError::OldPasswordIncorrect)
            },
            None => Err::<(), PasswordUpdateError>(PasswordUpdateError::InvalidToken),
        },
{
    match user {
        Some(_) => if old_password_matches {
            Ok(())
        } else {
            Err(PasswordUpdateError::OldPasswordIncorrect)
        },
        None => Err(PasswordUpdateError::InvalidToken),
    }
}

/// The answer to a search: the addresses of the users found, in their
/// order.
pub fn search_by_email(users: &[User]) -> (r: EmailListResponseDto)
    ensures
        r.status@ == "success"@,
        r.emails@.len() == users@.len(),
        forall|i: int| 0 <= i < users@.len() ==> (#[trigger] r.emails@[i]).email@ == users@[i].email@,
{
    EmailListResponseDto {
        status: "success".to_owned(),
        emails: FilterEmailDto::filter_emails(users),
    }
}

} // verus!
