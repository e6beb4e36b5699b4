//! The requests that the service accepts, with the rules that each must
//! meet, and the shapes of its answers.

use crate::models::{ReceiveFileDetails, SentFileDetails, User};
use crate::trusted::{
    email_is_valid, parse_rfc3339_micros, rfc3339_micros, uuid_hyphenated, uuid_parse,
    uuid_parsed, uuid_to_string, validate_email,
};
use vstd::prelude::*;
use vstd::string::StrSliceExecFns;

verus! {

/// A rule that a request breaks.
#[derive(Clone, Copy, Debug, PartialEq, Eq, Structural)]
pub enum Violation {
    NameRequired,
    EmailRequired,
    EmailInvalid,
    PasswordRequired,
    PasswordTooShort,
    ConfirmPasswordRequired,
    PasswordsDoNotMatch,
    PageOutOfRange,
    LimitOutOfRange,
    NewPasswordRequired,
    NewPasswordTooShort,
    NewPasswordConfirmRequired,
    NewPasswordConfirmTooShort,
    NewPasswordsDoNotMatch,
    OldPasswordRequired,
    OldPasswordTooShort,
    QueryRequired,
    RecipientEmailInvalid,
    AccessPasswordRequired,
    AccessPasswordTooShort,
    ExpirationDateRequired,
    InvalidDateFormat,
    ExpirationDateNotFuture,
    SharedIdRequired,
    RetrievalPasswordRequired,
    RetrievalPasswordTooShort,
}

impl Violation {
    /// The field of the request that the rule is about, under the name that the request gives it.
    pub open spec fn spec_field(self) -> Seq<char> {
        match self {
            Violation::NameRequired => "name"@,
            Violation::EmailRequired => "email"@,
            Violation::EmailInvalid => "email"@,
            Violation::PasswordRequired => "password"@,
            Violation::PasswordTooShort => "password"@,
            Violation::ConfirmPasswordRequired => "passwordConfirm"@,
            Violation::PasswordsDoNotMatch => "passwordConfirm"@,
            Violation::PageOutOfRange => "page"@,
            Violation::LimitOutOfRange => "limit"@,
            Violation::NewPasswordRequired => "new_password"@,
            Violation::NewPasswordTooShort => "new_password"@,
            Violation::NewPasswordConfirmRequired => "new_password_confirm"@,
            Violation::NewPasswordConfirmTooShort => "new_password_confirm"@,
            Violation::NewPasswordsDoNotMatch => "new_password_confirm"@,
            Violation::OldPasswordRequired => "old_password"@,
            Violation::OldPasswordTooShort => "old_password"@,
            Violation::QueryRequired => "query"@,
            Violation::RecipientEmailInvalid => "recipient_email"@,
            Violation::AccessPasswordRequired => "password"@,
            Violation::AccessPasswordTooShort => "password"@,
            Violation::ExpirationDateRequired => "expiration_date"@,
            Violation::InvalidDateFormat => "expiration_date"@,
            Violation::ExpirationDateNotFuture => "expiration_date"@,
            Violation::SharedIdRequired => "shared_id"@,
            Violation::RetrievalPasswordRequired => "password"@,
            Violation::RetrievalPasswordTooShort => "password"@,
        }
    }

    pub fn field(self) -> (r: &'static str)
        ensures
            r@ == self.spec_field(),
    {
        match self {
            Violation::NameRequired => "name",
            Violation::EmailRequired => "email",
            Violation::EmailInvalid => "email",
            Violation::PasswordRequired => "password",
            Violation::PasswordTooShort => "password",
            Violation::ConfirmPasswordRequired => "passwordConfirm",
            Violation::PasswordsDoNotMatch => "passwordConfirm",
            Violation::PageOutOfRange => "page",
            Violation::LimitOutOfRange => "limit",
            Violation::NewPasswordRequired => "new_password",
            Violation::NewPasswordTooShort => "new_password",
            Violation::NewPasswordConfirmRequired => "new_password_confirm",
            Violation::NewPasswordConfirmTooShort => "new_password_confirm",
            Violation::NewPasswordsDoNotMatch => "new_password_confirm",
            Violation::OldPasswordRequired => "old_password",
            Violation::OldPasswordTooShort => "old_password",
            Violation::QueryRequired => "query",
            Violation::RecipientEmailInvalid => "recipient_email",
            Violation::AccessPasswordRequired => "password",
            Violation::AccessPasswordTooShort => "password",
            Violation::ExpirationDateRequired => "expiration_date",
            Violation::InvalidDateFormat => "expiration_date",
            Violation::ExpirationDateNotFuture => "expiration_date",
            Violation::SharedIdRequired => "shared_id",
            Violation::RetrievalPasswordRequired => "password",
            Violation::RetrievalPasswordTooShort => "password",
        }
    }

    /// The kind of the rule.
    pub open spec fn spec_code(self) -> Seq<char> {
        match self {
            Violation::NameRequired => "length"@,
            Violation::EmailRequired => "length"@,
            Violation::EmailInvalid => "email"@,
            Violation::PasswordRequired => "length"@,
            Violation::PasswordTooShort => "length"@,
            Violation::ConfirmPasswordRequired => "length"@,
            Violation::PasswordsDoNotMatch => "must_match"@,
            Violation::PageOutOfRange => "range"@,
            Violation::LimitOutOfRange => "range"@,
            Violation::NewPasswordRequired => "length"@,
            Violation::NewPasswordTooShort => "length"@,
            Violation::NewPasswordConfirmRequired => "length"@,
            Violation::NewPasswordConfirmTooShort => "length"@,
            Violation::NewPasswordsDoNotMatch => "must_match"@,
            Violation::OldPasswordRequired => "length"@,
            Violation::OldPasswordTooShort => "length"@,
            Violation::QueryRequired => "length"@,
            Violation::RecipientEmailInvalid => "email"@,
            Violation::AccessPasswordRequired => "length"@,
            Violation::AccessPasswordTooShort => "length"@,
            Violation::ExpirationDateRequired => "expiration_date_required"@,
            Violation::InvalidDateFormat => "invalid_date_format"@,
            Violation::ExpirationDateNotFuture => "expiration_date_future"@,
            Violation::SharedIdRequired => "length"@,
            Violation::RetrievalPasswordRequired => "length"@,
            Violation::RetrievalPasswordTooShort => "length"@,
        }
    }

    pub fn code(self) -> (r: &'static str)
        ensures
            r@ == self.spec_code(),
    {
        match self {
            Violation::NameRequired => "length",
            Violation::EmailRequired => "length",
            Violation::EmailInvalid => "email",
            Violation::PasswordRequired => "length",
            Violation::PasswordTooShort => "length",
            Violation::ConfirmPasswordRequired => "length",
            Violation::PasswordsDoNotMatch => "must_match",
            Violation::PageOutOfRange => "range",
            Violation::LimitOutOfRange => "range",
            Violation::NewPasswordRequired => "length",
            Violation::NewPasswordTooShort => "length",
            Violation::NewPasswordConfirmRequired => "length",
            Violation::NewPasswordConfirmTooShort => "length",
            Violation::NewPasswordsDoNotMatch => "must_match",
            Violation::OldPasswordRequired => "length",
            Violation::OldPasswordTooShort => "length",
            Violation::QueryRequired => "length",
            Violation::RecipientEmailInvalid => "email",
            Violation::AccessPasswordRequired => "length",
            Violation::AccessPasswordTooShort => "length",
            Violation::ExpirationDateRequired => "expiration_date_required",
            Violation::InvalidDateFormat => "invalid_date_format",
            Violation::ExpirationDateNotFuture => "expiration_date_future",
            Violation::SharedIdRequired => "length",
            Violation::RetrievalPasswordRequired => "length",
            Violation::RetrievalPasswordTooShort => "length",
        }
    }

    /// What the caller is told; the two rules on ranges say nothing.
    pub open spec fn spec_message(self) -> Seq<char> {
        match self {
            Violation::NameRequired => "Name is required"@,
            Violation::EmailRequired => "Email is required"@,
            Violation::EmailInvalid => "Email is invalid"@,
            Violation::PasswordRequired => "Password is required"@,
            Violation::PasswordTooShort => "Password must be at least 6 characters"@,
            Violation::ConfirmPasswordRequired => "Confirm Password is required"@,
            Violation::PasswordsDoNotMatch => "passwords do not match"@,
            Violation::PageOutOfRange => ""@,
            Violation::LimitOutOfRange => ""@,
            Violation::NewPasswordRequired => "New password is required."@,
            Violation::NewPasswordTooShort => "new password must be at least 6 characters"@,
            Violation::NewPasswordConfirmRequired => "New password confirm is required."@,
            Violation::NewPasswordConfirmTooShort => "new password confirm must be at least 6 characters"@,
            Violation::NewPasswordsDoNotMatch => "new passwords do not match"@,
            Violation::OldPasswordRequired => "Old password is required."@,
            Violation::OldPasswordTooShort => "Old password must be at least 6 characters"@,
            Violation::QueryRequired => "Query is requireed"@,
            Violation::RecipientEmailInvalid => "Invalid email format"@,
            Violation::AccessPasswordRequired => "New password is required."@,
            Violation::AccessPasswordTooShort => "New password must be at least 6 characters"@,
            Violation::ExpirationDateRequired => "Expiration date is required."@,
            Violation::InvalidDateFormat => "Invalid date format. Expected format is YYYY-MM-DDTHH:MM:SS.ssssssZ."@,
            Violation::ExpirationDateNotFuture => "Expiration date must be in the future."@,
            Violation::SharedIdRequired => "Shared id is required"@,
            Violation::RetrievalPasswordRequired => "Password is required."@,
            Violation::RetrievalPasswordTooShort => "Password must be at least 6 characters"@,
        }
    }

    pub fn message(self) -> (r: &'static str)
        ensures
            r@ == self.spec_message(),
    {
        match self {
            Violation::NameRequired => "Name is required",
            Violation::EmailRequired => "Email is required",
            Violation::EmailInvalid => "Email is invalid",
            Violation::PasswordRequired => "Password is required",
            Violation::PasswordTooShort => "Password must be at least 6 characters",
            Violation::ConfirmPasswordRequired => "Confirm Password is required",
            Violation::PasswordsDoNotMatch => "passwords do not match",
            Violation::PageOutOfRange => "",
            Violation::LimitOutOfRange => "",
            Violation::NewPasswordRequired => "New password is required.",
            Violation::NewPasswordTooShort => "new password must be at least 6 characters",
            Violation::NewPasswordConfirmRequired => "New password confirm is required.",
            Violation::NewPasswordConfirmTooShort => "new password confirm must be at least 6 characters",
            Violation::NewPasswordsDoNotMatch => "new passwords do not match",
            Violation::OldPasswordRequired => "Old password is required.",
            Violation::OldPasswordTooShort => "Old password must be at least 6 characters",
            Violation::QueryRequired => "Query is requireed",
            Violation::RecipientEmailInvalid => "Invalid email format",
            Violation::AccessPasswordRequired => "New password is required.",
            Violation::AccessPasswordTooShort => "New password must be at least 6 characters",
            Violation::ExpirationDateRequired => "Expiration date is required.",
            Violation::InvalidDateFormat => "Invalid date format. Expected format is YYYY-MM-DDTHH:MM:SS.ssssssZ.",
            Violation::ExpirationDateNotFuture => "Expiration date must be in the future.",
            Violation::SharedIdRequired => "Shared id is required",
            Violation::RetrievalPasswordRequired => "Password is required.",
            Violation::RetrievalPasswordTooShort => "Password must be at least 6 characters",
        }
    }
}

/// The line that reports one violation: the field, a colon and a space, and
/// the message.
pub open spec fn violation_line(violation: Violation) -> Seq<char> {
    violation.spec_field() + ": "@ + violation.spec_message()
}

/// The text that reports a list of violations: their lines, in order, with
/// a line feed between one and the next.
pub open spec fn violations_text(found: Seq<Violation>) -> Seq<char>
    decreases found.len(),
{
    if found.len() == 0 {
        Seq::empty()
    } else if found.len() == 1 {
        violation_line(found[0])
    } else {
        violations_text(found.drop_last()) + "\n"@ + violation_line(found.last())
    }
}

/// Reports a list of violations as text, a line for each.
pub fn describe_violations(found: &[Violation]) -> (r: String)
    ensures
        r@ == violations_text(found@),
{
    let mut text = String::new();
    let mut i: usize = 0;
    assert(found@.take(0) =~= Seq::<Violation>::empty());
    while i < found.len()
        invariant
            i <= found@.len(),
            text@ == violations_text(found@.take(i as int)),
        decreases found.len() - i,
    {
        let ghost before = text@;
        if i > 0 {
            text.append("\n");
        }
        text.append(found[i].field());
        text.append(": ");
        text.append(found[i].message());
        proof {
            let upto = found@.take(i as int + 1);
            assert(upto.drop_last() =~= found@.take(i as int));
            assert(upto.last() == found@[i as int]);
            if i == 0 {
                assert(upto[0] == found@[0]);
                assert(text@ =~= violation_line(found@[0]));
            } else {
                assert(text@ =~= before + "\n"@ + violation_line(found@[i as int]));
            }
        }
        i += 1;
    }
    assert(found@.take(i as int) =~= found@);
    text
}

/// The shortest password that is accepted, in characters.
pub const MIN_PASSWORD_LEN: usize = 6;

/// The largest page size that a list request may ask for.
pub const MAX_PAGE_LIMIT: usize = 50;

/// The page that a list request gets where it names none.
pub const DEFAULT_PAGE: usize = 1;

/// The page size that a list request gets where it names none.
pub const DEFAULT_PAGE_LIMIT: usize = 10;

/// The one violation `violation` where `broken` holds, else none.
pub open spec fn when(broken: bool, violation: Violation) -> Seq<Violation> {
    if broken {
        seq![violation]
    } else {
        Seq::empty()
    }
}

/// Whether a list of violations found by an executable check is the one that
/// the rules give: `Ok` stands for the empty list.
pub open spec fn reports(r: Result<(), Vec<Violation>>, violations: Seq<Violation>) -> bool {
    match r {
        Ok(()) => violations.len() == 0,
        Err(found) => found@ == violations && violations.len() > 0,
    }
}

fn check(found: &mut Vec<Violation>, broken: bool, violation: Violation)
    ensures
        final(found)@ == old(found)@ + when(broken, violation),
{
    if broken {
        found.push(violation);
    }
}

/// The violation `violation`, where there is one, as a list.
pub open spec fn listed(violation: Option<Violation>) -> Seq<Violation> {
    match violation {
        Some(violation) => seq![violation],
        None => Seq::empty(),
    }
}

fn finish(found: Vec<Violation>) -> (r: Result<(), Vec<Violation>>)
    ensures
        reports(r, found@),
{
    if found.len() == 0 {
        Ok(())
    } else {
        Err(found)
    }
}

fn char_len(text: &String) -> (r: usize)
    ensures
        r == text@.len(),
{
    text.as_str().unicode_len()
}

/// Registration of a user.
#[derive(Debug, Default, Clone)]
pub struct RegisterUserDto {
    pub name: String,
    pub email: String,
    pub password: String,
    pub password_confirm: String,
}

impl RegisterUserDto {
    /// The rules that the request breaks, in the order of its fields: a name
    /// is required; an e-mail address is required and must be valid; a
    /// password is required and must have six characters or more; its
    /// confirmation is required and must equal it.
    pub open spec fn violations(&self) -> Seq<Violation> {
        when(self.name@.len() < 1, Violation::NameRequired)
            + when(self.email@.len() < 1, Violation::EmailRequired)
            + when(!email_is_valid(self.email@), Violation::EmailInvalid)
            + when(self.password@.len() < 1, Violation::PasswordRequired)
            + when(self.password@.len() < MIN_PASSWORD_LEN, Violation::PasswordTooShort)
            + when(self.password_confirm@.len() < 1, Violation::ConfirmPasswordRequired)
            + when(self.password_confirm@ != self.password@, Violation::PasswordsDoNotMatch)
    }

    pub fn validate(&self) -> (r: Result<(), Vec<Violation>>)
        ensures
            reports(r, self.violations()),
    {
        let mut found: Vec<Violation> = Vec::new();
        check(&mut found, char_len(&self.name) < 1, Violation::NameRequired);
        check(&mut found, char_len(&self.email) < 1, Violation::EmailRequired);
        check(&mut found, !validate_email(self.email.as_str()), Violation::EmailInvalid);
        check(&mut found, char_len(&self.password) < 1, Violation::PasswordRequired);
        check(&mut found, char_len(&self.password) < MIN_PASSWORD_LEN, Violation::PasswordTooShort);
        check(
            &mut found,
            char_len(&self.password_confirm) < 1,
            Violation::ConfirmPasswordRequired,
        );
        check(&mut found, self.password_confirm != self.password, Violation::PasswordsDoNotMatch);
        finish(found)
    }
}

/// A login.
#[derive(Debug, Default, Clone)]
pub struct LoginUserDto {
    pub email: String,
    pub password: String,
}

impl LoginUserDto {
    /// The rules that the request breaks: an e-mail address is required and
    /// must be valid; a password is required and must have six characters or
    /// more.
    pub open spec fn violations(&self) -> Seq<Violation> {
        when(self.email@.len() < 1, Violation::EmailRequired)
            + when(!email_is_valid(self.email@), Violation::EmailInvalid)
            + when(self.password@.len() < 1, Violation::PasswordRequired)
            + when(self.password@.len() < MIN_PASSWORD_LEN, Violation::PasswordTooShort)
    }

    pub fn validate(&self) -> (r: Result<(), Vec<Violation>>)
        ensures
            reports(r, self.violations()),
    {
        let mut found: Vec<Violation> = Vec::new();
        check(&mut found, char_len(&self.email) < 1, Violation::EmailRequired);
        check(&mut found, !validate_email(self.email.as_str()), Violation::EmailInvalid);
        check(&mut found, char_len(&self.password) < 1, Violation::PasswordRequired);
        check(&mut found, char_len(&self.password) < MIN_PASSWORD_LEN, Violation::PasswordTooShort);
        finish(found)
    }
}

/// The page of a list that is asked for.
#[derive(Debug, Default, Clone)]
pub struct RequestQueryDto {
    pub page: Option<usize>,
    pub limit: Option<usize>,
}

impl RequestQueryDto {
    /// The rules that the request breaks: a page, where one is named, is 1
    /// or more; a page size, where one is named, lies between 1 and
    /// `MAX_PAGE_LIMIT`.
    pub open spec fn violations(&self) -> Seq<Violation> {
        when(self.page matches Some(page) && page < 1, Violation::PageOutOfRange) + when(
            self.limit matches Some(limit) && (limit < 1 || limit > MAX_PAGE_LIMIT),
            Violation::LimitOutOfRange,
        )
    }

    pub fn validate(&self) -> (r: Result<(), Vec<Violation>>)
        ensures
            reports(r, self.violations()),
    {
        let mut found: Vec<Violation> = Vec::new();
        let page_broken = match self.page {
            Some(page) => page < 1,
            None => false,
        };
        let limit_broken = match self.limit {
            Some(limit) => limit < 1 || limit > MAX_PAGE_LIMIT,
            None => false,
        };
        check(&mut found, page_broken, Violation::PageOutOfRange);
        check(&mut found, limit_broken, Violation::LimitOutOfRange);
        finish(found)
    }

    /// The page asked for, `DEFAULT_PAGE` where none is named.
    pub open spec fn spec_page_or_default(&self) -> usize {
        match self.page {
            Some(page) => page,
            None => DEFAULT_PAGE,
        }
    }

    /// The page size asked for, `DEFAULT_PAGE_LIMIT` where none is named.
    pub open spec fn spec_limit_or_default(&self) -> usize {
        match self.limit {
            Some(limit) => limit,
            None => DEFAULT_PAGE_LIMIT,
        }
    }

    #[verifier::when_used_as_spec(spec_page_or_default)]
    pub fn page_or_default(&self) -> (r: usize)
        ensures
            r == self.spec_page_or_default(),
    {
        match self.page {
            Some(page) => page,
            None => DEFAULT_PAGE,
        }
    }

    /// The number of lines that come before the page asked for: the pages
    /// before it, each of the page size. `None` where the page is 0 or the
    /// number does not fit.
    pub fn offset(&self) -> (r: Option<i64>)
        ensures
            match r {
                Some(offset) => self.page_or_default() >= 1 && offset == (self.page_or_default()
                    - 1) * self.limit_or_default(),
                None => self.page_or_default() == 0 || (self.page_or_default() - 1)
                    * self.limit_or_default() > i64::MAX,
            },
    {
        let page = self.page_or_default();
        let limit = self.limit_or_default();
        if page == 0 {
            return None;
        }
        assert((page - 1) * limit >= 0) by (nonlinear_arith)
            requires
                page >= 1,
                limit >= 0,
        ;
        let pages_before: u64 = (page - 1) as u64;
        match pages_before.checked_mul(limit as u64) {
            Some(offset) => if offset <= 0x7fff_ffff_ffff_ffff {
                Some(offset as i64)
            } else {
                None
            },
            None => None,
        }
    }

    #[verifier::when_used_as_spec(spec_limit_or_default)]
    pub fn limit_or_default(&self) -> (r: usize)
        ensures
            r == self.spec_limit_or_default(),
    {
        match self.limit {
            Some(limit) => limit,
            None => DEFAULT_PAGE_LIMIT,
        }
    }
}

/// A change of the user's name.
#[derive(Debug, Default, Clone)]
pub struct NameUpdateDto {
    pub name: String,
}

impl NameUpdateDto {
    /// The rule that the request may break: a name is required.
    pub open spec fn violations(&self) -> Seq<Violation> {
        when(self.name@.len() < 1, Violation::NameRequired)
    }

    pub fn validate(&self) -> (r: Result<(), Vec<Violation>>)
        ensures
            reports(r, self.violations()),
    {
        let mut found: Vec<Violation> = Vec::new();
        check(&mut found, char_len(&self.name) < 1, Violation::NameRequired);
        finish(found)
    }
}

/// A change of the user's password.
#[derive(Debug, Default, Clone)]
pub struct UserPasswordUpdateDto {
    pub new_password: String,
    pub new_password_confirm: String,
    pub old_password: String,
}

impl UserPasswordUpdateDto {
    /// The rules that the request breaks: each of the three passwords is
    /// required and must have six characters or more, and the confirmation
    /// must equal the new password.
    pub open spec fn violations(&self) -> Seq<Violation> {
        when(self.new_password@.len() < 1, Violation::NewPasswordRequired)
            + when(self.new_password@.len() < MIN_PASSWORD_LEN, Violation::NewPasswordTooShort)
            + when(self.new_password_confirm@.len() < 1, Violation::NewPasswordConfirmRequired)
            + when(
            self.new_password_confirm@.len() < MIN_PASSWORD_LEN,
            Violation::NewPasswordConfirmTooShort,
        ) + when(
            self.new_password_confirm@ != self.new_password@,
            Violation::NewPasswordsDoNotMatch,
        ) + when(self.old_password@.len() < 1, Violation::OldPasswordRequired) + when(
            self.old_password@.len() < MIN_PASSWORD_LEN,
            Violation::OldPasswordTooShort,
        )
    }

    pub fn validate(&self) -> (r: Result<(), Vec<Violation>>)
        ensures
            reports(r, self.violations()),
    {
        let mut found: Vec<Violation> = Vec::new();
        check(&mut found, char_len(&self.new_password) < 1, Violation::NewPasswordRequired);
        check(
            &mut found,
            char_len(&self.new_password) < MIN_PASSWORD_LEN,
            Violation::NewPasswordTooShort,
        );
        check(
            &mut found,
            char_len(&self.new_password_confirm) < 1,
            Violation::NewPasswordConfirmRequired,
        );
        check(
            &mut found,
            char_len(&self.new_password_confirm) < MIN_PASSWORD_LEN,
            Violation::NewPasswordConfirmTooShort,
        );
        check(
            &mut found,
            self.new_password_confirm != self.new_password,
            Violation::NewPasswordsDoNotMatch,
        );
        check(&mut found, char_len(&self.old_password) < 1, Violation::OldPasswordRequired);
        check(
            &mut found,
            char_len(&self.old_password) < MIN_PASSWORD_LEN,
            Violation::OldPasswordTooShort,
        );
        finish(found)
    }
}

/// A search for users by a part of their e-mail address.
#[derive(Debug, Default, Clone)]
pub struct SearchQueryByEmailDTO {
    pub query: String,
}

impl SearchQueryByEmailDTO {
    /// The rule that the request may break: a query is required.
    pub open spec fn violations(&self) -> Seq<Violation> {
        when(self.query@.len() < 1, Violation::QueryRequired)
    }

    pub fn validate(&self) -> (r: Result<(), Vec<Violation>>)
        ensures
            reports(r, self.violations()),
    {
        let mut found: Vec<Violation> = Vec::new();
        check(&mut found, char_len(&self.query) < 1, Violation::QueryRequired);
        finish(found)
    }

    /// The pattern that the search matches addresses against: the query with
    /// a wildcard on either side.
    pub open spec fn spec_pattern(&self) -> Seq<char> {
        "%"@ + self.query@ + "%"@
    }

    pub fn pattern(&self) -> (r: String)
        ensures
            r@ == self.spec_pattern(),
    {
        let mut pattern = "%".to_owned();
        pattern.append(self.query.as_str());
        pattern.append("%");
        pattern
    }
}

/// The form that comes with an uploaded file.
#[derive(Debug, Default, Clone)]
pub struct FileUploadDtos {
    pub recipient_email: String,
    pub password: String,
    pub expiration_date: String,
}

/// What is decided of an expiration date at `now`, from whether its text is
/// empty and from the instant that the text reads as, if it reads as one:
/// an empty text is `ExpirationDateRequired`; a text that is no date,
/// `InvalidDateFormat`; an instant at `now` or before,
/// `ExpirationDateNotFuture`; and an instant strictly after `now` is
/// accepted.
pub open spec fn expiration_verdict_spec(is_empty: bool, parsed: Option<i64>, now: i64) -> Result<
    i64,
    Violation,
> {
    if is_empty {
        Err(Violation::ExpirationDateRequired)
    } else {
        match parsed {
            None => Err(Violation::InvalidDateFormat),
            Some(instant) => if instant <= now {
                Err(Violation::ExpirationDateNotFuture)
            } else {
                Ok(instant)
            },
        }
    }
}

#[verifier::when_used_as_spec(expiration_verdict_spec)]
pub fn expiration_verdict(is_empty: bool, parsed: Option<i64>, now: i64) -> (r: Result<
    i64,
    Violation,
>)
    ensures
        r == expiration_verdict_spec(is_empty, parsed, now),
{
    if is_empty {
        return Err(Violation::ExpirationDateRequired);
    }
    match parsed {
        None => Err(Violation::InvalidDateFormat),
        Some(instant) => if instant <= now {
            Err(Violation::ExpirationDateNotFuture)
        } else {
            Ok(instant)
        },
    }
}

/// The rule that an expiration date breaks at `now`, if any: it is required,
/// must be an RFC 3339 date and time, and must lie strictly after `now`.
pub open spec fn expiration_date_violation(expiration_date: Seq<char>, now: i64) -> Option<
    Violation,
> {
    match expiration_verdict_spec(
        expiration_date.len() == 0,
        rfc3339_micros(expiration_date),
        now,
    ) {
        Ok(_) => None,
        Err(violation) => Some(violation),
    }
}

/// The instant of an expiration date that breaks no rule at `now`.
pub open spec fn expiration_instant(expiration_date: Seq<char>) -> i64 {
    rfc3339_micros(expiration_date)->0
}

/// Checks an expiration date against the clock reading `now`, and gives its
/// instant where it breaks no rule. A text that is empty is not handed to
/// the parser.
pub fn validate_expiration_date(expiration_date: &str, now: i64) -> (r: Result<i64, Violation>)
    ensures
        r == expiration_verdict_spec(
            expiration_date@.len() == 0,
            rfc3339_micros(expiration_date@),
            now,
        ),
        match r {
            Ok(instant) => expiration_date_violation(expiration_date@, now) is None && instant
                == expiration_instant(expiration_date@) && instant > now,
            Err(violation) => expiration_date_violation(expiration_date@, now) == Some(violation),
        },
{
    let is_empty = expiration_date.unicode_len() == 0;
    let parsed = if is_empty {
        None
    } else {
        parse_rfc3339_micros(expiration_date)
    };
    expiration_verdict(is_empty, parsed, now)
}

impl FileUploadDtos {
    /// The rules that the form breaks at `now`: the recipient's address must
    /// be valid; the access password is required and must have six
    /// characters or more; the expiration date must be a date and time that
    /// lies strictly after `now`.
    pub open spec fn violations(&self, now: i64) -> Seq<Violation> {
        when(!email_is_valid(self.recipient_email@), Violation::RecipientEmailInvalid)
            + when(self.password@.len() < 1, Violation::AccessPasswordRequired)
            + when(self.password@.len() < MIN_PASSWORD_LEN, Violation::AccessPasswordTooShort)
            + listed(expiration_date_violation(self.expiration_date@, now))
    }

    pub fn validate(&self, now: i64) -> (r: Result<(), Vec<Violation>>)
        ensures
            reports(r, self.violations(now)),
    {
        match self.expiration_checked(now) {
            Ok(_) => Ok(()),
            Err(found) => Err(found),
        }
    }

    /// Checks the form like `validate`, and gives the instant of the
    /// expiration date where the form breaks no rule.
    pub fn expiration_checked(&self, now: i64) -> (r: Result<i64, Vec<Violation>>)
        ensures
            match r {
                Ok(instant) => {
                    &&& self.violations(now).len() == 0
                    &&& instant == expiration_instant(self.expiration_date@)
                    &&& instant > now
                },
                Err(found) => found@ == self.violations(now) && found@.len() > 0,
            },
    {
        let mut found: Vec<Violation> = Vec::new();
        check(
            &mut found,
            !validate_email(self.recipient_email.as_str()),
            Violation::RecipientEmailInvalid,
        );
        check(&mut found, char_len(&self.password) < 1, Violation::AccessPasswordRequired);
        check(
            &mut found,
            char_len(&self.password) < MIN_PASSWORD_LEN,
            Violation::AccessPasswordTooShort,
        );
        let ghost before = found@;
        match validate_expiration_date(self.expiration_date.as_str(), now) {
            Ok(instant) => {
                assert(found@ == before + listed(
                    expiration_date_violation(self.expiration_date@, now),
                ));
                if found.len() == 0 {
                    Ok(instant)
                } else {
                    Err(found)
                }
            },
            Err(violation) => {
                found.push(violation);
                assert(found@ == before + listed(
                    expiration_date_violation(self.expiration_date@, now),
                ));
                Err(found)
            },
        }
    }
}

/// A request to retrieve a shared file.
#[derive(Debug, Default, Clone)]
pub struct RetrieveFileDto {
    pub shared_id: String,
    pub password: String,
}

impl RetrieveFileDto {
    /// The rules that the request breaks: the identifier of the share is
    /// required; the password is required and must have six characters or
    /// more.
    pub open spec fn violations(&self) -> Seq<Violation> {
        when(self.shared_id@.len() < 1, Violation::SharedIdRequired)
            + when(self.password@.len() < 1, Violation::RetrievalPasswordRequired)
            + when(self.password@.len() < MIN_PASSWORD_LEN, Violation::RetrievalPasswordTooShort)
    }

    pub fn validate(&self) -> (r: Result<(), Vec<Violation>>)
        ensures
            reports(r, self.violations()),
    {
        let mut found: Vec<Violation> = Vec::new();
        check(&mut found, char_len(&self.shared_id) < 1, Violation::SharedIdRequired);
        check(&mut found, char_len(&self.password) < 1, Violation::RetrievalPasswordRequired);
        check(
            &mut found,
            char_len(&self.password) < MIN_PASSWORD_LEN,
            Violation::RetrievalPasswordTooShort,
        );
        finish(found)
    }

    /// The identifier of the share that the request names, where it names
    /// one.
    pub fn shared_uuid(&self) -> (r: Option<u128>)
        ensures
            r == uuid_parsed(self.shared_id@),
    {
        uuid_parse(self.shared_id.as_str())
    }
}

/// A user as the service shows it: without the password.
#[derive(Debug)]
pub struct FilterUserDto {
    pub id: String,
    pub name: String,
    pub email: String,
    pub public_key: Option<String>,
    pub created_at: i64,
    pub updated_at: i64,
}

impl FilterUserDto {
    /// Whether this is `user` as the service shows it.
    pub open spec fn shows(&self, user: &User) -> bool {
        &&& self.id@ == uuid_hyphenated(user.id)
        &&& self.name@ == user.name@
        &&& self.email@ == user.email@
        &&& self.public_key == user.public_key
        &&& Some(self.created_at) == user.created_at
        &&& Some(self.updated_at) == user.updated_at
    }

    /// Shows a user whose record has both its dates.
    pub fn filter_user(user: &User) -> (r: FilterUserDto)
        requires
            user.created_at is Some,
            user.updated_at is Some,
        ensures
            r.shows(user),
    {
        let public_key = match &user.public_key {
            Some(stored) => Some(stored.clone()),
            None => None,
        };
        let created_at = user.created_at.unwrap();
        let updated_at = user.updated_at.unwrap();
        FilterUserDto {
            id: uuid_to_string(user.id),
            name: user.name.clone(),
            email: user.email.clone(),
            public_key,
            created_at,
            updated_at,
        }
    }
}

/// The user part of an answer.
#[derive(Debug)]
pub struct UserData {
    pub user: FilterUserDto,
}

/// The answer to a request about one user.
#[derive(Debug)]
pub struct UserResponseDto {
    pub status: String,
    pub data: UserData,
}

/// One line of the list of files that a user has sent.
#[derive(Debug)]
pub struct UserSendFileDto {
    pub file_id: String,
    pub file_name: String,
    pub recipient_email: String,
    pub expiration_date: i64,
    pub created_at: i64,
}

impl UserSendFileDto {
    /// Whether this is the line for `file_data`.
    pub open spec fn shows(&self, file_data: &SentFileDetails) -> bool {
        &&& self.file_id@ == uuid_hyphenated(file_data.file_id)
        &&& self.file_name@ == file_data.file_name@
        &&& self.recipient_email@ == file_data.recipient_email@
        &&& Some(self.expiration_date) == file_data.expiration_date
        &&& Some(self.created_at) == file_data.created_at
    }

    /// The line for a sent file whose record has both its dates.
    pub fn filter_send_user_file(file_data: &SentFileDetails) -> (r: UserSendFileDto)
        requires
            file_data.expiration_date is Some,
            file_data.created_at is Some,
        ensures
            r.shows(file_data),
    {
        let expiration_date = file_data.expiration_date.unwrap();
        let created_at = file_data.created_at.unwrap();
        UserSendFileDto {
            file_id: uuid_to_string(file_data.file_id),
            file_name: file_data.file_name.clone(),
            recipient_email: file_data.recipient_email.clone(),
            expiration_date,
            created_at,
        }
    }

    /// The lines for the sent files, in their order.
    pub fn filter_send_user_files(user: &[SentFileDetails]) -> (r: Vec<UserSendFileDto>)
        requires
            forall|i: int|
                0 <= i < user@.len() ==> (#[trigger] user@[i]).expiration_date is Some
                    && user@[i].created_at is Some,
        ensures
            r@.len() == user@.len(),
            forall|i: int| 0 <= i < r@.len() ==> (#[trigger] r@[i]).shows(&user@[i]),
    {
        let mut lines: Vec<UserSendFileDto> = Vec::new();
        let mut i: usize = 0;
        while i < user.len()
            invariant
                i <= user@.len(),
                lines@.len() == i,
                forall|j: int|
                    0 <= j < user@.len() ==> (#[trigger] user@[j]).expiration_date is Some
                        && user@[j].created_at is Some,
                forall|j: int| 0 <= j < i ==> (#[trigger] lines@[j]).shows(&user@[j]),
            decreases user.len() - i,
        {
            lines.push(UserSendFileDto::filter_send_user_file(&user[i]));
            i += 1;
        }
        lines
    }
}

/// The answer to a request for the files that a user has sent.
#[derive(Debug)]
pub struct UserSendFileListResponseDto {
    pub status: String,
    pub files: Vec<UserSendFileDto>,
    pub results: i64,
}

/// One line of the list of files that a user has received.
#[derive(Debug)]
pub struct UserReceiveFileDto {
    pub file_id: String,
    pub file_name: String,
    pub sender_email: String,
    pub expiration_date: i64,
    pub created_at: i64,
}

impl UserReceiveFileDto {
    /// Whether this is the line for `file_data`.
    pub open spec fn shows(&self, file_data: &ReceiveFileDetails) -> bool {
        &&& self.file_id@ == uuid_hyphenated(file_data.file_id)
        &&& self.file_name@ == file_data.file_name@
        &&& self.sender_email@ == file_data.sender_email@
        &&& Some(self.expiration_date) == file_data.expiration_date
        &&& Some(self.created_at) == file_data.created_at
    }

    /// The line for a received file whose record has both its dates.
    pub fn filter_receive_user_file(file_data: &ReceiveFileDetails) -> (r: UserReceiveFileDto)
        requires
            file_data.expiration_date is Some,
            file_data.created_at is Some,
        ensures
            r.shows(file_data),
    {
        let expiration_date = file_data.expiration_date.unwrap();
        let created_at = file_data.created_at.unwrap();
        UserReceiveFileDto {
            file_id: uuid_to_string(file_data.file_id),
            file_name: file_data.file_name.clone(),
            sender_email: file_data.sender_email.clone(),
            expiration_date,
            created_at,
        }
    }

    /// The lines for the received files, in their order.
    pub fn filter_receive_user_files(user: &[ReceiveFileDetails]) -> (r: Vec<UserReceiveFileDto>)
        requires
            forall|i: int|
                0 <= i < user@.len() ==> (#[trigger] user@[i]).expiration_date is Some
                    && user@[i].created_at is Some,
        ensures
            r@.len() == user@.len(),
            forall|i: int| 0 <= i < r@.len() ==> (#[trigger] r@[i]).shows(&user@[i]),
    {
        let mut lines: Vec<UserReceiveFileDto> = Vec::new();
        let mut i: usize = 0;
        while i < user.len()
            invariant
                i <= user@.len(),
                lines@.len() == i,
                forall|j: int|
                    0 <= j < user@.len() ==> (#[trigger] user@[j]).expiration_date is Some
                        && user@[j].created_at is Some,
                forall|j: int| 0 <= j < i ==> (#[trigger] lines@[j]).shows(&user@[j]),
            decreases user.len() - i,
        {
            lines.push(UserReceiveFileDto::filter_receive_user_file(&user[i]));
            i += 1;
        }
        lines
    }
}

/// The answer to a request for the files that a user has received.
#[derive(Debug)]
pub struct UserReceiveFileListResponseDto {
    pub status: String,
    pub files: Vec<UserReceiveFileDto>,
    pub results: i64,
}

/// The answer to a login.
#[derive(Debug)]
pub struct UserLoginResponseDto {
    pub status: String,
    pub token: String,
}

/// A plain answer.
pub struct Response {
    pub status: &'static str,
    pub message: String,
}

/// A user as a search shows it: by the address alone.
#[derive(Debug)]
pub struct FilterEmailDto {
    pub email: String,
}

impl FilterEmailDto {
    /// The address of a user.
    pub fn filter_email(user: &User) -> (r: FilterEmailDto)
        ensures
            r.email@ == user.email@,
    {
        FilterEmailDto { email: user.email.clone() }
    }

    /// The addresses of the users, in their order.
    pub fn filter_emails(user: &[User]) -> (r: Vec<FilterEmailDto>)
        ensures
            r@.len() == user@.len(),
            forall|i: int| 0 <= i < r@.len() ==> (#[trigger] r@[i]).email@ == user@[i].email@,
    {
        let mut addresses: Vec<FilterEmailDto> = Vec::new();
        let mut i: usize = 0;
        while i < user.len()
            invariant
                i <= user@.len(),
                addresses@.len() == i,
                forall|j: int| 0 <= j < i ==> (#[trigger] addresses@[j]).email@ == user@[j].email@,
            decreases user.len() - i,
        {
            addresses.push(FilterEmailDto::filter_email(&user[i]));
            i += 1;
        }
        addresses
    }
}

/// The answer to a search for users.
#[derive(Debug)]
pub struct EmailListResponseDto {
    pub status: String,
    pub emails: Vec<FilterEmailDto>,
}

} // verus!
