//! The field validators: one pure function per constrained field.
//!
//! Each validator consumes raw input and yields either the validated value
//! or the specific error kind of the first failing check. The checks of each
//! field run in a fixed order, so exactly one kind can be reported per
//! field.

use vstd::prelude::*;
use vstd::arithmetic::div_mod::{lemma_fundamental_div_mod, lemma_mod_bound};
use crate::config::{ConfigModel, ValidationConfig};
use crate::date::{parse_iso_date, parse_iso_spec, Date};
use crate::shared::FullName;
use crate::text::{contains_any, contains_any_char, char_length, is_valid_email, valid_email};
use crate::user_errors::UserParseError;

verus! {

/// The error a username draws, if any: illegal characters, then too long,
/// then too short; otherwise none.
pub open spec fn username_error(m: ConfigModel, s: Seq<char>) -> Option<UserParseError> {
    if contains_any(s, m.illegal_username_characters) {
        Some(UserParseError::UsernameContainsInvalidCharacters)
    } else if s.len() > m.username_max_length {
        Some(UserParseError::UsernameIsTooLong)
    } else if s.len() < m.username_min_length {
        Some(UserParseError::UsernameIsTooShort)
    } else {
        None
    }
}

/// Validates a username and returns it unchanged on success; see
/// [`username_error`].
pub fn validate_username(cfg: &ValidationConfig, username: String) -> (r: Result<
    String,
    UserParseError,
>)
    ensures
        r is Ok <==> username_error(cfg.model(), username@) is None,
        r is Ok ==> r->Ok_0@ == username@,
        r is Err ==> Some(r->Err_0) == username_error(cfg.model(), username@),
{
    if contains_any_char(username.as_str(), &cfg.illegal_username_characters) {
        Err(UserParseError::UsernameContainsInvalidCharacters)
    } else if char_length(username.as_str()) > cfg.username_max_length {
        Err(UserParseError::UsernameIsTooLong)
    } else if char_length(username.as_str()) < cfg.username_min_length {
        Err(UserParseError::UsernameIsTooShort)
    } else {
        Ok(username)
    }
}

/// The error a password draws, if any: the same shape as the username
/// checks, with the password bounds.
pub open spec fn password_error(m: ConfigModel, s: Seq<char>) -> Option<UserParseError> {
    if contains_any(s, m.illegal_password_characters) {
        Some(UserParseError::PasswordContainsInvalidCharacters)
    } else if s.len() > m.password_max_length {
        Some(UserParseError::PasswordIsTooLong)
    } else if s.len() < m.password_min_length {
        Some(UserParseError::PasswordIsTooShort)
    } else {
        None
    }
}

/// Validates a password and returns it unchanged on success; see
/// [`password_error`].
pub fn validate_password(cfg: &ValidationConfig, password: String) -> (r: Result<
    String,
    UserParseError,
>)
    ensures
        r is Ok <==> password_error(cfg.model(), password@) is None,
        r is Ok ==> r->Ok_0@ == password@,
        r is Err ==> Some(r->Err_0) == password_error(cfg.model(), password@),
{
    if contains_any_char(password.as_str(), &cfg.illegal_password_characters) {
        Err(UserParseError::PasswordContainsInvalidCharacters)
    } else if char_length(password.as_str()) > cfg.password_max_length {
        Err(UserParseError::PasswordIsTooLong)
    } else if char_length(password.as_str()) < cfg.password_min_length {
        Err(UserParseError::PasswordIsTooShort)
    } else {
        Ok(password)
    }
}

/// The error an email draws, if any: it must have the `local@domain.tld`
/// shape.
pub open spec fn email_error(s: Seq<char>) -> Option<UserParseError> {
    if valid_email(s) {
        None
    } else {
        Some(UserParseError::InvalidEmail)
    }
}

/// Validates an email address and returns it unchanged on success; see
/// [`email_error`].
pub fn validate_email(email: String) -> (r: Result<String, UserParseError>)
    ensures
        r is Ok <==> email_error(email@) is None,
        r is Ok ==> r->Ok_0@ == email@,
        r is Err ==> Some(r->Err_0) == email_error(email@),
{
    if is_valid_email(email.as_str()) {
        Ok(email)
    } else {
        Err(UserParseError::InvalidEmail)
    }
}

/// The error a first/last name pair draws, if any: an empty part, then an
/// overlong part, first name checked before last name.
pub open spec fn name_error(m: ConfigModel, first: Seq<char>, last: Seq<char>) -> Option<
    UserParseError,
> {
    if first.len() == 0 {
        Some(UserParseError::EmptyFirstName)
    } else if first.len() > m.first_name_max_length {
        Some(UserParseError::FirstNameIsTooLong)
    } else if last.len() == 0 {
        Some(UserParseError::EmptyLastName)
    } else if last.len() > m.last_name_max_length {
        Some(UserParseError::LastNameIsTooLong)
    } else {
        None
    }
}

/// Validates a first and last name and returns them as a [`FullName`] on
/// success; see [`name_error`].
pub fn validate_name(cfg: &ValidationConfig, first_name: String, last_name: String) -> (r: Result<
    FullName,
    UserParseError,
>)
    ensures
        r is Ok <==> name_error(cfg.model(), first_name@, last_name@) is None,
        r is Ok ==> r->Ok_0.first_name@ == first_name@ && r->Ok_0.last_name@ == last_name@,
        r is Err ==> Some(r->Err_0) == name_error(cfg.model(), first_name@, last_name@),
{
    if char_length(first_name.as_str()) == 0 {
        Err(UserParseError::EmptyFirstName)
    } else if char_length(first_name.as_str()) > cfg.first_name_max_length {
        Err(UserParseError::FirstNameIsTooLong)
    } else if char_length(last_name.as_str()) == 0 {
        Err(UserParseError::EmptyLastName)
    } else if char_length(last_name.as_str()) > cfg.last_name_max_length {
        Err(UserParseError::LastNameIsTooLong)
    } else {
        Ok(FullName { first_name, last_name })
    }
}

/// Age in whole 365-day years between a birth date and today: the day
/// distance divided by 365, rounded towards minus infinity (so a birth date
/// in the future has a negative age and is always "too near").
pub open spec fn age_in_years(birth: Date, today: Date) -> int {
    (today.day_index_spec() - birth.day_index_spec()) / 365
}

/// The error a birth-date string draws, if any: not a well-formed calendar
/// day, then an age under the minimum, then an age over the maximum.
pub open spec fn dob_error(m: ConfigModel, s: Seq<char>, today: Date) -> Option<UserParseError> {
    match parse_iso_spec(s) {
        None => Some(UserParseError::InvalidDateOfBirth),
        Some(birth) => {
            let age = age_in_years(birth, today);
            if age < m.minimum_age {
                Some(UserParseError::DateOfBirthIsTooNear)
            } else if age > m.maximum_age {
                Some(UserParseError::DateOfBirthIsTooFar)
            } else {
                None
            }
        },
    }
}

/// A day distance reaches `m` whole 365-day years exactly when it reaches
/// `m * 365` days.
proof fn lemma_age_threshold(d: int, m: int)
    ensures
        d / 365 >= m <==> d >= m * 365,
{
    lemma_fundamental_div_mod(d, 365);
    lemma_mod_bound(d, 365);
}

/// Every username whose length lies within the configured bounds and which
/// contains none of the illegal characters is accepted by the username
/// validator (which then returns the identical string).
pub proof fn lemma_username_in_bounds_accepted(m: ConfigModel, s: Seq<char>)
    requires
        m.username_min_length <= s.len() <= m.username_max_length,
        !contains_any(s, m.illegal_username_characters),
    ensures
        username_error(m, s) is None,
{
}

/// The age boundary, at the day granularity the validator uses: a birth
/// date exactly `minimum_age` 365-day years before today is accepted with
/// the age computed as exactly `minimum_age`, while a birth date one day
/// later falls short and is rejected as too near.
pub proof fn lemma_age_boundary(m: ConfigModel, birth: Date, today: Date, s: Seq<char>)
    requires
        parse_iso_spec(s) == Some(birth),
        m.minimum_age <= m.maximum_age,
    ensures
        today.day_index_spec() - birth.day_index_spec() == m.minimum_age * 365 ==> age_in_years(
            birth,
            today,
        ) == m.minimum_age && dob_error(m, s, today) is None,
        today.day_index_spec() - birth.day_index_spec() == m.minimum_age * 365 - 1 ==> dob_error(
            m,
            s,
            today,
        ) == Some(UserParseError::DateOfBirthIsTooNear),
{
    let d = today.day_index_spec() - birth.day_index_spec();
    lemma_age_threshold(d, m.minimum_age);
    lemma_age_threshold(d, m.minimum_age + 1);
}

/// Validates a birth-date string against today's date and returns the
/// parsed date on success; see [`dob_error`].
pub fn validate_date_of_birth(cfg: &ValidationConfig, date_of_birth: &str, today: Date) -> (r:
    Result<Date, UserParseError>)
    requires
        today.valid(),
    ensures
        r is Ok <==> dob_error(cfg.model(), date_of_birth@, today) is None,
        r is Ok ==> Some(r->Ok_0) == parse_iso_spec(date_of_birth@) && r->Ok_0.valid(),
        r is Err ==> Some(r->Err_0) == dob_error(cfg.model(), date_of_birth@, today),
{
    match parse_iso_date(date_of_birth) {
        None => Err(UserParseError::InvalidDateOfBirth),
        Some(birth) => {
            let days = today.day_index() as i64 - birth.day_index() as i64;
            proof {
                lemma_age_threshold(days as int, cfg.model().minimum_age);
                lemma_age_threshold(days as int, cfg.model().maximum_age + 1);
            }
            if days < cfg.minimum_age as i64 * 365 {
                Err(UserParseError::DateOfBirthIsTooNear)
            } else if days >= (cfg.maximum_age as i64 + 1) * 365 {
                Err(UserParseError::DateOfBirthIsTooFar)
            } else {
                Ok(birth)
            }
        },
    }
}

} // verus!
