//! The closed error taxonomy of the user entity family.

use vstd::prelude::*;
use vstd::string::StringExecFns;

verus! {

/// One violated constraint of a user field, or the umbrella kind for several
/// at once.
///
/// The `Empty*` kinds report a required field that was never supplied to the
/// builder; a supplied-but-bad value gets the kind of the first failing check
/// of its validator.
#[derive(Clone, Copy, Debug, PartialEq, Eq, Structural)]
pub enum UserParseError {
    /// The email does not have the `local@domain.tld` shape.
    InvalidEmail,
    /// Reserved for a rejected image URL; the image rule currently accepts
    /// every non-empty string, so no validator produces this kind.
    InvalidImageUrl,
    UsernameContainsInvalidCharacters,
    PasswordContainsInvalidCharacters,
    /// The date of birth is not a well-formed `YYYY-MM-DD` calendar day.
    InvalidDateOfBirth,
    /// The derived age falls short of the configured minimum.
    DateOfBirthIsTooNear,
    /// The derived age exceeds the configured maximum.
    DateOfBirthIsTooFar,
    FirstNameIsTooLong,
    LastNameIsTooLong,
    UsernameIsTooLong,
    PasswordIsTooLong,
    UsernameIsTooShort,
    PasswordIsTooShort,
    EmptyUsername,
    EmptyEmail,
    EmptyPassword,
    EmptyFirstName,
    EmptyLastName,
    EmptyDateOfBirth,
    /// The umbrella kind: more than one constraint was violated at once.
    UnableToValidateUser,
}

impl UserParseError {
    /// The user-facing message of each kind.
    pub open spec fn message_spec(self) -> Seq<char> {
        match self {
            UserParseError::InvalidEmail => "Invalid email"@,
            UserParseError::InvalidImageUrl => "Invalid image url"@,
            UserParseError::UsernameContainsInvalidCharacters => "Username contains invalid characters"@,
            UserParseError::PasswordContainsInvalidCharacters => "Password contains invalid characters"@,
            UserParseError::InvalidDateOfBirth => "Invalid date of birth"@,
            UserParseError::DateOfBirthIsTooNear => "You must be at least 14 to create an account"@,
            UserParseError::DateOfBirthIsTooFar => "Are you really over 120 years old?"@,
            UserParseError::FirstNameIsTooLong => "First name exceeds maximum length 64"@,
            UserParseError::LastNameIsTooLong => "Last name exceeds maximum length 64"@,
            UserParseError::UsernameIsTooLong => "Username is too long"@,
            UserParseError::PasswordIsTooLong => "Password is too long"@,
            UserParseError::UsernameIsTooShort => "Username is too short"@,
            UserParseError::PasswordIsTooShort => "Password is too short"@,
            UserParseError::EmptyUsername => "Username cannot be empty"@,
            UserParseError::EmptyEmail => "Email cannot be empty"@,
            UserParseError::EmptyPassword => "Password cannot be empty"@,
            UserParseError::EmptyFirstName => "First name cannot be empty"@,
            UserParseError::EmptyLastName => "Last name cannot be empty"@,
            UserParseError::EmptyDateOfBirth => "Date of birth cannot be empty"@,
            UserParseError::UnableToValidateUser => "Could not validate user"@,
        }
    }

    /// Renders the kind as its user-facing message.
    pub fn message(&self) -> (r: String)
        ensures
            r@ == self.message_spec(),
    {
        match self {
            UserParseError::InvalidEmail => String::from_str("Invalid email"),
            UserParseError::InvalidImageUrl => String::from_str("Invalid image url"),
            UserParseError::UsernameContainsInvalidCharacters => String::from_str(
                "Username contains invalid characters",
            ),
            UserParseError::PasswordContainsInvalidCharacters => String::from_str(
                "Password contains invalid characters",
            ),
            UserParseError::InvalidDateOfBirth => String::from_str("Invalid date of birth"),
            UserParseError::DateOfBirthIsTooNear => String::from_str(
                "You must be at least 14 to create an account",
            ),
            UserParseError::DateOfBirthIsTooFar => String::from_str(
                "Are you really over 120 years old?",
            ),
            UserParseError::FirstNameIsTooLong => String::from_str(
                "First name exceeds maximum length 64",
            ),
            UserParseError::LastNameIsTooLong => String::from_str(
                "Last name exceeds maximum length 64",
            ),
            UserParseError::UsernameIsTooLong => String::from_str("Username is too long"),
            UserParseError::PasswordIsTooLong => String::from_str("Password is too long"),
            UserParseError::UsernameIsTooShort => String::from_str("Username is too short"),
            UserParseError::PasswordIsTooShort => String::from_str("Password is too short"),
            UserParseError::EmptyUsername => String::from_str("Username cannot be empty"),
            UserParseError::EmptyEmail => String::from_str("Email cannot be empty"),
            UserParseError::EmptyPassword => String::from_str("Password cannot be empty"),
            UserParseError::EmptyFirstName => String::from_str("First name cannot be empty"),
            UserParseError::EmptyLastName => String::from_str("Last name cannot be empty"),
            UserParseError::EmptyDateOfBirth => String::from_str("Date of birth cannot be empty"),
            UserParseError::UnableToValidateUser => String::from_str("Could not validate user"),
        }
    }
}

} // verus!
