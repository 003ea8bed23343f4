//! Read-only validation configuration.
//!
//! The length bounds, age bounds and illegal-character sets the field
//! validators apply. The configuration is an explicit value handed to (and
//! captured by) a builder at construction, never process-wide state, so
//! callers and tests can vary the bounds freely. [`Default`] gives the
//! catalog's standard bounds.

use vstd::prelude::*;

verus! {

/// Bounds and character sets applied by the field validators.
#[derive(Debug)]
pub struct ValidationConfig {
    /// Fewest characters a username may have.
    pub username_min_length: usize,
    /// Most characters a username may have.
    pub username_max_length: usize,
    /// Fewest characters a password may have.
    pub password_min_length: usize,
    /// Most characters a password may have.
    pub password_max_length: usize,
    /// Most characters a first name may have.
    pub first_name_max_length: usize,
    /// Most characters a last name may have.
    pub last_name_max_length: usize,
    /// Youngest accepted age, in 365-day years.
    pub minimum_age: u32,
    /// Oldest accepted age, in 365-day years.
    pub maximum_age: u32,
    /// Characters a username may not contain.
    pub illegal_username_characters: Vec<char>,
    /// Characters a password may not contain.
    pub illegal_password_characters: Vec<char>,
}

/// The mathematical content of a [`ValidationConfig`]: the same bounds with
/// the character sets as sequences.
pub struct ConfigModel {
    pub username_min_length: int,
    pub username_max_length: int,
    pub password_min_length: int,
    pub password_max_length: int,
    pub first_name_max_length: int,
    pub last_name_max_length: int,
    pub minimum_age: int,
    pub maximum_age: int,
    pub illegal_username_characters: Seq<char>,
    pub illegal_password_characters: Seq<char>,
}

impl ValidationConfig {
    pub open spec fn model(self) -> ConfigModel {
        ConfigModel {
            username_min_length: self.username_min_length as int,
            username_max_length: self.username_max_length as int,
            password_min_length: self.password_min_length as int,
            password_max_length: self.password_max_length as int,
            first_name_max_length: self.first_name_max_length as int,
            last_name_max_length: self.last_name_max_length as int,
            minimum_age: self.minimum_age as int,
            maximum_age: self.maximum_age as int,
            illegal_username_characters: self.illegal_username_characters@,
            illegal_password_characters: self.illegal_password_characters@,
        }
    }
}

/// The catalog's standard bounds, as a model value: usernames 8 to 32
/// characters, passwords 8 to 128, names up to 64, ages 14 to 120, and the
/// four ordinal/section marks as illegal characters in usernames and
/// passwords.
pub open spec fn standard_config() -> ConfigModel {
    ConfigModel {
        username_min_length: 8,
        username_max_length: 32,
        password_min_length: 8,
        password_max_length: 128,
        first_name_max_length: 64,
        last_name_max_length: 64,
        minimum_age: 14,
        maximum_age: 120,
        illegal_username_characters: seq!['\u{00ba}', '\u{00b0}', '\u{00aa}', '\u{00a7}'],
        illegal_password_characters: seq!['\u{00ba}', '\u{00b0}', '\u{00aa}', '\u{00a7}'],
    }
}

impl Clone for ValidationConfig {
    /// A clone carries the same bounds and character sets.
    fn clone(&self) -> (r: Self)
        ensures
            r.model() == self.model(),
    {
        let r = ValidationConfig {
            username_min_length: self.username_min_length,
            username_max_length: self.username_max_length,
            password_min_length: self.password_min_length,
            password_max_length: self.password_max_length,
            first_name_max_length: self.first_name_max_length,
            last_name_max_length: self.last_name_max_length,
            minimum_age: self.minimum_age,
            maximum_age: self.maximum_age,
            illegal_username_characters: self.illegal_username_characters.clone(),
            illegal_password_characters: self.illegal_password_characters.clone(),
        };
        proof {
            assert(r.illegal_username_characters@ =~= self.illegal_username_characters@);
            assert(r.illegal_password_characters@ =~= self.illegal_password_characters@);
            assert(r.model() == self.model());
        }
        r
    }
}

impl Default for ValidationConfig {
    /// The catalog's standard bounds; see [`standard_config`].
    fn default() -> (r: Self)
        ensures
            r.model() == standard_config(),
    {
        let illegal_username: Vec<char> = vec!['\u{00ba}', '\u{00b0}', '\u{00aa}', '\u{00a7}'];
        let illegal_password: Vec<char> = vec!['\u{00ba}', '\u{00b0}', '\u{00aa}', '\u{00a7}'];
        let r = ValidationConfig {
            username_min_length: 8,
            username_max_length: 32,
            password_min_length: 8,
            password_max_length: 128,
            first_name_max_length: 64,
            last_name_max_length: 64,
            minimum_age: 14,
            maximum_age: 120,
            illegal_username_characters: illegal_username,
            illegal_password_characters: illegal_password,
        };
        proof {
            assert(r.model().illegal_username_characters =~= standard_config().illegal_username_characters);
            assert(r.model().illegal_password_characters =~= standard_config().illegal_password_characters);
            assert(r.model() == standard_config());
        }
        r
    }
}

} // verus!
