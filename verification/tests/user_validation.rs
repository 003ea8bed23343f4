use poivre::config::ValidationConfig;
use poivre::date::Date;
use poivre::user::UserBuilder;
use poivre::user_errors::UserParseError;

fn fixed_today() -> Date {
    // 5110 days (exactly 14 validation years) after 2000-01-01
    Date::new(2013, 12, 28).unwrap()
}

fn valid_builder() -> UserBuilder {
    UserBuilder::new(ValidationConfig::default(), fixed_today())
        .set_image(String::from("some/url.png"))
        .set_username(String::from("john_doe"))
        .set_email(String::from("johndoe@provider.com"))
        .set_password(String::from("abcdefghi"))
        .set_name(String::from("John"), String::from("Doe"))
        .set_date_of_birth(String::from("2000-01-01"))
}

#[test]
fn accepts_fully_valid_signup() {
    let user = valid_builder().validate().expect("all fields are valid");
    assert_eq!(user.username(), "john_doe");
    assert_eq!(user.email(), "johndoe@provider.com");
    assert_eq!(user.first_name(), "John");
    assert_eq!(user.last_name(), "Doe");
    assert_eq!(user.image(), "some/url.png");
    assert!(user.friends().is_empty());
    assert_eq!(user.id(), "");
}

#[test]
fn round_trip_returns_validated_values() {
    // the date-of-birth accessor returns the parsed date, not the raw string
    let user = valid_builder().validate().unwrap();
    let dob = user.date_of_birth();
    assert_eq!((dob.year, dob.month, dob.day), (2000, 1, 1));
    assert_eq!(dob.iso_string(), "2000-01-01");
}

#[test]
fn setter_is_idempotent_for_valid_input() {
    let once = valid_builder().validate().unwrap();
    let twice = valid_builder()
        .set_username(String::from("john_doe"))
        .set_email(String::from("johndoe@provider.com"))
        .validate()
        .unwrap();
    assert_eq!(once.username(), twice.username());
    assert_eq!(once.email(), twice.email());
    assert_eq!(once.date_of_birth(), twice.date_of_birth());
}

#[test]
fn username_boundaries_accepted() {
    // length 8 (the minimum) and length 32 (the maximum) both pass
    let user = valid_builder().set_username(String::from("abcdefgh")).validate().unwrap();
    assert_eq!(user.username(), "abcdefgh");
    let long = "a".repeat(32);
    let user = valid_builder().set_username(long.clone()).validate().unwrap();
    assert_eq!(user.username(), long);
}

#[test]
fn username_too_short() {
    // the end-to-end scenario: "short" (5 characters) with otherwise-valid
    // fields yields exactly UsernameIsTooShort
    let r = valid_builder().set_username(String::from("short")).validate();
    assert_eq!(r.unwrap_err(), UserParseError::UsernameIsTooShort);
}

#[test]
fn username_too_long() {
    let r = valid_builder().set_username("a".repeat(33)).validate();
    assert_eq!(r.unwrap_err(), UserParseError::UsernameIsTooLong);
}

#[test]
fn username_illegal_characters_win_over_length() {
    // the illegal-character check runs first, even when the name is also
    // too short
    let r = valid_builder().set_username(String::from("a\u{00ba}")).validate();
    assert_eq!(r.unwrap_err(), UserParseError::UsernameContainsInvalidCharacters);
}

#[test]
fn password_bounds() {
    let r = valid_builder().set_password(String::from("abcd")).validate();
    assert_eq!(r.unwrap_err(), UserParseError::PasswordIsTooShort);
    let r = valid_builder().set_password("a".repeat(129)).validate();
    assert_eq!(r.unwrap_err(), UserParseError::PasswordIsTooLong);
    let ok = valid_builder().set_password("a".repeat(128)).validate();
    assert!(ok.is_ok());
    let r = valid_builder().set_password(String::from("abcdefg\u{00a7}x")).validate();
    assert_eq!(r.unwrap_err(), UserParseError::PasswordContainsInvalidCharacters);
}

#[test]
fn email_shapes() {
    for good in ["a@b.cd", "user.name+tag@example.com", "user_1@mail.example.org"] {
        let r = valid_builder().set_email(good.to_string()).validate();
        assert!(r.is_ok(), "{good} should be accepted");
    }
    for bad in ["", "plain", "a@b", "a@b.c", "@b.cd", "a@.cd", "a@b..cd", "a@b.cd.", "a@@b.cd", "a b@c.de"] {
        let r = valid_builder().set_email(bad.to_string()).validate();
        assert_eq!(r.unwrap_err(), UserParseError::InvalidEmail, "{bad} should be rejected");
    }
}

#[test]
fn name_bounds() {
    let r = valid_builder().set_name(String::new(), String::from("Doe")).validate();
    assert_eq!(r.unwrap_err(), UserParseError::EmptyFirstName);
    let r = valid_builder().set_name(String::from("John"), String::new()).validate();
    assert_eq!(r.unwrap_err(), UserParseError::EmptyLastName);
    let r = valid_builder().set_name("a".repeat(65), String::from("Doe")).validate();
    assert_eq!(r.unwrap_err(), UserParseError::FirstNameIsTooLong);
    let r = valid_builder().set_name(String::from("John"), "a".repeat(65)).validate();
    assert_eq!(r.unwrap_err(), UserParseError::LastNameIsTooLong);
    let ok = valid_builder().set_name("a".repeat(64), "b".repeat(64)).validate();
    assert!(ok.is_ok());
}

#[test]
fn date_of_birth_must_be_iso() {
    for bad in ["09/11/2001", "2001-9-11", "2001-13-01", "2001-02-29", "0000-01-01", ""] {
        let r = valid_builder().set_date_of_birth(bad.to_string()).validate();
        assert_eq!(r.unwrap_err(), UserParseError::InvalidDateOfBirth, "{bad:?}");
    }
    let ok = valid_builder().set_date_of_birth(String::from("1996-02-29")).validate();
    assert!(ok.is_ok(), "a leap day parses");
}

#[test]
fn age_boundary_at_fourteen_years() {
    // 2000-01-01 lies exactly 14 * 365 days before the fixed today: age 14,
    // accepted; one day later the distance is one day short: rejected
    let ok = valid_builder().set_date_of_birth(String::from("2000-01-01")).validate();
    assert!(ok.is_ok());
    let r = valid_builder().set_date_of_birth(String::from("2000-01-02")).validate();
    assert_eq!(r.unwrap_err(), UserParseError::DateOfBirthIsTooNear);
}

#[test]
fn age_over_maximum_rejected() {
    let r = valid_builder().set_date_of_birth(String::from("0500-01-01")).validate();
    assert_eq!(r.unwrap_err(), UserParseError::DateOfBirthIsTooFar);
}

#[test]
fn missing_fields_report_empty_kinds() {
    let today = fixed_today();
    let base = || UserBuilder::new(ValidationConfig::default(), today);
    let full = |b: UserBuilder| {
        b.set_username(String::from("john_doe"))
            .set_email(String::from("johndoe@provider.com"))
            .set_password(String::from("abcdefghi"))
            .set_name(String::from("John"), String::from("Doe"))
            .set_date_of_birth(String::from("2000-01-01"))
    };
    // leaving exactly one required field unset yields its Empty* kind
    let b = base()
        .set_email(String::from("johndoe@provider.com"))
        .set_password(String::from("abcdefghi"))
        .set_name(String::from("John"), String::from("Doe"))
        .set_date_of_birth(String::from("2000-01-01"));
    assert_eq!(b.validate().unwrap_err(), UserParseError::EmptyUsername);
    let b = base()
        .set_username(String::from("john_doe"))
        .set_password(String::from("abcdefghi"))
        .set_name(String::from("John"), String::from("Doe"))
        .set_date_of_birth(String::from("2000-01-01"));
    assert_eq!(b.validate().unwrap_err(), UserParseError::EmptyEmail);
    let b = base()
        .set_username(String::from("john_doe"))
        .set_email(String::from("johndoe@provider.com"))
        .set_name(String::from("John"), String::from("Doe"))
        .set_date_of_birth(String::from("2000-01-01"));
    assert_eq!(b.validate().unwrap_err(), UserParseError::EmptyPassword);
    let b = base()
        .set_username(String::from("john_doe"))
        .set_email(String::from("johndoe@provider.com"))
        .set_password(String::from("abcdefghi"))
        .set_date_of_birth(String::from("2000-01-01"));
    assert_eq!(b.validate().unwrap_err(), UserParseError::EmptyFirstName);
    let b = base()
        .set_username(String::from("john_doe"))
        .set_email(String::from("johndoe@provider.com"))
        .set_password(String::from("abcdefghi"))
        .set_name(String::from("John"), String::from("Doe"));
    assert_eq!(b.validate().unwrap_err(), UserParseError::EmptyDateOfBirth);
    // the image is optional: never an error
    assert!(full(base()).validate().is_ok());
    // a completely empty builder collapses its missing fields to the
    // umbrella kind
    assert_eq!(base().validate().unwrap_err(), UserParseError::UnableToValidateUser);
}

#[test]
fn multi_error_collapses_to_umbrella_kind() {
    // an invalid email and a too-short username together yield the umbrella
    // kind, while the per-field breakdown still names both
    let b = valid_builder()
        .set_username(String::from("short"))
        .set_email(String::from("not-an-email"));
    let errors = b.validation_errors();
    assert_eq!(
        errors,
        vec![UserParseError::UsernameIsTooShort, UserParseError::InvalidEmail]
    );
    assert_eq!(b.validate().unwrap_err(), UserParseError::UnableToValidateUser);
}

#[test]
fn later_setter_overwrites_recorded_error() {
    // the accumulator maps each field to its latest outcome
    let b = valid_builder()
        .set_username(String::from("short"))
        .set_username(String::from("long_enough"));
    assert!(b.validate().is_ok());
}

#[test]
fn error_messages() {
    assert_eq!(UserParseError::UsernameIsTooShort.message(), "Username is too short");
    assert_eq!(UserParseError::InvalidEmail.message(), "Invalid email");
    assert_eq!(
        UserParseError::DateOfBirthIsTooNear.message(),
        "You must be at least 14 to create an account"
    );
    assert_eq!(
        UserParseError::UnableToValidateUser.message(),
        "Could not validate user"
    );
    assert_eq!(
        UserParseError::FirstNameIsTooLong.message(),
        "First name exceeds maximum length 64"
    );
}

#[test]
fn configured_bounds_are_not_global_state() {
    // a builder captures its own configuration: tighter bounds reject what
    // the standard bounds accept
    let mut cfg = ValidationConfig::default();
    cfg.username_min_length = 10;
    let r = UserBuilder::new(cfg, fixed_today())
        .set_username(String::from("john_doe"))
        .set_email(String::from("johndoe@provider.com"))
        .set_password(String::from("abcdefghi"))
        .set_name(String::from("John"), String::from("Doe"))
        .set_date_of_birth(String::from("2000-01-01"))
        .validate();
    assert_eq!(r.unwrap_err(), UserParseError::UsernameIsTooShort);
}

#[test]
fn empty_image_clears_it() {
    let user = valid_builder().set_image(String::new()).validate().unwrap();
    assert_eq!(user.image(), "");
}
