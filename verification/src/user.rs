//! The user entity and its builder.
//!
//! A [`UserBuilder`] receives raw field values one at a time, in the order a
//! signup form submits them, validates each immediately, and records per
//! field either the validated value or the violation it drew. A failure on
//! one field never prevents later fields from being set. The terminal
//! [`UserBuilder::validate`] call either emits the finished immutable
//! [`User`] or aggregates the recorded violations: one violation is reported
//! as its own kind, several collapse to the umbrella kind, with the full
//! breakdown left for the caller's log sink in
//! [`UserBuilder::validation_errors`].

use vstd::prelude::*;
use vstd::string::StringExecFns;
use crate::config::{ConfigModel, ValidationConfig};
use crate::date::Date;
use crate::shared::{slot_errors_onto, FullName, Image, PoivreCard, PoivreTableRow, Slot};
use crate::user_errors::UserParseError;
use crate::validators::{
    dob_error, email_error, name_error, password_error, username_error, validate_date_of_birth,
    validate_email, validate_name, validate_password, validate_username,
};

verus! {

/// The mathematical content of a [`User`].
#[verifier::ext_equal]
pub struct UserView {
    /// The identifier the persistence layer assigned, if any.
    pub id: Option<Seq<char>>,
    /// The profile image URL, if one was supplied.
    pub image: Option<Seq<char>>,
    pub username: Seq<char>,
    pub email: Seq<char>,
    pub password: Seq<char>,
    pub first_name: Seq<char>,
    pub last_name: Seq<char>,
    pub date_of_birth: Date,
    /// Identifiers of befriended users, in order.
    pub friends: Seq<Seq<char>>,
}

/// Every field constraint a finished user satisfies, relative to the bounds
/// it was validated under.
pub open spec fn user_wf(v: UserView, m: ConfigModel) -> bool {
    &&& username_error(m, v.username) is None
    &&& email_error(v.email) is None
    &&& password_error(m, v.password) is None
    &&& name_error(m, v.first_name, v.last_name) is None
    &&& v.date_of_birth.valid()
}

/// A user account: immutable once built, and only ever built by the
/// terminal step of [`UserBuilder`], so it satisfies [`user_wf`] for the
/// builder's configuration.
#[derive(Debug)]
pub struct User {
    id: Option<String>,
    image: Image,
    username: String,
    email: String,
    password: String,
    name: FullName,
    date_of_birth: Date,
    friends: Vec<String>,
}

impl View for User {
    type V = UserView;

    closed spec fn view(&self) -> UserView {
        UserView {
            id: match self.id {
                Some(id) => Some(id@),
                None => None,
            },
            image: self.image.model(),
            username: self.username@,
            email: self.email@,
            password: self.password@,
            first_name: self.name.first_name@,
            last_name: self.name.last_name@,
            date_of_birth: self.date_of_birth,
            friends: self.friends.deep_view(),
        }
    }
}

impl Clone for User {
    /// A clone carries the same field values.
    fn clone(&self) -> (r: Self)
        ensures
            r@ == self@,
    {
        let r = User {
            id: match &self.id {
                Some(id) => Some(id.clone()),
                None => None,
            },
            image: self.image.clone(),
            username: self.username.clone(),
            email: self.email.clone(),
            password: self.password.clone(),
            name: self.name.clone(),
            date_of_birth: self.date_of_birth,
            friends: self.friends.clone(),
        };
        proof {
            assert(r.friends.deep_view() =~= self.friends.deep_view());
            assert(r@ =~= self@);
        }
        r
    }
}

impl User {
    pub fn username(&self) -> (r: String)
        ensures
            r@ == self@.username,
    {
        self.username.clone()
    }

    pub fn email(&self) -> (r: String)
        ensures
            r@ == self@.email,
    {
        self.email.clone()
    }

    pub fn name(&self) -> (r: FullName)
        ensures
            r.first_name@ == self@.first_name,
            r.last_name@ == self@.last_name,
    {
        self.name.clone()
    }

    pub fn first_name(&self) -> (r: String)
        ensures
            r@ == self@.first_name,
    {
        self.name.first_name.clone()
    }

    pub fn last_name(&self) -> (r: String)
        ensures
            r@ == self@.last_name,
    {
        self.name.last_name.clone()
    }

    /// The parsed, normalized date of birth (not the raw string the builder
    /// was fed).
    pub fn date_of_birth(&self) -> (r: Date)
        ensures
            r == self@.date_of_birth,
    {
        self.date_of_birth
    }

    pub fn friends(&self) -> (r: Vec<String>)
        ensures
            r.deep_view() == self@.friends,
    {
        let mut out: Vec<String> = Vec::new();
        let mut i: usize = 0;
        while i < self.friends.len()
            invariant
                0 <= i <= self.friends@.len(),
                out.deep_view().len() == i,
                forall|k: int|
                    0 <= k < i ==> out.deep_view()[k] == #[trigger] self.friends.deep_view()[k],
            decreases self.friends@.len() - i,
        {
            out.push(self.friends[i].clone());
            i = i + 1;
        }
        proof {
            assert(out.deep_view() =~= self@.friends);
        }
        out
    }

    /// The assigned identifier, or the empty string before persistence.
    pub fn id(&self) -> (r: String)
        ensures
            self@.id matches Some(i) ==> r@ == i,
            self@.id is None ==> r@.len() == 0,
    {
        match &self.id {
            Some(id) => id.clone(),
            None => String::new(),
        }
    }

    /// The image URL, or the empty string when no image was supplied.
    pub fn image(&self) -> (r: String)
        ensures
            self@.image matches Some(u) ==> r@ == u,
            self@.image is None ==> r@.len() == 0,
    {
        self.image.url_or_empty()
    }

    /// The same user with the identifier the persistence layer assigned.
    pub fn with_id(self, id: String) -> (r: User)
        ensures
            r@ == (UserView { id: Some(id@), ..self@ }),
    {
        let r = User { id: Some(id), ..self };
        proof {
            assert(r@ =~= (UserView { id: Some(r.id->0@), ..self@ }));
        }
        r
    }

    /// First and last name separated by one space.
    pub fn display_name(&self) -> (r: String)
        ensures
            r@ == self@.first_name + " "@ + self@.last_name,
    {
        let mut out = self.name.first_name.clone();
        out.append(" ");
        out.append(self.name.last_name.as_str());
        out
    }
}

impl PoivreCard for User {
    /// The user's description page.
    fn url(&self) -> String {
        let mut out = String::from_str("/users/");
        out.append(self.id().as_str());
        out
    }

    fn img(&self) -> String {
        self.image()
    }

    fn alt_text(&self) -> String {
        let mut out = String::from_str("image for user ");
        out.append(self.username.as_str());
        out
    }

    fn card_name(&self) -> String {
        self.display_name()
    }
}

impl PoivreTableRow for User {
    fn headers() -> Vec<String> {
        let mut out: Vec<String> = Vec::new();
        out.push(String::from_str("ID"));
        out.push(String::from_str("Image"));
        out.push(String::from_str("Username"));
        out.push(String::from_str("email"));
        out.push(String::from_str("First Name"));
        out.push(String::from_str("Last Name"));
        out.push(String::from_str("Date of Birth"));
        out
    }

    fn row_values(&self) -> Vec<String> {
        let mut out: Vec<String> = Vec::new();
        out.push(self.id());
        out.push(self.image());
        out.push(self.username());
        out.push(self.email());
        out.push(self.first_name());
        out.push(self.last_name());
        out.push(self.date_of_birth.iso_string());
        out
    }
}

/// The mathematical content of a [`UserBuilder`].
#[verifier::ext_equal]
pub struct UserBuilderModel {
    /// The bounds the builder validates against.
    pub cfg: ConfigModel,
    /// The date "now" was fixed to when the builder was made.
    pub today: Date,
    /// The image URL, if a non-empty one was supplied (never an error).
    pub image: Option<Seq<char>>,
    pub username: Slot<Seq<char>, UserParseError>,
    pub email: Slot<Seq<char>, UserParseError>,
    pub password: Slot<Seq<char>, UserParseError>,
    /// First and last name, validated together.
    pub name: Slot<(Seq<char>, Seq<char>), UserParseError>,
    /// The parsed date of birth.
    pub date_of_birth: Slot<Date, UserParseError>,
}

/// Setting the image: an empty string clears it, any other string is kept.
pub open spec fn spec_set_image(m: UserBuilderModel, raw: Seq<char>) -> UserBuilderModel {
    UserBuilderModel {
        image: if raw.len() == 0 {
            None
        } else {
            Some(raw)
        },
        ..m
    }
}

/// Setting the username: the validated value or its violation, into the
/// username slot.
pub open spec fn spec_set_username(m: UserBuilderModel, raw: Seq<char>) -> UserBuilderModel {
    match username_error(m.cfg, raw) {
        None => UserBuilderModel { username: Slot::Good(raw), ..m },
        Some(e) => UserBuilderModel { username: Slot::Bad(e), ..m },
    }
}

/// Setting the email: the validated value or its violation, into the email
/// slot.
pub open spec fn spec_set_email(m: UserBuilderModel, raw: Seq<char>) -> UserBuilderModel {
    match email_error(raw) {
        None => UserBuilderModel { email: Slot::Good(raw), ..m },
        Some(e) => UserBuilderModel { email: Slot::Bad(e), ..m },
    }
}

/// Setting the password: the validated value or its violation, into the
/// password slot.
pub open spec fn spec_set_password(m: UserBuilderModel, raw: Seq<char>) -> UserBuilderModel {
    match password_error(m.cfg, raw) {
        None => UserBuilderModel { password: Slot::Good(raw), ..m },
        Some(e) => UserBuilderModel { password: Slot::Bad(e), ..m },
    }
}

/// Setting first and last name together: the validated pair or the first
/// violation, into the name slot.
pub open spec fn spec_set_name(m: UserBuilderModel, first: Seq<char>, last: Seq<char>) -> UserBuilderModel {
    match name_error(m.cfg, first, last) {
        None => UserBuilderModel { name: Slot::Good((first, last)), ..m },
        Some(e) => UserBuilderModel { name: Slot::Bad(e), ..m },
    }
}

/// Setting the date of birth: the parsed date or the violation the string
/// drew against the builder's `today`, into the date slot.
pub open spec fn spec_set_date_of_birth(m: UserBuilderModel, raw: Seq<char>) -> UserBuilderModel {
    match dob_error(m.cfg, raw, m.today) {
        None => UserBuilderModel {
            date_of_birth: Slot::Good(crate::date::parse_iso_spec(raw)->0),
            ..m
        },
        Some(e) => UserBuilderModel { date_of_birth: Slot::Bad(e), ..m },
    }
}

/// Everything wrong at the terminal check, in field order: each required
/// slot contributes its recorded violation, or its `Empty*` kind if nothing
/// was ever supplied. The optional image contributes nothing.
pub open spec fn user_builder_errors(m: UserBuilderModel) -> Seq<UserParseError> {
    let after_username = slot_errors_onto(
        Seq::empty(),
        m.username,
        UserParseError::EmptyUsername,
    );
    let after_email = slot_errors_onto(after_username, m.email, UserParseError::EmptyEmail);
    let after_password = slot_errors_onto(after_email, m.password, UserParseError::EmptyPassword);
    let after_name = slot_errors_onto(after_password, m.name, UserParseError::EmptyFirstName);
    slot_errors_onto(after_name, m.date_of_birth, UserParseError::EmptyDateOfBirth)
}

/// The user a fully valid builder emits: every validated slot value in its
/// field, no identifier, no friends yet.
pub open spec fn built_user(m: UserBuilderModel) -> UserView
    recommends
        user_builder_errors(m).len() == 0,
{
    UserView {
        id: None,
        image: m.image,
        username: m.username->Good_0,
        email: m.email->Good_0,
        password: m.password->Good_0,
        first_name: m.name->Good_0.0,
        last_name: m.name->Good_0.1,
        date_of_birth: m.date_of_birth->Good_0,
        friends: Seq::empty(),
    }
}

/// The accumulator that turns raw signup fields into a [`User`].
#[derive(Debug)]
pub struct UserBuilder {
    config: ValidationConfig,
    today: Date,
    image: Image,
    username: Slot<String, UserParseError>,
    email: Slot<String, UserParseError>,
    password: Slot<String, UserParseError>,
    name: Slot<FullName, UserParseError>,
    date_of_birth: Slot<Date, UserParseError>,
}

/// The model of a string slot: the same shape over the string's characters.
pub open spec fn str_slot_model(s: Slot<String, UserParseError>) -> Slot<
    Seq<char>,
    UserParseError,
> {
    match s {
        Slot::Unset => Slot::Unset,
        Slot::Good(u) => Slot::Good(u@),
        Slot::Bad(e) => Slot::Bad(e),
    }
}

/// The model of the name slot: the same shape over the two name parts.
pub open spec fn name_slot_model(s: Slot<FullName, UserParseError>) -> Slot<
    (Seq<char>, Seq<char>),
    UserParseError,
> {
    match s {
        Slot::Unset => Slot::Unset,
        Slot::Good(n) => Slot::Good((n.first_name@, n.last_name@)),
        Slot::Bad(e) => Slot::Bad(e),
    }
}

impl View for UserBuilder {
    type V = UserBuilderModel;

    closed spec fn view(&self) -> UserBuilderModel {
        UserBuilderModel {
            cfg: self.config.model(),
            today: self.today,
            image: self.image.model(),
            username: str_slot_model(self.username),
            email: str_slot_model(self.email),
            password: str_slot_model(self.password),
            name: name_slot_model(self.name),
            date_of_birth: self.date_of_birth,
        }
    }
}

/// What every builder reached through [`UserBuilder::new`] and the setters
/// maintains: `today` is a valid date to measure ages against, and a slot
/// only ever holds a value its validator accepted.
pub open spec fn user_builder_wf(m: UserBuilderModel) -> bool {
    &&& m.today.valid()
    &&& m.username matches Slot::Good(u) ==> username_error(m.cfg, u) is None
    &&& m.email matches Slot::Good(u) ==> email_error(u) is None
    &&& m.password matches Slot::Good(u) ==> password_error(m.cfg, u) is None
    &&& m.name matches Slot::Good(n) ==> name_error(m.cfg, n.0, n.1) is None
    &&& m.date_of_birth matches Slot::Good(d) ==> d.valid()
}

impl UserBuilder {
    /// An empty builder: no field supplied yet, validating against `config`
    /// with ages measured from `today`.
    pub fn new(config: ValidationConfig, today: Date) -> (r: UserBuilder)
        requires
            today.valid(),
        ensures
            r@ == (UserBuilderModel {
                cfg: config.model(),
                today,
                image: None,
                username: Slot::Unset,
                email: Slot::Unset,
                password: Slot::Unset,
                name: Slot::Unset,
                date_of_birth: Slot::Unset,
            }),
            user_builder_wf(r@),
    {
        let r = UserBuilder {
            config,
            today,
            image: Image::NoImage,
            username: Slot::Unset,
            email: Slot::Unset,
            password: Slot::Unset,
            name: Slot::Unset,
            date_of_birth: Slot::Unset,
        };
        proof {
            assert(r@ =~= (UserBuilderModel {
                cfg: config.model(),
                today,
                image: None,
                username: Slot::Unset,
                email: Slot::Unset,
                password: Slot::Unset,
                name: Slot::Unset,
                date_of_birth: Slot::Unset,
            }));
        }
        r
    }

    /// Sets the profile image; an empty string clears it. Never fails.
    pub fn set_image(self, image: String) -> (r: UserBuilder)
        ensures
            r@ == spec_set_image(self@, image@),
            user_builder_wf(self@) ==> user_builder_wf(r@),
    {
        let ghost m = self@;
        let r = UserBuilder { image: Image::from_raw(image), ..self };
        proof {
            assert(r@ =~= spec_set_image(m, image@));
        }
        r
    }

    /// Validates and sets the username.
    pub fn set_username(self, username: String) -> (r: UserBuilder)
        ensures
            r@ == spec_set_username(self@, username@),
            user_builder_wf(self@) ==> user_builder_wf(r@),
    {
        let ghost m = self@;
        let ghost raw = username@;
        let slot = match validate_username(&self.config, username) {
            Ok(u) => Slot::Good(u),
            Err(e) => Slot::Bad(e),
        };
        let r = UserBuilder { username: slot, ..self };
        proof {
            assert(r@ =~= spec_set_username(m, raw));
        }
        r
    }

    /// Validates and sets the email address.
    pub fn set_email(self, email: String) -> (r: UserBuilder)
        ensures
            r@ == spec_set_email(self@, email@),
            user_builder_wf(self@) ==> user_builder_wf(r@),
    {
        let ghost m = self@;
        let ghost raw = email@;
        let slot = match validate_email(email) {
            Ok(u) => Slot::Good(u),
            Err(e) => Slot::Bad(e),
        };
        let r = UserBuilder { email: slot, ..self };
        proof {
            assert(r@ =~= spec_set_email(m, raw));
        }
        r
    }

    /// Validates and sets the password.
    pub fn set_password(self, password: String) -> (r: UserBuilder)
        ensures
            r@ == spec_set_password(self@, password@),
            user_builder_wf(self@) ==> user_builder_wf(r@),
    {
        let ghost m = self@;
        let ghost raw = password@;
        let slot = match validate_password(&self.config, password) {
            Ok(u) => Slot::Good(u),
            Err(e) => Slot::Bad(e),
        };
        let r = UserBuilder { password: slot, ..self };
        proof {
            assert(r@ =~= spec_set_password(m, raw));
        }
        r
    }

    /// Validates and sets first and last name together.
    pub fn set_name(self, first_name: String, last_name: String) -> (r: UserBuilder)
        ensures
            r@ == spec_set_name(self@, first_name@, last_name@),
            user_builder_wf(self@) ==> user_builder_wf(r@),
    {
        let ghost m = self@;
        let ghost first = first_name@;
        let ghost last = last_name@;
        let slot = match validate_name(&self.config, first_name, last_name) {
            Ok(n) => Slot::Good(n),
            Err(e) => Slot::Bad(e),
        };
        let r = UserBuilder { name: slot, ..self };
        proof {
            assert(r@ =~= spec_set_name(m, first, last));
        }
        r
    }

    /// Parses and validates the date of birth against the builder's
    /// `today`.
    pub fn set_date_of_birth(self, date_of_birth: String) -> (r: UserBuilder)
        requires
            user_builder_wf(self@),
        ensures
            r@ == spec_set_date_of_birth(self@, date_of_birth@),
            user_builder_wf(r@),
    {
        let ghost m = self@;
        let ghost raw = date_of_birth@;
        let slot = match validate_date_of_birth(
            &self.config,
            date_of_birth.as_str(),
            self.today,
        ) {
            Ok(d) => Slot::Good(d),
            Err(e) => Slot::Bad(e),
        };
        let r = UserBuilder { date_of_birth: slot, ..self };
        proof {
            assert(r@ =~= spec_set_date_of_birth(m, raw));
        }
        r
    }

    /// The full per-field breakdown the terminal check would report, for the
    /// caller's log sink; see [`user_builder_errors`].
    pub fn validation_errors(&self) -> (r: Vec<UserParseError>)
        ensures
            r@ == user_builder_errors(self@),
    {
        let ghost m = self@;
        let mut out: Vec<UserParseError> = Vec::new();
        match &self.username {
            Slot::Unset => out.push(UserParseError::EmptyUsername),
            Slot::Good(_) => (),
            Slot::Bad(e) => out.push(*e),
        }
        assert(out@ == slot_errors_onto(
            Seq::<UserParseError>::empty(),
            m.username,
            UserParseError::EmptyUsername,
        ));
        let ghost after_username = out@;
        match &self.email {
            Slot::Unset => out.push(UserParseError::EmptyEmail),
            Slot::Good(_) => (),
            Slot::Bad(e) => out.push(*e),
        }
        assert(out@ == slot_errors_onto(after_username, m.email, UserParseError::EmptyEmail));
        let ghost after_email = out@;
        match &self.password {
            Slot::Unset => out.push(UserParseError::EmptyPassword),
            Slot::Good(_) => (),
            Slot::Bad(e) => out.push(*e),
        }
        assert(out@ == slot_errors_onto(after_email, m.password, UserParseError::EmptyPassword));
        let ghost after_password = out@;
        match &self.name {
            Slot::Unset => out.push(UserParseError::EmptyFirstName),
            Slot::Good(_) => (),
            Slot::Bad(e) => out.push(*e),
        }
        assert(out@ == slot_errors_onto(after_password, m.name, UserParseError::EmptyFirstName));
        let ghost after_name = out@;
        match &self.date_of_birth {
            Slot::Unset => out.push(UserParseError::EmptyDateOfBirth),
            Slot::Good(_) => (),
            Slot::Bad(e) => out.push(*e),
        }
        assert(out@ == slot_errors_onto(
            after_name,
            m.date_of_birth,
            UserParseError::EmptyDateOfBirth,
        ));
        out
    }

    /// The terminal step: emits the finished user when no violation was
    /// recorded and every required field was supplied; otherwise reports the
    /// single violation as its own kind, or several as the umbrella kind.
    pub fn validate(&self) -> (r: Result<User, UserParseError>)
        requires
            user_builder_wf(self@),
        ensures
            r is Ok ==> user_wf(r->Ok_0@, self@.cfg),
            r is Ok <==> user_builder_errors(self@).len() == 0,
            r is Ok ==> r->Ok_0@ == built_user(self@),
            user_builder_errors(self@).len() == 1 ==> r == Err::<User, UserParseError>(
                user_builder_errors(self@)[0],
            ),
            user_builder_errors(self@).len() > 1 ==> r == Err::<User, UserParseError>(
                UserParseError::UnableToValidateUser,
            ),
    {
        let errors = self.validation_errors();
        if errors.len() == 0 {
            match (&self.username, &self.email, &self.password, &self.name, &self.date_of_birth) {
                (
                    Slot::Good(username),
                    Slot::Good(email),
                    Slot::Good(password),
                    Slot::Good(name),
                    Slot::Good(date_of_birth),
                ) => {
                    let user = User {
                        id: None,
                        image: self.image.clone(),
                        username: username.clone(),
                        email: email.clone(),
                        password: password.clone(),
                        name: name.clone(),
                        date_of_birth: *date_of_birth,
                        friends: Vec::new(),
                    };
                    proof {
                        assert(user@ =~= built_user(self@));
                    }
                    Ok(user)
                },
                _ => {
                    proof {
                        assert(user_builder_errors(self@).len() > 0);
                        assert(false);
                    }
                    Err(UserParseError::UnableToValidateUser)
                },
            }
        } else if errors.len() == 1 {
            Err(errors[0])
        } else {
            Err(UserParseError::UnableToValidateUser)
        }
    }
}

/// The model a full signup submission leaves behind: every field set once,
/// in form order, on a fresh builder.
pub open spec fn signup_model(
    cfg: ConfigModel,
    today: Date,
    image: Seq<char>,
    username: Seq<char>,
    email: Seq<char>,
    password: Seq<char>,
    first_name: Seq<char>,
    last_name: Seq<char>,
    date_of_birth: Seq<char>,
) -> UserBuilderModel {
    let m0 = UserBuilderModel {
        cfg,
        today,
        image: None,
        username: Slot::Unset,
        email: Slot::Unset,
        password: Slot::Unset,
        name: Slot::Unset,
        date_of_birth: Slot::Unset,
    };
    spec_set_date_of_birth(
        spec_set_name(
            spec_set_password(
                spec_set_email(
                    spec_set_username(spec_set_image(m0, image), username),
                    email,
                ),
                password,
            ),
            first_name,
            last_name,
        ),
        date_of_birth,
    )
}

/// Validates one whole signup submission at once: every field through its
/// validator on a fresh builder, then the terminal check, with the same
/// aggregation as [`UserBuilder::validate`].
pub fn build_user(
    config: ValidationConfig,
    today: Date,
    image: String,
    username: String,
    email: String,
    password: String,
    first_name: String,
    last_name: String,
    date_of_birth: String,
) -> (r: Result<User, UserParseError>)
    requires
        today.valid(),
    ensures
        ({
            let m = signup_model(
                config.model(),
                today,
                image@,
                username@,
                email@,
                password@,
                first_name@,
                last_name@,
                date_of_birth@,
            );
            &&& r is Ok <==> user_builder_errors(m).len() == 0
            &&& r is Ok ==> r->Ok_0@ == built_user(m) && user_wf(r->Ok_0@, config.model())
            &&& user_builder_errors(m).len() == 1 ==> r == Err::<User, UserParseError>(
                user_builder_errors(m)[0],
            )
            &&& user_builder_errors(m).len() > 1 ==> r == Err::<User, UserParseError>(
                UserParseError::UnableToValidateUser,
            )
        }),
{
    UserBuilder::new(config, today)
        .set_image(image)
        .set_username(username)
        .set_email(email)
        .set_password(password)
        .set_name(first_name, last_name)
        .set_date_of_birth(date_of_birth)
        .validate()
}

/// The round trip: a builder whose every required slot holds a validated
/// value passes the terminal check, and the user it emits returns exactly
/// those validated values (the parsed date, not the raw string) through its
/// accessors — together with the accessors' own contracts, which return the
/// view fields unchanged.
pub proof fn lemma_user_round_trip(m: UserBuilderModel)
    requires
        m.username is Good,
        m.email is Good,
        m.password is Good,
        m.name is Good,
        m.date_of_birth is Good,
    ensures
        user_builder_errors(m).len() == 0,
        built_user(m).username == m.username->Good_0,
        built_user(m).email == m.email->Good_0,
        built_user(m).password == m.password->Good_0,
        built_user(m).first_name == m.name->Good_0.0,
        built_user(m).last_name == m.name->Good_0.1,
        built_user(m).date_of_birth == m.date_of_birth->Good_0,
        built_user(m).image == m.image,
        built_user(m).id is None,
        built_user(m).friends == Seq::<Seq<char>>::empty(),
{
}

/// Idempotence: calling the same setter twice with the same input leaves
/// the builder exactly where one call leaves it, for every setter and every
/// input (a recorded violation is likewise just overwritten with itself).
pub proof fn lemma_user_setters_idempotent(
    m: UserBuilderModel,
    raw: Seq<char>,
    first: Seq<char>,
    last: Seq<char>,
)
    ensures
        spec_set_image(spec_set_image(m, raw), raw) == spec_set_image(m, raw),
        spec_set_username(spec_set_username(m, raw), raw) == spec_set_username(m, raw),
        spec_set_email(spec_set_email(m, raw), raw) == spec_set_email(m, raw),
        spec_set_password(spec_set_password(m, raw), raw) == spec_set_password(m, raw),
        spec_set_name(spec_set_name(m, first, last), first, last) == spec_set_name(m, first, last),
        spec_set_date_of_birth(spec_set_date_of_birth(m, raw), raw) == spec_set_date_of_birth(
            m,
            raw,
        ),
{
    assert(spec_set_image(spec_set_image(m, raw), raw) =~= spec_set_image(m, raw));
    assert(spec_set_username(spec_set_username(m, raw), raw) =~= spec_set_username(m, raw));
    assert(spec_set_email(spec_set_email(m, raw), raw) =~= spec_set_email(m, raw));
    assert(spec_set_password(spec_set_password(m, raw), raw) =~= spec_set_password(m, raw));
    assert(spec_set_name(spec_set_name(m, first, last), first, last) =~= spec_set_name(
        m,
        first,
        last,
    ));
    assert(spec_set_date_of_birth(spec_set_date_of_birth(m, raw), raw) =~= spec_set_date_of_birth(
        m,
        raw,
    ));
}

} // verus!
