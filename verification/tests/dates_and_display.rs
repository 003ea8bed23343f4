use poivre::config::ValidationConfig;
use poivre::date::{today, Date};
use poivre::item::ItemBuilder;
use poivre::shared::{AttendeeStatus, FullName, Image, PoivreCard, PoivreTableRow};
use poivre::user::{build_user, User, UserBuilder};
use poivre::user_errors::UserParseError;

fn sample_user() -> User {
    build_user(
        ValidationConfig::default(),
        Date::new(2013, 12, 28).unwrap(),
        String::from("some/url.png"),
        String::from("john_doe"),
        String::from("johndoe@provider.com"),
        String::from("abcdefghi"),
        String::from("John"),
        String::from("Doe"),
        String::from("2000-01-01"),
    )
    .unwrap()
}

#[test]
fn calendar_dates_validate() {
    assert!(Date::new(2024, 2, 29).is_some());
    assert!(Date::new(2023, 2, 29).is_none());
    assert!(Date::new(1900, 2, 29).is_none(), "1900 is no leap year");
    assert!(Date::new(2000, 2, 29).is_some(), "2000 is a leap year");
    assert!(Date::new(2023, 4, 31).is_none());
    assert!(Date::new(2023, 0, 1).is_none());
    assert!(Date::new(0, 1, 1).is_none());
    assert!(Date::new(10000, 1, 1).is_none());
}

#[test]
fn day_index_counts_days() {
    let first = Date::new(1, 1, 1).unwrap();
    assert_eq!(first.day_index(), 0);
    let a = Date::new(2000, 1, 1).unwrap();
    let b = Date::new(2013, 12, 28).unwrap();
    assert_eq!(b.day_index() - a.day_index(), 5110);
    let c = Date::new(2000, 3, 1).unwrap();
    assert_eq!(c.day_index() - a.day_index(), 60, "a leap February lies between");
}

#[test]
fn day_index_extremes() {
    let last = Date::new(9999, 12, 31).unwrap();
    assert_eq!(last.day_index(), 3652058);
}

#[test]
fn full_name_accessor() {
    let user = sample_user();
    let name = user.name();
    assert_eq!(name.first_name, "John");
    assert_eq!(name.last_name, "Doe");
    assert_eq!(user.card_name(), "John Doe");
}

#[test]
fn iso_string_round_trips() {
    let d = Date::new(2001, 9, 11).unwrap();
    assert_eq!(d.iso_string(), "2001-09-11");
    let d = Date::new(950, 1, 5).unwrap();
    assert_eq!(d.iso_string(), "0950-01-05");
}

#[test]
fn clock_today_is_a_plausible_date() {
    // the one call that depends on the environment: whatever the clock
    // says, it comes back as a valid calendar date
    let d = today().expect("the clock gives a four-digit year");
    assert!(d.year >= 2020);
    assert!((1..=12).contains(&d.month));
    assert!((1..=31).contains(&d.day));
    // and a builder accepts it as a reference point: the date of birth
    // passes, only the four never-set fields are reported
    let b = UserBuilder::new(ValidationConfig::default(), d)
        .set_date_of_birth(String::from("1990-06-15"));
    assert_eq!(b.validation_errors().len(), 4);
}

#[test]
fn full_name_is_empty() {
    let empty = FullName { first_name: String::new(), last_name: String::new() };
    assert!(empty.is_empty());
    let half = FullName { first_name: String::from("John"), last_name: String::new() };
    assert!(!half.is_empty());
}

#[test]
fn image_construction_rule() {
    assert_eq!(Image::from_raw(String::new()), Image::NoImage);
    assert_eq!(
        Image::from_raw(String::from("x.png")),
        Image::HasImage(String::from("x.png"))
    );
    assert_eq!(Image::default(), Image::NoImage);
}

#[test]
fn attendee_status_defaults_to_pending() {
    assert_eq!(AttendeeStatus::default(), AttendeeStatus::Pending);
}

#[test]
fn user_display_surface() {
    let user = sample_user().with_id(String::from("00000000"));
    assert_eq!(user.id(), "00000000");
    assert_eq!(user.url(), "/users/00000000");
    assert_eq!(user.img(), "some/url.png");
    assert_eq!(user.card_name(), "John Doe");
    assert_eq!(user.alt_text(), "image for user john_doe");
    let headers = <User as PoivreTableRow>::headers();
    assert_eq!(headers.len(), 7);
    assert_eq!(headers[0], "ID");
    let row = user.row_values();
    assert_eq!(
        row,
        vec![
            "00000000",
            "some/url.png",
            "john_doe",
            "johndoe@provider.com",
            "John",
            "Doe",
            "2000-01-01",
        ]
    );
}

#[test]
fn item_display_surface() {
    let item = ItemBuilder::empty()
        .set_name(String::from("Pizza"))
        .set_category(String::from("dish"))
        .set_description(String::from("Flat disk of dough."))
        .set_descriptors(vec![String::from("bread"), String::from("savory")])
        .set_cuisines(vec![String::from("italian"), String::from("fast-food")])
        .validate()
        .unwrap()
        .with_id(String::from("0000000002"));
    assert_eq!(item.url(), "/items/0000000002");
    assert_eq!(item.alt_text(), "image for the item Pizza");
    assert_eq!(item.card_name(), "Pizza");
    assert_eq!(item.img(), "");
    let row = item.row_values();
    assert_eq!(
        row,
        vec![
            "0000000002",
            "",
            "Pizza",
            "Dish",
            "Flat disk of dough.",
            "bread, savory",
            "italian, fast-food",
        ]
    );
}

#[test]
fn build_user_reports_single_error_exactly() {
    let r = build_user(
        ValidationConfig::default(),
        Date::new(2013, 12, 28).unwrap(),
        String::new(),
        String::from("short"),
        String::from("johndoe@provider.com"),
        String::from("abcdefghi"),
        String::from("John"),
        String::from("Doe"),
        String::from("2000-01-01"),
    );
    assert_eq!(r.unwrap_err(), UserParseError::UsernameIsTooShort);
}

#[test]
fn cloned_user_keeps_fields() {
    let user = sample_user();
    let copy = user.clone();
    assert_eq!(copy.username(), user.username());
    assert_eq!(copy.email(), user.email());
    assert_eq!(copy.date_of_birth(), user.date_of_birth());
}
