use poivre::category::Category;
use poivre::item::ItemBuilder;
use poivre::item_errors::ItemParseError;
use poivre::shared::{Image, ItemName};

fn valid_builder() -> ItemBuilder {
    ItemBuilder::empty()
        .set_image(String::from("some/url"))
        .set_name(String::from("Apple"))
        .set_category(String::from("Ingredient"))
        .set_description(String::from("A sweet fruit, usually red."))
        .set_descriptors(vec![
            String::from("fruit"),
            String::from("sweet"),
            String::from("aromatic"),
        ])
        .set_cuisines(vec![String::from("italian")])
}

#[test]
fn accepts_fully_valid_item() {
    let item = valid_builder().validate().expect("all fields are valid");
    assert_eq!(item.name(), "Apple");
    assert_eq!(item.category_value(), Category::Ingredient);
    assert_eq!(item.category(), "Ingredient");
    assert_eq!(item.description(), "A sweet fruit, usually red.");
    assert_eq!(item.descriptor_list(), vec!["fruit", "sweet", "aromatic"]);
    assert_eq!(item.descriptors(), "fruit, sweet, aromatic");
    assert_eq!(item.cuisine_list(), vec!["italian"]);
    assert_eq!(item.associated_cuisines(), "italian");
    assert_eq!(item.image(), "some/url");
    assert_eq!(item.id(), "");
}

#[test]
fn single_name_label() {
    // raw text "Apple" derives the single-name label "Apple"
    let label = ItemName::from_raw("Apple");
    assert_eq!(label, ItemName::SingleName(String::from("Apple")));
}

#[test]
fn multiple_name_label() {
    // raw text "Apple, Fruit Salad" derives the multiple-name label with
    // two ordered entries
    let label = ItemName::from_raw("Apple, Fruit Salad");
    assert_eq!(
        label,
        ItemName::MultipleName(vec![String::from("Apple"), String::from("Fruit Salad")])
    );
}

#[test]
fn label_trimming_and_empty_pieces() {
    let label = ItemName::from_raw("  Apple , Banana  ");
    assert_eq!(
        label,
        ItemName::MultipleName(vec![String::from("Apple"), String::from("Banana")])
    );
    // empty pieces between commas are kept in order
    let label = ItemName::from_raw("a,,b");
    assert_eq!(
        label,
        ItemName::MultipleName(vec![
            String::from("a"),
            String::new(),
            String::from("b"),
        ])
    );
}

#[test]
fn category_parsing_is_case_insensitive() {
    // "Ingredient", "ingredient" and "INGREDIENT" all parse to the same
    // category; "snack" fails
    let a = Category::parse("Ingredient").unwrap();
    let b = Category::parse("ingredient").unwrap();
    let c = Category::parse("INGREDIENT").unwrap();
    assert_eq!(a, b);
    assert_eq!(b, c);
    assert_eq!(a, Category::Ingredient);
    assert!(Category::parse("snack").is_err());
    assert_eq!(Category::parse("Dish").unwrap(), Category::Dish);
    assert_eq!(Category::parse("BEVERAGE").unwrap(), Category::Beverage);
}

#[test]
fn unknown_category_is_a_validation_failure() {
    // unrecognized text fails, it is not silently defaulted
    let r = valid_builder().set_category(String::from("snack")).validate();
    assert_eq!(r.unwrap_err(), ItemParseError::InvalidCategory);
}

#[test]
fn empty_item_fields() {
    let r = valid_builder().set_name(String::from("   ")).validate();
    assert_eq!(r.unwrap_err(), ItemParseError::EmptyItemName);
    let r = valid_builder().set_category(String::new()).validate();
    assert_eq!(r.unwrap_err(), ItemParseError::EmptyItemCategory);
    let r = valid_builder().set_description(String::new()).validate();
    assert_eq!(r.unwrap_err(), ItemParseError::EmptyItemDescription);
    let r = valid_builder().set_descriptors(Vec::new()).validate();
    assert_eq!(r.unwrap_err(), ItemParseError::UnableToValidateItem);
}

#[test]
fn cuisines_may_be_empty() {
    let item = valid_builder().set_cuisines(Vec::new()).validate().unwrap();
    assert_eq!(item.cuisine_list(), Vec::<String>::new());
    assert_eq!(item.associated_cuisines(), "");
}

#[test]
fn item_multi_error_collapses_to_umbrella_kind() {
    let b = valid_builder()
        .set_name(String::new())
        .set_category(String::from("snack"));
    assert_eq!(
        b.validation_errors(),
        vec![ItemParseError::EmptyItemName, ItemParseError::InvalidCategory]
    );
    assert_eq!(b.validate().unwrap_err(), ItemParseError::UnableToValidateItem);
}

#[test]
fn item_setters_idempotent() {
    let once = valid_builder().validate().unwrap();
    let twice = valid_builder()
        .set_name(String::from("Apple"))
        .set_category(String::from("Ingredient"))
        .validate()
        .unwrap();
    assert_eq!(once.name(), twice.name());
    assert_eq!(once.category_value(), twice.category_value());
}

#[test]
fn builder_from_typed_values() {
    // the pre-loaded constructor applies the same checks as the setters
    let item = ItemBuilder::new(
        ItemName::SingleName(String::from("Banana")),
        Image::HasImage(String::from("some/url")),
        Category::Ingredient,
        String::from("A sweet fruit, yellow, with a thick peel."),
        vec![String::from("fruit"), String::from("sweet")],
        Vec::new(),
    )
    .validate()
    .unwrap();
    assert_eq!(item.name(), "Banana");
    let bad = ItemBuilder::new(
        ItemName::SingleName(String::new()),
        Image::NoImage,
        Category::Dish,
        String::from("something"),
        vec![String::from("tag")],
        Vec::new(),
    )
    .validate();
    assert_eq!(bad.unwrap_err(), ItemParseError::EmptyItemName);
}

#[test]
fn multiple_names_display_joined() {
    let item = valid_builder()
        .set_name(String::from("Apple, Fruit Salad"))
        .validate()
        .unwrap();
    assert_eq!(item.name(), "Apple, Fruit Salad");
    assert_eq!(
        item.label(),
        ItemName::MultipleName(vec![String::from("Apple"), String::from("Fruit Salad")])
    );
}

#[test]
fn item_error_messages() {
    assert_eq!(
        ItemParseError::InvalidCategory.message(),
        "The supplied category is invalid"
    );
    assert_eq!(ItemParseError::EmptyItemName.message(), "Item name cannot be empty");
    assert_eq!(
        ItemParseError::UnableToValidateItem.message(),
        "Could not validate item"
    );
}
