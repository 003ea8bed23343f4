//! The item entity and its builder.
//!
//! An [`ItemBuilder`] mirrors the user builder for catalog items: each raw
//! field is validated the moment it is supplied, violations are recorded per
//! field without stopping later fields, and the terminal
//! [`ItemBuilder::validate`] call either emits the finished immutable
//! [`Item`] or aggregates the recorded violations, collapsing several into
//! the umbrella kind.

use vstd::prelude::*;
use vstd::string::StringExecFns;
use crate::category::Category;
use crate::item_errors::ItemParseError;
use crate::shared::{
    label_display, slot_errors_onto, Image, ItemName, LabelModel, PoivreCard, PoivreTableRow, Slot,
};
use crate::text::{join_comma_space, joined};

verus! {

/// The mathematical content of an [`Item`].
#[verifier::ext_equal]
pub struct ItemView {
    /// The identifier the persistence layer assigned, if any.
    pub id: Option<Seq<char>>,
    /// The image URL, if one was supplied.
    pub image: Option<Seq<char>>,
    pub name: LabelModel,
    pub category: Category,
    pub description: Seq<char>,
    /// Free-text descriptor tags, in order; never empty for a finished item.
    pub descriptors: Seq<Seq<char>>,
    /// Cuisines the item belongs to, in order; may be empty.
    pub associated_cuisines: Seq<Seq<char>>,
}

/// Every field constraint a finished item satisfies.
pub open spec fn item_wf(v: ItemView) -> bool {
    &&& label_display(v.name).len() > 0
    &&& v.description.len() > 0
    &&& v.descriptors.len() > 0
}

/// A catalog item: immutable once built, and only ever built by the
/// terminal step of [`ItemBuilder`], so it satisfies [`item_wf`].
#[derive(Debug)]
pub struct Item {
    id: Option<String>,
    image: Image,
    name: ItemName,
    category: Category,
    description: String,
    descriptors: Vec<String>,
    associated_cuisines: Vec<String>,
}

impl View for Item {
    type V = ItemView;

    closed spec fn view(&self) -> ItemView {
        ItemView {
            id: match self.id {
                Some(id) => Some(id@),
                None => None,
            },
            image: self.image.model(),
            name: self.name.model(),
            category: self.category,
            description: self.description@,
            descriptors: self.descriptors.deep_view(),
            associated_cuisines: self.associated_cuisines.deep_view(),
        }
    }
}

impl Clone for Item {
    /// A clone carries the same field values.
    fn clone(&self) -> (r: Self)
        ensures
            r@ == self@,
    {
        let r = Item {
            id: match &self.id {
                Some(id) => Some(id.clone()),
                None => None,
            },
            image: self.image.clone(),
            name: self.name.clone(),
            category: self.category,
            description: self.description.clone(),
            descriptors: self.descriptors.clone(),
            associated_cuisines: self.associated_cuisines.clone(),
        };
        proof {
            assert(r.descriptors.deep_view() =~= self.descriptors.deep_view());
            assert(r.associated_cuisines.deep_view() =~= self.associated_cuisines.deep_view());
            assert(r@ =~= self@);
        }
        r
    }
}

/// Clones a vector of strings, keeping every element's characters.
fn clone_string_vec(v: &Vec<String>) -> (r: Vec<String>)
    ensures
        r.deep_view() == v.deep_view(),
{
    let r = v.clone();
    proof {
        assert(r.deep_view() =~= v.deep_view());
    }
    r
}

impl Item {
    /// The assigned identifier, or the empty string before persistence.
    pub fn id(&self) -> (r: String)
        ensures
            self@.id matches Some(i) ==> r@ == i,
            self@.id is None ==> r@.len() == 0,
    {
        match &self.id {
            Some(id) => id.clone(),
            None => String::new(),
        }
    }

    /// The image URL, or the empty string when no image was supplied.
    pub fn image(&self) -> (r: String)
        ensures
            self@.image matches Some(u) ==> r@ == u,
            self@.image is None ==> r@.len() == 0,
    {
        self.image.url_or_empty()
    }

    /// The validated label.
    pub fn label(&self) -> (r: ItemName)
        ensures
            r.model() == self@.name,
    {
        self.name.clone()
    }

    /// The name for display: a single name as itself, several names joined
    /// by comma and space.
    pub fn name(&self) -> (r: String)
        ensures
            r@ == label_display(self@.name),
    {
        self.name.display()
    }

    /// The validated category.
    pub fn category_value(&self) -> (r: Category)
        ensures
            r == self@.category,
    {
        self.category
    }

    /// The category's display label.
    pub fn category(&self) -> (r: String)
        ensures
            r@ == self@.category.name_spec(),
    {
        self.category.name()
    }

    pub fn description(&self) -> (r: String)
        ensures
            r@ == self@.description,
    {
        self.description.clone()
    }

    /// The validated descriptor tags.
    pub fn descriptor_list(&self) -> (r: Vec<String>)
        ensures
            r.deep_view() == self@.descriptors,
    {
        clone_string_vec(&self.descriptors)
    }

    /// The descriptor tags joined by comma and space, for display.
    pub fn descriptors(&self) -> (r: String)
        ensures
            r@ == joined(self@.descriptors, ", "@),
    {
        join_comma_space(&self.descriptors)
    }

    /// The validated cuisine names.
    pub fn cuisine_list(&self) -> (r: Vec<String>)
        ensures
            r.deep_view() == self@.associated_cuisines,
    {
        clone_string_vec(&self.associated_cuisines)
    }

    /// The cuisine names joined by comma and space, for display.
    pub fn associated_cuisines(&self) -> (r: String)
        ensures
            r@ == joined(self@.associated_cuisines, ", "@),
    {
        join_comma_space(&self.associated_cuisines)
    }

    /// The same item with the identifier the persistence layer assigned.
    pub fn with_id(self, id: String) -> (r: Item)
        ensures
            r@ == (ItemView { id: Some(id@), ..self@ }),
    {
        let r = Item { id: Some(id), ..self };
        proof {
            assert(r@ =~= (ItemView { id: Some(r.id->0@), ..self@ }));
        }
        r
    }
}

impl PoivreCard for Item {
    /// The item's description page.
    fn url(&self) -> String {
        let mut out = String::from_str("/items/");
        out.append(self.id().as_str());
        out
    }

    fn img(&self) -> String {
        self.image()
    }

    fn alt_text(&self) -> String {
        let mut out = String::from_str("image for the item ");
        out.append(self.name().as_str());
        out
    }

    fn card_name(&self) -> String {
        self.name()
    }
}

impl PoivreTableRow for Item {
    fn headers() -> Vec<String> {
        let mut out: Vec<String> = Vec::new();
        out.push(String::from_str("ID"));
        out.push(String::from_str("Image"));
        out.push(String::from_str("Name"));
        out.push(String::from_str("Category"));
        out.push(String::from_str("Description"));
        out.push(String::from_str("Descriptors"));
        out.push(String::from_str("Associated Cuisines"));
        out
    }

    fn row_values(&self) -> Vec<String> {
        let mut out: Vec<String> = Vec::new();
        out.push(self.id());
        out.push(self.image());
        out.push(self.name());
        out.push(self.category());
        out.push(self.description());
        out.push(self.descriptors());
        out.push(self.associated_cuisines());
        out
    }
}

/// The mathematical content of an [`ItemBuilder`].
#[verifier::ext_equal]
pub struct ItemBuilderModel {
    /// The image URL, if a non-empty one was supplied (never an error).
    pub image: Option<Seq<char>>,
    pub name: Slot<LabelModel, ItemParseError>,
    pub category: Slot<Category, ItemParseError>,
    pub description: Slot<Seq<char>, ItemParseError>,
    pub descriptors: Slot<Seq<Seq<char>>, ItemParseError>,
    /// Cuisines may be empty, so they are stored unchecked.
    pub associated_cuisines: Seq<Seq<char>>,
}

/// Setting the image: an empty string clears it, any other string is kept.
pub open spec fn spec_item_set_image(m: ItemBuilderModel, raw: Seq<char>) -> ItemBuilderModel {
    ItemBuilderModel {
        image: if raw.len() == 0 {
            None
        } else {
            Some(raw)
        },
        ..m
    }
}

/// The name slot a raw label text yields: the derived label, unless its
/// display form is empty (nothing but whitespace and commas was supplied).
pub open spec fn name_slot_of(raw: Seq<char>) -> Slot<LabelModel, ItemParseError> {
    let l = ItemName::label_of(raw);
    if label_display(l).len() == 0 {
        Slot::Bad(ItemParseError::EmptyItemName)
    } else {
        Slot::Good(l)
    }
}

/// Setting the name: the derived label or its violation, into the name
/// slot.
pub open spec fn spec_item_set_name(m: ItemBuilderModel, raw: Seq<char>) -> ItemBuilderModel {
    ItemBuilderModel { name: name_slot_of(raw), ..m }
}

/// The category slot a raw text yields: empty text, an unknown category, or
/// the parsed value.
pub open spec fn category_slot_of(raw: Seq<char>) -> Slot<Category, ItemParseError> {
    if raw.len() == 0 {
        Slot::Bad(ItemParseError::EmptyItemCategory)
    } else {
        match crate::category::category_of(raw) {
            Some(c) => Slot::Good(c),
            None => Slot::Bad(ItemParseError::InvalidCategory),
        }
    }
}

/// Setting the category; see [`category_slot_of`].
pub open spec fn spec_item_set_category(m: ItemBuilderModel, raw: Seq<char>) -> ItemBuilderModel {
    ItemBuilderModel { category: category_slot_of(raw), ..m }
}

/// The description slot: empty text is the violation, anything else is
/// kept.
pub open spec fn description_slot_of(raw: Seq<char>) -> Slot<Seq<char>, ItemParseError> {
    if raw.len() == 0 {
        Slot::Bad(ItemParseError::EmptyItemDescription)
    } else {
        Slot::Good(raw)
    }
}

/// Setting the description; see [`description_slot_of`].
pub open spec fn spec_item_set_description(m: ItemBuilderModel, raw: Seq<char>) -> ItemBuilderModel {
    ItemBuilderModel { description: description_slot_of(raw), ..m }
}

/// The descriptors slot: the tag set must not be empty; since the closed
/// taxonomy has no kind of its own for it, an empty set records the
/// umbrella kind.
pub open spec fn descriptors_slot_of(tags: Seq<Seq<char>>) -> Slot<Seq<Seq<char>>, ItemParseError> {
    if tags.len() == 0 {
        Slot::Bad(ItemParseError::UnableToValidateItem)
    } else {
        Slot::Good(tags)
    }
}

/// Setting the descriptors; see [`descriptors_slot_of`].
pub open spec fn spec_item_set_descriptors(m: ItemBuilderModel, tags: Seq<Seq<char>>) -> ItemBuilderModel {
    ItemBuilderModel { descriptors: descriptors_slot_of(tags), ..m }
}

/// Setting the cuisines: stored as supplied, the set may be empty.
pub open spec fn spec_item_set_cuisines(m: ItemBuilderModel, cuisines: Seq<Seq<char>>) -> ItemBuilderModel {
    ItemBuilderModel { associated_cuisines: cuisines, ..m }
}

/// Everything wrong at the terminal check, in field order.
pub open spec fn item_builder_errors(m: ItemBuilderModel) -> Seq<ItemParseError> {
    let after_name = slot_errors_onto(Seq::empty(), m.name, ItemParseError::EmptyItemName);
    let after_category = slot_errors_onto(after_name, m.category, ItemParseError::EmptyItemCategory);
    let after_description = slot_errors_onto(
        after_category,
        m.description,
        ItemParseError::EmptyItemDescription,
    );
    slot_errors_onto(after_description, m.descriptors, ItemParseError::UnableToValidateItem)
}

/// The item a fully valid builder emits.
pub open spec fn built_item(m: ItemBuilderModel) -> ItemView
    recommends
        item_builder_errors(m).len() == 0,
{
    ItemView {
        id: None,
        image: m.image,
        name: m.name->Good_0,
        category: m.category->Good_0,
        description: m.description->Good_0,
        descriptors: m.descriptors->Good_0,
        associated_cuisines: m.associated_cuisines,
    }
}

/// What every builder reached through the constructors and setters
/// maintains: a slot only ever holds a value its check accepted.
pub open spec fn item_builder_wf(m: ItemBuilderModel) -> bool {
    &&& m.name matches Slot::Good(l) ==> label_display(l).len() > 0
    &&& m.description matches Slot::Good(d) ==> d.len() > 0
    &&& m.descriptors matches Slot::Good(t) ==> t.len() > 0
}

/// The accumulator that turns raw item fields into an [`Item`].
#[derive(Debug)]
pub struct ItemBuilder {
    image: Image,
    name: Slot<ItemName, ItemParseError>,
    category: Slot<Category, ItemParseError>,
    description: Slot<String, ItemParseError>,
    descriptors: Slot<Vec<String>, ItemParseError>,
    associated_cuisines: Vec<String>,
}

/// The model of the name slot.
pub open spec fn label_slot_model(s: Slot<ItemName, ItemParseError>) -> Slot<
    LabelModel,
    ItemParseError,
> {
    match s {
        Slot::Unset => Slot::Unset,
        Slot::Good(n) => Slot::Good(n.model()),
        Slot::Bad(e) => Slot::Bad(e),
    }
}

/// The model of the description slot.
pub open spec fn text_slot_model(s: Slot<String, ItemParseError>) -> Slot<
    Seq<char>,
    ItemParseError,
> {
    match s {
        Slot::Unset => Slot::Unset,
        Slot::Good(d) => Slot::Good(d@),
        Slot::Bad(e) => Slot::Bad(e),
    }
}

/// The model of the descriptors slot.
pub open spec fn tags_slot_model(s: Slot<Vec<String>, ItemParseError>) -> Slot<
    Seq<Seq<char>>,
    ItemParseError,
> {
    match s {
        Slot::Unset => Slot::Unset,
        Slot::Good(t) => Slot::Good(t.deep_view()),
        Slot::Bad(e) => Slot::Bad(e),
    }
}

impl View for ItemBuilder {
    type V = ItemBuilderModel;

    closed spec fn view(&self) -> ItemBuilderModel {
        ItemBuilderModel {
            image: self.image.model(),
            name: label_slot_model(self.name),
            category: self.category,
            description: text_slot_model(self.description),
            descriptors: tags_slot_model(self.descriptors),
            associated_cuisines: self.associated_cuisines.deep_view(),
        }
    }
}

impl ItemBuilder {
    /// An empty builder: no field supplied yet.
    pub fn empty() -> (r: ItemBuilder)
        ensures
            r@ == (ItemBuilderModel {
                image: None,
                name: Slot::Unset,
                category: Slot::Unset,
                description: Slot::Unset,
                descriptors: Slot::Unset,
                associated_cuisines: Seq::empty(),
            }),
            item_builder_wf(r@),
    {
        let r = ItemBuilder {
            image: Image::NoImage,
            name: Slot::Unset,
            category: Slot::Unset,
            description: Slot::Unset,
            descriptors: Slot::Unset,
            associated_cuisines: Vec::new(),
        };
        proof {
            assert(r@ =~= (ItemBuilderModel {
                image: None,
                name: Slot::Unset,
                category: Slot::Unset,
                description: Slot::Unset,
                descriptors: Slot::Unset,
                associated_cuisines: Seq::empty(),
            }));
        }
        r
    }

    /// A builder pre-loaded with already-typed values, each put through the
    /// same checks the setters apply.
    pub fn new(
        name: ItemName,
        image: Image,
        category: Category,
        description: String,
        descriptors: Vec<String>,
        associated_cuisines: Vec<String>,
    ) -> (r: ItemBuilder)
        ensures
            r@.image == image.model(),
            r@.name == (if label_display(name.model()).len() == 0 {
                Slot::<LabelModel, ItemParseError>::Bad(ItemParseError::EmptyItemName)
            } else {
                Slot::<LabelModel, ItemParseError>::Good(name.model())
            }),
            r@.category == Slot::<Category, ItemParseError>::Good(category),
            r@.description == description_slot_of(description@),
            r@.descriptors == descriptors_slot_of(descriptors.deep_view()),
            r@.associated_cuisines == associated_cuisines.deep_view(),
            item_builder_wf(r@),
    {
        let name_display = name.display();
        let name_slot = if name_display.as_str().is_empty() {
            Slot::Bad(ItemParseError::EmptyItemName)
        } else {
            Slot::Good(name)
        };
        let description_slot = if description.as_str().is_empty() {
            Slot::Bad(ItemParseError::EmptyItemDescription)
        } else {
            Slot::Good(description)
        };
        let descriptors_slot = if descriptors.len() == 0 {
            Slot::Bad(ItemParseError::UnableToValidateItem)
        } else {
            Slot::Good(descriptors)
        };
        ItemBuilder {
            image,
            name: name_slot,
            category: Slot::Good(category),
            description: description_slot,
            descriptors: descriptors_slot,
            associated_cuisines,
        }
    }

    /// Sets the display image; an empty string clears it. Never fails.
    pub fn set_image(self, image: String) -> (r: ItemBuilder)
        ensures
            r@ == spec_item_set_image(self@, image@),
            item_builder_wf(self@) ==> item_builder_wf(r@),
    {
        let ghost m = self@;
        let r = ItemBuilder { image: Image::from_raw(image), ..self };
        proof {
            assert(r@ =~= spec_item_set_image(m, image@));
        }
        r
    }

    /// Derives and sets the label from raw text; empty display text is the
    /// violation.
    pub fn set_name(self, name: String) -> (r: ItemBuilder)
        ensures
            r@ == spec_item_set_name(self@, name@),
            item_builder_wf(self@) ==> item_builder_wf(r@),
    {
        let ghost m = self@;
        let label = ItemName::from_raw(name.as_str());
        let display = label.display();
        let slot = if display.as_str().is_empty() {
            Slot::Bad(ItemParseError::EmptyItemName)
        } else {
            Slot::Good(label)
        };
        let r = ItemBuilder { name: slot, ..self };
        proof {
            assert(r@ =~= spec_item_set_name(m, name@));
        }
        r
    }

    /// Parses and sets the category, ASCII case-insensitively.
    pub fn set_category(self, category: String) -> (r: ItemBuilder)
        ensures
            r@ == spec_item_set_category(self@, category@),
            item_builder_wf(self@) ==> item_builder_wf(r@),
    {
        let ghost m = self@;
        let slot = if category.as_str().is_empty() {
            Slot::Bad(ItemParseError::EmptyItemCategory)
        } else {
            match Category::parse(category.as_str()) {
                Ok(c) => Slot::Good(c),
                Err(_) => Slot::Bad(ItemParseError::InvalidCategory),
            }
        };
        let r = ItemBuilder { category: slot, ..self };
        proof {
            assert(r@ =~= spec_item_set_category(m, category@));
        }
        r
    }

    /// Validates and sets the description; empty text is the violation.
    pub fn set_description(self, description: String) -> (r: ItemBuilder)
        ensures
            r@ == spec_item_set_description(self@, description@),
            item_builder_wf(self@) ==> item_builder_wf(r@),
    {
        let ghost m = self@;
        let slot = if description.as_str().is_empty() {
            Slot::Bad(ItemParseError::EmptyItemDescription)
        } else {
            Slot::Good(description)
        };
        let r = ItemBuilder { description: slot, ..self };
        proof {
            assert(r@ =~= spec_item_set_description(m, description@));
        }
        r
    }

    /// Validates and sets the descriptor tags; an empty set is the
    /// violation.
    pub fn set_descriptors(self, descriptors: Vec<String>) -> (r: ItemBuilder)
        ensures
            r@ == spec_item_set_descriptors(self@, descriptors.deep_view()),
            item_builder_wf(self@) ==> item_builder_wf(r@),
    {
        let ghost m = self@;
        let ghost tags = descriptors.deep_view();
        let slot = if descriptors.len() == 0 {
            Slot::Bad(ItemParseError::UnableToValidateItem)
        } else {
            Slot::Good(descriptors)
        };
        let r = ItemBuilder { descriptors: slot, ..self };
        proof {
            assert(r@ =~= spec_item_set_descriptors(m, tags));
        }
        r
    }

    /// Sets the associated cuisines; the set may be empty. Never fails.
    pub fn set_cuisines(self, associated_cuisines: Vec<String>) -> (r: ItemBuilder)
        ensures
            r@ == spec_item_set_cuisines(self@, associated_cuisines.deep_view()),
            item_builder_wf(self@) ==> item_builder_wf(r@),
    {
        let ghost m = self@;
        let ghost cuisines = associated_cuisines.deep_view();
        let r = ItemBuilder { associated_cuisines, ..self };
        proof {
            assert(r@ =~= spec_item_set_cuisines(m, cuisines));
        }
        r
    }

    /// The full per-field breakdown the terminal check would report, for
    /// the caller's log sink; see [`item_builder_errors`].
    pub fn validation_errors(&self) -> (r: Vec<ItemParseError>)
        ensures
            r@ == item_builder_errors(self@),
    {
        let ghost m = self@;
        let mut out: Vec<ItemParseError> = Vec::new();
        match &self.name {
            Slot::Unset => out.push(ItemParseError::EmptyItemName),
            Slot::Good(_) => (),
            Slot::Bad(e) => out.push(*e),
        }
        assert(out@ == slot_errors_onto(
            Seq::<ItemParseError>::empty(),
            m.name,
            ItemParseError::EmptyItemName,
        ));
        let ghost after_name = out@;
        match &self.category {
            Slot::Unset => out.push(ItemParseError::EmptyItemCategory),
            Slot::Good(_) => (),
            Slot::Bad(e) => out.push(*e),
        }
        assert(out@ == slot_errors_onto(after_name, m.category, ItemParseError::EmptyItemCategory));
        let ghost after_category = out@;
        match &self.description {
            Slot::Unset => out.push(ItemParseError::EmptyItemDescription),
            Slot::Good(_) => (),
            Slot::Bad(e) => out.push(*e),
        }
        assert(out@ == slot_errors_onto(
            after_category,
            m.description,
            ItemParseError::EmptyItemDescription,
        ));
        let ghost after_description = out@;
        match &self.descriptors {
            Slot::Unset => out.push(ItemParseError::UnableToValidateItem),
            Slot::Good(_) => (),
            Slot::Bad(e) => out.push(*e),
        }
        assert(out@ == slot_errors_onto(
            after_description,
            m.descriptors,
            ItemParseError::UnableToValidateItem,
        ));
        out
    }

    /// The terminal step: emits the finished item when no violation was
    /// recorded and every required field was supplied; otherwise reports
    /// the single violation as its own kind, or several as the umbrella
    /// kind.
    pub fn validate(&self) -> (r: Result<Item, ItemParseError>)
        requires
            item_builder_wf(self@),
        ensures
            r is Ok ==> item_wf(r->Ok_0@),
            r is Ok <==> item_builder_errors(self@).len() == 0,
            r is Ok ==> r->Ok_0@ == built_item(self@),
            item_builder_errors(self@).len() == 1 ==> r == Err::<Item, ItemParseError>(
                item_builder_errors(self@)[0],
            ),
            item_builder_errors(self@).len() > 1 ==> r == Err::<Item, ItemParseError>(
                ItemParseError::UnableToValidateItem,
            ),
    {
        let errors = self.validation_errors();
        if errors.len() == 0 {
            match (&self.name, &self.category, &self.description, &self.descriptors) {
                (
                    Slot::Good(name),
                    Slot::Good(category),
                    Slot::Good(description),
                    Slot::Good(descriptors),
                ) => {
                    let item = Item {
                        id: None,
                        image: self.image.clone(),
                        name: name.clone(),
                        category: *category,
                        description: description.clone(),
                        descriptors: clone_string_vec(descriptors),
                        associated_cuisines: clone_string_vec(&self.associated_cuisines),
                    };
                    proof {
                        assert(item@ =~= built_item(self@));
                    }
                    Ok(item)
                },
                _ => {
                    proof {
                        assert(item_builder_errors(self@).len() > 0);
                        assert(false);
                    }
                    Err(ItemParseError::UnableToValidateItem)
                },
            }
        } else if errors.len() == 1 {
            Err(errors[0])
        } else {
            Err(ItemParseError::UnableToValidateItem)
        }
    }
}

/// The round trip: a builder whose every required slot holds a validated
/// value passes the terminal check, and the item it emits returns exactly
/// those validated values through its accessors — together with the
/// accessors' own contracts, which return the view fields unchanged.
pub proof fn lemma_item_round_trip(m: ItemBuilderModel)
    requires
        m.name is Good,
        m.category is Good,
        m.description is Good,
        m.descriptors is Good,
    ensures
        item_builder_errors(m).len() == 0,
        built_item(m).name == m.name->Good_0,
        built_item(m).category == m.category->Good_0,
        built_item(m).description == m.description->Good_0,
        built_item(m).descriptors == m.descriptors->Good_0,
        built_item(m).associated_cuisines == m.associated_cuisines,
        built_item(m).image == m.image,
        built_item(m).id is None,
{
}

/// Idempotence: calling the same setter twice with the same input leaves
/// the builder exactly where one call leaves it, for every setter and every
/// input.
pub proof fn lemma_item_setters_idempotent(
    m: ItemBuilderModel,
    raw: Seq<char>,
    tags: Seq<Seq<char>>,
)
    ensures
        spec_item_set_image(spec_item_set_image(m, raw), raw) == spec_item_set_image(m, raw),
        spec_item_set_name(spec_item_set_name(m, raw), raw) == spec_item_set_name(m, raw),
        spec_item_set_category(spec_item_set_category(m, raw), raw) == spec_item_set_category(
            m,
            raw,
        ),
        spec_item_set_description(spec_item_set_description(m, raw), raw)
            == spec_item_set_description(m, raw),
        spec_item_set_descriptors(spec_item_set_descriptors(m, tags), tags)
            == spec_item_set_descriptors(m, tags),
        spec_item_set_cuisines(spec_item_set_cuisines(m, tags), tags) == spec_item_set_cuisines(
            m,
            tags,
        ),
{
    assert(spec_item_set_image(spec_item_set_image(m, raw), raw) =~= spec_item_set_image(m, raw));
    assert(spec_item_set_name(spec_item_set_name(m, raw), raw) =~= spec_item_set_name(m, raw));
    assert(spec_item_set_category(spec_item_set_category(m, raw), raw) =~= spec_item_set_category(
        m,
        raw,
    ));
    assert(spec_item_set_description(spec_item_set_description(m, raw), raw)
        =~= spec_item_set_description(m, raw));
    assert(spec_item_set_descriptors(spec_item_set_descriptors(m, tags), tags)
        =~= spec_item_set_descriptors(m, tags));
    assert(spec_item_set_cuisines(spec_item_set_cuisines(m, tags), tags)
        =~= spec_item_set_cuisines(m, tags));
}

} // verus!
