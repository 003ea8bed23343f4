//! Value types shared by the user and item entity families.

use vstd::prelude::*;
use vstd::string::StrSliceExecFns;
use vstd::string::StringExecFns;
use crate::text::{joined, label_parts, split_on_commas, trim, trim_spec};

verus! {

/// A profile or item picture: absent, or present with a URL. The URL is only
/// ever checked for being non-empty, never for being reachable.
#[derive(Debug, PartialEq, Eq)]
pub enum Image {
    NoImage,
    HasImage(String),
}

impl Clone for Image {
    /// A clone is equal to the original.
    fn clone(&self) -> (r: Self)
        ensures
            r == *self,
    {
        match self {
            Image::NoImage => Image::NoImage,
            Image::HasImage(url) => Image::HasImage(url.clone()),
        }
    }
}

impl Image {
    /// The URL the image holds, if any.
    pub open spec fn model(self) -> Option<Seq<char>> {
        match self {
            Image::NoImage => None,
            Image::HasImage(url) => Some(url@),
        }
    }

    /// The construction rule: an empty string means no image, any other
    /// string is kept as the URL unchecked.
    pub fn from_raw(raw: String) -> (r: Image)
        ensures
            raw@.len() == 0 ==> r == Image::NoImage,
            raw@.len() > 0 ==> r.model() == Some(raw@),
    {
        if raw.as_str().is_empty() {
            Image::NoImage
        } else {
            Image::HasImage(raw)
        }
    }

    /// The URL for display: the held URL, or the empty string when absent.
    pub fn url_or_empty(&self) -> (r: String)
        ensures
            self.model() matches Some(u) ==> r@ == u,
            self.model() is None ==> r@.len() == 0,
    {
        match self {
            Image::NoImage => String::new(),
            Image::HasImage(url) => url.clone(),
        }
    }
}

impl Default for Image {
    /// Before any image is supplied there is none.
    fn default() -> (r: Self)
        ensures
            r == Image::NoImage,
    {
        Image::NoImage
    }
}

/// An item's label: one single name, or several alternative names in order.
#[derive(Debug, PartialEq, Eq)]
pub enum ItemName {
    SingleName(String),
    MultipleName(Vec<String>),
}

impl Clone for ItemName {
    /// A clone holds the same name or names.
    fn clone(&self) -> (r: Self)
        ensures
            r.model() == self.model(),
    {
        match self {
            ItemName::SingleName(name) => ItemName::SingleName(name.clone()),
            ItemName::MultipleName(names) => {
                let cloned_names = names.clone();
                proof {
                    assert(cloned_names.deep_view() =~= names.deep_view());
                }
                ItemName::MultipleName(cloned_names)
            },
        }
    }
}

/// The mathematical content of an [`ItemName`].
pub enum LabelModel {
    Single(Seq<char>),
    Multiple(Seq<Seq<char>>),
}

/// The display form of a label: the single name itself, or the names joined
/// by comma and space.
pub open spec fn label_display(l: LabelModel) -> Seq<char> {
    match l {
        LabelModel::Single(name) => name,
        LabelModel::Multiple(names) => joined(names, ", "@),
    }
}

impl ItemName {
    pub open spec fn model(self) -> LabelModel {
        match self {
            ItemName::SingleName(name) => LabelModel::Single(name@),
            ItemName::MultipleName(names) => LabelModel::Multiple(names.deep_view()),
        }
    }

    /// The label a raw text yields: after trimming the text and splitting it
    /// on commas (each piece trimmed again), exactly one piece gives the
    /// single-name form, anything else the multiple-name form.
    pub open spec fn label_of(raw: Seq<char>) -> LabelModel {
        let parts = label_parts(raw);
        if parts.len() == 1 {
            LabelModel::Single(parts[0])
        } else {
            LabelModel::Multiple(parts)
        }
    }

    /// Derives the label from raw text; see [`ItemName::label_of`] for the
    /// splitting rule.
    pub fn from_raw(raw: &str) -> (r: ItemName)
        ensures
            r.model() == ItemName::label_of(raw@),
    {
        let whole = trim(raw);
        let pieces = split_on_commas(whole);
        let mut parts: Vec<String> = Vec::new();
        let mut i: usize = 0;
        while i < pieces.len()
            invariant
                0 <= i <= pieces@.len(),
                parts.deep_view().len() == i,
                forall|k: int|
                    0 <= k < i ==> parts.deep_view()[k] == trim_spec(
                        #[trigger] pieces.deep_view()[k],
                    ),
            decreases pieces@.len() - i,
        {
            let p = trim(pieces[i].as_str()).to_owned();
            parts.push(p);
            i = i + 1;
        }
        proof {
            assert(parts.deep_view() =~= label_parts(raw@));
        }
        if parts.len() == 1 {
            let only = parts.pop().unwrap();
            proof {
                assert(only@ == label_parts(raw@)[0]);
            }
            ItemName::SingleName(only)
        } else {
            ItemName::MultipleName(parts)
        }
    }

    /// The display form; see [`label_display`].
    pub open spec fn display_spec(self) -> Seq<char> {
        label_display(self.model())
    }

    /// Renders the label for display; see [`ItemName::display_spec`].
    pub fn display(&self) -> (r: String)
        ensures
            r@ == self.display_spec(),
    {
        match self {
            ItemName::SingleName(name) => name.clone(),
            ItemName::MultipleName(names) => crate::text::join_comma_space(names),
        }
    }
}

impl Default for ItemName {
    /// Before any name is supplied the label is a single empty name.
    fn default() -> (r: Self)
        ensures
            r.model() == LabelModel::Single(Seq::<char>::empty()),
    {
        ItemName::SingleName(String::new())
    }
}

/// A person's first and last name.
#[derive(Debug, PartialEq, Eq)]
pub struct FullName {
    pub first_name: String,
    pub last_name: String,
}

impl Clone for FullName {
    /// A clone is equal to the original.
    fn clone(&self) -> (r: Self)
        ensures
            r == *self,
    {
        FullName { first_name: self.first_name.clone(), last_name: self.last_name.clone() }
    }
}

impl FullName {
    /// Both parts are empty, the state before any name is supplied.
    pub fn is_empty(&self) -> (r: bool)
        ensures
            r == (self.first_name@.len() == 0 && self.last_name@.len() == 0),
    {
        self.first_name.as_str().is_empty() && self.last_name.as_str().is_empty()
    }
}

impl Default for FullName {
    /// Before any name is supplied both parts are empty.
    fn default() -> (r: Self)
        ensures
            r.first_name@.len() == 0,
            r.last_name@.len() == 0,
    {
        FullName { first_name: String::new(), last_name: String::new() }
    }
}

/// A guest's standing on an event invitation.
#[derive(Clone, Copy, Debug, PartialEq, Eq, Structural)]
pub enum AttendeeStatus {
    Pending,
    Rejected,
    Accepted,
    Removed,
}

impl Default for AttendeeStatus {
    /// A freshly invited guest is pending.
    fn default() -> (r: Self)
        ensures
            r == AttendeeStatus::Pending,
    {
        AttendeeStatus::Pending
    }
}

/// One field slot of a builder: nothing supplied yet, a validated value, or
/// the error kind the supplied value drew. A later call on the same field
/// overwrites the slot.
#[derive(Debug)]
#[verifier::ext_equal]
pub enum Slot<T, E> {
    Unset,
    Good(T),
    Bad(E),
}

/// Appends the errors one slot contributes at the terminal check: a missing
/// required field counts as `missing`, a recorded violation as itself, a
/// validated value as nothing.
pub open spec fn slot_errors_onto<T, E>(acc: Seq<E>, s: Slot<T, E>, missing: E) -> Seq<E> {
    match s {
        Slot::Unset => acc.push(missing),
        Slot::Good(_) => acc,
        Slot::Bad(e) => acc.push(e),
    }
}

/// A type displayable as a card linking to its description page.
pub trait PoivreCard: Sized {
    /// The URL of the description page.
    fn url(&self) -> String;

    /// The URL of the card's image.
    fn img(&self) -> String;

    /// The alt text of the card's image.
    fn alt_text(&self) -> String;

    /// The name shown on the card.
    fn card_name(&self) -> String;
}

/// A type displayable as a row of a table.
pub trait PoivreTableRow: Sized {
    /// The header of a table of values of this type.
    fn headers() -> Vec<String>;

    /// This value's cells, in header order.
    fn row_values(&self) -> Vec<String>;
}

} // verus!
