//! The closed error taxonomy of the item entity family.

use vstd::prelude::*;
use vstd::string::StringExecFns;

verus! {

/// One violated constraint of an item field, or the umbrella kind for
/// several at once.
///
/// The descriptors constraint (the set of descriptor tags must not be empty)
/// has no kind of its own in this closed taxonomy; its violation is reported
/// as the umbrella kind.
#[derive(Clone, Copy, Debug, PartialEq, Eq, Structural)]
pub enum ItemParseError {
    /// The category text names none of the known categories.
    InvalidCategory,
    EmptyItemName,
    EmptyItemDescription,
    EmptyItemCategory,
    /// The umbrella kind: more than one constraint was violated at once, or
    /// the descriptors set was empty.
    UnableToValidateItem,
}

impl ItemParseError {
    /// The user-facing message of each kind.
    pub open spec fn message_spec(self) -> Seq<char> {
        match self {
            ItemParseError::InvalidCategory => "The supplied category is invalid"@,
            ItemParseError::EmptyItemName => "Item name cannot be empty"@,
            ItemParseError::EmptyItemDescription => "Item description cannot be empty"@,
            ItemParseError::EmptyItemCategory => "Item category cannot be empty"@,
            ItemParseError::UnableToValidateItem => "Could not validate item"@,
        }
    }

    /// Renders the kind as its user-facing message.
    pub fn message(&self) -> (r: String)
        ensures
            r@ == self.message_spec(),
    {
        match self {
            ItemParseError::InvalidCategory => String::from_str("The supplied category is invalid"),
            ItemParseError::EmptyItemName => String::from_str("Item name cannot be empty"),
            ItemParseError::EmptyItemDescription => String::from_str(
                "Item description cannot be empty",
            ),
            ItemParseError::EmptyItemCategory => String::from_str("Item category cannot be empty"),
            ItemParseError::UnableToValidateItem => String::from_str("Could not validate item"),
        }
    }
}

} // verus!
