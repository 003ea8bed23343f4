//! The closed set of item categories.

use vstd::prelude::*;
use vstd::string::StrSliceExecFns;
use vstd::string::StringExecFns;

verus! {

/// The category text named none of the known categories.
#[derive(Clone, Copy, Debug, PartialEq, Eq, Structural)]
pub struct ParseCategoryError;

/// What kind of culinary thing an item is.
#[derive(Clone, Copy, Debug, PartialEq, Eq, Structural)]
pub enum Category {
    Ingredient,
    Dish,
    Beverage,
}

/// `c` is `k` itself, or its ASCII uppercase form (`k` is expected
/// lowercase): the case-insensitive character match.
pub open spec fn char_eq_fold(c: char, k: char) -> bool {
    c == k || (65 <= c as u32 <= 90 && c as u32 + 32 == k as u32)
}

/// `s` spells the lowercase keyword `kw`, ASCII case-insensitively.
pub open spec fn matches_keyword(s: Seq<char>, kw: Seq<char>) -> bool {
    s.len() == kw.len() && forall|i: int| 0 <= i < s.len() ==> char_eq_fold(#[trigger] s[i], kw[i])
}

/// The category a text names, matched case-insensitively against the three
/// known labels; any other text names none.
pub open spec fn category_of(s: Seq<char>) -> Option<Category> {
    if matches_keyword(s, "ingredient"@) {
        Some(Category::Ingredient)
    } else if matches_keyword(s, "dish"@) {
        Some(Category::Dish)
    } else if matches_keyword(s, "beverage"@) {
        Some(Category::Beverage)
    } else {
        None
    }
}

/// Executable twin of [`char_eq_fold`].
fn char_eq_fold_exec(c: char, k: char) -> (r: bool)
    ensures
        r == char_eq_fold(c, k),
{
    let cu = c as u32;
    c == k || (65 <= cu && cu <= 90 && cu + 32 == k as u32)
}

/// Executable twin of [`matches_keyword`].
fn matches_keyword_exec(s: &str, kw: &str) -> (r: bool)
    ensures
        r == matches_keyword(s@, kw@),
{
    let n = s.unicode_len();
    if n != kw.unicode_len() {
        return false;
    }
    let mut i: usize = 0;
    while i < n
        invariant
            n == s@.len() == kw@.len(),
            0 <= i <= n,
            forall|k: int| 0 <= k < i ==> char_eq_fold(#[trigger] s@[k], kw@[k]),
        decreases n - i,
    {
        if !char_eq_fold_exec(s.get_char(i), kw.get_char(i)) {
            return false;
        }
        i = i + 1;
    }
    true
}

impl Category {
    /// Parses free category text, ASCII case-insensitively; see
    /// [`category_of`].
    pub fn parse(s: &str) -> (r: Result<Category, ParseCategoryError>)
        ensures
            r is Ok <==> category_of(s@) is Some,
            r is Ok ==> category_of(s@) == Some(r->Ok_0),
    {
        if matches_keyword_exec(s, "ingredient") {
            Ok(Category::Ingredient)
        } else if matches_keyword_exec(s, "dish") {
            Ok(Category::Dish)
        } else if matches_keyword_exec(s, "beverage") {
            Ok(Category::Beverage)
        } else {
            Err(ParseCategoryError)
        }
    }

    /// The display label of each category.
    pub open spec fn name_spec(self) -> Seq<char> {
        match self {
            Category::Ingredient => "Ingredient"@,
            Category::Dish => "Dish"@,
            Category::Beverage => "Beverage"@,
        }
    }

    /// Renders the category's display label.
    pub fn name(&self) -> (r: String)
        ensures
            r@ == self.name_spec(),
    {
        match self {
            Category::Ingredient => String::from_str("Ingredient"),
            Category::Dish => String::from_str("Dish"),
            Category::Beverage => String::from_str("Beverage"),
        }
    }
}

} // verus!
