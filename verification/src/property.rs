//! Geofence properties: how a record is looked up, how an update is merged,
//! search patterns and page flags.
use vstd::prelude::*;

use crate::area::ModelError;
use crate::decimal::{parse_u32, parsed_u32};

verus! {

/// A stored property; `C` is its category.
pub struct PropertyModel<C> {
    pub id: u32,
    pub name: String,
    pub category: C,
    pub default_value: Option<String>,
}

/// How a property is looked up from the text a client sends.
#[derive(Debug)]
pub enum PropertyLookup {
    /// The text is a number: look up by id.
    ById(u32),
    /// Otherwise: look up by name.
    ByName(String),
}

/// Text that reads as a `u32` is an id; any other text is a name.
pub fn lookup_for(id: String) -> (r: PropertyLookup)
    ensures
        match parsed_u32(id@) {
            Some(n) => r matches PropertyLookup::ById(m) && m == n,
            None => r matches PropertyLookup::ByName(s) && s == id,
        },
{
    match parse_u32(id.as_str()) {
        Some(n) => PropertyLookup::ById(n),
        None => PropertyLookup::ByName(id),
    }
}

/// The error for a property that does not exist.
pub fn not_found() -> (r: ModelError)
    ensures
        r matches ModelError::Geofence(e) && e@ == "Does not exist"@,
{
    ModelError::Geofence(String::from_str("Does not exist"))
}

/// An update keeps the record's id and takes everything else from the new
/// values.
pub fn apply_update<C>(old_model: PropertyModel<C>, new_model: PropertyModel<C>) -> (r:
    PropertyModel<C>)
    ensures
        r.id == old_model.id,
        r.name == new_model.name,
        r.category == new_model.category,
        r.default_value == new_model.default_value,
{
    PropertyModel {
        id: old_model.id,
        name: new_model.name,
        category: new_model.category,
        default_value: new_model.default_value,
    }
}

/// The SQL `LIKE` pattern that matches names containing `q`.
pub fn like_pattern(q: &str) -> (r: String)
    ensures
        r@ == "%"@ + q@ + "%"@,
{
    let mut p = String::from_str("%");
    p.append(q);
    p.append("%");
    p
}

/// The flags of a page: `has_prev` holds on the last page, `has_next` while
/// pages remain after this one.
pub fn page_flags(page: u64, number_of_pages: u64) -> (r: (bool, bool))
    requires
        page < u64::MAX,
    ensures
        r.0 == (number_of_pages == page + 1),
        r.1 == (page + 1 < number_of_pages),
{
    (number_of_pages == page + 1, page + 1 < number_of_pages)
}

} // verus!
