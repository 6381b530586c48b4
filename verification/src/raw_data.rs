//! The decisions of the raw-data routes: which category a request names and
//! where the area of an area request comes from.
use vstd::prelude::*;

use crate::feature::str_eq;

verus! {

/// The kinds of map data.
#[derive(Clone, Copy, Debug, PartialEq, Eq, Structural)]
pub enum Category {
    Gym,
    Pokestop,
    Spawnpoint,
}

/// Where the area of an area request comes from.
#[derive(Clone, Copy, Debug, PartialEq, Eq, Structural)]
pub enum AreaSource {
    /// Neither an area nor an instance: the request is refused.
    Reject,
    /// The area given in the request.
    Given,
    /// The route of the named instance, from the scanner's own database.
    ScannerInstance,
    /// The route of the named instance, from the Kōji database.
    KojiInstance,
}

/// The category a path names, for the routes that accept exactly three.
pub open spec fn named_category(s: Seq<char>) -> Option<Category> {
    if s == "gym"@ {
        Some(Category::Gym)
    } else if s == "pokestop"@ {
        Some(Category::Pokestop)
    } else if s == "spawnpoint"@ {
        Some(Category::Spawnpoint)
    } else {
        None
    }
}

/// The category of an `all` or `bound` request; any other name is refused.
pub fn data_category(category: &str) -> (r: Option<Category>)
    ensures
        r == named_category(category@),
{
    if str_eq(category, "gym") {
        Some(Category::Gym)
    } else if str_eq(category, "pokestop") {
        Some(Category::Pokestop)
    } else if str_eq(category, "spawnpoint") {
        Some(Category::Spawnpoint)
    } else {
        None
    }
}

/// The category of an `area` or `area_stats` request: anything that is not a
/// gym or a pokestop is served as spawnpoints.
pub fn area_category(category: &str) -> (r: Category)
    ensures
        r == (if category@ == "gym"@ {
            Category::Gym
        } else if category@ == "pokestop"@ {
            Category::Pokestop
        } else {
            Category::Spawnpoint
        }),
{
    if str_eq(category, "gym") {
        Category::Gym
    } else if str_eq(category, "pokestop") {
        Category::Pokestop
    } else {
        Category::Spawnpoint
    }
}

/// Where an area request's area comes from: with neither an area nor an
/// instance it is refused; with both, the instance's route is fetched (from
/// the scanner's database when the scanner is RDM); otherwise the given area
/// is used as it is.
pub fn area_source(area_is_empty: bool, instance_is_empty: bool, scanner_type: &str) -> (r:
    AreaSource)
    ensures
        r == (if area_is_empty && instance_is_empty {
            AreaSource::Reject
        } else if !area_is_empty && !instance_is_empty {
            if scanner_type@ == "rdm"@ {
                AreaSource::ScannerInstance
            } else {
                AreaSource::KojiInstance
            }
        } else {
            AreaSource::Given
        }),
{
    if area_is_empty && instance_is_empty {
        AreaSource::Reject
    } else if !area_is_empty && !instance_is_empty {
        if str_eq(scanner_type, "rdm") {
            AreaSource::ScannerInstance
        } else {
            AreaSource::KojiInstance
        }
    } else {
        AreaSource::Given
    }
}

/// The error of a request that names no known category.
pub fn invalid_category() -> (r: &'static str)
    ensures
        r@ == "invalid_category"@,
{
    "invalid_category"
}

/// The error of an area request with neither an area nor an instance.
pub fn no_area_error() -> (r: &'static str)
    ensures
        r@ == "no_area_and_empty_instance"@,
{
    "no_area_and_empty_instance"
}

} // verus!
