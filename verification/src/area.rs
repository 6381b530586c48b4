//! Scanner areas: which stored route a scanner mode draws, the feature made
//! from it, and the plan for saving features back as areas.
use vstd::prelude::*;

use crate::decimal::{decimal_digits, push_decimal};
use crate::feature::{
    has_key, key_index, lemma_set_in_reads, property_in, props_get, set_in, str_eq, Feature,
    Properties, PropertyValue, Type,
};

verus! {

/// A stored area.
pub struct AreaModel {
    pub id: u32,
    pub name: String,
    pub pokemon_mode_workers: u32,
    pub pokemon_mode_route: Option<String>,
    pub fort_mode_workers: u32,
    pub fort_mode_route: Option<String>,
    pub quest_mode_workers: u32,
    pub quest_mode_hours: Option<String>,
    pub quest_mode_max_login_queue: Option<u16>,
    pub geofence: Option<String>,
    pub enable_quests: i8,
    pub quest_mode_route: Option<String>,
}

/// The columns of an area that hold a route or a fence.
#[derive(Clone, Copy, Debug, PartialEq, Eq, Structural)]
pub enum AreaColumn {
    Geofence,
    PokemonModeRoute,
    FortModeRoute,
    QuestModeRoute,
}

/// Errors of the model layer.
#[derive(Debug)]
pub enum ModelError {
    Custom(String),
    Geofence(String),
}

/// The name of an instance type.
pub open spec fn type_label(t: Type) -> Seq<char> {
    match t {
        Type::CirclePokemon => "CirclePokemon"@,
        Type::CircleSmartPokemon => "CircleSmartPokemon"@,
        Type::CircleRaid => "CircleRaid"@,
        Type::CircleSmartRaid => "CircleSmartRaid"@,
        Type::ManualQuest => "ManualQuest"@,
        Type::AutoQuest => "AutoQuest"@,
        Type::PokemonIv => "PokemonIv"@,
        Type::Leveling => "Leveling"@,
    }
}

/// The name of an instance type.
pub fn display_type(t: Type) -> (r: &'static str)
    ensures
        r@ == type_label(t),
{
    match t {
        Type::CirclePokemon => "CirclePokemon",
        Type::CircleSmartPokemon => "CircleSmartPokemon",
        Type::CircleRaid => "CircleRaid",
        Type::CircleSmartRaid => "CircleSmartRaid",
        Type::ManualQuest => "ManualQuest",
        Type::AutoQuest => "AutoQuest",
        Type::PokemonIv => "PokemonIv",
        Type::Leveling => "Leveling",
    }
}

/// The instance type with a given name.
pub open spec fn type_named(s: Seq<char>) -> Option<Type> {
    if s == "CirclePokemon"@ {
        Some(Type::CirclePokemon)
    } else if s == "CircleSmartPokemon"@ {
        Some(Type::CircleSmartPokemon)
    } else if s == "CircleRaid"@ {
        Some(Type::CircleRaid)
    } else if s == "CircleSmartRaid"@ {
        Some(Type::CircleSmartRaid)
    } else if s == "ManualQuest"@ {
        Some(Type::ManualQuest)
    } else if s == "AutoQuest"@ {
        Some(Type::AutoQuest)
    } else if s == "PokemonIv"@ {
        Some(Type::PokemonIv)
    } else if s == "Leveling"@ {
        Some(Type::Leveling)
    } else {
        None
    }
}

/// The instance type named by a string, if any.
pub fn get_enum(instance_type: Option<&str>) -> (r: Option<Type>)
    ensures
        r == match instance_type {
            Some(s) => type_named(s@),
            None => None,
        },
{
    match instance_type {
        None => None,
        Some(s) => {
            if str_eq(s, "CirclePokemon") {
                Some(Type::CirclePokemon)
            } else if str_eq(s, "CircleSmartPokemon") {
                Some(Type::CircleSmartPokemon)
            } else if str_eq(s, "CircleRaid") {
                Some(Type::CircleRaid)
            } else if str_eq(s, "CircleSmartRaid") {
                Some(Type::CircleSmartRaid)
            } else if str_eq(s, "ManualQuest") {
                Some(Type::ManualQuest)
            } else if str_eq(s, "AutoQuest") {
                Some(Type::AutoQuest)
            } else if str_eq(s, "PokemonIv") {
                Some(Type::PokemonIv)
            } else if str_eq(s, "Leveling") {
                Some(Type::Leveling)
            } else {
                None
            }
        },
    }
}

/// Every instance type is found again by its name.
pub proof fn lemma_type_name_round_trip(t: Type)
    ensures
        type_named(type_label(t)) == Some(t),
{
    reveal_strlit("CirclePokemon");
    reveal_strlit("CircleSmartPokemon");
    reveal_strlit("CircleRaid");
    reveal_strlit("CircleSmartRaid");
    reveal_strlit("ManualQuest");
    reveal_strlit("AutoQuest");
    reveal_strlit("PokemonIv");
    reveal_strlit("Leveling");
    assert("CirclePokemon"@.len() != "CircleSmartPokemon"@.len());
    assert("CirclePokemon"@[6] != "CircleRaid"@[6]);
    assert("CirclePokemon"@ != "CircleSmartRaid"@);
    assert("CirclePokemon"@.len() != "ManualQuest"@.len());
    assert("CirclePokemon"@[0] != "AutoQuest"@[0]);
    assert("CirclePokemon"@[0] != "PokemonIv"@[0]);
    assert("CirclePokemon"@[0] != "Leveling"@[0]);
    assert("CircleSmartPokemon"@.len() != "CircleRaid"@.len());
    assert("CircleSmartPokemon"@.len() != "CircleSmartRaid"@.len());
    assert("CircleSmartPokemon"@[0] != "ManualQuest"@[0]);
    assert("CircleSmartPokemon"@[0] != "AutoQuest"@[0]);
    assert("CircleSmartPokemon"@[0] != "PokemonIv"@[0]);
    assert("CircleSmartPokemon"@[0] != "Leveling"@[0]);
    assert("CircleRaid"@.len() != "CircleSmartRaid"@.len());
    assert("CircleRaid"@[0] != "ManualQuest"@[0]);
    assert("CircleRaid"@[0] != "AutoQuest"@[0]);
    assert("CircleRaid"@[0] != "PokemonIv"@[0]);
    assert("CircleRaid"@[0] != "Leveling"@[0]);
    assert("CircleSmartRaid"@[0] != "ManualQuest"@[0]);
    assert("CircleSmartRaid"@[0] != "AutoQuest"@[0]);
    assert("CircleSmartRaid"@[0] != "PokemonIv"@[0]);
    assert("CircleSmartRaid"@[0] != "Leveling"@[0]);
    assert("ManualQuest"@[0] != "AutoQuest"@[0]);
    assert("ManualQuest"@[0] != "PokemonIv"@[0]);
    assert("ManualQuest"@[0] != "Leveling"@[0]);
    assert("AutoQuest"@[0] != "PokemonIv"@[0]);
    assert("AutoQuest"@[0] != "Leveling"@[0]);
    assert("PokemonIv"@[0] != "Leveling"@[0]);
}

/// The column a scanner mode draws its route from.
pub open spec fn mode_column(m: Seq<char>) -> Option<AreaColumn> {
    if m == "AutoQuest"@ || m == "AutoPokemon"@ || m == "AutoTth"@ || m == "PokemonIv"@ {
        Some(AreaColumn::Geofence)
    } else if m == "CirclePokemon"@ || m == "CircleSmartPokemon"@ {
        Some(AreaColumn::PokemonModeRoute)
    } else if m == "CircleRaid"@ || m == "CircleSmartRaid"@ {
        Some(AreaColumn::FortModeRoute)
    } else if m == "ManualQuest"@ {
        Some(AreaColumn::QuestModeRoute)
    } else {
        None
    }
}

/// What an area holds in a column.
pub open spec fn column_value(model: AreaModel, c: AreaColumn) -> Option<String> {
    match c {
        AreaColumn::Geofence => model.geofence,
        AreaColumn::PokemonModeRoute => model.pokemon_mode_route,
        AreaColumn::FortModeRoute => model.fort_mode_route,
        AreaColumn::QuestModeRoute => model.quest_mode_route,
    }
}

/// The route text a scanner mode draws from an area, if it has one.
pub open spec fn route_text(model: AreaModel, m: Seq<char>) -> Option<String> {
    match mode_column(m) {
        Some(c) => column_value(model, c),
        None => None,
    }
}

/// The column a scanner mode draws its route from.
pub fn column_for_mode(mode: &str) -> (r: Option<AreaColumn>)
    ensures
        r == mode_column(mode@),
{
    if str_eq(mode, "AutoQuest") || str_eq(mode, "AutoPokemon") || str_eq(mode, "AutoTth")
        || str_eq(mode, "PokemonIv") {
        Some(AreaColumn::Geofence)
    } else if str_eq(mode, "CirclePokemon") || str_eq(mode, "CircleSmartPokemon") {
        Some(AreaColumn::PokemonModeRoute)
    } else if str_eq(mode, "CircleRaid") || str_eq(mode, "CircleSmartRaid") {
        Some(AreaColumn::FortModeRoute)
    } else if str_eq(mode, "ManualQuest") {
        Some(AreaColumn::QuestModeRoute)
    } else {
        None
    }
}

/// The instance type and route text an area has for a scanner mode: an
/// unknown mode is "Area not found", a mode without a stored route is
/// "Unable to determine route".
pub fn scanner_route(model: AreaModel, mode: &str) -> (r: Result<(Type, String), ModelError>)
    ensures
        type_named(mode@) is None ==> (r matches Err(ModelError::Custom(e)) && e@
            == "Area not found"@),
        type_named(mode@) matches Some(t) ==> match route_text(model, mode@) {
            Some(text) => r == Ok::<(Type, String), ModelError>((t, text)),
            None => r matches Err(ModelError::Custom(e)) && e@ == "Unable to determine route"@,
        },
{
    let ghost m = model;
    if let Some(area_type) = get_enum(Some(mode)) {
        let coords = match column_for_mode(mode) {
            Some(AreaColumn::Geofence) => model.geofence,
            Some(AreaColumn::PokemonModeRoute) => model.pokemon_mode_route,
            Some(AreaColumn::FortModeRoute) => model.fort_mode_route,
            Some(AreaColumn::QuestModeRoute) => model.quest_mode_route,
            None => None,
        };
        assert(coords == route_text(m, mode@));
        if let Some(coords) = coords {
            Ok((area_type, coords))
        } else {
            Err(ModelError::Custom(String::from_str("Unable to determine route")))
        }
    } else {
        Err(ModelError::Custom(String::from_str("Area not found")))
    }
}

/// The id of an area's feature for a scanner mode: `{id}__{mode}__SCANNER`.
pub open spec fn scanner_id(id: u32, t: Type) -> Seq<char> {
    decimal_digits(id as nat) + "__"@ + type_label(t) + "__SCANNER"@
}

/// Marks a feature drawn from an area: its id names the area and the mode,
/// and it carries the area's id, name and mode as `__id`, `__name` and
/// `__mode`.
pub fn finish_scanner_feature(feature: Feature, id: u32, name: String, area_type: Type) -> (r:
    Feature)
    ensures
        r.geometry == feature.geometry,
        r.id matches Some(s) && s@ == scanner_id(id, area_type),
        exists|mode: String|
            mode@ == type_label(area_type) && r.props() == set_in(
                set_in(
                    set_in(feature.props(), "__id"@, PropertyValue::Number(id)),
                    "__name"@,
                    PropertyValue::Text(name),
                ),
                "__mode"@,
                PropertyValue::Text(mode),
            ),
{
    let mut feature = feature;
    let mut fid = String::new();
    push_decimal(&mut fid, id);
    fid.append("__");
    fid.append(display_type(area_type));
    fid.append("__SCANNER");
    feature.id = Some(fid);
    feature.set_property(String::from_str("__id"), PropertyValue::Number(id));
    feature.set_property(String::from_str("__name"), PropertyValue::Text(name));
    let mode = String::from_str(display_type(area_type));
    let ghost mode_copy = mode;
    feature.set_property(String::from_str("__mode"), PropertyValue::Text(mode));
    assert(mode_copy@ == type_label(area_type));
    feature
}

/// What `str::to_lowercase` returns for a string.
pub uninterp spec fn lowercase(s: Seq<char>) -> Seq<char>;

/// Every character is ASCII.
pub open spec fn all_ascii(s: Seq<char>) -> bool {
    forall|i: int| 0 <= i < s.len() ==> (#[trigger] s[i]) as u32 <= 0x7f
}

/// An ASCII character's lowercase letter, or the character itself.
pub open spec fn ascii_lower_char(c: char) -> char {
    if 'A' <= c <= 'Z' {
        ((c as u32) + 32) as char
    } else {
        c
    }
}

/// Lowercases the letters of an ASCII string one by one.
pub open spec fn ascii_lower(s: Seq<char>) -> Seq<char> {
    s.map_values(|c: char| ascii_lower_char(c))
}

/// The lowercase form of a string: letter by letter for ASCII text, the
/// Unicode mapping otherwise.
pub open spec fn lowered(s: Seq<char>) -> Seq<char> {
    if all_ascii(s) {
        ascii_lower(s)
    } else {
        lowercase(s)
    }
}

/// `str::to_lowercase`: the string's lowercase mapping as Unicode defines
/// it, a function of the string alone. On ASCII text this turns `A`..`Z`
/// into `a`..`z` and keeps every other character; of other text only that it
/// is a function of the string is stated.
#[verifier::external_body]
fn to_lowercase(s: &str) -> (r: String)
    ensures
        r@ == lowercase(s@),
        all_ascii(s@) ==> r@ == ascii_lower(s@),
{
    s.to_lowercase()
}

/// The column a lowercased area mode is saved to.
pub open spec fn lower_mode_column(m: Seq<char>) -> Option<AreaColumn> {
    if m == "circlepokemon"@ || m == "circle_pokemon"@ || m == "circlesmartpokemon"@ || m
        == "circle_smart_pokemon"@ {
        Some(AreaColumn::PokemonModeRoute)
    } else if m == "circleraid"@ || m == "circle_raid"@ || m == "circlesmartraid"@ || m
        == "circle_smart_raid"@ {
        Some(AreaColumn::FortModeRoute)
    } else if m == "manualquest"@ || m == "manual_quest"@ {
        Some(AreaColumn::QuestModeRoute)
    } else if m == "autoquest"@ || m == "auto_quest"@ {
        Some(AreaColumn::Geofence)
    } else {
        None
    }
}

/// The column a lowercased area mode is saved to.
pub fn column_for_lowercase_mode(m: &str) -> (r: Option<AreaColumn>)
    ensures
        r == lower_mode_column(m@),
{
    if str_eq(m, "circlepokemon") || str_eq(m, "circle_pokemon") || str_eq(m, "circlesmartpokemon")
        || str_eq(m, "circle_smart_pokemon") {
        Some(AreaColumn::PokemonModeRoute)
    } else if str_eq(m, "circleraid") || str_eq(m, "circle_raid") || str_eq(m, "circlesmartraid")
        || str_eq(m, "circle_smart_raid") {
        Some(AreaColumn::FortModeRoute)
    } else if str_eq(m, "manualquest") || str_eq(m, "manual_quest") {
        Some(AreaColumn::QuestModeRoute)
    } else if str_eq(m, "autoquest") || str_eq(m, "auto_quest") {
        Some(AreaColumn::Geofence)
    } else {
        None
    }
}

/// A lowercase form of an ASCII literal.
proof fn lemma_lowers_to(upper: Seq<char>, lower: Seq<char>)
    requires
        upper.len() == lower.len(),
        forall|i: int| 0 <= i < upper.len() ==> (#[trigger] upper[i]) as u32 <= 0x7f,
        forall|i: int| 0 <= i < upper.len() ==> ascii_lower_char(#[trigger] upper[i]) == lower[i],
    ensures
        lowered(upper) == lower,
{
    assert(all_ascii(upper));
    assert(ascii_lower(upper) =~= lower);
}

/// A feature drawn for a scanner mode and saved back goes to the column it
/// was drawn from; only IV and leveling features, whose modes name no column
/// to save to, are refused.
pub proof fn lemma_scanner_mode_saves_back(t: Type)
    ensures
        t != Type::PokemonIv && t != Type::Leveling ==> lower_mode_column(lowered(type_label(t)))
            == mode_column(type_label(t)),
        t == Type::PokemonIv || t == Type::Leveling ==> lower_mode_column(
            lowered(type_label(t)),
        ) is None,
{
    reveal_strlit("CirclePokemon");
    reveal_strlit("CircleSmartPokemon");
    reveal_strlit("CircleRaid");
    reveal_strlit("CircleSmartRaid");
    reveal_strlit("ManualQuest");
    reveal_strlit("AutoQuest");
    reveal_strlit("PokemonIv");
    reveal_strlit("Leveling");
    reveal_strlit("AutoPokemon");
    reveal_strlit("AutoTth");
    reveal_strlit("circlepokemon");
    reveal_strlit("circle_pokemon");
    reveal_strlit("circlesmartpokemon");
    reveal_strlit("circle_smart_pokemon");
    reveal_strlit("circleraid");
    reveal_strlit("circle_raid");
    reveal_strlit("circlesmartraid");
    reveal_strlit("circle_smart_raid");
    reveal_strlit("manualquest");
    reveal_strlit("manual_quest");
    reveal_strlit("autoquest");
    reveal_strlit("auto_quest");
    match t {
        Type::CirclePokemon => {
            lemma_lowers_to("CirclePokemon"@, "circlepokemon"@);
            assert(lower_mode_column("circlepokemon"@) == Some(AreaColumn::PokemonModeRoute));
            assert(mode_column("CirclePokemon"@) == Some(AreaColumn::PokemonModeRoute));
        },
        Type::CircleSmartPokemon => {
            lemma_lowers_to("CircleSmartPokemon"@, "circlesmartpokemon"@);
            assert(lower_mode_column("circlesmartpokemon"@) == Some(AreaColumn::PokemonModeRoute));
            assert(mode_column("CircleSmartPokemon"@) == Some(AreaColumn::PokemonModeRoute));
        },
        Type::CircleRaid => {
            lemma_lowers_to("CircleRaid"@, "circleraid"@);
            assert(lower_mode_column("circleraid"@) == Some(AreaColumn::FortModeRoute));
            assert(mode_column("CircleRaid"@) == Some(AreaColumn::FortModeRoute));
        },
        Type::CircleSmartRaid => {
            lemma_lowers_to("CircleSmartRaid"@, "circlesmartraid"@);
            assert(lower_mode_column("circlesmartraid"@) == Some(AreaColumn::FortModeRoute));
            assert(mode_column("CircleSmartRaid"@) == Some(AreaColumn::FortModeRoute));
        },
        Type::ManualQuest => {
            lemma_lowers_to("ManualQuest"@, "manualquest"@);
            assert("manualquest"@[0] != "circlepokemon"@[0]);
            assert("manualquest"@[0] != "circle_pokemon"@[0]);
            assert("manualquest"@[0] != "circlesmartpokemon"@[0]);
            assert("manualquest"@[0] != "circle_smart_pokemon"@[0]);
            assert("manualquest"@[0] != "circleraid"@[0]);
            assert("manualquest"@[0] != "circle_raid"@[0]);
            assert("manualquest"@[0] != "circlesmartraid"@[0]);
            assert("manualquest"@[0] != "circle_smart_raid"@[0]);
            assert("ManualQuest"@[0] != "AutoQuest"@[0]);
            assert("ManualQuest"@[0] != "AutoPokemon"@[0]);
            assert("ManualQuest"@[0] != "AutoTth"@[0]);
            assert("ManualQuest"@[0] != "PokemonIv"@[0]);
            assert("ManualQuest"@[0] != "CirclePokemon"@[0]);
            assert("ManualQuest"@[0] != "CircleSmartPokemon"@[0]);
            assert("ManualQuest"@[0] != "CircleRaid"@[0]);
            assert("ManualQuest"@[0] != "CircleSmartRaid"@[0]);
            assert(lower_mode_column("manualquest"@) == Some(AreaColumn::QuestModeRoute));
            assert(mode_column("ManualQuest"@) == Some(AreaColumn::QuestModeRoute));
        },
        Type::AutoQuest => {
            lemma_lowers_to("AutoQuest"@, "autoquest"@);
            assert(lower_mode_column("autoquest"@) == Some(AreaColumn::Geofence));
            assert(mode_column("AutoQuest"@) == Some(AreaColumn::Geofence));
        },
        Type::PokemonIv => {
            lemma_lowers_to("PokemonIv"@, seq!['p', 'o', 'k', 'e', 'm', 'o', 'n', 'i', 'v']);
            assert(lower_mode_column(seq!['p', 'o', 'k', 'e', 'm', 'o', 'n', 'i', 'v']) is None);
        },
        Type::Leveling => {
            lemma_lowers_to("Leveling"@, seq!['l', 'e', 'v', 'e', 'l', 'i', 'n', 'g']);
            assert(lower_mode_column(seq!['l', 'e', 'v', 'e', 'l', 'i', 'n', 'g']) is None);
        },
    }
}

/// What a feature stores under a key.
pub open spec fn prop(f: Feature, k: Seq<char>) -> Option<PropertyValue> {
    match f.props() {
        Some(s) => property_in(s, k),
        None => None,
    }
}

/// The column a feature's `__mode` property saves it to.
pub open spec fn feature_column(f: Feature) -> Option<AreaColumn> {
    match prop(f, "__mode"@) {
        Some(PropertyValue::Text(m)) => lower_mode_column(lowered(m@)),
        _ => None,
    }
}

/// Finds the text stored under a key, if it is text.
fn text_property<'a>(f: &'a Feature, key: &str) -> (r: Option<Option<&'a String>>)
    ensures
        match prop(*f, key@) {
            None => r is None,
            Some(PropertyValue::Text(t)) => r == Some(Some(&t)),
            Some(_) => r == Some(None::<&String>),
        },
{
    match f.property(key) {
        None => None,
        Some(PropertyValue::Text(t)) => Some(Some(t)),
        Some(_) => Some(None),
    }
}

/// Where a feature is saved: its `__name` text and the column its `__mode`
/// names, or the message it is refused with.
pub open spec fn upsert_outcome(f: Feature) -> Result<(Seq<char>, AreaColumn), Seq<char>> {
    match prop(f, "__name"@) {
        None => Err("[AREA] Couldn't save area, name not found in GeoJson!"@),
        Some(PropertyValue::Text(name)) => match feature_column(f) {
            Some(c) => Ok((name@, c)),
            None => Err("[AREA] Couldn't determine column for "@ + name@),
        },
        Some(_) => Err("[AREA] Couldn't save area, name property is malformed"@),
    }
}

/// The area name and column a feature is saved under. A feature without a
/// `__name` text, or whose `__mode` names no column, is refused with the
/// message the server logs.
pub fn upsert_target(feat: &Feature) -> (r: Result<(String, AreaColumn), String>)
    ensures
        match upsert_outcome(*feat) {
            Ok((name, c)) => r matches Ok((n, col)) && n@ == name && col == c,
            Err(m) => r matches Err(e) && e@ == m,
        },
{
    match text_property(feat, "__name") {
        None => Err(String::from_str("[AREA] Couldn't save area, name not found in GeoJson!")),
        Some(None) => Err(String::from_str("[AREA] Couldn't save area, name property is malformed")),
        Some(Some(name)) => {
            let column = match text_property(feat, "__mode") {
                Some(Some(m)) => {
                    let lower = to_lowercase(m.as_str());
                    column_for_lowercase_mode(lower.as_str())
                },
                _ => None,
            };
            match column {
                Some(c) => Ok((name.clone(), c)),
                None => {
                    let mut e = String::from_str("[AREA] Couldn't determine column for ");
                    e.append(name.as_str());
                    Err(e)
                },
            }
        },
    }
}

/// The id a name maps to when `(name, id)` rows are collected into a map:
/// the last row with that name wins.
pub open spec fn last_id_for(rows: Seq<(String, u32)>, name: Seq<char>) -> Option<u32>
    decreases rows.len(),
{
    if rows.len() == 0 {
        None
    } else if rows.last().0@ == name {
        Some(rows.last().1)
    } else {
        last_id_for(rows.drop_last(), name)
    }
}

/// The id stored for an area name among `(name, id)` rows.
pub fn existing_id(rows: &Vec<(String, u32)>, name: &str) -> (r: Option<u32>)
    ensures
        r == last_id_for(rows@, name@),
{
    let mut i = rows.len();
    assert(rows@.take(i as int) == rows@);
    while i > 0
        invariant
            i <= rows@.len(),
            last_id_for(rows@, name@) == last_id_for(rows@.take(i as int), name@),
        decreases i,
    {
        let ghost t = rows@.take(i as int);
        assert(t.drop_last() == rows@.take(i - 1));
        if str_eq(rows[i - 1].0.as_str(), name) {
            return Some(rows[i - 1].1);
        }
        i = i - 1;
    }
    None
}

/// What saving a feature does to the areas.
#[derive(Debug)]
pub enum UpsertAction {
    /// Write the feature into a column of the area with this id.
    Update { id: u32, column: AreaColumn },
    /// Add a new area with this name, the feature in the column.
    Insert { name: String, column: AreaColumn },
}

/// What saving a feature does, with the name as characters.
pub enum PlannedAction {
    Update(u32, AreaColumn),
    Insert(Seq<char>, AreaColumn),
}

impl View for UpsertAction {
    type V = PlannedAction;

    open spec fn view(&self) -> PlannedAction {
        match self {
            UpsertAction::Update { id, column } => PlannedAction::Update(*id, *column),
            UpsertAction::Insert { name, column } => PlannedAction::Insert(name@, *column),
        }
    }
}

/// What saving a feature does among the stored `(name, id)` rows: an area of
/// that name is updated, otherwise a new one is inserted; a refused feature
/// gives its message.
pub open spec fn planned(f: Feature, rows: Seq<(String, u32)>) -> Result<PlannedAction, Seq<char>> {
    match upsert_outcome(f) {
        Err(m) => Err(m),
        Ok((name, c)) => match last_id_for(rows, name) {
            Some(id) => Ok(PlannedAction::Update(id, c)),
            None => Ok(PlannedAction::Insert(name, c)),
        },
    }
}

/// The action for a feature among the stored `(name, id)` rows.
pub fn plan_upsert(feat: &Feature, existing: &Vec<(String, u32)>) -> (r: Result<
    UpsertAction,
    String,
>)
    ensures
        match planned(*feat, existing@) {
            Ok(p) => r matches Ok(a) && a@ == p,
            Err(m) => r matches Err(e) && e@ == m,
        },
{
    match upsert_target(feat) {
        Err(e) => Err(e),
        Ok((name, column)) => match existing_id(existing, name.as_str()) {
            Some(id) => Ok(UpsertAction::Update { id, column }),
            None => Ok(UpsertAction::Insert { name, column }),
        },
    }
}

/// A batch of features saved in order: the actions of the features before
/// the first refused one, and that refusal's message.
pub struct BatchPlan {
    pub actions: Vec<UpsertAction>,
    pub refused: Option<String>,
}

pub open spec fn actions_view(v: Seq<UpsertAction>) -> Seq<PlannedAction> {
    v.map_values(|a: UpsertAction| a@)
}

pub open spec fn refusal_view(r: Option<String>) -> Option<Seq<char>> {
    match r {
        Some(e) => Some(e@),
        None => None,
    }
}

/// Saving stops at the first refused feature: every feature before it has
/// its action, in order, and the batch carries that feature's message; with
/// no refusal every feature has its action.
pub open spec fn is_batch_plan(
    feats: Seq<Feature>,
    rows: Seq<(String, u32)>,
    actions: Seq<PlannedAction>,
    refused: Option<Seq<char>>,
) -> bool {
    &&& actions.len() <= feats.len()
    &&& forall|j: int| 0 <= j < actions.len() ==> planned(#[trigger] feats[j], rows) == Ok::<
        PlannedAction,
        Seq<char>,
    >(actions[j])
    &&& match refused {
        Some(m) => actions.len() < feats.len() && planned(feats[actions.len() as int], rows) == Err::<
            PlannedAction,
            Seq<char>,
        >(m),
        None => actions.len() == feats.len(),
    }
}

/// How many of the actions insert a new area.
pub open spec fn count_inserts(s: Seq<PlannedAction>) -> nat
    decreases s.len(),
{
    if s.len() == 0 {
        0
    } else {
        count_inserts(s.drop_last()) + if s.last() is Insert {
            1nat
        } else {
            0nat
        }
    }
}

/// How many of the actions update an area.
pub open spec fn count_updates(s: Seq<PlannedAction>) -> nat
    decreases s.len(),
{
    if s.len() == 0 {
        0
    } else {
        count_updates(s.drop_last()) + if s.last() is Update {
            1nat
        } else {
            0nat
        }
    }
}

/// Every action either inserts or updates.
pub proof fn lemma_counts_add_up(s: Seq<PlannedAction>)
    ensures
        count_inserts(s) + count_updates(s) == s.len(),
    decreases s.len(),
{
    if s.len() > 0 {
        lemma_counts_add_up(s.drop_last());
    }
}

/// Plans saving a batch of features among the stored `(name, id)` rows.
pub fn plan_batch(feats: &Vec<Feature>, existing: &Vec<(String, u32)>) -> (r: BatchPlan)
    ensures
        is_batch_plan(feats@, existing@, actions_view(r.actions@), refusal_view(r.refused)),
{
    let mut actions: Vec<UpsertAction> = Vec::new();
    let n = feats.len();
    let mut i: usize = 0;
    while i < n
        invariant
            n == feats@.len(),
            i <= n,
            actions@.len() == i,
            forall|j: int|
                0 <= j < i ==> planned(#[trigger] feats@[j], existing@) == Ok::<
                    PlannedAction,
                    Seq<char>,
                >(actions@[j]@),
        decreases n - i,
    {
        match plan_upsert(&feats[i], existing) {
            Ok(a) => {
                actions.push(a);
            },
            Err(e) => {
                let r = BatchPlan { actions, refused: Some(e) };
                assert(actions_view(r.actions@).len() == i);
                return r;
            },
        }
        i = i + 1;
    }
    BatchPlan { actions, refused: None }
}

impl BatchPlan {
    /// How many areas the batch adds and how many it updates.
    pub fn counts(&self) -> (r: (usize, usize))
        ensures
            r.0 == count_inserts(actions_view(self.actions@)),
            r.1 == count_updates(actions_view(self.actions@)),
    {
        let mut inserts: usize = 0;
        let mut updates: usize = 0;
        let n = self.actions.len();
        let ghost all = actions_view(self.actions@);
        for i in 0..n
            invariant
                n == self.actions@.len(),
                all == actions_view(self.actions@),
                inserts == count_inserts(all.take(i as int)),
                updates == count_updates(all.take(i as int)),
                inserts + updates == i,
        {
            proof {
                assert(all.take(i + 1).drop_last() == all.take(i as int));
                lemma_counts_add_up(all.take(i as int));
            }
            match &self.actions[i] {
                UpsertAction::Insert { .. } => inserts = inserts + 1,
                UpsertAction::Update { .. } => updates = updates + 1,
            }
        }
        assert(all.take(n as int) == all);
        (inserts, updates)
    }
}

/// A new area row: the name is always given; a field that is `None` is left
/// for the database to fill in.
pub struct AreaInsert {
    pub name: String,
    pub pokemon_mode_workers: Option<u32>,
    pub pokemon_mode_route: Option<Option<String>>,
    pub fort_mode_workers: Option<u32>,
    pub fort_mode_route: Option<Option<String>>,
    pub quest_mode_workers: Option<u32>,
    pub quest_mode_hours: Option<Option<String>>,
    pub quest_mode_max_login_queue: Option<Option<u16>>,
    pub geofence: Option<Option<String>>,
    pub enable_quests: Option<i8>,
    pub quest_mode_route: Option<Option<String>>,
}

/// The settings a new area takes from the `Default` area, if there is one
/// (all but its quest route).
pub open spec fn from_default(name: String, default: Option<AreaModel>) -> AreaInsert {
    match default {
        Some(d) => AreaInsert {
            name,
            pokemon_mode_workers: Some(d.pokemon_mode_workers),
            pokemon_mode_route: Some(d.pokemon_mode_route),
            fort_mode_workers: Some(d.fort_mode_workers),
            fort_mode_route: Some(d.fort_mode_route),
            quest_mode_workers: Some(d.quest_mode_workers),
            quest_mode_hours: Some(d.quest_mode_hours),
            quest_mode_max_login_queue: Some(d.quest_mode_max_login_queue),
            geofence: Some(d.geofence),
            enable_quests: Some(d.enable_quests),
            quest_mode_route: None,
        },
        None => AreaInsert {
            name,
            pokemon_mode_workers: None,
            pokemon_mode_route: None,
            fort_mode_workers: None,
            fort_mode_route: None,
            quest_mode_workers: None,
            quest_mode_hours: None,
            quest_mode_max_login_queue: None,
            geofence: None,
            enable_quests: None,
            quest_mode_route: None,
        },
    }
}

/// A new area row with `area` written into `column`.
pub open spec fn with_column(a: AreaInsert, column: AreaColumn, area: String) -> AreaInsert {
    match column {
        AreaColumn::Geofence => AreaInsert { geofence: Some(Some(area)), ..a },
        AreaColumn::FortModeRoute => AreaInsert { fort_mode_route: Some(Some(area)), ..a },
        AreaColumn::QuestModeRoute => AreaInsert { quest_mode_route: Some(Some(area)), ..a },
        AreaColumn::PokemonModeRoute => AreaInsert { pokemon_mode_route: Some(Some(area)), ..a },
    }
}

/// The row for a new area: the `Default` area's settings, then the feature's
/// text in its column.
pub fn new_area(name: String, default: Option<AreaModel>, column: AreaColumn, area: String) -> (r:
    AreaInsert)
    ensures
        r == with_column(from_default(name, default), column, area),
{
    let mut new_model = match default {
        Some(d) => AreaInsert {
            name,
            pokemon_mode_workers: Some(d.pokemon_mode_workers),
            pokemon_mode_route: Some(d.pokemon_mode_route),
            fort_mode_workers: Some(d.fort_mode_workers),
            fort_mode_route: Some(d.fort_mode_route),
            quest_mode_workers: Some(d.quest_mode_workers),
            quest_mode_hours: Some(d.quest_mode_hours),
            quest_mode_max_login_queue: Some(d.quest_mode_max_login_queue),
            geofence: Some(d.geofence),
            enable_quests: Some(d.enable_quests),
            quest_mode_route: None,
        },
        None => AreaInsert {
            name,
            pokemon_mode_workers: None,
            pokemon_mode_route: None,
            fort_mode_workers: None,
            fort_mode_route: None,
            quest_mode_workers: None,
            quest_mode_hours: None,
            quest_mode_max_login_queue: None,
            geofence: None,
            enable_quests: None,
            quest_mode_route: None,
        },
    };
    match column {
        AreaColumn::Geofence => new_model.geofence = Some(Some(area)),
        AreaColumn::FortModeRoute => new_model.fort_mode_route = Some(Some(area)),
        AreaColumn::QuestModeRoute => new_model.quest_mode_route = Some(Some(area)),
        AreaColumn::PokemonModeRoute => new_model.pokemon_mode_route = Some(Some(area)),
    }
    new_model
}

/// A new area row holds the saved text in the column it is saved to and
/// nowhere else: every other field is the `Default` area's value (left unset
/// when there is no `Default` area), except the quest route, which is only
/// ever set by saving to it, and the name is the one given.
pub proof fn lemma_new_area_fields(
    name: String,
    default: Option<AreaModel>,
    column: AreaColumn,
    area: String,
)
    ensures
        ({
            let r = with_column(from_default(name, default), column, area);
            &&& r.name == name
            &&& r.geofence == (if column == AreaColumn::Geofence {
                Some(Some(area))
            } else {
                match default {
                    Some(d) => Some(d.geofence),
                    None => None,
                }
            })
            &&& r.pokemon_mode_route == (if column == AreaColumn::PokemonModeRoute {
                Some(Some(area))
            } else {
                match default {
                    Some(d) => Some(d.pokemon_mode_route),
                    None => None,
                }
            })
            &&& r.fort_mode_route == (if column == AreaColumn::FortModeRoute {
                Some(Some(area))
            } else {
                match default {
                    Some(d) => Some(d.fort_mode_route),
                    None => None,
                }
            })
            &&& r.quest_mode_route == (if column == AreaColumn::QuestModeRoute {
                Some(Some(area))
            } else {
                None
            })
            &&& r.pokemon_mode_workers == match default {
                Some(d) => Some(d.pokemon_mode_workers),
                None => None,
            }
            &&& r.fort_mode_workers == match default {
                Some(d) => Some(d.fort_mode_workers),
                None => None,
            }
            &&& r.quest_mode_workers == match default {
                Some(d) => Some(d.quest_mode_workers),
                None => None,
            }
            &&& r.quest_mode_hours == match default {
                Some(d) => Some(d.quest_mode_hours),
                None => None,
            }
            &&& r.quest_mode_max_login_queue == match default {
                Some(d) => Some(d.quest_mode_max_login_queue),
                None => None,
            }
            &&& r.enable_quests == match default {
                Some(d) => Some(d.enable_quests),
                None => None,
            }
        }),
{
}

/// The route a scanner mode draws is the area's stored value in that mode's
/// column: the fence for quest, IV and automatic modes, the Pokémon route for
/// Pokémon circles, the fort route for raid circles and the quest route for
/// manual quests; any other mode draws nothing.
pub proof fn lemma_route_of_mode(model: AreaModel, m: Seq<char>)
    ensures
        (m == "AutoQuest"@ || m == "AutoPokemon"@ || m == "AutoTth"@ || m == "PokemonIv"@)
            ==> route_text(model, m) == model.geofence,
        (m == "CirclePokemon"@ || m == "CircleSmartPokemon"@) ==> route_text(model, m)
            == model.pokemon_mode_route,
        (m == "CircleRaid"@ || m == "CircleSmartRaid"@) ==> route_text(model, m)
            == model.fort_mode_route,
        m == "ManualQuest"@ ==> route_text(model, m) == model.quest_mode_route,
        !(m == "AutoQuest"@ || m == "AutoPokemon"@ || m == "AutoTth"@ || m == "PokemonIv"@ || m
            == "CirclePokemon"@ || m == "CircleSmartPokemon"@ || m == "CircleRaid"@ || m
            == "CircleSmartRaid"@ || m == "ManualQuest"@) ==> route_text(model, m) is None,
{
    reveal_strlit("AutoQuest");
    reveal_strlit("AutoPokemon");
    reveal_strlit("AutoTth");
    reveal_strlit("PokemonIv");
    reveal_strlit("CirclePokemon");
    reveal_strlit("CircleSmartPokemon");
    reveal_strlit("CircleRaid");
    reveal_strlit("CircleSmartRaid");
    reveal_strlit("ManualQuest");
    assert("PokemonIv"@[0] != "AutoQuest"@[0]);
    assert("ManualQuest"@[0] != "AutoPokemon"@[0]);
    assert("AutoPokemon"@.len() != "AutoQuest"@.len());
    assert("AutoTth"@.len() != "AutoQuest"@.len());
    assert("AutoTth"@.len() != "AutoPokemon"@.len());
    assert("PokemonIv"@.len() != "AutoPokemon"@.len());
    assert("PokemonIv"@.len() != "AutoTth"@.len());
    assert("CirclePokemon"@.len() != "AutoQuest"@.len());
    assert("CirclePokemon"@.len() != "AutoPokemon"@.len());
    assert("CirclePokemon"@.len() != "AutoTth"@.len());
    assert("CirclePokemon"@.len() != "PokemonIv"@.len());
    assert("CircleSmartPokemon"@.len() != "AutoQuest"@.len());
    assert("CircleSmartPokemon"@.len() != "AutoPokemon"@.len());
    assert("CircleSmartPokemon"@.len() != "AutoTth"@.len());
    assert("CircleSmartPokemon"@.len() != "PokemonIv"@.len());
    assert("CircleSmartPokemon"@.len() != "CirclePokemon"@.len());
    assert("CircleRaid"@.len() != "AutoQuest"@.len());
    assert("CircleRaid"@.len() != "AutoPokemon"@.len());
    assert("CircleRaid"@.len() != "AutoTth"@.len());
    assert("CircleRaid"@.len() != "PokemonIv"@.len());
    assert("CircleRaid"@.len() != "CirclePokemon"@.len());
    assert("CircleRaid"@.len() != "CircleSmartPokemon"@.len());
    assert("CircleSmartRaid"@.len() != "AutoQuest"@.len());
    assert("CircleSmartRaid"@.len() != "AutoPokemon"@.len());
    assert("CircleSmartRaid"@.len() != "AutoTth"@.len());
    assert("CircleSmartRaid"@.len() != "PokemonIv"@.len());
    assert("CircleSmartRaid"@.len() != "CirclePokemon"@.len());
    assert("CircleSmartRaid"@.len() != "CircleSmartPokemon"@.len());
    assert("CircleSmartRaid"@.len() != "CircleRaid"@.len());
    assert("ManualQuest"@.len() != "AutoQuest"@.len());
    assert("ManualQuest"@.len() != "AutoTth"@.len());
    assert("ManualQuest"@.len() != "PokemonIv"@.len());
    assert("ManualQuest"@.len() != "CirclePokemon"@.len());
    assert("ManualQuest"@.len() != "CircleSmartPokemon"@.len());
    assert("ManualQuest"@.len() != "CircleRaid"@.len());
    assert("ManualQuest"@.len() != "CircleSmartRaid"@.len());
}

/// Each instance type draws from its own kind of route: Pokémon circles from
/// the Pokémon route, raid circles from the fort route, manual quests from
/// the quest route, automatic quests and IV areas from the fence; leveling
/// draws nothing.
pub proof fn lemma_type_draws_its_route(model: AreaModel, t: Type)
    ensures
        (t == Type::CirclePokemon || t == Type::CircleSmartPokemon) ==> route_text(
            model,
            type_label(t),
        ) == model.pokemon_mode_route,
        (t == Type::CircleRaid || t == Type::CircleSmartRaid) ==> route_text(model, type_label(t))
            == model.fort_mode_route,
        t == Type::ManualQuest ==> route_text(model, type_label(t)) == model.quest_mode_route,
        (t == Type::AutoQuest || t == Type::PokemonIv) ==> route_text(model, type_label(t))
            == model.geofence,
        t == Type::Leveling ==> route_text(model, type_label(t)) is None,
{
    lemma_route_of_mode(model, type_label(t));
    reveal_strlit("Leveling");
    reveal_strlit("AutoQuest");
    reveal_strlit("AutoPokemon");
    reveal_strlit("AutoTth");
    reveal_strlit("PokemonIv");
    reveal_strlit("CirclePokemon");
    reveal_strlit("CircleSmartPokemon");
    reveal_strlit("CircleRaid");
    reveal_strlit("CircleSmartRaid");
    reveal_strlit("ManualQuest");
    if t == Type::Leveling {
        assert("Leveling"@[0] != "AutoQuest"@[0]);
        assert("Leveling"@[0] != "AutoPokemon"@[0]);
        assert("Leveling"@[0] != "AutoTth"@[0]);
        assert("Leveling"@[0] != "PokemonIv"@[0]);
        assert("Leveling"@[0] != "CirclePokemon"@[0]);
        assert("Leveling"@[0] != "CircleSmartPokemon"@[0]);
        assert("Leveling"@[0] != "CircleRaid"@[0]);
        assert("Leveling"@[0] != "CircleSmartRaid"@[0]);
        assert("Leveling"@[0] != "ManualQuest"@[0]);
    }
}

/// The id of a scanner feature is the area's id in decimal, two
/// underscores, the mode's name, and `__SCANNER`.
pub proof fn lemma_scanner_id_parts(id: u32, t: Type)
    ensures
        scanner_id(id, t) == decimal_digits(id as nat) + seq!['_', '_'] + type_label(t) + seq![
            '_',
            '_',
            'S',
            'C',
            'A',
            'N',
            'N',
            'E',
            'R',
        ],
{
    reveal_strlit("__");
    reveal_strlit("__SCANNER");
    assert("__"@ =~= seq!['_', '_']);
    assert("__SCANNER"@ =~= seq!['_', '_', 'S', 'C', 'A', 'N', 'N', 'E', 'R']);
}

/// The id a name maps to among `(name, id)` rows is the id of the last row
/// with that name; with no such row there is none.
pub proof fn lemma_last_id_is_last_row(rows: Seq<(String, u32)>, name: Seq<char>)
    ensures
        last_id_for(rows, name) is None <==> forall|i: int|
            0 <= i < rows.len() ==> (#[trigger] rows[i]).0@ != name,
        last_id_for(rows, name) matches Some(id) ==> exists|i: int|
            0 <= i < rows.len() && (#[trigger] rows[i]).0@ == name && rows[i].1 == id && forall|
                j: int,
            |
                i < j < rows.len() ==> (#[trigger] rows[j]).0@ != name,
    decreases rows.len(),
{
    if rows.len() > 0 {
        let r0 = rows.drop_last();
        lemma_last_id_is_last_row(r0, name);
        assert forall|i: int| 0 <= i < r0.len() implies r0[i] == rows[i] by {}
        if rows.last().0@ == name {
            let i = rows.len() - 1;
            assert(rows[i].0@ == name);
        } else {
            if let Some(id) = last_id_for(r0, name) {
                let i = choose|i: int|
                    0 <= i < r0.len() && (#[trigger] r0[i]).0@ == name && r0[i].1 == id && forall|
                        j: int,
                    |
                        i < j < r0.len() ==> (#[trigger] r0[j]).0@ != name;
                assert(rows[i] == r0[i]);
                assert forall|j: int| i < j < rows.len() implies (#[trigger] rows[j]).0@ != name by {
                    if j < r0.len() {
                        assert(rows[j] == r0[j]);
                    }
                }
            }
        }
    }
}

/// The counts of a batch are the numbers of its inserting and of its
/// updating actions.
pub proof fn lemma_counts_are_filters(s: Seq<PlannedAction>)
    ensures
        count_inserts(s) == s.filter(|a: PlannedAction| a is Insert).len(),
        count_updates(s) == s.filter(|a: PlannedAction| a is Update).len(),
    decreases s.len(),
{
    reveal(Seq::filter);
    if s.len() > 0 {
        lemma_counts_are_filters(s.drop_last());
    }
}

/// A feature drawn from an area for a scanner mode, and saved back, is saved
/// under the area's name to the column it was drawn from; IV and leveling
/// features are refused as naming no column.
pub proof fn lemma_scanner_feature_plans_back(
    f: Feature,
    base: Option<Properties>,
    id: u32,
    name: String,
    mode: String,
    t: Type,
)
    requires
        mode@ == type_label(t),
        f.props() == set_in(
            set_in(
                set_in(base, "__id"@, PropertyValue::Number(id)),
                "__name"@,
                PropertyValue::Text(name),
            ),
            "__mode"@,
            PropertyValue::Text(mode),
        ),
    ensures
        (t == Type::CirclePokemon || t == Type::CircleSmartPokemon) ==> upsert_outcome(f) == Ok::<
            (Seq<char>, AreaColumn),
            Seq<char>,
        >((name@, AreaColumn::PokemonModeRoute)),
        (t == Type::CircleRaid || t == Type::CircleSmartRaid) ==> upsert_outcome(f) == Ok::<
            (Seq<char>, AreaColumn),
            Seq<char>,
        >((name@, AreaColumn::FortModeRoute)),
        t == Type::ManualQuest ==> upsert_outcome(f) == Ok::<(Seq<char>, AreaColumn), Seq<char>>(
            (name@, AreaColumn::QuestModeRoute),
        ),
        t == Type::AutoQuest ==> upsert_outcome(f) == Ok::<(Seq<char>, AreaColumn), Seq<char>>(
            (name@, AreaColumn::Geofence),
        ),
        (t == Type::PokemonIv || t == Type::Leveling) ==> upsert_outcome(f) == Err::<
            (Seq<char>, AreaColumn),
            Seq<char>,
        >("[AREA] Couldn't determine column for "@ + name@),
{
    reveal_strlit("__id");
    reveal_strlit("__name");
    reveal_strlit("__mode");
    assert("__name"@[2] != "__mode"@[2]);
    assert("__name"@.len() != "__id"@.len());
    assert("__mode"@.len() != "__id"@.len());
    let p1 = set_in(base, "__id"@, PropertyValue::Number(id));
    lemma_set_in_reads(base, "__id"@, PropertyValue::Number(id));
    let p2 = set_in(p1, "__name"@, PropertyValue::Text(name));
    lemma_set_in_reads(p1, "__name"@, PropertyValue::Text(name));
    lemma_set_in_reads(p2, "__mode"@, PropertyValue::Text(mode));
    assert(prop(f, "__name"@) == props_get(f.props(), "__name"@));
    assert(prop(f, "__name"@) == Some(PropertyValue::Text(name)));
    assert(prop(f, "__mode"@) == props_get(f.props(), "__mode"@));
    assert(prop(f, "__mode"@) == Some(PropertyValue::Text(mode)));
    lemma_scanner_mode_saves_back(t);
    reveal_strlit("CirclePokemon");
    reveal_strlit("CircleSmartPokemon");
    reveal_strlit("CircleRaid");
    reveal_strlit("CircleSmartRaid");
    reveal_strlit("ManualQuest");
    reveal_strlit("AutoQuest");
    reveal_strlit("AutoPokemon");
    reveal_strlit("AutoTth");
    reveal_strlit("PokemonIv");
    lemma_route_columns(t);
}

/// The scanner mode names differ from one another.
proof fn lemma_mode_names_distinct()
    ensures
        "AutoPokemon"@ != "AutoQuest"@,
        "AutoTth"@ != "AutoQuest"@,
        "AutoTth"@ != "AutoPokemon"@,
        "PokemonIv"@ != "AutoQuest"@,
        "PokemonIv"@ != "AutoPokemon"@,
        "PokemonIv"@ != "AutoTth"@,
        "CirclePokemon"@ != "AutoQuest"@,
        "CirclePokemon"@ != "AutoPokemon"@,
        "CirclePokemon"@ != "AutoTth"@,
        "CirclePokemon"@ != "PokemonIv"@,
        "CircleSmartPokemon"@ != "AutoQuest"@,
        "CircleSmartPokemon"@ != "AutoPokemon"@,
        "CircleSmartPokemon"@ != "AutoTth"@,
        "CircleSmartPokemon"@ != "PokemonIv"@,
        "CircleSmartPokemon"@ != "CirclePokemon"@,
        "CircleRaid"@ != "AutoQuest"@,
        "CircleRaid"@ != "AutoPokemon"@,
        "CircleRaid"@ != "AutoTth"@,
        "CircleRaid"@ != "PokemonIv"@,
        "CircleRaid"@ != "CirclePokemon"@,
        "CircleRaid"@ != "CircleSmartPokemon"@,
        "CircleSmartRaid"@ != "AutoQuest"@,
        "CircleSmartRaid"@ != "AutoPokemon"@,
        "CircleSmartRaid"@ != "AutoTth"@,
        "CircleSmartRaid"@ != "PokemonIv"@,
        "CircleSmartRaid"@ != "CirclePokemon"@,
        "CircleSmartRaid"@ != "CircleSmartPokemon"@,
        "CircleSmartRaid"@ != "CircleRaid"@,
        "ManualQuest"@ != "AutoQuest"@,
        "ManualQuest"@ != "AutoPokemon"@,
        "ManualQuest"@ != "AutoTth"@,
        "ManualQuest"@ != "PokemonIv"@,
        "ManualQuest"@ != "CirclePokemon"@,
        "ManualQuest"@ != "CircleSmartPokemon"@,
        "ManualQuest"@ != "CircleRaid"@,
        "ManualQuest"@ != "CircleSmartRaid"@,
        "Leveling"@ != "AutoQuest"@,
        "Leveling"@ != "AutoPokemon"@,
        "Leveling"@ != "AutoTth"@,
        "Leveling"@ != "PokemonIv"@,
        "Leveling"@ != "CirclePokemon"@,
        "Leveling"@ != "CircleSmartPokemon"@,
        "Leveling"@ != "CircleRaid"@,
        "Leveling"@ != "CircleSmartRaid"@,
        "Leveling"@ != "ManualQuest"@,
{
    reveal_strlit("AutoQuest");
    reveal_strlit("AutoPokemon");
    reveal_strlit("AutoTth");
    reveal_strlit("PokemonIv");
    reveal_strlit("CirclePokemon");
    reveal_strlit("CircleSmartPokemon");
    reveal_strlit("CircleRaid");
    reveal_strlit("CircleSmartRaid");
    reveal_strlit("ManualQuest");
    reveal_strlit("Leveling");
    assert("AutoPokemon"@.len() != "AutoQuest"@.len());
    assert("AutoTth"@.len() != "AutoQuest"@.len());
    assert("AutoTth"@.len() != "AutoPokemon"@.len());
    assert("PokemonIv"@[0] != "AutoQuest"@[0]);
    assert("PokemonIv"@.len() != "AutoPokemon"@.len());
    assert("PokemonIv"@.len() != "AutoTth"@.len());
    assert("CirclePokemon"@.len() != "AutoQuest"@.len());
    assert("CirclePokemon"@.len() != "AutoPokemon"@.len());
    assert("CirclePokemon"@.len() != "AutoTth"@.len());
    assert("CirclePokemon"@.len() != "PokemonIv"@.len());
    assert("CircleSmartPokemon"@.len() != "AutoQuest"@.len());
    assert("CircleSmartPokemon"@.len() != "AutoPokemon"@.len());
    assert("CircleSmartPokemon"@.len() != "AutoTth"@.len());
    assert("CircleSmartPokemon"@.len() != "PokemonIv"@.len());
    assert("CircleSmartPokemon"@.len() != "CirclePokemon"@.len());
    assert("CircleRaid"@.len() != "AutoQuest"@.len());
    assert("CircleRaid"@.len() != "AutoPokemon"@.len());
    assert("CircleRaid"@.len() != "AutoTth"@.len());
    assert("CircleRaid"@.len() != "PokemonIv"@.len());
    assert("CircleRaid"@.len() != "CirclePokemon"@.len());
    assert("CircleRaid"@.len() != "CircleSmartPokemon"@.len());
    assert("CircleSmartRaid"@.len() != "AutoQuest"@.len());
    assert("CircleSmartRaid"@.len() != "AutoPokemon"@.len());
    assert("CircleSmartRaid"@.len() != "AutoTth"@.len());
    assert("CircleSmartRaid"@.len() != "PokemonIv"@.len());
    assert("CircleSmartRaid"@.len() != "CirclePokemon"@.len());
    assert("CircleSmartRaid"@.len() != "CircleSmartPokemon"@.len());
    assert("CircleSmartRaid"@.len() != "CircleRaid"@.len());
    assert("ManualQuest"@.len() != "AutoQuest"@.len());
    assert("ManualQuest"@[0] != "AutoPokemon"@[0]);
    assert("ManualQuest"@.len() != "AutoTth"@.len());
    assert("ManualQuest"@.len() != "PokemonIv"@.len());
    assert("ManualQuest"@.len() != "CirclePokemon"@.len());
    assert("ManualQuest"@.len() != "CircleSmartPokemon"@.len());
    assert("ManualQuest"@.len() != "CircleRaid"@.len());
    assert("ManualQuest"@.len() != "CircleSmartRaid"@.len());
    assert("Leveling"@.len() != "AutoQuest"@.len());
    assert("Leveling"@.len() != "AutoPokemon"@.len());
    assert("Leveling"@.len() != "AutoTth"@.len());
    assert("Leveling"@.len() != "PokemonIv"@.len());
    assert("Leveling"@.len() != "CirclePokemon"@.len());
    assert("Leveling"@.len() != "CircleSmartPokemon"@.len());
    assert("Leveling"@.len() != "CircleRaid"@.len());
    assert("Leveling"@.len() != "CircleSmartRaid"@.len());
    assert("Leveling"@.len() != "ManualQuest"@.len());
}

/// The column each instance type's name selects.
proof fn lemma_route_columns(t: Type)
    ensures
        (t == Type::CirclePokemon || t == Type::CircleSmartPokemon) ==> mode_column(type_label(t))
            == Some(AreaColumn::PokemonModeRoute),
        (t == Type::CircleRaid || t == Type::CircleSmartRaid) ==> mode_column(type_label(t))
            == Some(AreaColumn::FortModeRoute),
        t == Type::ManualQuest ==> mode_column(type_label(t)) == Some(AreaColumn::QuestModeRoute),
        t == Type::AutoQuest ==> mode_column(type_label(t)) == Some(AreaColumn::Geofence),
{
    lemma_mode_names_distinct();
}

/// A mode written with underscores between its words saves to the same
/// column as the mode written without them; smart and plain circles of a
/// kind save to the same column.
pub proof fn lemma_mode_spellings_agree()
    ensures
        lower_mode_column("circle_pokemon"@) == lower_mode_column("circlepokemon"@),
        lower_mode_column("circle_smart_pokemon"@) == lower_mode_column("circlesmartpokemon"@),
        lower_mode_column("circle_raid"@) == lower_mode_column("circleraid"@),
        lower_mode_column("circle_smart_raid"@) == lower_mode_column("circlesmartraid"@),
        lower_mode_column("manual_quest"@) == lower_mode_column("manualquest"@),
        lower_mode_column("auto_quest"@) == lower_mode_column("autoquest"@),
        lower_mode_column("circlesmartpokemon"@) == lower_mode_column("circlepokemon"@),
        lower_mode_column("circlesmartraid"@) == lower_mode_column("circleraid"@),
{
    reveal_strlit("circlepokemon");
    reveal_strlit("circle_pokemon");
    reveal_strlit("circlesmartpokemon");
    reveal_strlit("circle_smart_pokemon");
    reveal_strlit("circleraid");
    reveal_strlit("circle_raid");
    reveal_strlit("circlesmartraid");
    reveal_strlit("circle_smart_raid");
    reveal_strlit("manualquest");
    reveal_strlit("manual_quest");
    reveal_strlit("autoquest");
    reveal_strlit("auto_quest");
    assert("circle_pokemon"@.len() != "circlepokemon"@.len());
    assert("circlesmartpokemon"@.len() != "circlepokemon"@.len());
    assert("circlesmartpokemon"@.len() != "circle_pokemon"@.len());
    assert("circle_smart_pokemon"@.len() != "circlepokemon"@.len());
    assert("circle_smart_pokemon"@.len() != "circle_pokemon"@.len());
    assert("circle_smart_pokemon"@.len() != "circlesmartpokemon"@.len());
    assert("circleraid"@.len() != "circlepokemon"@.len());
    assert("circleraid"@.len() != "circle_pokemon"@.len());
    assert("circleraid"@.len() != "circlesmartpokemon"@.len());
    assert("circleraid"@.len() != "circle_smart_pokemon"@.len());
    assert("circle_raid"@.len() != "circlepokemon"@.len());
    assert("circle_raid"@.len() != "circle_pokemon"@.len());
    assert("circle_raid"@.len() != "circlesmartpokemon"@.len());
    assert("circle_raid"@.len() != "circle_smart_pokemon"@.len());
    assert("circle_raid"@.len() != "circleraid"@.len());
    assert("circlesmartraid"@.len() != "circlepokemon"@.len());
    assert("circlesmartraid"@.len() != "circle_pokemon"@.len());
    assert("circlesmartraid"@.len() != "circlesmartpokemon"@.len());
    assert("circlesmartraid"@.len() != "circle_smart_pokemon"@.len());
    assert("circlesmartraid"@.len() != "circleraid"@.len());
    assert("circlesmartraid"@.len() != "circle_raid"@.len());
    assert("circle_smart_raid"@.len() != "circlepokemon"@.len());
    assert("circle_smart_raid"@.len() != "circle_pokemon"@.len());
    assert("circle_smart_raid"@.len() != "circlesmartpokemon"@.len());
    assert("circle_smart_raid"@.len() != "circle_smart_pokemon"@.len());
    assert("circle_smart_raid"@.len() != "circleraid"@.len());
    assert("circle_smart_raid"@.len() != "circle_raid"@.len());
    assert("circle_smart_raid"@.len() != "circlesmartraid"@.len());
    assert("manualquest"@.len() != "circlepokemon"@.len());
    assert("manualquest"@.len() != "circle_pokemon"@.len());
    assert("manualquest"@.len() != "circlesmartpokemon"@.len());
    assert("manualquest"@.len() != "circle_smart_pokemon"@.len());
    assert("manualquest"@.len() != "circleraid"@.len());
    assert("manualquest"@[0] != "circle_raid"@[0]);
    assert("manualquest"@.len() != "circlesmartraid"@.len());
    assert("manualquest"@.len() != "circle_smart_raid"@.len());
    assert("manual_quest"@.len() != "circlepokemon"@.len());
    assert("manual_quest"@.len() != "circle_pokemon"@.len());
    assert("manual_quest"@.len() != "circlesmartpokemon"@.len());
    assert("manual_quest"@.len() != "circle_smart_pokemon"@.len());
    assert("manual_quest"@.len() != "circleraid"@.len());
    assert("manual_quest"@.len() != "circle_raid"@.len());
    assert("manual_quest"@.len() != "circlesmartraid"@.len());
    assert("manual_quest"@.len() != "circle_smart_raid"@.len());
    assert("manual_quest"@.len() != "manualquest"@.len());
    assert("autoquest"@.len() != "circlepokemon"@.len());
    assert("autoquest"@.len() != "circle_pokemon"@.len());
    assert("autoquest"@.len() != "circlesmartpokemon"@.len());
    assert("autoquest"@.len() != "circle_smart_pokemon"@.len());
    assert("autoquest"@.len() != "circleraid"@.len());
    assert("autoquest"@.len() != "circle_raid"@.len());
    assert("autoquest"@.len() != "circlesmartraid"@.len());
    assert("autoquest"@.len() != "circle_smart_raid"@.len());
    assert("autoquest"@.len() != "manualquest"@.len());
    assert("autoquest"@.len() != "manual_quest"@.len());
    assert("auto_quest"@.len() != "circlepokemon"@.len());
    assert("auto_quest"@.len() != "circle_pokemon"@.len());
    assert("auto_quest"@.len() != "circlesmartpokemon"@.len());
    assert("auto_quest"@.len() != "circle_smart_pokemon"@.len());
    assert("auto_quest"@[0] != "circleraid"@[0]);
    assert("auto_quest"@.len() != "circle_raid"@.len());
    assert("auto_quest"@.len() != "circlesmartraid"@.len());
    assert("auto_quest"@.len() != "circle_smart_raid"@.len());
    assert("auto_quest"@.len() != "manualquest"@.len());
    assert("auto_quest"@.len() != "manual_quest"@.len());
    assert("auto_quest"@.len() != "autoquest"@.len());
}

} // verus!
