use koji::area::{
    column_for_lowercase_mode, column_for_mode, display_type, existing_id, finish_scanner_feature,
    get_enum, new_area, plan_upsert, scanner_route, upsert_target, AreaColumn, AreaModel,
    plan_batch, ModelError, UpsertAction,
};
use koji::clusters::select_clusters;
use koji::feature::{from_single_vector, Feature, PropertyValue, Type};
use koji::property::{
    apply_update, like_pattern, lookup_for, not_found, page_flags, PropertyLookup, PropertyModel,
};
use koji::raw_data::{
    area_category, area_source, data_category, invalid_category, no_area_error, AreaSource,
    Category,
};
use koji::spawnpoint::{
    area_query, bound_last_seen, bound_tth, stats_query, stats_total, tth_filter, SpawnpointTth,
    Total, TthFilter, SPAWNPOINT_LIMIT,
};

const ALL_TYPES: [Type; 8] = [
    Type::CirclePokemon,
    Type::CircleSmartPokemon,
    Type::CircleRaid,
    Type::CircleSmartRaid,
    Type::ManualQuest,
    Type::AutoQuest,
    Type::PokemonIv,
    Type::Leveling,
];

fn model() -> AreaModel {
    AreaModel {
        id: 12,
        name: "Downtown".to_string(),
        pokemon_mode_workers: 3,
        pokemon_mode_route: Some("pokemon route".to_string()),
        fort_mode_workers: 4,
        fort_mode_route: None,
        quest_mode_workers: 5,
        quest_mode_hours: Some("1,2".to_string()),
        quest_mode_max_login_queue: Some(9),
        geofence: Some("fence".to_string()),
        enable_quests: 1,
        quest_mode_route: Some("quest route".to_string()),
    }
}

fn custom(e: ModelError) -> String {
    match e {
        ModelError::Custom(s) => s,
        ModelError::Geofence(s) => panic!("unexpected geofence error {}", s),
    }
}

#[test]
fn get_enum_reads_type_names() {
    for t in ALL_TYPES {
        assert_eq!(get_enum(Some(display_type(t))), Some(t));
    }
    assert_eq!(display_type(Type::CircleSmartRaid), "CircleSmartRaid");
    assert_eq!(get_enum(Some("AutoPokemon")), None);
    assert_eq!(get_enum(Some("autoquest")), None);
    assert_eq!(get_enum(None), None);
}

#[test]
fn column_for_mode_maps_scanner_modes() {
    assert_eq!(column_for_mode("AutoQuest"), Some(AreaColumn::Geofence));
    assert_eq!(column_for_mode("AutoPokemon"), Some(AreaColumn::Geofence));
    assert_eq!(column_for_mode("AutoTth"), Some(AreaColumn::Geofence));
    assert_eq!(column_for_mode("PokemonIv"), Some(AreaColumn::Geofence));
    assert_eq!(column_for_mode("CirclePokemon"), Some(AreaColumn::PokemonModeRoute));
    assert_eq!(column_for_mode("CircleSmartPokemon"), Some(AreaColumn::PokemonModeRoute));
    assert_eq!(column_for_mode("CircleRaid"), Some(AreaColumn::FortModeRoute));
    assert_eq!(column_for_mode("CircleSmartRaid"), Some(AreaColumn::FortModeRoute));
    assert_eq!(column_for_mode("ManualQuest"), Some(AreaColumn::QuestModeRoute));
    assert_eq!(column_for_mode("Leveling"), None);
}

#[test]
fn scanner_route_picks_the_column() {
    let (t, text) = scanner_route(model(), "CirclePokemon").ok().unwrap();
    assert_eq!((t, text.as_str()), (Type::CirclePokemon, "pokemon route"));
    let (t, text) = scanner_route(model(), "AutoQuest").ok().unwrap();
    assert_eq!((t, text.as_str()), (Type::AutoQuest, "fence"));
    let (t, text) = scanner_route(model(), "ManualQuest").ok().unwrap();
    assert_eq!((t, text.as_str()), (Type::ManualQuest, "quest route"));
}

#[test]
fn scanner_route_errors() {
    assert_eq!(custom(scanner_route(model(), "Nope").err().unwrap()), "Area not found");
    assert_eq!(custom(scanner_route(model(), "AutoTth").err().unwrap()), "Area not found");
    assert_eq!(
        custom(scanner_route(model(), "CircleRaid").err().unwrap()),
        "Unable to determine route"
    );
    assert_eq!(
        custom(scanner_route(model(), "Leveling").err().unwrap()),
        "Unable to determine route"
    );
}

#[test]
fn finish_scanner_feature_sets_id_and_properties() {
    let f = from_single_vector(vec![[1, 2], [3, 4]], Some(&Type::CircleRaid));
    let f = finish_scanner_feature(f, 12, "Downtown".to_string(), Type::CircleRaid);
    assert_eq!(f.id.as_deref(), Some("12__CircleRaid__SCANNER"));
    assert!(matches!(f.property("__id"), Some(PropertyValue::Number(12))));
    assert!(matches!(f.property("__name"), Some(PropertyValue::Text(n)) if n == "Downtown"));
    assert!(matches!(f.property("__mode"), Some(PropertyValue::Text(m)) if m == "CircleRaid"));
    assert!(f.geometry.is_some());
}

fn feature_with(name: Option<PropertyValue>, mode: Option<PropertyValue>) -> Feature {
    let mut f = Feature::new();
    if let Some(n) = name {
        f.set_property("__name".to_string(), n);
    }
    if let Some(m) = mode {
        f.set_property("__mode".to_string(), m);
    }
    f
}

fn text(s: &str) -> PropertyValue {
    PropertyValue::Text(s.to_string())
}

#[test]
fn lowercase_modes_map_to_columns() {
    assert_eq!(column_for_lowercase_mode("circle_smart_pokemon"), Some(AreaColumn::PokemonModeRoute));
    assert_eq!(column_for_lowercase_mode("circleraid"), Some(AreaColumn::FortModeRoute));
    assert_eq!(column_for_lowercase_mode("manual_quest"), Some(AreaColumn::QuestModeRoute));
    assert_eq!(column_for_lowercase_mode("auto_quest"), Some(AreaColumn::Geofence));
    assert_eq!(column_for_lowercase_mode("AutoQuest"), None);
    assert_eq!(column_for_lowercase_mode("pokemoniv"), None);
}

#[test]
fn upsert_target_lowercases_the_mode() {
    let f = feature_with(Some(text("Downtown")), Some(text("CIRCLE_RAID")));
    let (name, column) = upsert_target(&f).unwrap();
    assert_eq!((name.as_str(), column), ("Downtown", AreaColumn::FortModeRoute));
    let f = feature_with(Some(text("Downtown")), Some(text("AutoQuest")));
    assert_eq!(upsert_target(&f).unwrap().1, AreaColumn::Geofence);
}

#[test]
fn upsert_target_errors() {
    let f = feature_with(None, Some(text("AutoQuest")));
    assert_eq!(upsert_target(&f).unwrap_err(), "[AREA] Couldn't save area, name not found in GeoJson!");
    let f = feature_with(Some(PropertyValue::Number(3)), Some(text("AutoQuest")));
    assert_eq!(upsert_target(&f).unwrap_err(), "[AREA] Couldn't save area, name property is malformed");
    let f = feature_with(Some(text("Downtown")), Some(text("PokemonIv")));
    assert_eq!(upsert_target(&f).unwrap_err(), "[AREA] Couldn't determine column for Downtown");
    let f = feature_with(Some(text("Downtown")), Some(PropertyValue::Bool(true)));
    assert_eq!(upsert_target(&f).unwrap_err(), "[AREA] Couldn't determine column for Downtown");
    let f = feature_with(Some(text("Downtown")), None);
    assert_eq!(upsert_target(&f).unwrap_err(), "[AREA] Couldn't determine column for Downtown");
}

fn rows() -> Vec<(String, u32)> {
    vec![("A".to_string(), 1), ("B".to_string(), 2), ("A".to_string(), 3)]
}

#[test]
fn existing_id_takes_the_last_row() {
    assert_eq!(existing_id(&rows(), "A"), Some(3));
    assert_eq!(existing_id(&rows(), "B"), Some(2));
    assert_eq!(existing_id(&rows(), "C"), None);
    assert_eq!(existing_id(&vec![], "A"), None);
}

#[test]
fn plan_upsert_updates_or_inserts() {
    let f = feature_with(Some(text("B")), Some(text("manualquest")));
    match plan_upsert(&f, &rows()).unwrap() {
        UpsertAction::Update { id, column } => {
            assert_eq!((id, column), (2, AreaColumn::QuestModeRoute))
        }
        other => panic!("unexpected {:?}", other),
    }
    let f = feature_with(Some(text("New")), Some(text("circlepokemon")));
    match plan_upsert(&f, &rows()).unwrap() {
        UpsertAction::Insert { name, column } => {
            assert_eq!((name.as_str(), column), ("New", AreaColumn::PokemonModeRoute))
        }
        other => panic!("unexpected {:?}", other),
    }
    let f = feature_with(None, None);
    assert!(plan_upsert(&f, &rows()).is_err());
}

#[test]
fn new_area_copies_default_settings() {
    let a = new_area("New".to_string(), Some(model()), AreaColumn::FortModeRoute, "text".to_string());
    assert_eq!(a.name, "New");
    assert_eq!(a.pokemon_mode_workers, Some(3));
    assert_eq!(a.pokemon_mode_route, Some(Some("pokemon route".to_string())));
    assert_eq!(a.fort_mode_workers, Some(4));
    assert_eq!(a.fort_mode_route, Some(Some("text".to_string())));
    assert_eq!(a.quest_mode_workers, Some(5));
    assert_eq!(a.quest_mode_hours, Some(Some("1,2".to_string())));
    assert_eq!(a.quest_mode_max_login_queue, Some(Some(9)));
    assert_eq!(a.geofence, Some(Some("fence".to_string())));
    assert_eq!(a.enable_quests, Some(1));
    assert_eq!(a.quest_mode_route, None);
}

#[test]
fn new_area_without_default() {
    let a = new_area("New".to_string(), None, AreaColumn::QuestModeRoute, "q".to_string());
    assert_eq!(a.quest_mode_route, Some(Some("q".to_string())));
    assert_eq!(a.geofence, None);
    assert_eq!(a.pokemon_mode_workers, None);
    assert_eq!(a.enable_quests, None);
}

#[test]
fn plan_batch_plans_every_feature() {
    let feats = vec![
        feature_with(Some(text("B")), Some(text("CirclePokemon"))),
        feature_with(Some(text("New")), Some(text("AutoQuest"))),
        feature_with(Some(text("A")), Some(text("circle_raid"))),
    ];
    let plan = plan_batch(&feats, &rows());
    assert!(plan.refused.is_none());
    assert_eq!(plan.actions.len(), 3);
    assert!(matches!(plan.actions[0], UpsertAction::Update { id: 2, column: AreaColumn::PokemonModeRoute }));
    assert!(matches!(&plan.actions[1], UpsertAction::Insert { name, column: AreaColumn::Geofence } if name == "New"));
    assert!(matches!(plan.actions[2], UpsertAction::Update { id: 3, column: AreaColumn::FortModeRoute }));
    assert_eq!(plan.counts(), (1, 2));
}

#[test]
fn plan_batch_stops_at_first_refusal() {
    let feats = vec![
        feature_with(Some(text("New")), Some(text("ManualQuest"))),
        feature_with(Some(text("B")), Some(text("Leveling"))),
        feature_with(Some(text("A")), Some(text("AutoQuest"))),
    ];
    let plan = plan_batch(&feats, &rows());
    assert_eq!(plan.actions.len(), 1);
    assert_eq!(plan.refused.as_deref(), Some("[AREA] Couldn't determine column for B"));
    assert_eq!(plan.counts(), (1, 0));
}

#[test]
fn plan_batch_of_nothing() {
    let plan = plan_batch(&vec![], &rows());
    assert!(plan.actions.is_empty() && plan.refused.is_none());
    assert_eq!(plan.counts(), (0, 0));
}

#[test]
fn tth_filters() {
    assert_eq!(tth_filter(SpawnpointTth::All), TthFilter::IdNotNull);
    assert_eq!(tth_filter(SpawnpointTth::Known), TthFilter::DespawnSecNotNull);
    assert_eq!(tth_filter(SpawnpointTth::Unknown), TthFilter::DespawnSecNull);
}

#[test]
fn bounds_defaults() {
    assert_eq!(bound_last_seen(None), 0);
    assert_eq!(bound_last_seen(Some(5)), 5);
    assert_eq!(bound_tth(None), SpawnpointTth::All);
    assert_eq!(bound_tth(Some(SpawnpointTth::Unknown)), SpawnpointTth::Unknown);
    assert_eq!(SPAWNPOINT_LIMIT, 2_000_000);
}

#[test]
fn area_query_text() {
    assert_eq!(
        area_query(100, SpawnpointTth::Known, "x = 1"),
        "SELECT lat, lon, despawn_sec FROM spawnpoint WHERE last_seen >= 100 AND despawn_sec IS NOT NULL AND (x = 1) LIMIT 2000000"
    );
    assert_eq!(
        area_query(0, SpawnpointTth::All, "a"),
        "SELECT lat, lon, despawn_sec FROM spawnpoint WHERE last_seen >= 0  AND (a) LIMIT 2000000"
    );
    assert_eq!(
        area_query(7, SpawnpointTth::Unknown, "a"),
        "SELECT lat, lon, despawn_sec FROM spawnpoint WHERE last_seen >= 7 AND despawn_sec IS NULL AND (a) LIMIT 2000000"
    );
}

#[test]
fn stats_query_text() {
    assert_eq!(
        stats_query(1700000000, SpawnpointTth::All, "b"),
        "SELECT COUNT(*) AS total FROM spawnpoint WHERE last_seen >= 1700000000 AND 1=1 AND (b)"
    );
    assert_eq!(
        stats_query(1, SpawnpointTth::Known, "b"),
        "SELECT COUNT(*) AS total FROM spawnpoint WHERE last_seen >= 1 AND despawn_sec IS NOT NULL AND (b)"
    );
    assert_eq!(
        stats_query(1, SpawnpointTth::Unknown, "b"),
        "SELECT COUNT(*) AS total FROM spawnpoint WHERE last_seen >= 1 AND despawn_sec IS NULL AND (b)"
    );
}

#[test]
fn stats_total_defaults_to_zero() {
    assert_eq!(stats_total(None).total, 0);
    assert_eq!(stats_total(Some(Total { total: 42 })).total, 42);
}

#[test]
fn lookup_for_numbers_and_names() {
    assert!(matches!(lookup_for("12".to_string()), PropertyLookup::ById(12)));
    assert!(matches!(lookup_for("+12".to_string()), PropertyLookup::ById(12)));
    assert!(matches!(lookup_for("color".to_string()), PropertyLookup::ByName(n) if n == "color"));
    assert!(matches!(lookup_for("4294967296".to_string()), PropertyLookup::ByName(_)));
    assert!(matches!(lookup_for("-1".to_string()), PropertyLookup::ByName(_)));
}

#[test]
fn not_found_error() {
    assert!(matches!(not_found(), ModelError::Geofence(e) if e == "Does not exist"));
}

#[test]
fn apply_update_keeps_id() {
    let old = PropertyModel { id: 4, name: "a".to_string(), category: 1u8, default_value: None };
    let new = PropertyModel {
        id: 99,
        name: "b".to_string(),
        category: 2u8,
        default_value: Some("x".to_string()),
    };
    let r = apply_update(old, new);
    assert_eq!(r.id, 4);
    assert_eq!(r.name, "b");
    assert_eq!(r.category, 2);
    assert_eq!(r.default_value.as_deref(), Some("x"));
}

#[test]
fn like_pattern_wraps() {
    assert_eq!(like_pattern("park"), "%park%");
    assert_eq!(like_pattern(""), "%%");
}

#[test]
fn page_flags_as_computed() {
    assert_eq!(page_flags(0, 3), (false, true));
    assert_eq!(page_flags(2, 3), (true, false));
    assert_eq!(page_flags(0, 1), (true, false));
    assert_eq!(page_flags(5, 3), (false, false));
    assert_eq!(page_flags(0, 0), (false, false));
}

#[test]
fn data_categories() {
    assert_eq!(data_category("gym"), Some(Category::Gym));
    assert_eq!(data_category("pokestop"), Some(Category::Pokestop));
    assert_eq!(data_category("spawnpoint"), Some(Category::Spawnpoint));
    assert_eq!(data_category("Gym"), None);
    assert_eq!(invalid_category(), "invalid_category");
}

#[test]
fn area_categories_default_to_spawnpoints() {
    assert_eq!(area_category("gym"), Category::Gym);
    assert_eq!(area_category("pokestop"), Category::Pokestop);
    assert_eq!(area_category("spawnpoint"), Category::Spawnpoint);
    assert_eq!(area_category("anything"), Category::Spawnpoint);
}

#[test]
fn area_sources() {
    assert_eq!(area_source(true, true, "rdm"), AreaSource::Reject);
    assert_eq!(area_source(false, false, "rdm"), AreaSource::ScannerInstance);
    assert_eq!(area_source(false, false, "unown"), AreaSource::KojiInstance);
    assert_eq!(area_source(false, true, "rdm"), AreaSource::Given);
    assert_eq!(area_source(true, false, "rdm"), AreaSource::Given);
    assert_eq!(no_area_error(), "no_area_and_empty_instance");
}

#[test]
fn clusters_kept_and_best() {
    let (kept, best) = select_clusters(&vec![2, 5, 1, 5, 3], 3);
    assert_eq!(kept, vec![1, 3, 4]);
    assert_eq!(best, Some(1));
}

#[test]
fn clusters_all_empty() {
    let (kept, best) = select_clusters(&vec![0, 0], 0);
    assert_eq!(kept, vec![0, 1]);
    assert_eq!(best, None);
    let (kept, best) = select_clusters(&vec![], 1);
    assert!(kept.is_empty());
    assert_eq!(best, None);
}
