use koji::feature::{
    from_multi_struct, from_multi_vector, from_poracle, from_single_point, from_single_struct,
    from_single_vector, get_feature, split_multi, str_eq, value_router, ArrayType, Feature,
    Geometry, Poracle, PropertyValue, Type,
};
use koji::geometry::{
    ensure_first_last, from_struct, multi_point, multi_polygon, point, polygon, position,
    positions, GeoValue, PointStruct,
};

fn c(x: f64) -> u64 {
    x.to_bits()
}

fn p(lat: f64, lon: f64) -> [u64; 2] {
    [c(lat), c(lon)]
}

fn pos(lat: f64, lon: f64) -> Vec<u64> {
    vec![c(lon), c(lat)]
}

fn polygon_of(v: &GeoValue) -> Vec<Vec<Vec<u64>>> {
    match v {
        GeoValue::Polygon(r) => r.clone(),
        _ => panic!("not a polygon"),
    }
}

fn geometry_of(f: &Feature) -> &GeoValue {
    &f.geometry.as_ref().expect("geometry").value
}

#[test]
fn position_swaps_to_lon_lat() {
    assert_eq!(position(p(1.5, 2.5)), pos(1.5, 2.5));
    assert_eq!(position([1, 2]), vec![2, 1]);
}

#[test]
fn ensure_first_last_closes_an_open_ring() {
    let ring = vec![[1, 2], [3, 4], [5, 6]];
    assert_eq!(ensure_first_last(ring), vec![[1, 2], [3, 4], [5, 6], [1, 2]]);
}

#[test]
fn ensure_first_last_keeps_a_closed_ring() {
    let ring = vec![[1, 2], [3, 4], [1, 2]];
    assert_eq!(ensure_first_last(ring.clone()), ring);
}

#[test]
fn ensure_first_last_compares_both_coordinates() {
    let ring = vec![[1, 2], [3, 4], [1, 9]];
    assert_eq!(ensure_first_last(ring), vec![[1, 2], [3, 4], [1, 9], [1, 2]]);
    let ring = vec![[1, 2], [3, 4], [9, 2]];
    assert_eq!(ensure_first_last(ring), vec![[1, 2], [3, 4], [9, 2], [1, 2]]);
}

#[test]
fn ensure_first_last_on_empty_and_single() {
    assert_eq!(ensure_first_last(vec![]), Vec::<[u64; 2]>::new());
    assert_eq!(ensure_first_last(vec![[7, 8]]), vec![[7, 8]]);
}

#[test]
fn ensure_first_last_twice_is_once() {
    let once = ensure_first_last(vec![[1, 2], [3, 4]]);
    assert_eq!(ensure_first_last(once.clone()), once);
}

#[test]
fn positions_keep_order() {
    assert_eq!(positions(&vec![[1, 2], [3, 4]]), vec![vec![2, 1], vec![4, 3]]);
}

#[test]
fn polygon_is_one_closed_ring_of_positions() {
    let v = polygon(vec![[1, 2], [3, 4], [5, 6]]);
    assert_eq!(polygon_of(&v), vec![vec![vec![2, 1], vec![4, 3], vec![6, 5], vec![2, 1]]]);
}

#[test]
fn multi_polygon_closes_every_ring() {
    let v = multi_polygon(vec![vec![[1, 2], [3, 4]], vec![[5, 6], [7, 8], [5, 6]]]);
    match v {
        GeoValue::MultiPolygon(ps) => {
            assert_eq!(ps.len(), 2);
            assert_eq!(ps[0], vec![vec![vec![2, 1], vec![4, 3], vec![2, 1]]]);
            assert_eq!(ps[1], vec![vec![vec![6, 5], vec![8, 7], vec![6, 5]]]);
        }
        _ => panic!("not a multi-polygon"),
    }
}

#[test]
fn multi_point_does_not_close() {
    match multi_point(vec![[1, 2], [3, 4]]) {
        GeoValue::MultiPoint(ps) => assert_eq!(ps, vec![vec![2, 1], vec![4, 3]]),
        _ => panic!("not a multi-point"),
    }
}

#[test]
fn point_is_a_position() {
    match point([1, 2]) {
        GeoValue::Point(q) => assert_eq!(q, vec![2, 1]),
        _ => panic!("not a point"),
    }
}

#[test]
fn from_struct_orders_lat_lon() {
    let v = from_struct(vec![PointStruct { lat: 1, lon: 2 }, PointStruct { lat: 3, lon: 4 }]);
    assert_eq!(v, vec![[1, 2], [3, 4]]);
}

#[test]
fn value_router_circle_types_are_points() {
    for t in [
        Type::CirclePokemon,
        Type::CircleSmartPokemon,
        Type::CircleRaid,
        Type::CircleSmartRaid,
        Type::ManualQuest,
    ] {
        match value_router(ArrayType::S(vec![[1, 2], [3, 4]]), Some(&t)) {
            GeoValue::MultiPoint(ps) => assert_eq!(ps, vec![vec![2, 1], vec![4, 3]]),
            _ => panic!("expected multi-point for {:?}", t),
        }
    }
}

#[test]
fn value_router_quest_and_iv_are_polygons() {
    for t in [Type::AutoQuest, Type::PokemonIv] {
        let v = value_router(ArrayType::S(vec![[1, 2], [3, 4]]), Some(&t));
        assert_eq!(polygon_of(&v), vec![vec![vec![2, 1], vec![4, 3], vec![2, 1]]]);
    }
}

#[test]
fn value_router_leveling_is_first_point() {
    match value_router(ArrayType::S(vec![[1, 2], [3, 4]]), Some(&Type::Leveling)) {
        GeoValue::Point(q) => assert_eq!(q, vec![2, 1]),
        _ => panic!("expected a point"),
    }
}

#[test]
fn value_router_without_type_is_polygon() {
    let v = value_router(ArrayType::S(vec![[1, 2], [3, 4]]), None);
    assert_eq!(polygon_of(&v), vec![vec![vec![2, 1], vec![4, 3], vec![2, 1]]]);
}

#[test]
fn value_router_rings_are_multi_polygon_for_any_type() {
    for t in [Some(&Type::CirclePokemon), Some(&Type::Leveling), None] {
        match value_router(ArrayType::M(vec![vec![[1, 2], [3, 4]]]), t) {
            GeoValue::MultiPolygon(ps) => assert_eq!(ps.len(), 1),
            _ => panic!("expected multi-polygon"),
        }
    }
}

#[test]
fn get_feature_has_only_geometry() {
    let f = get_feature(ArrayType::S(vec![[1, 2]]), None);
    assert!(f.id.is_none());
    assert!(f.properties.is_none());
    assert_eq!(polygon_of(geometry_of(&f)), vec![vec![vec![2, 1]]]);
}

#[test]
fn from_single_vector_builds_feature() {
    let f = from_single_vector(vec![p(10.0, 20.0), p(11.0, 21.0)], Some(&Type::AutoQuest));
    assert_eq!(
        polygon_of(geometry_of(&f)),
        vec![vec![pos(10.0, 20.0), pos(11.0, 21.0), pos(10.0, 20.0)]]
    );
    assert!(f.properties.is_none());
}

#[test]
fn from_multi_vector_builds_multi_polygon() {
    let f = from_multi_vector(vec![vec![[1, 2], [3, 4]], vec![[5, 6]]], Some(&Type::ManualQuest));
    match geometry_of(&f) {
        GeoValue::MultiPolygon(ps) => {
            assert_eq!(ps.len(), 2);
            assert_eq!(ps[1], vec![vec![vec![6, 5]]]);
        }
        _ => panic!("expected multi-polygon"),
    }
}

#[test]
fn from_single_point_is_a_point() {
    let f = from_single_point(PointStruct { lat: 5, lon: 6 });
    match geometry_of(&f) {
        GeoValue::Point(q) => assert_eq!(q, &vec![6, 5]),
        _ => panic!("expected point"),
    }
}

#[test]
fn from_single_struct_matches_single_vector() {
    let f = from_single_struct(
        vec![PointStruct { lat: 1, lon: 2 }, PointStruct { lat: 3, lon: 4 }],
        Some(&Type::CircleRaid),
    );
    match geometry_of(&f) {
        GeoValue::MultiPoint(ps) => assert_eq!(ps, &vec![vec![2, 1], vec![4, 3]]),
        _ => panic!("expected multi-point"),
    }
}

#[test]
fn from_multi_struct_is_multi_polygon() {
    let f = from_multi_struct(
        vec![vec![PointStruct { lat: 1, lon: 2 }, PointStruct { lat: 3, lon: 4 }]],
        Some(&Type::Leveling),
    );
    match geometry_of(&f) {
        GeoValue::MultiPolygon(ps) => {
            assert_eq!(ps, &vec![vec![vec![vec![2, 1], vec![4, 3], vec![2, 1]]]])
        }
        _ => panic!("expected multi-polygon"),
    }
}

#[test]
fn split_multi_gives_one_feature_per_polygon() {
    let g = Geometry { value: multi_polygon(vec![vec![[1, 2], [3, 4]], vec![[5, 6], [7, 8]]]) };
    let fs = split_multi(g);
    assert_eq!(fs.len(), 2);
    assert_eq!(polygon_of(geometry_of(&fs[0])), vec![vec![vec![2, 1], vec![4, 3], vec![2, 1]]]);
    assert_eq!(polygon_of(geometry_of(&fs[1])), vec![vec![vec![6, 5], vec![8, 7], vec![6, 5]]]);
    assert!(fs.iter().all(|f| f.id.is_none() && f.properties.is_none()));
}

#[test]
fn split_multi_matches_single_vector_features() {
    let rings = vec![vec![[1, 2], [3, 4]], vec![[5, 6], [7, 8]]];
    let f = from_multi_vector(rings.clone(), None);
    let fs = split_multi(f.geometry.unwrap());
    for (i, ring) in rings.into_iter().enumerate() {
        let single = from_single_vector(ring, None);
        assert_eq!(polygon_of(geometry_of(&fs[i])), polygon_of(geometry_of(&single)));
    }
}

#[test]
fn split_multi_of_other_geometry_is_empty() {
    assert!(split_multi(Geometry { value: polygon(vec![[1, 2]]) }).is_empty());
    assert!(split_multi(Geometry { value: point([1, 2]) }).is_empty());
}

fn empty_poracle() -> Poracle {
    Poracle {
        id: None,
        name: None,
        color: None,
        group: None,
        description: None,
        user_selectable: None,
        display_in_matches: None,
        path: None,
        multipath: None,
    }
}

fn text(f: &Feature, k: &str) -> Option<String> {
    match f.property(k) {
        Some(PropertyValue::Text(t)) => Some(t.clone()),
        _ => None,
    }
}

#[test]
fn from_poracle_path_wins_over_multipath() {
    let mut p = empty_poracle();
    p.path = Some(vec![[1, 2], [3, 4]]);
    p.multipath = Some(vec![vec![[9, 9]]]);
    let f = from_poracle(p);
    assert_eq!(polygon_of(geometry_of(&f)), vec![vec![vec![2, 1], vec![4, 3], vec![2, 1]]]);
    assert!(f.properties.is_none());
}

#[test]
fn from_poracle_multipath() {
    let mut p = empty_poracle();
    p.multipath = Some(vec![vec![[1, 2]], vec![[3, 4]]]);
    let f = from_poracle(p);
    match geometry_of(&f) {
        GeoValue::MultiPolygon(ps) => assert_eq!(ps.len(), 2),
        _ => panic!("expected multi-polygon"),
    }
}

#[test]
fn from_poracle_without_geometry() {
    let f = from_poracle(empty_poracle());
    assert!(f.geometry.is_none());
    assert!(f.id.is_none());
    assert!(f.properties.is_none());
}

#[test]
fn from_poracle_sets_properties_in_order() {
    let mut p = empty_poracle();
    p.name = Some("Downtown".to_string());
    p.id = Some(7);
    p.color = Some("#ff0000".to_string());
    p.group = Some("north".to_string());
    p.description = Some("the centre".to_string());
    p.user_selectable = Some(true);
    p.display_in_matches = Some(false);
    let f = from_poracle(p);
    let keys: Vec<&str> = f.properties.as_ref().unwrap().iter().map(|(k, _)| k.as_str()).collect();
    assert_eq!(
        keys,
        vec!["name", "id", "color", "group", "description", "user_selectable", "display_in_matches"]
    );
    assert_eq!(text(&f, "name"), Some("Downtown".to_string()));
    assert!(matches!(f.property("id"), Some(PropertyValue::Number(7))));
    assert_eq!(text(&f, "color"), Some("#ff0000".to_string()));
    assert_eq!(text(&f, "group"), Some("north".to_string()));
    assert_eq!(text(&f, "description"), Some("the centre".to_string()));
    assert!(matches!(f.property("user_selectable"), Some(PropertyValue::Bool(true))));
    assert!(matches!(f.property("display_in_matches"), Some(PropertyValue::Bool(false))));
    assert!(f.property("missing").is_none());
}

#[test]
fn from_poracle_skips_absent_settings() {
    let mut p = empty_poracle();
    p.group = Some("g".to_string());
    let f = from_poracle(p);
    assert_eq!(f.properties.as_ref().unwrap().len(), 1);
    assert_eq!(text(&f, "group"), Some("g".to_string()));
}

#[test]
fn set_property_reads_back_and_replaces() {
    let mut f = Feature::new();
    assert!(f.properties.is_none());
    assert!(f.property("a").is_none());
    f.set_property("a".to_string(), PropertyValue::Number(1));
    f.set_property("b".to_string(), PropertyValue::Bool(true));
    f.set_property("a".to_string(), PropertyValue::Number(2));
    assert!(matches!(f.property("a"), Some(PropertyValue::Number(2))));
    assert!(matches!(f.property("b"), Some(PropertyValue::Bool(true))));
    assert_eq!(f.properties.as_ref().unwrap().len(), 2);
    assert_eq!(f.properties.as_ref().unwrap()[0].0, "a");
}

#[test]
fn property_finds_first_entry_of_a_key() {
    let mut f = Feature::new();
    f.properties = Some(vec![
        ("k".to_string(), PropertyValue::Number(1)),
        ("k".to_string(), PropertyValue::Number(2)),
    ]);
    assert!(matches!(f.property("k"), Some(PropertyValue::Number(1))));
    f.set_property("k".to_string(), PropertyValue::Number(3));
    assert!(matches!(f.property("k"), Some(PropertyValue::Number(3))));
    assert!(matches!(f.properties.as_ref().unwrap()[1].1, PropertyValue::Number(2)));
}

#[test]
fn str_eq_compares_characters() {
    assert!(str_eq("abc", "abc"));
    assert!(!str_eq("abc", "abd"));
    assert!(!str_eq("abc", "ab"));
    assert!(str_eq("", ""));
    assert!(str_eq("Kōji", "Kōji"));
}
