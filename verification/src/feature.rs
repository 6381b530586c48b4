//! Features: a geometry, an optional id and a property map, built from point
//! lists, named-field points and Poracle geofences.
use vstd::prelude::*;

use crate::multi_struct::{structs_lists, to_multi_vec};
use crate::geometry::{
    from_struct, lists_of, multi_point, multi_polygon, multi_rings, point, points_of_structs, polygon,
    polygon_rings, position_of, positions_of, PointArray, GeoShape, GeoValue, MultiVec, PointStruct, SingleVec,
};

verus! {

/// The kinds of scanner instance an area can be drawn for.
#[derive(Clone, Copy, Debug, PartialEq, Eq, Structural)]
pub enum Type {
    CirclePokemon,
    CircleSmartPokemon,
    CircleRaid,
    CircleSmartRaid,
    ManualQuest,
    AutoQuest,
    PokemonIv,
    Leveling,
}

/// Either one point list or a list of point lists.
pub enum ArrayType {
    S(SingleVec),
    M(MultiVec),
}

/// A geometry of a feature (it carries no bounding box and no foreign members).
pub struct Geometry {
    pub value: GeoValue,
}

/// A property value.
#[derive(Clone, Debug)]
pub enum PropertyValue {
    Text(String),
    Number(u32),
    Bool(bool),
    /// A value of any other kind, as its JSON text.
    Other(String),
}

/// A property list, keys as character sequences: a key is looked up by its
/// first occurrence.
pub type Properties = Seq<(Seq<char>, PropertyValue)>;

/// The property list held by a vector of entries.
pub open spec fn entries_view(v: Seq<(String, PropertyValue)>) -> Properties {
    v.map_values(|e: (String, PropertyValue)| (e.0@, e.1))
}

/// `i` is the first index whose key is `k`.
pub open spec fn is_first_key(s: Properties, k: Seq<char>, i: int) -> bool {
    &&& 0 <= i < s.len()
    &&& s[i].0 == k
    &&& forall|j: int| 0 <= j < i ==> (#[trigger] s[j]).0 != k
}

pub open spec fn has_key(s: Properties, k: Seq<char>) -> bool {
    exists|i: int| is_first_key(s, k, i)
}

pub open spec fn key_index(s: Properties, k: Seq<char>) -> int {
    choose|i: int| is_first_key(s, k, i)
}

/// The value stored under `k`, if any.
pub open spec fn property_in(s: Properties, k: Seq<char>) -> Option<PropertyValue> {
    if has_key(s, k) {
        Some(s[key_index(s, k)].1)
    } else {
        None
    }
}

/// The list after setting `k` to `v`: the entry under `k` is replaced in
/// place, or a new entry is appended.
pub open spec fn with_property(s: Properties, k: Seq<char>, v: PropertyValue) -> Properties {
    if has_key(s, k) {
        s.update(key_index(s, k), (k, v))
    } else {
        s.push((k, v))
    }
}

/// The property list of a feature after setting `k` to `v`; a feature without
/// properties gets a list with that one entry.
pub open spec fn set_in(p: Option<Properties>, k: Seq<char>, v: PropertyValue) -> Option<Properties> {
    Some(
        with_property(
            match p {
                Some(s) => s,
                None => Seq::empty(),
            },
            k,
            v,
        ),
    )
}

/// A GeoJSON feature.
pub struct Feature {
    /// The feature's string id.
    pub id: Option<String>,
    pub geometry: Option<Geometry>,
    /// The property map as a list; see `props` for how keys are looked up.
    pub properties: Option<Vec<(String, PropertyValue)>>,
}

impl Feature {
    /// The property list, `None` when the feature has no property map at all.
    pub open spec fn props(&self) -> Option<Properties> {
        match self.properties {
            Some(v) => Some(entries_view(v@)),
            None => None,
        }
    }

    /// The shape of the geometry, if the feature has one.
    pub open spec fn shape(&self) -> Option<GeoShape> {
        match self.geometry {
            Some(g) => Some(g.value@),
            None => None,
        }
    }

    /// A feature with no id, no geometry and no properties.
    pub fn new() -> (r: Feature)
        ensures
            r.id is None,
            r.geometry is None,
            r.props() is None,
    {
        Feature { id: None, geometry: None, properties: None }
    }

    /// Sets `key` to `value`, creating the property map when there is none.
    pub fn set_property(&mut self, key: String, value: PropertyValue)
        ensures
            final(self).props() == set_in(old(self).props(), key@, value),
            final(self).id == old(self).id,
            final(self).geometry == old(self).geometry,
    {
        let mut props = match self.properties.take() {
            Some(v) => v,
            None => Vec::new(),
        };
        let ghost s = entries_view(props@);
        let ghost p0 = props@;
        assert(set_in(old(self).props(), key@, value) == Some(with_property(s, key@, value)));
        let n = props.len();
        let mut i: usize = 0;
        while i < n
            invariant
                n == props@.len(),
                props@ == p0,
                s == entries_view(p0),
                set_in(old(self).props(), key@, value) == Some(with_property(s, key@, value)),
                self.id == old(self).id,
                self.geometry == old(self).geometry,
                i <= n,
                forall|j: int| 0 <= j < i ==> (#[trigger] s[j]).0 != key@,
            decreases n - i,
        {
            if props[i].0 == key {
                assert(is_first_key(s, key@, i as int));
                proof {
                    lemma_first_key_unique(s, key@, i as int);
                }
                props.set(i, (key, value));
                self.properties = Some(props);
                return;
            }
            i = i + 1;
        }
        assert(!has_key(s, key@));
        let ghost k = key@;
        props.push((key, value));
        assert(entries_view(props@) =~= with_property(s, k, value));
        self.properties = Some(props);
    }

    /// The value stored under `key`, if any.
    pub fn property(&self, key: &str) -> (r: Option<&PropertyValue>)
        ensures
            match self.props() {
                Some(s) => match r {
                    Some(v) => property_in(s, key@) == Some(*v),
                    None => property_in(s, key@) is None,
                },
                None => r is None,
            },
    {
        match &self.properties {
            None => None,
            Some(props) => {
                let n = props.len();
                let mut i: usize = 0;
                while i < n
                    invariant
                        n == props@.len(),
                        self.props() == Some(entries_view(props@)),
                        i <= n,
                        forall|j: int| 0 <= j < i ==> (#[trigger] props@[j]).0@ != key@,
                    decreases n - i,
                {
                    if str_eq(props[i].0.as_str(), key) {
                        proof {
                            let s = entries_view(props@);
                            assert forall|j: int| 0 <= j < i implies (#[trigger] s[j]).0 != key@ by {
                                assert(s[j].0 == props@[j].0@);
                            }
                            lemma_first_key_unique(s, key@, i as int);
                        }
                        return Some(&props[i].1);
                    }
                    i = i + 1;
                }
                None
            },
        }
    }
}

/// The first index of a key is unique.
pub proof fn lemma_first_key_unique(s: Properties, k: Seq<char>, i: int)
    requires
        is_first_key(s, k, i),
    ensures
        has_key(s, k),
        key_index(s, k) == i,
{
    let c = key_index(s, k);
    assert(is_first_key(s, k, c));
    if c < i {
        assert(s[c].0 != k);
    } else if c > i {
        assert(s[i].0 != k);
    }
}

/// A key that occurs somewhere has a first occurrence.
proof fn lemma_key_present(s: Properties, k: Seq<char>, j: int)
    requires
        0 <= j < s.len(),
        s[j].0 == k,
    ensures
        has_key(s, k),
    decreases j,
{
    if forall|l: int| 0 <= l < j ==> (#[trigger] s[l]).0 != k {
        assert(is_first_key(s, k, j));
    } else {
        let l = choose|l: int| 0 <= l < j && (#[trigger] s[l]).0 == k;
        lemma_key_present(s, k, l);
    }
}

/// Reading a key right after setting it gives the value just set.
pub proof fn lemma_property_read_after_write(s: Properties, k: Seq<char>, v: PropertyValue)
    ensures
        property_in(with_property(s, k, v), k) == Some(v),
{
    let t = with_property(s, k, v);
    if has_key(s, k) {
        let i = key_index(s, k);
        assert(is_first_key(s, k, i));
        assert(is_first_key(t, k, i));
        lemma_first_key_unique(t, k, i);
    } else {
        let i = s.len() as int;
        assert forall|j: int| 0 <= j < i implies (#[trigger] t[j]).0 != k by {
            if t[j].0 == k {
                lemma_key_present(s, k, j);
            }
        }
        assert(is_first_key(t, k, i));
        lemma_first_key_unique(t, k, i);
    }
}

/// Setting one key leaves what every other key reads unchanged.
pub proof fn lemma_property_other_keys(
    s: Properties,
    k: Seq<char>,
    v: PropertyValue,
    other: Seq<char>,
)
    requires
        other != k,
    ensures
        property_in(with_property(s, k, v), other) == property_in(s, other),
{
    let t = with_property(s, k, v);
    assert forall|j: int| 0 <= j < s.len() implies ((#[trigger] t[j]).0 == other) == (s[j].0
        == other) by {
        if has_key(s, k) {
            assert(is_first_key(s, k, key_index(s, k)));
        }
    }
    if has_key(s, other) {
        let i = key_index(s, other);
        assert(is_first_key(s, other, i));
        if has_key(s, k) {
            assert(is_first_key(s, k, key_index(s, k)));
        }
        assert(is_first_key(t, other, i));
        lemma_first_key_unique(t, other, i);
    } else {
        if has_key(t, other) {
            let i = key_index(t, other);
            assert(is_first_key(t, other, i));
            if i < s.len() {
                lemma_key_present(s, other, i);
            }
        }
    }
}

/// Character-wise equality of two strings.
pub fn str_eq(a: &str, b: &str) -> (r: bool)
    ensures
        r == (a@ == b@),
{
    let n = a.unicode_len();
    if n != b.unicode_len() {
        return false;
    }
    let mut i: usize = 0;
    while i < n
        invariant
            n == a@.len(),
            n == b@.len(),
            i <= n,
            forall|j: int| 0 <= j < i ==> a@[j] == b@[j],
        decreases n - i,
    {
        if a.get_char(i) != b.get_char(i) {
            return false;
        }
        i = i + 1;
    }
    assert(a@ =~= b@);
    true
}

/// The shape drawn for an area of a given instance type: circle and manual
/// quest routes are loose points, quest and IV areas are polygons, a leveling
/// area is its first point, and a list of rings is always a multi-polygon.
pub open spec fn single_shape(a: Seq<PointArray>, enum_type: Option<Type>) -> GeoShape {
    match enum_type {
        Some(t) => match t {
            Type::CirclePokemon | Type::CircleSmartPokemon | Type::CircleRaid
            | Type::CircleSmartRaid | Type::ManualQuest => GeoShape::MultiPoint(positions_of(a)),
            Type::AutoQuest | Type::PokemonIv => GeoShape::Polygon(polygon_rings(a)),
            Type::Leveling => GeoShape::Point(position_of(a[0])),
        },
        None => GeoShape::Polygon(polygon_rings(a)),
    }
}

pub open spec fn route_shape(area: ArrayType, enum_type: Option<Type>) -> GeoShape {
    match area {
        ArrayType::S(a) => single_shape(a@, enum_type),
        ArrayType::M(m) => GeoShape::MultiPolygon(multi_rings(lists_of(m@))),
    }
}

/// A leveling area is drawn as its first point, so it needs one.
pub open spec fn routable(area: &ArrayType, enum_type: Option<&Type>) -> bool {
    (enum_type == Some(&Type::Leveling) && area is S) ==> area->S_0@.len() > 0
}

pub open spec fn opt_type(enum_type: Option<&Type>) -> Option<Type> {
    match enum_type {
        Some(t) => Some(*t),
        None => None,
    }
}

/// A feature whose only content is a geometry of the given shape.
pub open spec fn is_plain_feature(f: Feature, shape: GeoShape) -> bool {
    &&& f.id is None
    &&& f.props() is None
    &&& f.shape() == Some(shape)
}

/// Picks the geometry for an area.
pub fn value_router(area: ArrayType, enum_type: Option<&Type>) -> (r: GeoValue)
    requires
        routable(&area, enum_type),
    ensures
        r@ == route_shape(area, opt_type(enum_type)),
{
    match enum_type {
        Some(t) => match area {
            ArrayType::S(a) => match t {
                Type::CirclePokemon | Type::CircleSmartPokemon | Type::CircleRaid
                | Type::CircleSmartRaid | Type::ManualQuest => multi_point(a),
                Type::AutoQuest | Type::PokemonIv => polygon(a),
                Type::Leveling => point(a[0]),
            },
            ArrayType::M(m) => multi_polygon(m),
        },
        None => match area {
            ArrayType::S(a) => polygon(a),
            ArrayType::M(m) => multi_polygon(m),
        },
    }
}

/// A feature holding the geometry of an area and nothing else.
pub fn get_feature(area: ArrayType, enum_type: Option<&Type>) -> (r: Feature)
    requires
        routable(&area, enum_type),
    ensures
        is_plain_feature(r, route_shape(area, opt_type(enum_type))),
{
    Feature {
        id: None,
        geometry: Some(Geometry { value: value_router(area, enum_type) }),
        properties: None,
    }
}

/// A feature from one point list.
pub fn from_single_vector(area: SingleVec, enum_type: Option<&Type>) -> (r: Feature)
    requires
        enum_type == Some(&Type::Leveling) ==> area@.len() > 0,
    ensures
        is_plain_feature(r, single_shape(area@, opt_type(enum_type))),
{
    get_feature(ArrayType::S(area), enum_type)
}

/// A feature from a list of rings: always a multi-polygon.
pub fn from_multi_vector(area: MultiVec, enum_type: Option<&Type>) -> (r: Feature)
    ensures
        is_plain_feature(r, GeoShape::MultiPolygon(multi_rings(lists_of(area@)))),
{
    get_feature(ArrayType::M(area), enum_type)
}

/// A leveling feature: the point itself.
pub fn from_single_point(area: PointStruct) -> (r: Feature)
    ensures
        is_plain_feature(r, GeoShape::Point(position_of([area.lat, area.lon]))),
{
    let mut points: Vec<PointStruct> = Vec::new();
    points.push(area);
    let a = from_struct(points);
    assert(a@[0] == [area.lat, area.lon]);
    get_feature(ArrayType::S(a), Some(&Type::Leveling))
}

/// A feature from one list of named-field points.
pub fn from_single_struct(area: Vec<PointStruct>, enum_type: Option<&Type>) -> (r: Feature)
    requires
        enum_type == Some(&Type::Leveling) ==> area@.len() > 0,
    ensures
        is_plain_feature(r, single_shape(points_of_structs(area@), opt_type(enum_type))),
{
    let a = from_struct(area);
    get_feature(ArrayType::S(a), enum_type)
}

/// A feature from a list of rings of named-field points: always a
/// multi-polygon.
pub fn from_multi_struct(area: Vec<Vec<PointStruct>>, enum_type: Option<&Type>) -> (r: Feature)
    ensures
        is_plain_feature(r, GeoShape::MultiPolygon(multi_rings(structs_lists(area@)))),
{
    let m = to_multi_vec(area);
    get_feature(ArrayType::M(m), enum_type)
}

/// Splits a multi-polygon into one polygon feature per polygon; any other
/// geometry gives no features.
pub fn split_multi(feature: Geometry) -> (r: Vec<Feature>)
    ensures
        match feature.value@ {
            GeoShape::MultiPolygon(ps) => {
                &&& r@.len() == ps.len()
                &&& forall|i: int|
                    0 <= i < ps.len() ==> is_plain_feature(
                        #[trigger] r@[i],
                        GeoShape::Polygon(ps[i]),
                    )
            },
            _ => r@.len() == 0,
        },
{
    match feature.value {
        GeoValue::MultiPolygon(val) => {
            let ghost ps = val.deep_view();
            let ghost input = val@;
            let mut r: Vec<Feature> = Vec::new();
            for polygon in it: val
                invariant
                    it.seq() == input,
                    ps == input.map_values(|p: Vec<Vec<Vec<u64>>>| p.deep_view()),
                    r@.len() == it.index(),
                    forall|i: int|
                        0 <= i < it.index() ==> is_plain_feature(
                            #[trigger] r@[i],
                            GeoShape::Polygon(ps[i]),
                        ),
            {
                r.push(
                    Feature {
                        id: None,
                        geometry: Some(Geometry { value: GeoValue::Polygon(polygon) }),
                        properties: None,
                    },
                );
            }
            r
        },
        _ => Vec::new(),
    }
}

/// A geofence in Poracle's format: a name, some display settings, and either
/// one ring (`path`) or several (`multipath`).
pub struct Poracle {
    pub id: Option<u32>,
    pub name: Option<String>,
    pub color: Option<String>,
    pub group: Option<String>,
    pub description: Option<String>,
    pub user_selectable: Option<bool>,
    pub display_in_matches: Option<bool>,
    pub path: Option<SingleVec>,
    pub multipath: Option<MultiVec>,
}

/// The geometry of a Poracle geofence: `path` wins over `multipath`; with
/// neither there is no geometry.
pub open spec fn poracle_shape(p: Poracle) -> Option<GeoShape> {
    match p.path {
        Some(a) => Some(GeoShape::Polygon(polygon_rings(a@))),
        None => match p.multipath {
            Some(m) => Some(GeoShape::MultiPolygon(multi_rings(lists_of(m@)))),
            None => None,
        },
    }
}

pub open spec fn text_prop(ps: Option<Properties>, k: Seq<char>, v: Option<String>) -> Option<
    Properties,
> {
    match v {
        Some(t) => set_in(ps, k, PropertyValue::Text(t)),
        None => ps,
    }
}

pub open spec fn number_prop(ps: Option<Properties>, k: Seq<char>, v: Option<u32>) -> Option<
    Properties,
> {
    match v {
        Some(n) => set_in(ps, k, PropertyValue::Number(n)),
        None => ps,
    }
}

pub open spec fn bool_prop(ps: Option<Properties>, k: Seq<char>, v: Option<bool>) -> Option<
    Properties,
> {
    match v {
        Some(b) => set_in(ps, k, PropertyValue::Bool(b)),
        None => ps,
    }
}

/// The properties of a Poracle geofence, each present setting under its own
/// name, set in the order name, id, color, group, description,
/// user_selectable, display_in_matches.
pub open spec fn poracle_props(p: Poracle) -> Option<Properties> {
    let ps = text_prop(None, "name"@, p.name);
    let ps = number_prop(ps, "id"@, p.id);
    let ps = text_prop(ps, "color"@, p.color);
    let ps = text_prop(ps, "group"@, p.group);
    let ps = text_prop(ps, "description"@, p.description);
    let ps = bool_prop(ps, "user_selectable"@, p.user_selectable);
    bool_prop(ps, "display_in_matches"@, p.display_in_matches)
}

fn set_text(feature: &mut Feature, key: &str, v: Option<String>)
    ensures
        final(feature).props() == text_prop(old(feature).props(), key@, v),
        final(feature).id == old(feature).id,
        final(feature).geometry == old(feature).geometry,
{
    if let Some(t) = v {
        feature.set_property(String::from_str(key), PropertyValue::Text(t));
    }
}

fn set_bool(feature: &mut Feature, key: &str, v: Option<bool>)
    ensures
        final(feature).props() == bool_prop(old(feature).props(), key@, v),
        final(feature).id == old(feature).id,
        final(feature).geometry == old(feature).geometry,
{
    if let Some(b) = v {
        feature.set_property(String::from_str(key), PropertyValue::Bool(b));
    }
}

/// A feature from a Poracle geofence.
pub fn from_poracle(poracle_feat: Poracle) -> (r: Feature)
    ensures
        r.id is None,
        r.shape() == poracle_shape(poracle_feat),
        r.props() == poracle_props(poracle_feat),
{
    let Poracle {
        id,
        name,
        color,
        group,
        description,
        user_selectable,
        display_in_matches,
        path,
        multipath,
    } = poracle_feat;
    let mut feature = if let Some(path) = path {
        from_single_vector(path, None)
    } else if let Some(multipath) = multipath {
        from_multi_vector(multipath, None)
    } else {
        Feature::new()
    };
    set_text(&mut feature, "name", name);
    if let Some(n) = id {
        feature.set_property(String::from_str("id"), PropertyValue::Number(n));
    }
    set_text(&mut feature, "color", color);
    set_text(&mut feature, "group", group);
    set_text(&mut feature, "description", description);
    set_bool(&mut feature, "user_selectable", user_selectable);
    set_bool(&mut feature, "display_in_matches", display_in_matches);
    feature
}

/// Splitting the multi-polygon of a feature built from rings gives, ring by
/// ring, the polygon that `from_single_vector` draws for that ring alone.
pub proof fn lemma_split_matches_single(m: Seq<Seq<PointArray>>, i: int)
    requires
        0 <= i < m.len(),
    ensures
        GeoShape::Polygon(multi_rings(m)[i]) == single_shape(m[i], None),
{
}

/// A Poracle geofence made from rings alone reads back as the multi-polygon
/// of those rings, with no properties.
pub proof fn lemma_poracle_round_trip(p: Poracle, m: Seq<Vec<PointStruct>>)
    requires
        p.id is None,
        p.name is None,
        p.color is None,
        p.group is None,
        p.description is None,
        p.user_selectable is None,
        p.display_in_matches is None,
        p.path is None,
        p.multipath matches Some(mv) && lists_of(mv@) == structs_lists(m),
    ensures
        poracle_shape(p) == Some(GeoShape::MultiPolygon(multi_rings(structs_lists(m)))),
        poracle_props(p) is None,
{
}

/// What a property list, if any, stores under a key.
pub open spec fn props_get(ps: Option<Properties>, k: Seq<char>) -> Option<PropertyValue> {
    match ps {
        Some(s) => property_in(s, k),
        None => None,
    }
}

/// After setting `k` to `v`, `k` reads `v` and every other key reads as before.
pub proof fn lemma_set_in_reads(ps: Option<Properties>, k: Seq<char>, v: PropertyValue)
    ensures
        set_in(ps, k, v) is Some,
        forall|k2: Seq<char>|
            #[trigger] props_get(set_in(ps, k, v), k2) == if k2 == k {
                Some(v)
            } else {
                props_get(ps, k2)
            },
{
    let s = match ps {
        Some(s) => s,
        None => Seq::empty(),
    };
    assert forall|k2: Seq<char>| #[trigger] props_get(set_in(ps, k, v), k2) == if k2 == k {
        Some(v)
    } else {
        props_get(ps, k2)
    } by {
        if k2 == k {
            lemma_property_read_after_write(s, k, v);
        } else {
            lemma_property_other_keys(s, k, v, k2);
            if ps is None {
                assert(!has_key(s, k2));
            }
        }
    }
}

/// The value a present setting is stored as.
pub open spec fn text_value(v: Option<String>) -> Option<PropertyValue> {
    match v {
        Some(t) => Some(PropertyValue::Text(t)),
        None => None,
    }
}

pub open spec fn number_value(v: Option<u32>) -> Option<PropertyValue> {
    match v {
        Some(n) => Some(PropertyValue::Number(n)),
        None => None,
    }
}

pub open spec fn bool_value(v: Option<bool>) -> Option<PropertyValue> {
    match v {
        Some(b) => Some(PropertyValue::Bool(b)),
        None => None,
    }
}

/// The settings of a Poracle geofence read back unchanged, each under its
/// own name; an absent setting reads as nothing; and there is a property map
/// exactly when some setting is present.
pub proof fn lemma_poracle_props_read_back(p: Poracle)
    ensures
        props_get(poracle_props(p), "name"@) == text_value(p.name),
        props_get(poracle_props(p), "id"@) == number_value(p.id),
        props_get(poracle_props(p), "color"@) == text_value(p.color),
        props_get(poracle_props(p), "group"@) == text_value(p.group),
        props_get(poracle_props(p), "description"@) == text_value(p.description),
        props_get(poracle_props(p), "user_selectable"@) == bool_value(p.user_selectable),
        props_get(poracle_props(p), "display_in_matches"@) == bool_value(p.display_in_matches),
        poracle_props(p) is None <==> (p.name is None && p.id is None && p.color is None
            && p.group is None && p.description is None && p.user_selectable is None
            && p.display_in_matches is None),
{
    reveal_strlit("name");
    reveal_strlit("id");
    reveal_strlit("color");
    reveal_strlit("group");
    reveal_strlit("description");
    reveal_strlit("user_selectable");
    reveal_strlit("display_in_matches");
    assert("id"@.len() != "name"@.len());
    assert("color"@.len() != "name"@.len());
    assert("color"@.len() != "id"@.len());
    assert("group"@.len() != "name"@.len());
    assert("group"@.len() != "id"@.len());
    assert("group"@[0] != "color"@[0]);
    assert("description"@.len() != "name"@.len());
    assert("description"@.len() != "id"@.len());
    assert("description"@.len() != "color"@.len());
    assert("description"@.len() != "group"@.len());
    assert("user_selectable"@.len() != "name"@.len());
    assert("user_selectable"@.len() != "id"@.len());
    assert("user_selectable"@.len() != "color"@.len());
    assert("user_selectable"@.len() != "group"@.len());
    assert("user_selectable"@.len() != "description"@.len());
    assert("display_in_matches"@.len() != "name"@.len());
    assert("display_in_matches"@.len() != "id"@.len());
    assert("display_in_matches"@.len() != "color"@.len());
    assert("display_in_matches"@.len() != "group"@.len());
    assert("display_in_matches"@.len() != "description"@.len());
    assert("display_in_matches"@.len() != "user_selectable"@.len());
    let p0: Option<Properties> = None;
    let p1 = text_prop(p0, "name"@, p.name);
    if let Some(t) = p.name {
        lemma_set_in_reads(p0, "name"@, PropertyValue::Text(t));
    }
    let p2 = number_prop(p1, "id"@, p.id);
    if let Some(n) = p.id {
        lemma_set_in_reads(p1, "id"@, PropertyValue::Number(n));
    }
    let p3 = text_prop(p2, "color"@, p.color);
    if let Some(t) = p.color {
        lemma_set_in_reads(p2, "color"@, PropertyValue::Text(t));
    }
    let p4 = text_prop(p3, "group"@, p.group);
    if let Some(t) = p.group {
        lemma_set_in_reads(p3, "group"@, PropertyValue::Text(t));
    }
    let p5 = text_prop(p4, "description"@, p.description);
    if let Some(t) = p.description {
        lemma_set_in_reads(p4, "description"@, PropertyValue::Text(t));
    }
    let p6 = bool_prop(p5, "user_selectable"@, p.user_selectable);
    if let Some(b) = p.user_selectable {
        lemma_set_in_reads(p5, "user_selectable"@, PropertyValue::Bool(b));
    }
    let p7 = bool_prop(p6, "display_in_matches"@, p.display_in_matches);
    if let Some(b) = p.display_in_matches {
        lemma_set_in_reads(p6, "display_in_matches"@, PropertyValue::Bool(b));
    }
    assert(p7 == poracle_props(p));
}

/// How each instance type draws a point list: circle and manual quest routes
/// as loose points, one `[lon, lat]` position per input point in order;
/// quest and IV areas, and areas of no type, as the polygon of the list;
/// leveling as its first point.
pub proof fn lemma_single_shape_by_type(a: Seq<PointArray>, t: Option<Type>)
    ensures
        (t == Some(Type::CirclePokemon) || t == Some(Type::CircleSmartPokemon) || t == Some(
            Type::CircleRaid,
        ) || t == Some(Type::CircleSmartRaid) || t == Some(Type::ManualQuest)) ==> (single_shape(
            a,
            t,
        ) matches GeoShape::MultiPoint(ps) && ps.len() == a.len() && forall|i: int|
            0 <= i < a.len() ==> #[trigger] ps[i] == seq![a[i][1], a[i][0]]),
        (t == Some(Type::AutoQuest) || t == Some(Type::PokemonIv) || t is None) ==> single_shape(a, t)
            == GeoShape::Polygon(polygon_rings(a)),
        t == Some(Type::Leveling) ==> single_shape(a, t) == GeoShape::Point(seq![a[0][1], a[0][0]]),
{
}

/// A Poracle geofence is drawn from its `path` as `from_single_vector` draws a
/// list with no type; without a path, from its `multipath` as a
/// multi-polygon; with neither it has no geometry.
pub proof fn lemma_poracle_shape(p: Poracle)
    ensures
        p.path matches Some(a) ==> poracle_shape(p) == Some(single_shape(a@, None)),
        p.path is None && p.multipath is Some ==> poracle_shape(p) == Some(
            GeoShape::MultiPolygon(multi_rings(lists_of(p.multipath->0@))),
        ),
        (p.path is None && p.multipath is None) ==> poracle_shape(p) is None,
{
}

/// A list of rings is drawn the same whatever the instance type.
pub proof fn lemma_rings_ignore_type(m: MultiVec, t1: Option<Type>, t2: Option<Type>)
    ensures
        route_shape(ArrayType::M(m), t1) == route_shape(ArrayType::M(m), t2),
        route_shape(ArrayType::M(m), t1) == GeoShape::MultiPolygon(multi_rings(lists_of(m@))),
{
}

} // verus!
