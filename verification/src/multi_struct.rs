//! Conversions of a list of rings of named-field points.
use vstd::prelude::*;

use crate::feature::Poracle;
use crate::geometry::{
    from_struct, lists_of, points_of_structs, MultiVec, PointArray, PointStruct, SingleVec,
};

verus! {

/// The point lists of a list of rings of named-field points.
pub open spec fn structs_lists(m: Seq<Vec<PointStruct>>) -> Seq<Seq<[u64; 2]>> {
    m.map_values(|r: Vec<PointStruct>| points_of_structs(r@))
}

/// Converts every ring to `[lat, lon]` points.
pub fn to_multi_vec(area: Vec<Vec<PointStruct>>) -> (r: MultiVec)
    ensures
        lists_of(r@) == structs_lists(area@),
{
    let ghost input = area@;
    let mut r: MultiVec = Vec::new();
    for ring in it: area
        invariant
            it.seq() == input,
            r@.len() == it.index(),
            forall|j: int|
                0 <= j < it.index() ==> (#[trigger] r@[j])@ == points_of_structs(input[j]@),
    {
        r.push(from_struct(ring));
    }
    assert(lists_of(r@) =~= structs_lists(input));
    r
}

/// The named-field points of every ring, one list after the other.
pub open spec fn structs_flat(m: Seq<Vec<PointStruct>>) -> Seq<PointStruct> {
    m.map_values(|r: Vec<PointStruct>| r@).flatten()
}

/// The first point of the first ring, as `[lat, lon]`.
pub fn to_point_array(area: Vec<Vec<PointStruct>>) -> (r: PointArray)
    requires
        area@.len() > 0,
        area@[0]@.len() > 0,
    ensures
        r == [area@[0]@[0].lat, area@[0]@[0].lon],
{
    let p = area[0][0];
    [p.lat, p.lon]
}

/// The first point of the first ring.
pub fn to_struct(area: Vec<Vec<PointStruct>>) -> (r: PointStruct)
    requires
        area@.len() > 0,
        area@[0]@.len() > 0,
    ensures
        r == area@[0]@[0],
{
    area[0][0]
}

/// All points of all rings, in order.
pub fn to_single_struct(area: Vec<Vec<PointStruct>>) -> (r: Vec<PointStruct>)
    ensures
        r@ == structs_flat(area@),
{
    let ghost input = area@;
    let ghost lists = input.map_values(|r: Vec<PointStruct>| r@);
    let mut r: Vec<PointStruct> = Vec::new();
    for ring in it: area
        invariant
            it.seq() == input,
            lists == input.map_values(|r: Vec<PointStruct>| r@),
            r@ == lists.take(it.index() as int).flatten(),
    {
        let ghost k = it.index() as int;
        let mut ring = ring;
        r.append(&mut ring);
        proof {
            lists.take(k).lemma_flatten_push(lists[k]);
            assert(lists.take(k + 1) == lists.take(k).push(lists[k]));
        }
    }
    assert(lists.take(lists.len() as int) == lists);
    r
}

/// All points of all rings as `[lat, lon]`, in order.
pub fn to_single_vec(area: Vec<Vec<PointStruct>>) -> (r: SingleVec)
    ensures
        r@ == lists_of_flat(structs_lists(area@)),
{
    let m = to_multi_vec(area);
    let ghost input = m@;
    let ghost lists = lists_of(input);
    let mut r: SingleVec = Vec::new();
    for ring in it: m
        invariant
            it.seq() == input,
            lists == lists_of(input),
            r@ == lists.take(it.index() as int).flatten(),
    {
        let ghost k = it.index() as int;
        let mut ring = ring;
        r.append(&mut ring);
        proof {
            lists.take(k).lemma_flatten_push(lists[k]);
            assert(lists.take(k + 1) == lists.take(k).push(lists[k]));
        }
    }
    assert(lists.take(lists.len() as int) == lists);
    r
}

/// The points of a list of point lists, one list after the other.
pub open spec fn lists_of_flat(m: Seq<Seq<PointArray>>) -> Seq<PointArray> {
    m.flatten()
}

/// The rings unchanged.
pub fn to_multi_struct(area: Vec<Vec<PointStruct>>) -> (r: Vec<Vec<PointStruct>>)
    ensures
        r == area,
{
    area
}

/// A Poracle geofence with the rings as its `multipath` and nothing else.
pub fn to_poracle(area: Vec<Vec<PointStruct>>) -> (r: Poracle)
    ensures
        r.id is None,
        r.name is None,
        r.color is None,
        r.group is None,
        r.description is None,
        r.user_selectable is None,
        r.display_in_matches is None,
        r.path is None,
        r.multipath matches Some(m) && lists_of(m@) == structs_lists(area@),
{
    Poracle {
        id: None,
        name: None,
        color: None,
        group: None,
        description: None,
        user_selectable: None,
        display_in_matches: None,
        path: None,
        multipath: Some(to_multi_vec(area)),
    }
}

/// Flattening the rings and converting the points to `[lat, lon]` can be done
/// in either order: `to_single_vec` agrees with converting `to_single_struct`.
pub proof fn lemma_flatten_then_convert(m: Seq<Vec<PointStruct>>)
    ensures
        lists_of_flat(structs_lists(m)) == points_of_structs(structs_flat(m)),
    decreases m.len(),
{
    let lists = m.map_values(|r: Vec<PointStruct>| r@);
    if m.len() == 0 {
        assert(structs_lists(m) =~= Seq::<Seq<PointArray>>::empty());
        assert(lists =~= Seq::<Seq<PointStruct>>::empty());
        assert(points_of_structs(structs_flat(m)) =~= Seq::<PointArray>::empty());
    } else {
        let m0 = m.drop_last();
        lemma_flatten_then_convert(m0);
        let last = m.last()@;
        assert(structs_lists(m) =~= structs_lists(m0).push(points_of_structs(last)));
        structs_lists(m0).lemma_flatten_push(points_of_structs(last));
        let lists0 = m0.map_values(|r: Vec<PointStruct>| r@);
        assert(lists =~= lists0.push(last));
        lists0.lemma_flatten_push(last);
        assert(points_of_structs(lists0.flatten() + last) =~= points_of_structs(lists0.flatten())
            + points_of_structs(last));
    }
}

/// Converting a list of rings converts each ring on its own, in order.
pub proof fn lemma_structs_lists_each(m: Seq<Vec<PointStruct>>)
    ensures
        structs_lists(m).len() == m.len(),
        forall|i: int|
            0 <= i < m.len() ==> #[trigger] structs_lists(m)[i] == points_of_structs(m[i]@),
{
}

} // verus!
