//! Coordinates, point lists and the GeoJSON geometry values built from them.
//!
//! Points come in as `[lat, lon]`; GeoJSON positions go out as `[lon, lat]`.
//! Polygon rings are closed: the first point is repeated at the end when the
//! input does not already end where it starts.
use vstd::prelude::*;

verus! {

/// A coordinate in degrees, held as the bit pattern of its IEEE-754 double.
/// The library moves and compares coordinates and never computes with them,
/// so the bit pattern is all it needs: two coordinates are the same when their
/// bit patterns are (a NaN is then the same as itself).
pub type Coord = u64;

/// A point as `[lat, lon]`.
pub type PointArray = [Coord; 2];

/// A list of points: one ring, or a set of loose points.
pub type SingleVec = Vec<PointArray>;

/// A list of rings.
pub type MultiVec = Vec<SingleVec>;

/// A point with named fields.
#[derive(Clone, Copy, Debug)]
pub struct PointStruct {
    pub lat: Coord,
    pub lon: Coord,
}

/// The GeoJSON position of a point: longitude first.
pub open spec fn position_of(p: PointArray) -> Seq<Coord> {
    seq![p[1], p[0]]
}

pub open spec fn same_point(a: PointArray, b: PointArray) -> bool {
    a[0] == b[0] && a[1] == b[1]
}

/// A ring that ends where it starts: the first point is appended when the
/// last one differs from it.
pub open spec fn closed_ring(s: Seq<PointArray>) -> Seq<PointArray> {
    if s.len() > 0 && !same_point(s[0], s.last()) {
        s.push(s[0])
    } else {
        s
    }
}

pub open spec fn positions_of(s: Seq<PointArray>) -> Seq<Seq<Coord>> {
    s.map_values(|p: PointArray| position_of(p))
}

/// The rings of the polygon built from one point list: a single closed ring.
pub open spec fn polygon_rings(s: Seq<PointArray>) -> Seq<Seq<Seq<Coord>>> {
    seq![positions_of(closed_ring(s))]
}

/// The point lists held by a list of rings.
pub open spec fn lists_of(m: Seq<SingleVec>) -> Seq<Seq<PointArray>> {
    m.map_values(|v: SingleVec| v@)
}

/// The polygons of a multi-polygon: one closed ring per point list.
pub open spec fn multi_rings(m: Seq<Seq<PointArray>>) -> Seq<Seq<Seq<Seq<Coord>>>> {
    m.map_values(|poly: Seq<PointArray>| polygon_rings(poly))
}

/// A GeoJSON geometry value over coordinates.
pub enum GeoValue {
    Point(Vec<Coord>),
    MultiPoint(Vec<Vec<Coord>>),
    Polygon(Vec<Vec<Vec<Coord>>>),
    MultiPolygon(Vec<Vec<Vec<Vec<Coord>>>>),
}

/// What a `GeoValue` holds, as sequences.
pub enum GeoShape {
    Point(Seq<Coord>),
    MultiPoint(Seq<Seq<Coord>>),
    Polygon(Seq<Seq<Seq<Coord>>>),
    MultiPolygon(Seq<Seq<Seq<Seq<Coord>>>>),
}

impl View for GeoValue {
    type V = GeoShape;

    open spec fn view(&self) -> GeoShape {
        match self {
            GeoValue::Point(p) => GeoShape::Point(p.deep_view()),
            GeoValue::MultiPoint(ps) => GeoShape::MultiPoint(ps.deep_view()),
            GeoValue::Polygon(rings) => GeoShape::Polygon(rings.deep_view()),
            GeoValue::MultiPolygon(polys) => GeoShape::MultiPolygon(polys.deep_view()),
        }
    }
}

/// The GeoJSON position `[lon, lat]` of a `[lat, lon]` point.
pub fn position(p: PointArray) -> (r: Vec<Coord>)
    ensures
        r.deep_view() == position_of(p),
{
    let r = vec![p[1], p[0]];
    assert(r.deep_view() =~= position_of(p));
    r
}

/// Closes a ring: appends the first point when the last one differs from it.
pub fn ensure_first_last(points: SingleVec) -> (r: SingleVec)
    ensures
        r@ == closed_ring(points@),
{
    let mut points = points;
    let n = points.len();
    if n > 0 {
        let first = points[0];
        let last = points[n - 1];
        if first[0] != last[0] || first[1] != last[1] {
            points.push(first);
        }
    }
    points
}

/// The positions of a list of points, in order.
pub fn positions(points: &SingleVec) -> (r: Vec<Vec<Coord>>)
    ensures
        r.deep_view() == positions_of(points@),
{
    let mut r: Vec<Vec<Coord>> = Vec::new();
    let n = points.len();
    for i in 0..n
        invariant
            n == points@.len(),
            r.len() == i,
            forall|j: int| 0 <= j < i ==> (#[trigger] r@[j]).deep_view() == position_of(points@[j]),
    {
        r.push(position(points[i]));
    }
    assert(r.deep_view() =~= positions_of(points@)) by {
        assert forall|j: int| 0 <= j < n implies #[trigger] r.deep_view()[j] == positions_of(
            points@,
        )[j] by {
            assert(r.deep_view()[j] == r@[j].deep_view());
        }
    }
    r
}

/// The rings of a polygon over one point list.
fn rings(area: SingleVec) -> (r: Vec<Vec<Vec<Coord>>>)
    ensures
        r.deep_view() == polygon_rings(area@),
{
    let ring = ensure_first_last(area);
    let r = vec![positions(&ring)];
    assert(r.deep_view() =~= polygon_rings(area@)) by {
        assert(r.deep_view()[0] == r@[0].deep_view());
    }
    r
}

/// A polygon with one closed ring.
pub fn polygon(area: SingleVec) -> (r: GeoValue)
    ensures
        r@ == GeoShape::Polygon(polygon_rings(area@)),
{
    GeoValue::Polygon(rings(area))
}

/// A multi-polygon with one closed ring per point list.
pub fn multi_polygon(area: MultiVec) -> (r: GeoValue)
    ensures
        r@ == GeoShape::MultiPolygon(multi_rings(lists_of(area@))),
{
    let ghost input = area@;
    let mut polys: Vec<Vec<Vec<Vec<Coord>>>> = Vec::new();
    for poly in it: area
        invariant
            it.seq() == input,
            polys.len() == it.index(),
            forall|j: int|
                0 <= j < it.index() ==> (#[trigger] polys@[j]).deep_view() == polygon_rings(
                    input[j]@,
                ),
    {
        polys.push(rings(poly));
    }
    let ghost expected = multi_rings(lists_of(input));
    assert(polys.deep_view() =~= expected) by {
        assert forall|j: int| 0 <= j < polys.len() implies #[trigger] polys.deep_view()[j]
            == expected[j] by {
            assert(polys.deep_view()[j] == polys@[j].deep_view());
        }
    }
    GeoValue::MultiPolygon(polys)
}

/// A multi-point with the points in order.
pub fn multi_point(area: SingleVec) -> (r: GeoValue)
    ensures
        r@ == GeoShape::MultiPoint(positions_of(area@)),
{
    GeoValue::MultiPoint(positions(&area))
}

/// The points of a list of named-field points, as `[lat, lon]`.
pub open spec fn points_of_structs(s: Seq<PointStruct>) -> Seq<PointArray> {
    s.map_values(|p: PointStruct| [p.lat, p.lon])
}

/// Converts named-field points to `[lat, lon]` points, in order.
pub fn from_struct(area: Vec<PointStruct>) -> (r: SingleVec)
    ensures
        r@ == points_of_structs(area@),
{
    let mut r: SingleVec = Vec::new();
    let n = area.len();
    for i in 0..n
        invariant
            n == area@.len(),
            r@ == points_of_structs(area@.take(i as int)),
    {
        let p = area[i];
        r.push([p.lat, p.lon]);
        assert(area@.take(i + 1) == area@.take(i as int).push(area@[i as int]));
    }
    assert(area@.take(n as int) == area@);
    r
}

/// A single point.
pub fn point(p: PointArray) -> (r: GeoValue)
    ensures
        r@ == GeoShape::Point(position_of(p)),
{
    GeoValue::Point(position(p))
}

/// A closed ring ends where it starts, closing it again changes nothing, and
/// it begins with the points it was made from.
pub proof fn lemma_closed_ring(s: Seq<PointArray>)
    ensures
        s.len() > 0 ==> same_point(closed_ring(s)[0], closed_ring(s).last()),
        closed_ring(closed_ring(s)) == closed_ring(s),
        closed_ring(s).take(s.len() as int) == s,
        closed_ring(s).len() <= s.len() + 1,
{
    assert(s.push(s[0]).take(s.len() as int) =~= s);
    assert(s.take(s.len() as int) =~= s);
}

/// Converting named-field points keeps every point in its place with its own
/// latitude first, and their positions put each point's longitude first.
pub proof fn lemma_struct_points_in_place(s: Seq<PointStruct>)
    ensures
        points_of_structs(s).len() == s.len(),
        positions_of(points_of_structs(s)).len() == s.len(),
        forall|i: int|
            0 <= i < s.len() ==> (#[trigger] points_of_structs(s)[i])[0] == s[i].lat
                && points_of_structs(s)[i][1] == s[i].lon,
        forall|i: int|
            0 <= i < s.len() ==> (#[trigger] positions_of(points_of_structs(s))[i]).len() == 2
                && positions_of(points_of_structs(s))[i][0] == s[i].lon && positions_of(
                points_of_structs(s),
            )[i][1] == s[i].lat,
{
}

/// Every GeoJSON position of a point list is that point's longitude, then
/// its latitude.
pub proof fn lemma_positions_lon_lat(s: Seq<PointArray>)
    ensures
        positions_of(s).len() == s.len(),
        forall|i: int|
            0 <= i < s.len() ==> (#[trigger] positions_of(s)[i]).len() == 2 && positions_of(s)[i][0]
                == s[i][1] && positions_of(s)[i][1] == s[i][0],
{
}

/// A polygon drawn from a point list has one ring: the list's points, closed,
/// each as `[lon, lat]`.
pub proof fn lemma_polygon_ring(s: Seq<PointArray>)
    ensures
        polygon_rings(s).len() == 1,
        polygon_rings(s)[0].len() == closed_ring(s).len(),
        forall|i: int|
            0 <= i < closed_ring(s).len() ==> (#[trigger] polygon_rings(s)[0][i]) == seq![
                closed_ring(s)[i][1],
                closed_ring(s)[i][0],
            ],
{
}

/// A multi-polygon has one polygon per point list, each the polygon of that
/// list.
pub proof fn lemma_multi_rings(m: Seq<Seq<PointArray>>)
    ensures
        multi_rings(m).len() == m.len(),
        forall|i: int| 0 <= i < m.len() ==> #[trigger] multi_rings(m)[i] == polygon_rings(m[i]),
{
}

} // verus!
