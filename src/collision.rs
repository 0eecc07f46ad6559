use vstd::prelude::*;

use crate::scalar_order::{
    ge, gt, is_nan, less_or_equal, less_than, lt, LARGEST_FINITE, LOWEST_FINITE, ZERO,
};
use crate::selection::{
    first_max_above, first_min_below, is_first_max, is_first_min, max_value, min_value,
};
use crate::shape::{is_polygonal, ShapeKind};

verus! {

/// The narrow-phase routine that tests a pair of shapes.
#[derive(Clone, Copy, Debug, PartialEq, Eq, Structural)]
pub enum Routine {
    /// Two circles.
    CircleCircle,
    /// A circle and a polygonal shape. The routine takes the circle first:
    /// `swapped` says that the pair came with the polygonal shape first.
    CirclePolygon { swapped: bool },
    /// Two polygonal shapes, by the separating-axis test, in the order given.
    PolygonPolygon,
}

/// The routine for shapes of kinds `a` and `b`, in that order.
pub open spec fn routine_for(a: ShapeKind, b: ShapeKind) -> Routine {
    if !is_polygonal(a) && !is_polygonal(b) {
        Routine::CircleCircle
    } else if !is_polygonal(a) {
        Routine::CirclePolygon { swapped: false }
    } else if !is_polygonal(b) {
        Routine::CirclePolygon { swapped: true }
    } else {
        Routine::PolygonPolygon
    }
}

/// Chooses the collision routine for a pair of shapes.
pub fn collision_routine(a: ShapeKind, b: ShapeKind) -> (r: Routine)
    ensures
        r == routine_for(a, b),
{
    match (a, b) {
        (ShapeKind::Circle, ShapeKind::Circle) => Routine::CircleCircle,
        (ShapeKind::Circle, _) => Routine::CirclePolygon { swapped: false },
        (_, ShapeKind::Circle) => Routine::CirclePolygon { swapped: true },
        _ => Routine::PolygonPolygon,
    }
}

/// Two circles touch or overlap when the square of the sum of their radii is
/// at least the square of the distance between their centres (touching
/// counts).
pub fn circles_touch(radius_sum_squared: u32, distance_squared: u32) -> (r: bool)
    ensures
        r == ge(radius_sum_squared, distance_squared),
{
    less_or_equal(distance_squared, radius_sum_squared)
}

/// Circles whose centres lie exactly the sum of their radii apart touch:
/// any squared distance that is a number counts as touching itself.
pub proof fn lemma_touching_circles_collide(distance_squared: u32)
    requires
        !is_nan(distance_squared),
    ensures
        ge(distance_squared, distance_squared),
{
}

/// The axis of least penetration that a separating-axis pass finds.
#[derive(Clone, Copy, Debug, PartialEq, Eq, Structural)]
pub struct AxisChoice {
    /// Edge of the reference shape whose outward normal gives the axis.
    pub edge: Option<usize>,
    /// Vertex of the other shape that lies deepest along that axis.
    pub vertex: Option<usize>,
    /// The signed separation along that axis.
    pub separation: u32,
}

/// For each edge, the smallest projection of the other shape's vertices onto
/// its outward normal (the largest finite value where none lies below it).
pub open spec fn edge_minima(projections: Seq<Vec<u32>>) -> Seq<u32> {
    Seq::new(projections.len(), |i: int| min_value(projections[i]@, LARGEST_FINITE))
}

/// Separating-axis pass over `projections`, where `projections[i][j]` is the
/// projection of the other shape's vertex `j`, taken relative to the start
/// of edge `i`, onto the outward normal of edge `i`. For every edge it finds
/// the deepest vertex (the first smallest projection); the separation is the
/// largest of those minima, at its first edge.
pub fn min_separation(projections: &Vec<Vec<u32>>) -> (r: AxisChoice)
    ensures
        r.separation == max_value(edge_minima(projections@), LOWEST_FINITE),
        r.edge is None <==> forall|i: int|
            0 <= i < projections.len() ==> !gt(
                #[trigger] edge_minima(projections@)[i],
                LOWEST_FINITE,
            ),
        r.edge is None ==> r.vertex is None,
        r.edge matches Some(i) ==> {
            &&& is_first_max(edge_minima(projections@), LOWEST_FINITE, i as int)
            &&& r.vertex is None <==> forall|k: int|
                0 <= k < projections@[i as int].len() ==> !lt(
                    #[trigger] projections@[i as int]@[k],
                    LARGEST_FINITE,
                )
            &&& r.vertex matches Some(j) ==> is_first_min(
                projections@[i as int]@,
                LARGEST_FINITE,
                j as int,
            )
        },
{
    let mut minima: Vec<u32> = Vec::new();
    let mut deepest: Vec<Option<usize>> = Vec::new();
    for i in 0..projections.len()
        invariant
            minima@ == edge_minima(projections@).take(i as int),
            deepest.len() == i,
            forall|e: int|
                0 <= e < i ==> {
                    &&& (#[trigger] deepest@[e]) is None <==> forall|k: int|
                        0 <= k < projections@[e]@.len() ==> !lt(
                            #[trigger] projections@[e]@[k],
                            LARGEST_FINITE,
                        )
                    &&& deepest@[e] matches Some(j) ==> is_first_min(
                        projections@[e]@,
                        LARGEST_FINITE,
                        j as int,
                    )
                },
    {
        let (vertex, value) = first_min_below(&projections[i], LARGEST_FINITE);
        minima.push(value);
        deepest.push(vertex);
        assert(minima@ =~= edge_minima(projections@).take(i + 1));
    }
    assert(minima@ =~= edge_minima(projections@));
    let (edge, separation) = first_max_above(&minima, LOWEST_FINITE);
    let vertex = match edge {
        Some(i) => deepest[i],
        None => None,
    };
    AxisChoice { edge, vertex, separation }
}

/// Which shape's edge is the reference face of a polygon contact.
#[derive(Clone, Copy, Debug, PartialEq, Eq, Structural)]
pub enum ReferenceFace {
    /// An edge of the first shape.
    First,
    /// An edge of the second shape.
    Second,
}

/// Contact of two polygonal shapes from their separations: `ab` is that of
/// the second shape's vertices along the first shape's edges, `ba` the
/// converse. None when either is at least zero; otherwise the shape with the
/// larger separation gives the reference face, the second one on a tie.
pub open spec fn contact_face(ab: u32, ba: u32) -> Option<ReferenceFace> {
    if ge(ab, ZERO) || ge(ba, ZERO) {
        None
    } else if gt(ab, ba) {
        Some(ReferenceFace::First)
    } else {
        Some(ReferenceFace::Second)
    }
}

/// Decides a polygon contact from the two separations (see [`contact_face`]).
pub fn polygon_contact_face(ab: u32, ba: u32) -> (r: Option<ReferenceFace>)
    ensures
        r == contact_face(ab, ba),
{
    if less_or_equal(ZERO, ab) || less_or_equal(ZERO, ba) {
        None
    } else if less_than(ba, ab) {
        Some(ReferenceFace::First)
    } else {
        Some(ReferenceFace::Second)
    }
}

/// The edge of a polygon that a circle's centre is measured against.
#[derive(Clone, Copy, Debug, PartialEq, Eq, Structural)]
pub struct EdgeFacing {
    /// The edge, by the index of its starting vertex.
    pub edge: Option<usize>,
    /// The centre lies strictly outside that edge.
    pub outside: bool,
    /// Signed distance of the centre from the edge's line, along its outward
    /// normal.
    pub distance: u32,
}

/// Finds the edge a circle is tested against, where `projections[i]` is the
/// signed distance of the circle's centre from edge `i` along its outward
/// normal: the first edge of largest distance. The centre lies outside the
/// polygon exactly when that distance is positive; inside, it is the edge
/// the centre is least deep behind.
pub fn closest_edge(projections: &Vec<u32>) -> (r: EdgeFacing)
    ensures
        r.distance == max_value(projections@, LOWEST_FINITE),
        r.outside == gt(r.distance, ZERO),
        r.edge is None <==> forall|k: int|
            0 <= k < projections.len() ==> !gt(#[trigger] projections@[k], LOWEST_FINITE),
        r.edge matches Some(i) ==> is_first_max(projections@, LOWEST_FINITE, i as int),
{
    let (edge, distance) = first_max_above(projections, LOWEST_FINITE);
    EdgeFacing { edge, outside: less_than(ZERO, distance), distance }
}

/// Where a circle's centre lies relative to the edge it is tested against.
#[derive(Clone, Copy, Debug, PartialEq, Eq, Structural)]
pub enum CircleRegion {
    /// Outside, beyond the edge's starting vertex.
    BeyondStart,
    /// Outside, beyond the edge's ending vertex.
    BeyondEnd,
    /// Outside, facing the interior of the edge.
    FacingEdge,
    /// Inside the polygon.
    Inside,
}

/// What the circle-polygon test measures against the edge from `a` to `b`
/// (with `c` the circle's centre).
#[derive(Clone, Copy, Debug, PartialEq, Eq, Structural)]
pub struct CircleEdgeMeasures {
    /// The centre lies outside the edge (see [`EdgeFacing`]).
    pub outside: bool,
    /// `(c - a) . (b - a)`.
    pub start_along_edge: u32,
    /// `(c - b) . (b - a)`.
    pub end_along_edge: u32,
    /// The circle's radius.
    pub radius: u32,
    /// `|c - a|`.
    pub start_distance: u32,
    /// `|c - b|`.
    pub end_distance: u32,
    /// Signed distance of the centre from the edge's line.
    pub edge_distance: u32,
}

/// Contact of a circle with a polygon, by region: outside near the start
/// vertex or near the end vertex, the circle must reach that vertex; outside
/// facing the edge, it must reach the edge's line; inside, it always touches.
pub open spec fn circle_region(m: CircleEdgeMeasures) -> Option<CircleRegion> {
    if !m.outside {
        Some(CircleRegion::Inside)
    } else if lt(m.start_along_edge, ZERO) {
        if lt(m.radius, m.start_distance) {
            None
        } else {
            Some(CircleRegion::BeyondStart)
        }
    } else if gt(m.end_along_edge, ZERO) {
        if lt(m.radius, m.end_distance) {
            None
        } else {
            Some(CircleRegion::BeyondEnd)
        }
    } else if lt(m.radius, m.edge_distance) {
        None
    } else {
        Some(CircleRegion::FacingEdge)
    }
}

/// Decides a circle-polygon contact (see [`circle_region`]).
pub fn circle_polygon_region(m: &CircleEdgeMeasures) -> (r: Option<CircleRegion>)
    ensures
        r == circle_region(*m),
{
    if !m.outside {
        Some(CircleRegion::Inside)
    } else if less_than(m.start_along_edge, ZERO) {
        if less_than(m.radius, m.start_distance) {
            None
        } else {
            Some(CircleRegion::BeyondStart)
        }
    } else if less_than(ZERO, m.end_along_edge) {
        if less_than(m.radius, m.end_distance) {
            None
        } else {
            Some(CircleRegion::BeyondEnd)
        }
    } else if less_than(m.radius, m.edge_distance) {
        None
    } else {
        Some(CircleRegion::FacingEdge)
    }
}


/// Whether the separating-axis test finds two polygonal shapes in contact,
/// from the projections of each shape's vertices onto the other's edge
/// normals (see [`min_separation`]): `ab` holds those of the second shape
/// along the first shape's edges, `ba` the converse.
pub open spec fn polygons_in_contact(ab: Seq<Vec<u32>>, ba: Seq<Vec<u32>>) -> bool {
    contact_face(
        max_value(edge_minima(ab), LOWEST_FINITE),
        max_value(edge_minima(ba), LOWEST_FINITE),
    ) is Some
}

/// Whether two polygonal shapes collide does not depend on the order in
/// which they are given: the pair takes the separating-axis routine in both
/// orders, and that routine finds contact for the shapes in one order exactly
/// when it finds it for them in the other.
pub proof fn lemma_polygon_contact_symmetric(
    a: ShapeKind,
    b: ShapeKind,
    ab: Seq<Vec<u32>>,
    ba: Seq<Vec<u32>>,
)
    requires
        is_polygonal(a),
        is_polygonal(b),
    ensures
        routine_for(a, b) == Routine::PolygonPolygon,
        routine_for(b, a) == Routine::PolygonPolygon,
        polygons_in_contact(ab, ba) == polygons_in_contact(ba, ab),
{
}

} // verus!
