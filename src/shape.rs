use vstd::prelude::*;

verus! {

/// The kind of a body's shape; the dimensions stay with the caller.
#[derive(Clone, Copy, Debug, PartialEq, Eq, Structural)]
pub enum ShapeKind {
    Circle,
    Polygon,
    Box,
}

/// A shape with discrete vertices and edges.
pub open spec fn is_polygonal(k: ShapeKind) -> bool {
    k != ShapeKind::Circle
}

impl ShapeKind {
    /// Whether the shape has vertices and edges (every shape but the circle).
    pub fn has_vertices(self) -> (r: bool)
        ensures
            r == is_polygonal(self),
    {
        !matches!(self, ShapeKind::Circle)
    }
}

/// Index of the vertex where the edge that starts at vertex `i` ends, on a
/// closed outline of `n` vertices.
pub fn edge_end(i: usize, n: usize) -> (r: usize)
    requires
        i < n,
    ensures
        r == (i + 1) % (n as int),
        r < n,
{
    if i + 1 == n {
        assert((n as int) % (n as int) == 0) by (nonlinear_arith)
            requires
                n > 0,
        ;
        0
    } else {
        assert((i + 1) % (n as int) == i + 1) by (nonlinear_arith)
            requires
                i + 1 < n,
        ;
        i + 1
    }
}

} // verus!
