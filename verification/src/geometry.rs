//! The geometry model the mesh builders consume.
//!
//! A coordinate component is carried as the bit pattern of the
//! single-precision value that will reach the vertex buffer, so the builders
//! handle exactly the values the caller's geometry library produced, without
//! this crate doing any numeric work on them.

use vstd::prelude::*;

verus! {

/// An (x, y) coordinate; each component is the bit pattern of a
/// single-precision value.
#[derive(Clone, Copy, PartialEq, Eq, Structural, Debug)]
pub struct Coord {
    pub x: u32,
    pub y: u32,
}

/// A straight segment between two coordinates.
#[derive(Clone, Copy, PartialEq, Eq, Structural, Debug)]
pub struct Line {
    pub start: Coord,
    pub end: Coord,
}

/// An ordered run of coordinates. When it bounds a polygon it is a ring and
/// is used exactly as supplied: order, winding and any closing repeat are
/// preserved.
#[derive(Clone, PartialEq, Eq, Debug)]
pub struct LineString(pub Vec<Coord>);

/// A polygon: one exterior ring and zero or more interior (hole) rings.
#[derive(Clone, PartialEq, Eq, Debug)]
pub struct Polygon {
    pub exterior: LineString,
    pub interiors: Vec<LineString>,
}

#[derive(Clone, PartialEq, Eq, Debug)]
pub struct MultiPoint(pub Vec<Coord>);

#[derive(Clone, PartialEq, Eq, Debug)]
pub struct MultiLineString(pub Vec<LineString>);

#[derive(Clone, PartialEq, Eq, Debug)]
pub struct MultiPolygon(pub Vec<Polygon>);

/// Three corners; its canonical polygon closes back to the first corner.
#[derive(Clone, Copy, PartialEq, Eq, Structural, Debug)]
pub struct Triangle(pub Coord, pub Coord, pub Coord);

/// An axis-aligned rectangle given by two opposite corners.
#[derive(Clone, Copy, PartialEq, Eq, Structural, Debug)]
pub struct Rect {
    pub min: Coord,
    pub max: Coord,
}

#[derive(Debug)]
pub struct GeometryCollection(pub Vec<Geometry>);

/// The closed set of geometry variants the dispatcher walks.
#[derive(Debug)]
pub enum Geometry {
    Point(Coord),
    Line(Line),
    LineString(LineString),
    Polygon(Polygon),
    MultiPoint(MultiPoint),
    MultiLineString(MultiLineString),
    MultiPolygon(MultiPolygon),
    GeometryCollection(GeometryCollection),
    Triangle(Triangle),
    Rect(Rect),
}

/// The coordinate run of a triangle's canonical closed polygon ring.
pub open spec fn spec_triangle_ring(t: Triangle) -> Seq<Coord> {
    seq![t.0, t.1, t.2, t.0]
}

/// The coordinate run of a rectangle's canonical closed polygon ring:
/// the four corners walked from `min`, then the closing repeat.
pub open spec fn spec_rect_ring(r: Rect) -> Seq<Coord> {
    seq![
        Coord { x: r.min.x, y: r.min.y },
        Coord { x: r.min.x, y: r.max.y },
        Coord { x: r.max.x, y: r.max.y },
        Coord { x: r.max.x, y: r.min.y },
        Coord { x: r.min.x, y: r.min.y },
    ]
}

impl Triangle {
    /// The canonical closed polygon of a triangle: its three corners and the
    /// closing repeat of the first, with no holes.
    pub fn to_polygon(&self) -> (p: Polygon)
        ensures
            p.exterior.0@ == spec_triangle_ring(*self),
            p.interiors@.len() == 0,
    {
        let mut ring: Vec<Coord> = Vec::new();
        ring.push(self.0);
        ring.push(self.1);
        ring.push(self.2);
        ring.push(self.0);
        proof {
            assert(ring@ =~= spec_triangle_ring(*self));
        }
        Polygon { exterior: LineString(ring), interiors: Vec::new() }
    }
}

impl Rect {
    /// The canonical closed polygon of a rectangle: its four corners in a
    /// consistent winding and the closing repeat, with no holes.
    pub fn to_polygon(&self) -> (p: Polygon)
        ensures
            p.exterior.0@ == spec_rect_ring(*self),
            p.interiors@.len() == 0,
    {
        let mut ring: Vec<Coord> = Vec::new();
        ring.push(Coord { x: self.min.x, y: self.min.y });
        ring.push(Coord { x: self.min.x, y: self.max.y });
        ring.push(Coord { x: self.max.x, y: self.max.y });
        ring.push(Coord { x: self.max.x, y: self.min.y });
        ring.push(Coord { x: self.min.x, y: self.min.y });
        proof {
            assert(ring@ =~= spec_rect_ring(*self));
        }
        Polygon { exterior: LineString(ring), interiors: Vec::new() }
    }
}

} // verus!
