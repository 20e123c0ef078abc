//! The point accumulator: collects point positions in insertion order.

use vstd::prelude::*;

use crate::geometry::Coord;

verus! {

/// A point sprite's position: the bit patterns of its two single-precision
/// components.
#[derive(Clone, Copy, PartialEq, Eq, Structural, Debug)]
pub struct SpritePosition {
    pub x: u32,
    pub y: u32,
}

/// The sprite position a coordinate becomes.
pub open spec fn sprite_of(c: Coord) -> SpritePosition {
    SpritePosition { x: c.x, y: c.y }
}

/// Collects point positions; the accumulated sequence is the output.
pub struct PointMeshBuilder {
    pub points: Vec<SpritePosition>,
}

impl PointMeshBuilder {
    pub fn new() -> (r: Self)
        ensures
            r.points@.len() == 0,
    {
        PointMeshBuilder { points: Vec::new() }
    }

    /// Appends one point position; never fails.
    pub fn add_coord(&mut self, coord: Coord)
        ensures
            final(self).points@ == old(self).points@.push(sprite_of(coord)),
    {
        self.points.push(SpritePosition { x: coord.x, y: coord.y });
    }

    /// Finalizes the accumulated positions: no output when nothing was
    /// added, otherwise the positions in insertion order.
    pub fn build(self) -> (r: Option<Vec<SpritePosition>>)
        ensures
            r is None <==> self.points@.len() == 0,
            r matches Some(v) ==> v@ == self.points@,
    {
        if self.points.len() == 0 {
            None
        } else {
            Some(self.points)
        }
    }
}

impl Default for PointMeshBuilder {
    fn default() -> (r: Self)
        ensures
            r.points@.len() == 0,
    {
        PointMeshBuilder::new()
    }
}

} // verus!
