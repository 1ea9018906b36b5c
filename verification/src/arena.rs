//! The rectangular play area and its four boundary walls.

use vstd::prelude::*;

verus! {

use crate::COORD_LIMIT;

/// The arena: four wall centre lines and the common wall thickness.
/// `left`/`right` are x coordinates, `bottom`/`top` are y coordinates.
#[derive(Clone, Copy, PartialEq, Eq, Structural, Debug)]
pub struct ArenaBounds {
    pub left: i64,
    pub right: i64,
    pub bottom: i64,
    pub top: i64,
    pub wall_thickness: i64,
}

impl ArenaBounds {
    /// A usable arena has positive width and height, a positive wall
    /// thickness, and coordinates small enough for exact arithmetic.
    pub open spec fn wf(self) -> bool {
        &&& -COORD_LIMIT <= self.left < self.right <= COORD_LIMIT
        &&& -COORD_LIMIT <= self.bottom < self.top <= COORD_LIMIT
        &&& 0 < self.wall_thickness <= COORD_LIMIT
    }

    pub open spec fn width(self) -> int {
        self.right - self.left
    }

    pub open spec fn height(self) -> int {
        self.top - self.bottom
    }
}

/// Which of the four boundary walls is meant.
#[derive(Clone, Copy, PartialEq, Eq, Structural, Debug)]
pub enum WallLocation {
    Left,
    Right,
    Bottom,
    Top,
}

impl WallLocation {
    /// Centre point of this wall.
    pub open spec fn position_spec(self, bounds: ArenaBounds) -> (int, int) {
        match self {
            WallLocation::Left => (bounds.left as int, 0int),
            WallLocation::Right => (bounds.right as int, 0int),
            WallLocation::Top => (0int, bounds.top as int),
            WallLocation::Bottom => (0int, bounds.bottom as int),
        }
    }

    /// Extent of this wall: side walls are one thickness wide and span the
    /// arena width plus one thickness; floor and ceiling are the transpose.
    pub open spec fn size_spec(self, bounds: ArenaBounds) -> (int, int) {
        match self {
            WallLocation::Left | WallLocation::Right => (
                bounds.wall_thickness as int,
                bounds.width() + bounds.wall_thickness,
            ),
            WallLocation::Top | WallLocation::Bottom => (
                bounds.width() + bounds.wall_thickness,
                bounds.wall_thickness as int,
            ),
        }
    }

    /// Centre point of this wall, as executable coordinates.
    pub fn position(&self, bounds: &ArenaBounds) -> (p: (i64, i64))
        requires
            bounds.wf(),
        ensures
            p.0 == self.position_spec(*bounds).0,
            p.1 == self.position_spec(*bounds).1,
    {
        match self {
            WallLocation::Left => (bounds.left, 0),
            WallLocation::Right => (bounds.right, 0),
            WallLocation::Top => (0, bounds.top),
            WallLocation::Bottom => (0, bounds.bottom),
        }
    }

    /// Extent of this wall, as executable coordinates.
    pub fn size(&self, bounds: &ArenaBounds) -> (s: (i64, i64))
        requires
            bounds.wf(),
        ensures
            s.0 == self.size_spec(*bounds).0,
            s.1 == self.size_spec(*bounds).1,
            s.0 > 0,
            s.1 > 0,
    {
        let span = bounds.right - bounds.left + bounds.wall_thickness;
        match self {
            WallLocation::Left | WallLocation::Right => (bounds.wall_thickness, span),
            WallLocation::Top | WallLocation::Bottom => (span, bounds.wall_thickness),
        }
    }
}

/// Placement of one wall: its centre and its extent.
#[derive(Clone, Copy, PartialEq, Eq, Structural, Debug)]
pub struct WallGeometry {
    pub x: i64,
    pub y: i64,
    pub width: i64,
    pub height: i64,
}

/// Full placement of the wall at `location`, combining its centre point
/// and its extent.
pub fn wall_geometry(bounds: &ArenaBounds, location: WallLocation) -> (g: WallGeometry)
    requires
        bounds.wf(),
    ensures
        g.x == location.position_spec(*bounds).0,
        g.y == location.position_spec(*bounds).1,
        g.width == location.size_spec(*bounds).0,
        g.height == location.size_spec(*bounds).1,
{
    let p = location.position(bounds);
    let s = location.size(bounds);
    WallGeometry { x: p.0, y: p.1, width: s.0, height: s.1 }
}

} // verus!
