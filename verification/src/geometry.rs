//! Points and axis-aligned rectangles in the fixed virtual coordinate
//! space that the canvas surface is mapped onto.

use vstd::prelude::*;

verus! {

/// A point in the virtual coordinate space.
#[derive(Clone, Copy, PartialEq, Eq, Structural, Debug)]
pub struct Point {
    pub x: i32,
    pub y: i32,
}

/// An axis-aligned rectangle in the virtual coordinate space.
///
/// A well-formed region has `min_x <= max_x` and `min_y <= max_y`; both
/// bounds are inclusive for containment tests.
#[derive(Clone, Copy, PartialEq, Eq, Structural, Debug)]
pub struct Region {
    pub min_x: i32,
    pub min_y: i32,
    pub max_x: i32,
    pub max_y: i32,
}

impl Region {
    /// The region's invariant: the minimum corner lies at or below the
    /// maximum corner on both axes.
    pub open spec fn wf(self) -> bool {
        self.min_x <= self.max_x && self.min_y <= self.max_y
    }

    /// Boundary-inclusive containment of a point.
    pub open spec fn spec_contains(self, p: Point) -> bool {
        self.min_x <= p.x <= self.max_x && self.min_y <= p.y <= self.max_y
    }

    pub fn new(min_x: i32, min_y: i32, max_x: i32, max_y: i32) -> (r: Region)
        requires
            min_x <= max_x,
            min_y <= max_y,
        ensures
            r == (Region { min_x, min_y, max_x, max_y }),
            r.wf(),
    {
        Region { min_x, min_y, max_x, max_y }
    }

    /// Inclusive containment test on all four edges.
    pub fn contains(&self, p: Point) -> (r: bool)
        ensures
            r == self.spec_contains(p),
    {
        self.min_x <= p.x && p.x <= self.max_x && self.min_y <= p.y && p.y <= self.max_y
    }

    /// Whether two well-formed regions share at least one point.
    pub fn intersects(&self, other: &Region) -> (r: bool)
        requires
            self.wf(),
            other.wf(),
        ensures
            r == exists|p: Point| self.spec_contains(p) && other.spec_contains(p),
    {
        let r = self.min_x <= other.max_x && other.min_x <= self.max_x && self.min_y
            <= other.max_y && other.min_y <= self.max_y;
        proof {
            if r {
                let px: i32 = if self.min_x >= other.min_x {
                    self.min_x
                } else {
                    other.min_x
                };
                let py: i32 = if self.min_y >= other.min_y {
                    self.min_y
                } else {
                    other.min_y
                };
                assert(self.spec_contains(Point { x: px, y: py }));
                assert(other.spec_contains(Point { x: px, y: py }));
            }
        }
        r
    }
}

} // verus!
