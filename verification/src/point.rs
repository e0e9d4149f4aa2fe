use vstd::math::abs;
use vstd::prelude::*;

use crate::metrizable::Metrizable;

verus! {

/// A planar point with integer coordinates, measured under the
/// Manhattan (taxicab) metric. Mainly a concrete node type for tests.
#[derive(Clone, Copy, Debug, PartialEq, Eq, Structural)]
pub struct Point {
    pub x: i32,
    pub y: i32,
}

impl Point {
    pub fn new(x: i32, y: i32) -> (p: Point)
        ensures
            p == (Point { x, y }),
    {
        Point { x, y }
    }
}

impl Metrizable for Point {
    open spec fn dist(self, other: Self) -> nat {
        abs(self.x - other.x) + abs(self.y - other.y)
    }

    fn distance(&self, other: &Self) -> (d: u64)
        ensures
            d as nat == self.dist(*other),
    {
        let dx: i64 = self.x as i64 - other.x as i64;
        let dy: i64 = self.y as i64 - other.y as i64;
        let adx: i64 = if dx < 0 {
            -dx
        } else {
            dx
        };
        let ady: i64 = if dy < 0 {
            -dy
        } else {
            dy
        };
        (adx + ady) as u64
    }
}

} // verus!
