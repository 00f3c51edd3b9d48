use vstd::prelude::*;

verus! {

/// An integer 2D grid coordinate. The origin is at the bottom-left corner of
/// the arena and `y` increases upward.
#[derive(Clone, Copy, PartialEq, Eq, Structural, Debug, Hash)]
pub struct Point {
    pub x: isize,
    pub y: isize,
}

impl Point {
    pub fn new(x: isize, y: isize) -> (r: Self)
        ensures
            r == (Point { x, y }),
    {
        Self { x, y }
    }
}

/// Whether `p` lies inside the `width` by `height` arena.
pub open spec fn in_grid(p: Point, width: int, height: int) -> bool {
    0 <= p.x < width && 0 <= p.y < height
}

} // verus!
