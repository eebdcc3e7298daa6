use vstd::prelude::*;

verus! {

/// Largest coordinate magnitude the library accepts, in either space.
///
/// Keeping every input coordinate within this range lets the transform be
/// computed exactly in 128-bit integers: every intermediate product of the
/// transform is bounded by a small multiple of `COORD_LIMIT` squared.
pub const COORD_LIMIT: i64 = 0x8000_0000;

/// `v` is an acceptable input coordinate.
pub open spec fn coord_in_range(v: int) -> bool {
    -COORD_LIMIT <= v <= COORD_LIMIT
}

/// A point with integer coordinates, in data space or in pixel space.
#[derive(Clone, Copy, Debug, PartialEq, Eq, Structural)]
pub struct Point2 {
    pub x: i64,
    pub y: i64,
}

impl Point2 {
    /// Both coordinates are acceptable input coordinates.
    pub open spec fn in_range(self) -> bool {
        coord_in_range(self.x as int) && coord_in_range(self.y as int)
    }
}

/// An axis-aligned rectangle given by its min and max corners.
#[derive(Clone, Copy, Debug, PartialEq, Eq, Structural)]
pub struct Box2 {
    pub min: Point2,
    pub max: Point2,
}

impl Box2 {
    /// Signed width: `max.x - min.x`.
    pub open spec fn spec_width(self) -> int {
        self.max.x - self.min.x
    }

    /// Signed height: `max.y - min.y`.
    pub open spec fn spec_height(self) -> int {
        self.max.y - self.min.y
    }

    /// All four corner coordinates are acceptable input coordinates.
    pub open spec fn in_range(self) -> bool {
        self.min.in_range() && self.max.in_range()
    }

    /// The box spans a positive extent on both axes.
    pub open spec fn proper(self) -> bool {
        self.spec_width() > 0 && self.spec_height() > 0
    }

    /// Signed width of the box.
    pub fn width(&self) -> (r: i64)
        requires
            self.in_range(),
        ensures
            r == self.spec_width(),
    {
        self.max.x - self.min.x
    }

    /// Signed height of the box.
    pub fn height(&self) -> (r: i64)
        requires
            self.in_range(),
        ensures
            r == self.spec_height(),
    {
        self.max.y - self.min.y
    }
}

} // verus!
