//! The simulation plane: points, distances and the region that is sampled.

use crate::random::{Generator, Stream};
use vstd::prelude::*;

verus! {

/// Coordinates count thousandths of a distance unit.
pub const SUBUNITS_PER_UNIT: i64 = 1000;

/// A position on the plane, in thousandths of a distance unit.
#[derive(Clone, Copy, Debug, PartialEq, Eq, Structural)]
pub struct Point {
    pub x: i64,
    pub y: i64,
}

/// The square of the Euclidean distance between two points.
pub open spec fn distance_squared(a: Point, b: Point) -> int {
    (a.x - b.x) * (a.x - b.x) + (a.y - b.y) * (a.y - b.y)
}

/// Whether two points lie more than `thresh` apart.
pub open spec fn apart(a: Point, b: Point, thresh: u64) -> bool {
    distance_squared(a, b) > thresh * thresh
}

/// Distance does not depend on the order of its ends.
pub proof fn lemma_distance_symmetric(a: Point, b: Point)
    ensures
        distance_squared(a, b) == distance_squared(b, a),
        distance_squared(a, b) >= 0,
{
    assert((a.x - b.x) * (a.x - b.x) == (b.x - a.x) * (b.x - a.x)) by (nonlinear_arith);
    assert((a.y - b.y) * (a.y - b.y) == (b.y - a.y) * (b.y - a.y)) by (nonlinear_arith);
}

/// The bounding rectangle of the simulation, centred at the origin, in whole
/// distance units. Neither side is zero, so the region that is sampled is
/// never empty.
#[derive(Clone, Copy, Debug, PartialEq, Eq, Structural)]
pub struct Plane {
    width: u32,
    height: u32,
}

impl Plane {
    /// Every plane has an inside: neither side is zero.
    #[verifier::type_invariant]
    pub open spec fn inv(self) -> bool {
        self.width() > 0 && self.height() > 0
    }

    /// The width, in whole distance units.
    pub closed spec fn spec_width(&self) -> u32 {
        self.width
    }

    /// The height, in whole distance units.
    pub closed spec fn spec_height(&self) -> u32 {
        self.height
    }

    /// How far the sampled region reaches from the origin along the
    /// reference axis: the width divided by 2.5.
    pub open spec fn reach_x(self) -> int {
        self.width() * SUBUNITS_PER_UNIT * 2 / 5
    }

    /// How far the sampled region reaches from the origin along the
    /// perpendicular axis: the height divided by 2.5.
    pub open spec fn reach_y(self) -> int {
        self.height() * SUBUNITS_PER_UNIT * 2 / 5
    }

    /// Whether `point` lies in the sampled region, which holds its lower
    /// edges and not its upper ones.
    pub open spec fn covers(self, point: Point) -> bool {
        &&& -self.reach_x() <= point.x < self.reach_x()
        &&& -self.reach_y() <= point.y < self.reach_y()
    }

    /// The point that a generator in state `stream` draws next: first the
    /// coordinate along the reference axis, then the other.
    pub open spec fn sampled(self, stream: Stream) -> Point {
        Point {
            x: stream.value_around(self.reach_x()),
            y: stream.after_around(self.reach_x()).value_around(self.reach_y()),
        }
    }

    /// The state of the generator after it drew a point.
    pub open spec fn after_sample(self, stream: Stream) -> Stream {
        stream.after_around(self.reach_x()).after_around(self.reach_y())
    }

    /// The plane of the given size, or `None` when a side is zero: such a
    /// plane has no point to sample.
    pub fn new(width: u32, height: u32) -> (plane: Option<Plane>)
        ensures
            plane.is_some() <==> width > 0 && height > 0,
            plane matches Some(made) ==> made.width() == width && made.height() == height,
    {
        if width > 0 && height > 0 {
            Some(Plane { width, height })
        } else {
            None
        }
    }

    /// The width, in whole distance units.
    #[verifier::when_used_as_spec(spec_width)]
    pub fn width(&self) -> (width: u32)
        ensures
            width == self.spec_width(),
            width > 0,
    {
        proof {
            use_type_invariant(self);
        }
        self.width
    }

    /// The height, in whole distance units.
    #[verifier::when_used_as_spec(spec_height)]
    pub fn height(&self) -> (height: u32)
        ensures
            height == self.spec_height(),
            height > 0,
    {
        proof {
            use_type_invariant(self);
        }
        self.height
    }

    /// The reach along the reference axis.
    pub fn extent_x(&self) -> (reach: i64)
        ensures
            reach == self.reach_x(),
            0 < reach <= 400 * u32::MAX,
    {
        self.width() as i64 * SUBUNITS_PER_UNIT * 2 / 5
    }

    /// The reach along the perpendicular axis.
    pub fn extent_y(&self) -> (reach: i64)
        ensures
            reach == self.reach_y(),
            0 < reach <= 400 * u32::MAX,
    {
        self.height() as i64 * SUBUNITS_PER_UNIT * 2 / 5
    }

    /// Draws a point uniformly from the sampled region.
    pub fn sample_point(&self, rng: &mut Generator) -> (point: Point)
        ensures
            point == self.sampled(old(rng)@),
            final(rng)@ == self.after_sample(old(rng)@),
            self.covers(point),
    {
        let rx = self.extent_x();
        let ry = self.extent_y();
        let x = rng.draw_in_range(-rx, rx - 1);
        let y = rng.draw_in_range(-ry, ry - 1);
        Point { x, y }
    }
}

} // verus!
