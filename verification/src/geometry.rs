use vstd::prelude::*;

verus! {

/// A sub-pixel image coordinate pair.
///
/// The detector reports corners with sub-pixel precision as IEEE-754
/// single-precision numbers. The library never does arithmetic on a
/// coordinate — it only carries corners from the detector to the caller —
/// so each coordinate is held as the exact 32-bit pattern of the number
/// the detector produced, and copying is bit-identical by construction.
#[derive(Clone, Copy, PartialEq, Eq, Structural, Debug)]
pub struct Point {
    /// Bit pattern of the x coordinate.
    pub x_bits: u32,
    /// Bit pattern of the y coordinate.
    pub y_bits: u32,
}

impl Point {
    /// The origin: both coordinates are positive zero.
    pub open spec fn zero_spec() -> Point {
        Point { x_bits: 0, y_bits: 0 }
    }

    /// Builds the origin point.
    pub fn zero() -> (p: Point)
        ensures
            p == Point::zero_spec(),
    {
        Point { x_bits: 0, y_bits: 0 }
    }

    /// Builds a point from two coordinate bit patterns.
    pub fn new(x_bits: u32, y_bits: u32) -> (p: Point)
        ensures
            p.x_bits == x_bits,
            p.y_bits == y_bits,
    {
        Point { x_bits, y_bits }
    }
}

/// Four corner points, in the winding order the detector reported them.
///
/// The ordering (typically clockwise from the top-left corner) is a
/// contract of the detection library and is never re-derived or altered
/// here.
#[derive(Clone, Copy, PartialEq, Eq, Structural, Debug)]
pub struct Quad {
    pub c0: Point,
    pub c1: Point,
    pub c2: Point,
    pub c3: Point,
}

impl Quad {
    /// The four corners as a sequence, in detector order.
    pub open spec fn points(self) -> Seq<Point> {
        seq![self.c0, self.c1, self.c2, self.c3]
    }

    /// The quad whose four corners all sit at the origin.
    pub open spec fn zero_spec() -> Quad {
        Quad {
            c0: Point::zero_spec(),
            c1: Point::zero_spec(),
            c2: Point::zero_spec(),
            c3: Point::zero_spec(),
        }
    }

    /// Builds a quad from four corners, kept in the given order.
    pub fn new(c0: Point, c1: Point, c2: Point, c3: Point) -> (q: Quad)
        ensures
            q.points() == seq![c0, c1, c2, c3],
    {
        let q = Quad { c0, c1, c2, c3 };
        proof {
            assert(q.points() =~= seq![c0, c1, c2, c3]);
        }
        q
    }
}

/// The committed output of an acquisition session: the accepted marker's
/// four corners, in detector order.
#[derive(Clone, Copy, PartialEq, Eq, Structural, Debug)]
pub struct AcquiredCorners {
    pub corners: Quad,
}

impl AcquiredCorners {
    /// The pre-acceptance value: all four corners at the origin.
    pub open spec fn initial_spec() -> AcquiredCorners {
        AcquiredCorners { corners: Quad::zero_spec() }
    }

    /// Builds the pre-acceptance value.
    pub fn initial() -> (r: AcquiredCorners)
        ensures
            r == AcquiredCorners::initial_spec(),
    {
        let z = Point::zero();
        AcquiredCorners { corners: Quad { c0: z, c1: z, c2: z, c3: z } }
    }
}

} // verus!
