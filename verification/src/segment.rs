//! One line segment of the tree, and the derivation of its two children.

use vstd::prelude::*;

verus! {

/// One line segment of the fractal tree, immutable once constructed.
///
/// Coordinates are screen pixels, with `y` growing downward. `angle_bits`
/// carries the segment's half-spread angle as the bit pattern of an IEEE-754
/// single-precision value: the engine does no arithmetic on it — it only
/// hands one shared narrowed value to both children of a pair — and the
/// rendering shell interprets it when it computes the children's directions.
/// `depth` is the generation index, `0` at the root.
#[derive(Clone, Copy, PartialEq, Eq, Structural, Debug)]
pub struct LineSegment {
    pub start_x: i32,
    pub start_y: i32,
    pub end_x: i32,
    pub end_y: i32,
    pub angle_bits: u32,
    pub depth: i32,
}

impl LineSegment {
    /// The squared Euclidean length of the segment, exact over the integers.
    ///
    /// The Euclidean length itself is the square root of this value, so the
    /// two agree on being zero or positive.
    pub open spec fn len_sq(self) -> int {
        let dx = self.end_x - self.start_x;
        let dy = self.end_y - self.start_y;
        dx * dx + dy * dy
    }

    /// A segment is degenerate when its two endpoints coincide, that is,
    /// exactly when its Euclidean length is zero.
    pub open spec fn is_degenerate(self) -> bool {
        self.start_x == self.end_x && self.start_y == self.end_y
    }

    /// The child of `self` with far endpoint `(end_x, end_y)`: it starts
    /// exactly where `self` ends, carries the narrowed spread angle handed to
    /// the pair, and lies one generation deeper.
    pub open spec fn spec_child(self, end_x: i32, end_y: i32, angle_bits: u32) -> LineSegment {
        LineSegment {
            start_x: self.end_x,
            start_y: self.end_y,
            end_x: end_x,
            end_y: end_y,
            angle_bits: angle_bits,
            depth: (self.depth + 1) as i32,
        }
    }

    /// Builds a segment from its endpoints, spread angle and generation
    /// index. Degenerate zero-length segments are accepted: the admission
    /// policy relies on them.
    pub fn new(
        start_x: i32,
        start_y: i32,
        end_x: i32,
        end_y: i32,
        angle_bits: u32,
        depth: i32,
    ) -> (s: LineSegment)
        ensures
            s == (LineSegment { start_x, start_y, end_x, end_y, angle_bits, depth }),
    {
        LineSegment { start_x, start_y, end_x, end_y, angle_bits, depth }
    }

    /// Whether the segment's Euclidean length is positive. The length is the
    /// square root of an exact integer, so this is decided exactly, on the
    /// integer grid: the length is positive if and only if the endpoints
    /// differ.
    pub fn has_positive_length(&self) -> (r: bool)
        ensures
            r <==> !self.is_degenerate(),
            r <==> self.len_sq() > 0,
    {
        proof {
            let dx = self.end_x - self.start_x;
            let dy = self.end_y - self.start_y;
            assert(dx * dx + dy * dy > 0 <==> !(dx == 0 && dy == 0)) by (nonlinear_arith);
        }
        self.start_x != self.end_x || self.start_y != self.end_y
    }

    /// Derives the pair of children of `self`. The caller supplies the two
    /// far endpoints and the narrowed spread angle, which are trigonometric
    /// functions of this segment computed by the rendering shell; everything
    /// structural — connectivity, the shared spread, the depth increment —
    /// is fixed here.
    pub fn children(
        &self,
        left_x: i32,
        left_y: i32,
        right_x: i32,
        right_y: i32,
        child_angle_bits: u32,
    ) -> (pair: (LineSegment, LineSegment))
        requires
            self.depth < i32::MAX,
        ensures
            pair.0 == self.spec_child(left_x, left_y, child_angle_bits),
            pair.1 == self.spec_child(right_x, right_y, child_angle_bits),
            pair.0.start_x == self.end_x && pair.0.start_y == self.end_y,
            pair.1.start_x == self.end_x && pair.1.start_y == self.end_y,
            pair.0.angle_bits == pair.1.angle_bits,
            pair.0.depth == self.depth + 1,
            pair.1.depth == self.depth + 1,
    {
        let left = LineSegment {
            start_x: self.end_x,
            start_y: self.end_y,
            end_x: left_x,
            end_y: left_y,
            angle_bits: child_angle_bits,
            depth: self.depth + 1,
        };
        let right = LineSegment {
            start_x: self.end_x,
            start_y: self.end_y,
            end_x: right_x,
            end_y: right_y,
            angle_bits: child_angle_bits,
            depth: self.depth + 1,
        };
        (left, right)
    }
}

} // verus!
