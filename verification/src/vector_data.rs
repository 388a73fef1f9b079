//! Points and vectors on the cartesian plane, described by integer
//! coordinates.
//!
//! A `Ponto` is a position; a `Vetor` is a displacement between positions.
//! Every operation states exactly how the resulting coordinates relate to
//! the inputs; additions carry the precondition that the sums fit in the
//! coordinate type, which is the caller's responsibility to meet.

use vstd::prelude::*;

verus! {

/// A position on the cartesian plane, held as integer coordinates.
#[derive(Debug, Clone, Copy, PartialEq, Eq, Structural)]
pub struct Ponto {
    /// Horizontal position.
    pub x: i32,
    /// Vertical position.
    pub y: i32,
}

/// A displacement on the cartesian plane, held as integer components.
///
/// A vector is not a position: it stands for the difference between two
/// points, and is what points and shapes are translated by.
#[derive(Debug, Clone, Copy, PartialEq, Eq, Structural)]
pub struct Vetor {
    /// Horizontal component.
    pub x: i32,
    /// Vertical component.
    pub y: i32,
}

/// The squared Euclidean length of a vector.
///
/// The length itself is the square root of this quantity; the square is the
/// integer core that the library reasons about.
pub open spec fn norm_sq(v: Vetor) -> int {
    v.x * v.x + v.y * v.y
}

/// Dot product of two vectors.
pub fn scalar_prod(v1: Vetor, v2: Vetor) -> (r: i32)
    requires
        i32::MIN <= v1.x * v2.x <= i32::MAX,
        i32::MIN <= v1.y * v2.y <= i32::MAX,
        i32::MIN <= v1.x * v2.x + v1.y * v2.y <= i32::MAX,
    ensures
        r == v1.x * v2.x + v1.y * v2.y,
{
    v1.x * v2.x + v1.y * v2.y
}

impl Ponto {
    /// Makes a new point from its two coordinates.
    pub fn new(x: i32, y: i32) -> (p: Ponto)
        ensures
            p.x == x,
            p.y == y,
    {
        Ponto { x, y }
    }

    /// Overwrites both coordinates of an existing point.
    pub fn set(&mut self, x: i32, y: i32)
        ensures
            final(self).x == x,
            final(self).y == y,
    {
        self.x = x;
        self.y = y;
    }

    /// Adds fixed amounts to both coordinates, in place.
    pub fn add(&mut self, x: i32, y: i32)
        requires
            i32::MIN <= old(self).x + x <= i32::MAX,
            i32::MIN <= old(self).y + y <= i32::MAX,
        ensures
            final(self).x == old(self).x + x,
            final(self).y == old(self).y + y,
    {
        self.x = self.x + x;
        self.y = self.y + y;
    }

    /// Returns the point translated by a vector, leaving the original as it
    /// was.
    pub fn sum(self, v: Vetor) -> (p: Ponto)
        requires
            i32::MIN <= self.x + v.x <= i32::MAX,
            i32::MIN <= self.y + v.y <= i32::MAX,
        ensures
            p.x == self.x + v.x,
            p.y == self.y + v.y,
    {
        Ponto { x: self.x + v.x, y: self.y + v.y }
    }

    /// Translates the point by a vector, in place.
    pub fn mov(&mut self, v: Vetor)
        requires
            i32::MIN <= old(self).x + v.x <= i32::MAX,
            i32::MIN <= old(self).y + v.y <= i32::MAX,
        ensures
            final(self).x == old(self).x + v.x,
            final(self).y == old(self).y + v.y,
    {
        self.x = self.x + v.x;
        self.y = self.y + v.y;
    }
}

impl Vetor {
    /// Makes a new vector from its two components.
    pub fn new(x: i32, y: i32) -> (v: Vetor)
        ensures
            v.x == x,
            v.y == y,
    {
        Vetor { x, y }
    }

    /// The displacement that carries `p1` onto `p2`.
    pub fn from(p1: Ponto, p2: Ponto) -> (v: Vetor)
        requires
            i32::MIN <= p2.x - p1.x <= i32::MAX,
            i32::MIN <= p2.y - p1.y <= i32::MAX,
        ensures
            v.x == p2.x - p1.x,
            v.y == p2.y - p1.y,
    {
        Vetor { x: p2.x - p1.x, y: p2.y - p1.y }
    }

    /// The vector with both components negated.
    ///
    /// Negation keeps the squared length, so the Euclidean length of a
    /// vector and of its negation are equal as well.
    pub fn neg(self) -> (v: Vetor)
        requires
            self.x != i32::MIN,
            self.y != i32::MIN,
        ensures
            v.x == -self.x,
            v.y == -self.y,
            norm_sq(v) == norm_sq(self),
    {
        proof {
            assert((-self.x) * (-self.x) == self.x * self.x) by (nonlinear_arith);
            assert((-self.y) * (-self.y) == self.y * self.y) by (nonlinear_arith);
        }
        Vetor { x: -self.x, y: -self.y }
    }

    /// Overwrites both components of an existing vector.
    pub fn set(&mut self, x: i32, y: i32)
        ensures
            final(self).x == x,
            final(self).y == y,
    {
        self.x = x;
        self.y = y;
    }

    /// Adds fixed amounts to both components, in place.
    pub fn add(&mut self, x: i32, y: i32)
        requires
            i32::MIN <= old(self).x + x <= i32::MAX,
            i32::MIN <= old(self).y + y <= i32::MAX,
        ensures
            final(self).x == old(self).x + x,
            final(self).y == old(self).y + y,
    {
        self.x = self.x + x;
        self.y = self.y + y;
    }

    /// Accumulates another vector into this one, in place.
    pub fn sum(&mut self, v: Vetor)
        requires
            i32::MIN <= old(self).x + v.x <= i32::MAX,
            i32::MIN <= old(self).y + v.y <= i32::MAX,
        ensures
            final(self).x == old(self).x + v.x,
            final(self).y == old(self).y + v.y,
    {
        self.x = self.x + v.x;
        self.y = self.y + v.y;
    }
}

} // verus!
