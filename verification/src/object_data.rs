//! Axis-aligned shapes built from the plane's points and vectors, with
//! their overlap predicates and bounding unions.
//!
//! Shapes grow bottom-up and left-right, as on the usual cartesian plane: a
//! rectangle's stored coordinate is its bottom-left corner (the top-right
//! one as well, for a `Bloco`), and a circle's is its center.
//!
//! Every rectangle overlap test is the same one-dimensional interval test
//! applied on each axis, stated by [`overlap`]; the three rectangle entry
//! points all promise exactly that predicate, so overlap is symmetric
//! whichever representation either shape uses.

use vstd::prelude::*;

use crate::vector_data::{Ponto, Vetor};

verus! {

/// A rectangle determined by two points in space.
///
/// The structure is normalized so that the first point sits at the bottom
/// left and the second at the top right.
///
/// For repeated overlap or movement work the `Quadrilatero` form is the
/// handier one: it stores the extents directly instead of re-deriving them
/// from the corners.
#[derive(Debug, Clone, Copy, PartialEq, Eq, Structural)]
pub struct Bloco {
    /// First corner: bottom left.
    pub p1: Ponto,
    /// Second corner: top right.
    pub p2: Ponto,
}

/// A rectangle determined by one point in space and two extents.
///
/// The structure is normalized so that its coordinate sits at the bottom
/// left corner; the extents are expected to be non-negative, which the
/// constructors establish by taking unsigned sizes.
#[derive(Debug, Clone, Copy, PartialEq, Eq, Structural)]
pub struct Quadrilatero {
    /// Coordinate: bottom left.
    pub p: Ponto,
    /// Horizontal size.
    pub tx: i32,
    /// Vertical size.
    pub ty: i32,
}

/// A circle determined by one point in space and its radius.
///
/// The structure is normalized so that its coordinate sits at its center.
/// The radius is a whole number of coordinate units and is expected to be
/// non-negative for a well-formed circle.
#[derive(Debug, Clone, Copy, PartialEq, Eq, Structural)]
pub struct Circulo {
    /// Coordinate: center.
    pub p: Ponto,
    /// Radius.
    pub r: i32,
}

/// Whether the closed intervals `[a0, a1]` and `[b0, b1]` share at least
/// one value.  Touching endpoints count as sharing.
pub open spec fn overlap(a0: int, a1: int, b0: int, b1: int) -> bool {
    a0 <= b1 && b0 <= a1
}

/// Whether two corner-pair rectangles overlap: their intervals do on both
/// axes.
pub open spec fn blocks_collide(a: Bloco, b: Bloco) -> bool {
    overlap(a.p1.x as int, a.p2.x as int, b.p1.x as int, b.p2.x as int)
        && overlap(a.p1.y as int, a.p2.y as int, b.p1.y as int, b.p2.y as int)
}

/// Whether a corner-pair rectangle and an origin-extent rectangle overlap.
pub open spec fn block_quad_collide(a: Bloco, b: Quadrilatero) -> bool {
    overlap(a.p1.x as int, a.p2.x as int, b.p.x as int, b.p.x + b.tx)
        && overlap(a.p1.y as int, a.p2.y as int, b.p.y as int, b.p.y + b.ty)
}

/// Whether two origin-extent rectangles overlap.
pub open spec fn quads_collide(a: Quadrilatero, b: Quadrilatero) -> bool {
    overlap(a.p.x as int, a.p.x + a.tx, b.p.x as int, b.p.x + b.tx)
        && overlap(a.p.y as int, a.p.y + a.ty, b.p.y as int, b.p.y + b.ty)
}

/// Whether two circles overlap: the Euclidean distance between the centers
/// is at most the sum of the radii.  Stated over squares, which needs no
/// square root: for a non-negative bound, the distance is at most the bound
/// exactly when the squared distance is at most the squared bound, and a
/// negative bound is below every distance.
pub open spec fn circles_collide(a: Circulo, b: Circulo) -> bool {
    let dx = a.p.x - b.p.x;
    let dy = a.p.y - b.p.y;
    a.r + b.r >= 0 && dx * dx + dy * dy <= (a.r + b.r) * (a.r + b.r)
}

/// Rectangle overlap does not depend on the order of the two shapes.
pub proof fn lemma_blocks_collide_sym(a: Bloco, b: Bloco)
    ensures
        blocks_collide(a, b) == blocks_collide(b, a),
{
}

/// Rectangle overlap does not depend on the order of the two shapes, in the
/// origin-extent representation either.
pub proof fn lemma_quads_collide_sym(a: Quadrilatero, b: Quadrilatero)
    ensures
        quads_collide(a, b) == quads_collide(b, a),
{
}

/// Circle overlap does not depend on the order of the two circles.
pub proof fn lemma_circles_collide_sym(a: Circulo, b: Circulo)
    ensures
        circles_collide(a, b) == circles_collide(b, a),
{
    assert((a.p.x - b.p.x) * (a.p.x - b.p.x) == (b.p.x - a.p.x) * (b.p.x - a.p.x))
        by (nonlinear_arith);
    assert((a.p.y - b.p.y) * (a.p.y - b.p.y) == (b.p.y - a.p.y) * (b.p.y - a.p.y))
        by (nonlinear_arith);
}

impl Bloco {
    /// The canonical block over two arbitrary corners: independently per
    /// axis, the smaller coordinate goes to the first point and the larger
    /// to the second.
    pub open spec fn normalized(a: Ponto, b: Ponto) -> Bloco {
        Bloco {
            p1: (Ponto {
                x: if a.x <= b.x { a.x } else { b.x },
                y: if a.y <= b.y { a.y } else { b.y },
            }),
            p2: (Ponto {
                x: if a.x <= b.x { b.x } else { a.x },
                y: if a.y <= b.y { b.y } else { a.y },
            }),
        }
    }

    /// Canonical form: the first corner is at or below and at or left of
    /// the second.  The constructors establish this and every operation
    /// keeps it.
    pub open spec fn wf(self) -> bool {
        self.p1.x <= self.p2.x && self.p1.y <= self.p2.y
    }

    /// The same rectangle in origin-extent form: the bottom-left corner
    /// with the two corner differences as sizes.
    pub open spec fn to_quad_spec(self) -> Quadrilatero {
        Quadrilatero {
            p: self.p1,
            tx: (self.p2.x - self.p1.x) as i32,
            ty: (self.p2.y - self.p1.y) as i32,
        }
    }

    /// The smallest block enclosing both inputs: the componentwise minimum
    /// of the first corners and maximum of the second.
    pub open spec fn merged(b1: Bloco, b2: Bloco) -> Bloco {
        Bloco {
            p1: (Ponto {
                x: if b1.p1.x <= b2.p1.x { b1.p1.x } else { b2.p1.x },
                y: if b1.p1.y <= b2.p1.y { b1.p1.y } else { b2.p1.y },
            }),
            p2: (Ponto {
                x: if b1.p2.x >= b2.p2.x { b1.p2.x } else { b2.p2.x },
                y: if b1.p2.y >= b2.p2.y { b1.p2.y } else { b2.p2.y },
            }),
        }
    }

    /// Makes a new block from two corner coordinate pairs, in any order.
    pub fn new(p1: (i32, i32), p2: (i32, i32)) -> (b: Bloco)
        ensures
            b == Bloco::normalized((Ponto { x: p1.0, y: p1.1 }), (Ponto { x: p2.0, y: p2.1 })),
            b.wf(),
    {
        // p1 must end bottom-left and p2 top-right.
        let (x1, x2): (i32, i32) = if p1.0 > p2.0 { (p2.0, p1.0) } else { (p1.0, p2.0) };
        let (y1, y2): (i32, i32) = if p1.1 > p2.1 { (p2.1, p1.1) } else { (p1.1, p2.1) };
        Bloco { p1: Ponto::new(x1, y1), p2: Ponto::new(x2, y2) }
    }

    /// Makes a new block from two corner points, in any order.
    pub fn from(p1: Ponto, p2: Ponto) -> (b: Bloco)
        ensures
            b == Bloco::normalized(p1, p2),
            b.wf(),
    {
        let (x1, x2): (i32, i32) = if p1.x > p2.x { (p2.x, p1.x) } else { (p1.x, p2.x) };
        let (y1, y2): (i32, i32) = if p1.y > p2.y { (p2.y, p1.y) } else { (p1.y, p2.y) };
        Bloco { p1: Ponto::new(x1, y1), p2: Ponto::new(x2, y2) }
    }

    /// Translates the block by a vector, in place.
    pub fn mov(&mut self, v: Vetor)
        requires
            i32::MIN <= old(self).p1.x + v.x <= i32::MAX,
            i32::MIN <= old(self).p1.y + v.y <= i32::MAX,
            i32::MIN <= old(self).p2.x + v.x <= i32::MAX,
            i32::MIN <= old(self).p2.y + v.y <= i32::MAX,
        ensures
            final(self).p1.x == old(self).p1.x + v.x,
            final(self).p1.y == old(self).p1.y + v.y,
            final(self).p2.x == old(self).p2.x + v.x,
            final(self).p2.y == old(self).p2.y + v.y,
            old(self).wf() ==> final(self).wf(),
    {
        self.p1.mov(v);
        self.p2.mov(v);
    }

    /// Returns the block translated by a vector, leaving the original as it
    /// was.
    pub fn sum(self, v: Vetor) -> (b: Bloco)
        requires
            i32::MIN <= self.p1.x + v.x <= i32::MAX,
            i32::MIN <= self.p1.y + v.y <= i32::MAX,
            i32::MIN <= self.p2.x + v.x <= i32::MAX,
            i32::MIN <= self.p2.y + v.y <= i32::MAX,
        ensures
            b.p1.x == self.p1.x + v.x,
            b.p1.y == self.p1.y + v.y,
            b.p2.x == self.p2.x + v.x,
            b.p2.y == self.p2.y + v.y,
            self.wf() ==> b.wf(),
    {
        let mut moved = self;
        moved.p1.mov(v);
        moved.p2.mov(v);
        moved
    }

    /// The smallest block that encloses both inputs.
    pub fn merge(b1: Bloco, b2: Bloco) -> (b: Bloco)
        ensures
            b == Bloco::merged(b1, b2),
            b1.wf() && b2.wf() ==> b.wf(),
    {
        // The leftmost and lowest of the first corners...
        let x1: i32 = if b1.p1.x <= b2.p1.x { b1.p1.x } else { b2.p1.x };
        let y1: i32 = if b1.p1.y <= b2.p1.y { b1.p1.y } else { b2.p1.y };
        // ...and the rightmost and highest of the second.
        let x2: i32 = if b1.p2.x >= b2.p2.x { b1.p2.x } else { b2.p2.x };
        let y2: i32 = if b1.p2.y >= b2.p2.y { b1.p2.y } else { b2.p2.y };
        Bloco { p1: Ponto::new(x1, y1), p2: Ponto::new(x2, y2) }
    }

    /// Converts the block into its origin-extent form.
    pub fn into_quad(self) -> (q: Quadrilatero)
        requires
            i32::MIN <= self.p2.x - self.p1.x <= i32::MAX,
            i32::MIN <= self.p2.y - self.p1.y <= i32::MAX,
        ensures
            q == self.to_quad_spec(),
            self.wf() ==> q.wf(),
    {
        let tamx: i32 = self.p2.x - self.p1.x;
        let tamy: i32 = self.p2.y - self.p1.y;
        Quadrilatero { p: self.p1, tx: tamx, ty: tamy }
    }

    /// Whether this block overlaps another block.  Touching edges count as
    /// overlapping.
    pub fn collide_block(self, b: Bloco) -> (r: bool)
        ensures
            r == blocks_collide(self, b),
    {
        let diff_x: i64 = self.p1.x as i64 - b.p1.x as i64;
        let diff_y: i64 = self.p1.y as i64 - b.p1.y as i64;
        let tam1x: i64 = self.p2.x as i64 - self.p1.x as i64;
        let tam1y: i64 = self.p2.y as i64 - self.p1.y as i64;
        let tam2x: i64 = b.p2.x as i64 - b.p1.x as i64;
        let tam2y: i64 = b.p2.y as i64 - b.p1.y as i64;
        diff_x >= -tam1x && diff_x <= tam2x && diff_y >= -tam1y && diff_y <= tam2y
    }

    /// Whether this block overlaps an origin-extent rectangle.  The
    /// predicate is the same one `Quadrilatero::collide_block` promises, so
    /// the answer does not depend on which shape asks.
    pub fn collide_quad(self, q: Quadrilatero) -> (r: bool)
        ensures
            r == block_quad_collide(self, q),
    {
        let diff_x: i64 = self.p1.x as i64 - q.p.x as i64;
        let diff_y: i64 = self.p1.y as i64 - q.p.y as i64;
        let tam1x: i64 = self.p2.x as i64 - self.p1.x as i64;
        let tam1y: i64 = self.p2.y as i64 - self.p1.y as i64;
        diff_x >= -tam1x && diff_x <= q.tx as i64 && diff_y >= -tam1y && diff_y <= q.ty as i64
    }
}

impl Quadrilatero {
    /// Well-formed origin-extent rectangle: both extents are non-negative.
    pub open spec fn wf(self) -> bool {
        self.tx >= 0 && self.ty >= 0
    }

    /// The horizontal coordinate of the far (right) edge.
    pub open spec fn far_x(self) -> int {
        self.p.x + self.tx
    }

    /// The vertical coordinate of the far (top) edge.
    pub open spec fn far_y(self) -> int {
        self.p.y + self.ty
    }

    /// The same rectangle in corner-pair form: the origin and the origin
    /// plus the extents.
    pub open spec fn to_block_spec(self) -> Bloco {
        Bloco {
            p1: self.p,
            p2: (Ponto { x: self.far_x() as i32, y: self.far_y() as i32 }),
        }
    }

    /// The smallest origin-extent rectangle enclosing both inputs: its
    /// origin is the componentwise minimum of the origins, and its extents
    /// reach the componentwise maximum of the far edges.
    pub open spec fn merged(q1: Quadrilatero, q2: Quadrilatero) -> Quadrilatero {
        let x1 = if q1.p.x <= q2.p.x { q1.p.x } else { q2.p.x };
        let y1 = if q1.p.y <= q2.p.y { q1.p.y } else { q2.p.y };
        let x2 = if q1.far_x() >= q2.far_x() { q1.far_x() } else { q2.far_x() };
        let y2 = if q1.far_y() >= q2.far_y() { q1.far_y() } else { q2.far_y() };
        Quadrilatero {
            p: (Ponto { x: x1, y: y1 }),
            tx: (x2 - x1) as i32,
            ty: (y2 - y1) as i32,
        }
    }

    /// Makes a new rectangle from an origin coordinate pair and two sizes.
    pub fn new(p: (i32, i32), tx: u16, ty: u16) -> (q: Quadrilatero)
        ensures
            q.p.x == p.0,
            q.p.y == p.1,
            q.tx == tx,
            q.ty == ty,
            q.wf(),
    {
        Quadrilatero { p: Ponto::new(p.0, p.1), tx: tx as i32, ty: ty as i32 }
    }

    /// Makes a new rectangle from an origin point and two sizes.
    pub fn from(p: Ponto, tx: u16, ty: u16) -> (q: Quadrilatero)
        ensures
            q.p == p,
            q.tx == tx,
            q.ty == ty,
            q.wf(),
    {
        Quadrilatero { p, tx: tx as i32, ty: ty as i32 }
    }

    /// Translates the rectangle by a vector, in place.
    pub fn mov(&mut self, v: Vetor)
        requires
            i32::MIN <= old(self).p.x + v.x <= i32::MAX,
            i32::MIN <= old(self).p.y + v.y <= i32::MAX,
        ensures
            final(self).p.x == old(self).p.x + v.x,
            final(self).p.y == old(self).p.y + v.y,
            final(self).tx == old(self).tx,
            final(self).ty == old(self).ty,
            old(self).wf() ==> final(self).wf(),
    {
        self.p.mov(v);
    }

    /// Returns the rectangle translated by a vector, leaving the original
    /// as it was.
    pub fn sum(self, v: Vetor) -> (q: Quadrilatero)
        requires
            i32::MIN <= self.p.x + v.x <= i32::MAX,
            i32::MIN <= self.p.y + v.y <= i32::MAX,
        ensures
            q.p.x == self.p.x + v.x,
            q.p.y == self.p.y + v.y,
            q.tx == self.tx,
            q.ty == self.ty,
            self.wf() ==> q.wf(),
    {
        let mut moved = self;
        moved.p.mov(v);
        moved
    }

    /// The smallest origin-extent rectangle that encloses both inputs.
    ///
    /// The resulting extent never falls below either input's own extent, so
    /// only an upper bound on each axis is asked of the caller.
    pub fn merge(q1: Quadrilatero, q2: Quadrilatero) -> (q: Quadrilatero)
        requires
            q1.far_x() - q2.p.x <= i32::MAX,
            q2.far_x() - q1.p.x <= i32::MAX,
            q1.far_y() - q2.p.y <= i32::MAX,
            q2.far_y() - q1.p.y <= i32::MAX,
        ensures
            q == Quadrilatero::merged(q1, q2),
            q1.wf() && q2.wf() ==> q.wf(),
    {
        // The leftmost and lowest origin...
        let x1: i64 = if q1.p.x <= q2.p.x { q1.p.x as i64 } else { q2.p.x as i64 };
        let y1: i64 = if q1.p.y <= q2.p.y { q1.p.y as i64 } else { q2.p.y as i64 };
        // ...and the rightmost and highest far edge.
        let f1x: i64 = q1.p.x as i64 + q1.tx as i64;
        let f2x: i64 = q2.p.x as i64 + q2.tx as i64;
        let x2: i64 = if f1x >= f2x { f1x } else { f2x };
        let f1y: i64 = q1.p.y as i64 + q1.ty as i64;
        let f2y: i64 = q2.p.y as i64 + q2.ty as i64;
        let y2: i64 = if f1y >= f2y { f1y } else { f2y };
        Quadrilatero {
            p: Ponto::new(x1 as i32, y1 as i32),
            tx: (x2 - x1) as i32,
            ty: (y2 - y1) as i32,
        }
    }

    /// Converts the rectangle into its corner-pair form.
    pub fn into_block(self) -> (b: Bloco)
        requires
            i32::MIN <= self.far_x() <= i32::MAX,
            i32::MIN <= self.far_y() <= i32::MAX,
        ensures
            b == self.to_block_spec(),
            self.wf() ==> b.wf(),
    {
        let px: i32 = self.p.x + self.tx;
        let py: i32 = self.p.y + self.ty;
        Bloco { p1: self.p, p2: Ponto::new(px, py) }
    }

    /// Whether this rectangle overlaps a corner-pair block.  The predicate
    /// is the same one `Bloco::collide_quad` promises, so the answer does
    /// not depend on which shape asks.
    pub fn collide_block(self, b: Bloco) -> (r: bool)
        ensures
            r == block_quad_collide(b, self),
    {
        let diff_x: i64 = self.p.x as i64 - b.p1.x as i64;
        let diff_y: i64 = self.p.y as i64 - b.p1.y as i64;
        let tam2x: i64 = b.p2.x as i64 - b.p1.x as i64;
        let tam2y: i64 = b.p2.y as i64 - b.p1.y as i64;
        diff_x >= -(self.tx as i64) && diff_x <= tam2x && diff_y >= -(self.ty as i64) && diff_y
            <= tam2y
    }

    /// Whether this rectangle overlaps another origin-extent rectangle.
    /// Touching edges count as overlapping.
    pub fn collide_quad(self, q: Quadrilatero) -> (r: bool)
        ensures
            r == quads_collide(self, q),
    {
        let diff_x: i64 = self.p.x as i64 - q.p.x as i64;
        let diff_y: i64 = self.p.y as i64 - q.p.y as i64;
        diff_x >= -(self.tx as i64) && diff_x <= q.tx as i64 && diff_y >= -(self.ty as i64)
            && diff_y <= q.ty as i64
    }
}

impl Circulo {
    /// Makes a new circle from a center coordinate pair and a radius.
    pub fn new(p: (i32, i32), r: i32) -> (c: Circulo)
        ensures
            c.p.x == p.0,
            c.p.y == p.1,
            c.r == r,
    {
        Circulo { p: Ponto::new(p.0, p.1), r }
    }

    /// Makes a new circle from a center point and a radius.
    pub fn from(p: Ponto, r: i32) -> (c: Circulo)
        ensures
            c.p == p,
            c.r == r,
    {
        Circulo { p, r }
    }

    /// Translates the circle by a vector, in place.
    pub fn mov(&mut self, v: Vetor)
        requires
            i32::MIN <= old(self).p.x + v.x <= i32::MAX,
            i32::MIN <= old(self).p.y + v.y <= i32::MAX,
        ensures
            final(self).p.x == old(self).p.x + v.x,
            final(self).p.y == old(self).p.y + v.y,
            final(self).r == old(self).r,
    {
        self.p.mov(v);
    }

    /// Returns the circle translated by a vector, leaving the original as
    /// it was.
    pub fn sum(self, v: Vetor) -> (c: Circulo)
        requires
            i32::MIN <= self.p.x + v.x <= i32::MAX,
            i32::MIN <= self.p.y + v.y <= i32::MAX,
        ensures
            c.p.x == self.p.x + v.x,
            c.p.y == self.p.y + v.y,
            c.r == self.r,
    {
        Circulo { p: self.p.sum(v), r: self.r }
    }

    /// Whether this circle overlaps another: the distance between the
    /// centers is at most the sum of the radii.  The comparison is made
    /// between the squared distance and the squared sum, which decides the
    /// same question without a square root.
    pub fn collide_circle(self, c: Circulo) -> (r: bool)
        ensures
            r == circles_collide(self, c),
    {
        let dx: i64 = self.p.x as i64 - c.p.x as i64;
        let dy: i64 = self.p.y as i64 - c.p.y as i64;
        let s: i64 = self.r as i64 + c.r as i64;
        if s < 0 {
            return false;
        }
        proof {
            assert(dx * dx < 0x4000_0000_0000_0000_0000 && dx * dx >= 0) by (nonlinear_arith)
                requires -0x2_0000_0000 < dx < 0x2_0000_0000;
            assert(dy * dy < 0x4000_0000_0000_0000_0000 && dy * dy >= 0) by (nonlinear_arith)
                requires -0x2_0000_0000 < dy < 0x2_0000_0000;
            assert(s * s < 0x4000_0000_0000_0000_0000 && s * s >= 0) by (nonlinear_arith)
                requires -0x2_0000_0000 < s < 0x2_0000_0000;
        }
        let d2: i128 = (dx as i128) * (dx as i128) + (dy as i128) * (dy as i128);
        let s2: i128 = (s as i128) * (s as i128);
        d2 <= s2
    }
}

/// The mixed overlap test agrees with the corner-pair one: converting the
/// origin-extent rectangle to corner-pair form changes no answer, whenever
/// its far corner fits the coordinate type.
pub proof fn lemma_block_quad_collide_agrees(a: Bloco, q: Quadrilatero)
    requires
        i32::MIN <= q.far_x() <= i32::MAX,
        i32::MIN <= q.far_y() <= i32::MAX,
    ensures
        block_quad_collide(a, q) == blocks_collide(a, q.to_block_spec()),
{
}

/// The origin-extent overlap test agrees with the corner-pair one:
/// converting both rectangles to corner-pair form changes no answer,
/// whenever their far corners fit the coordinate type.  With the lemma
/// above, all three rectangle entry points decide one and the same
/// predicate.
pub proof fn lemma_quads_collide_agrees(q1: Quadrilatero, q2: Quadrilatero)
    requires
        i32::MIN <= q1.far_x() <= i32::MAX,
        i32::MIN <= q1.far_y() <= i32::MAX,
        i32::MIN <= q2.far_x() <= i32::MAX,
        i32::MIN <= q2.far_y() <= i32::MAX,
    ensures
        quads_collide(q1, q2) == blocks_collide(q1.to_block_spec(), q2.to_block_spec()),
{
}

/// The block over two corners does not depend on the corners' order:
/// construction is commutative in its two inputs.
pub proof fn lemma_normalized_comm(a: Ponto, b: Ponto)
    ensures
        Bloco::normalized(a, b) == Bloco::normalized(b, a),
{
}

/// The bounding union of two well-formed blocks overlaps both of them.
pub proof fn lemma_block_merge_collides(b1: Bloco, b2: Bloco)
    requires
        b1.wf(),
        b2.wf(),
    ensures
        blocks_collide(b1, Bloco::merged(b1, b2)),
        blocks_collide(b2, Bloco::merged(b1, b2)),
{
}

/// The bounding union of two well-formed origin-extent rectangles overlaps
/// both of them, whenever its extents fit the coordinate type.
pub proof fn lemma_quad_merge_collides(q1: Quadrilatero, q2: Quadrilatero)
    requires
        q1.wf(),
        q2.wf(),
        q1.far_x() - q2.p.x <= i32::MAX,
        q2.far_x() - q1.p.x <= i32::MAX,
        q1.far_y() - q2.p.y <= i32::MAX,
        q2.far_y() - q1.p.y <= i32::MAX,
    ensures
        quads_collide(q1, Quadrilatero::merged(q1, q2)),
        quads_collide(q2, Quadrilatero::merged(q1, q2)),
{
}

/// A canonical block converted to origin-extent form and back comes out
/// unchanged, whenever its side lengths fit the coordinate type.
pub proof fn lemma_block_quad_round_trip(b: Bloco)
    requires
        b.wf(),
        b.p2.x - b.p1.x <= i32::MAX,
        b.p2.y - b.p1.y <= i32::MAX,
    ensures
        b.to_quad_spec().to_block_spec() == b,
{
}

} // verus!
