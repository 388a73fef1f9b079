use jeotry::object_data::{Bloco, Circulo, Quadrilatero};
use jeotry::vector_data::{Ponto, Vetor};

#[test]
fn block_new_normalizes_corners() {
    // Corners given top-left / bottom-right still come out bottom-left /
    // top-right.
    let b = Bloco::new((1, 3), (3, 1));
    assert_eq!(b.p1, Ponto::new(1, 1));
    assert_eq!(b.p2, Ponto::new(3, 3));

    // Already-ordered corners are kept as they are.
    let b = Bloco::new((2, 1), (5, 2));
    assert_eq!(b.p1, Ponto::new(2, 1));
    assert_eq!(b.p2, Ponto::new(5, 2));
}

#[test]
fn block_construction_is_order_independent() {
    let p1 = Ponto::new(2, 4);
    let p2 = Ponto::new(2, -4);
    assert_eq!(Bloco::from(p1, p2), Bloco::from(p2, p1));

    let p3 = Ponto::new(-7, 9);
    assert_eq!(Bloco::from(p1, p3), Bloco::from(p3, p1));
    assert_eq!(Bloco::new((1, 3), (3, 1)), Bloco::new((3, 1), (1, 3)));
}

#[test]
fn block_mov_and_sum_translate() {
    let v = Vetor::new(2, 4);
    let b = Bloco::new((2, 1), (5, 2));
    let moved = b.sum(v);
    assert_eq!(moved.p1, Ponto::new(4, 5));
    assert_eq!(moved.p2, Ponto::new(7, 6));
    // The pure variant left the original alone.
    assert_eq!(b.p1, Ponto::new(2, 1));

    let mut c = b;
    c.mov(v);
    assert_eq!(c, moved);
    c.mov(v.neg());
    assert_eq!(c, b);
}

#[test]
fn block_merge_exact_bounds() {
    let b1 = Bloco::new((1, 1), (3, 3));
    let b2 = Bloco::new((2, 2), (5, 5));
    let m = Bloco::merge(b1, b2);
    assert_eq!(m.p1, Ponto::new(1, 1));
    assert_eq!(m.p2, Ponto::new(5, 5));

    // Disjoint inputs are both enclosed too.
    let b3 = Bloco::new((-4, 7), (-2, 9));
    let m2 = Bloco::merge(b1, b3);
    assert_eq!(m2.p1, Ponto::new(-4, 1));
    assert_eq!(m2.p2, Ponto::new(3, 9));
}

#[test]
fn merge_collides_with_both_inputs() {
    let b1 = Bloco::new((1, 1), (3, 3));
    let b2 = Bloco::new((10, 10), (12, 14));
    let m = Bloco::merge(b1, b2);
    assert!(b1.collide_block(m));
    assert!(b2.collide_block(m));
    assert!(m.collide_block(b1));
    assert!(m.collide_block(b2));

    let q1 = Quadrilatero::new((1, 1), 2, 2);
    let q2 = Quadrilatero::new((10, 10), 2, 4);
    let qm = Quadrilatero::merge(q1, q2);
    assert!(q1.collide_quad(qm));
    assert!(q2.collide_quad(qm));
}

#[test]
fn block_collision_chain() {
    // A diagonal chain of blocks: the first overlaps the second, the
    // second the third, and the third misses the first.
    let b1 = Bloco::new((1, 1), (3, 3));
    let b2 = Bloco::new((2, 2), (5, 5));
    let b3 = Bloco::new((4, 4), (6, 6));
    assert!(b1.collide_block(b2));
    assert!(b2.collide_block(b3));
    assert!(!b3.collide_block(b1));
}

#[test]
fn quad_collision_chain() {
    let q1 = Quadrilatero::new((1, 1), 2, 2);
    let q2 = Quadrilatero::new((2, 2), 2, 2);
    let q3 = Quadrilatero::new((4, 4), 2, 2);
    assert!(q1.collide_quad(q2));
    assert!(q2.collide_quad(q3));
    assert!(!q3.collide_quad(q1));
}

#[test]
fn quad_collision_non_square() {
    let q1 = Quadrilatero::new((1, 1), 2, 1);
    let q2 = Quadrilatero::new((2, 2), 2, 1);
    let q3 = Quadrilatero::new((3, 1), 3, 1);
    assert!(q1.collide_quad(q2));
    assert!(q2.collide_quad(q3));
    assert!(q3.collide_quad(q1));

    // Raising the middle rectangle separates it from the other two.
    let q2 = Quadrilatero::new((2, 3), 2, 1);
    assert!(!q1.collide_quad(q2));
    assert!(!q2.collide_quad(q3));
}

#[test]
fn collision_is_symmetric() {
    let b1 = Bloco::new((1, 1), (3, 3));
    let b2 = Bloco::new((2, 2), (5, 5));
    let b3 = Bloco::new((4, 4), (6, 6));
    assert_eq!(b1.collide_block(b2), b2.collide_block(b1));
    assert_eq!(b1.collide_block(b3), b3.collide_block(b1));

    let q2 = Quadrilatero::new((2, 2), 2, 2);
    let q3 = Quadrilatero::new((4, 4), 2, 2);
    assert_eq!(q2.collide_quad(q3), q3.collide_quad(q2));

    // Across the two representations as well.
    assert_eq!(b1.collide_quad(q2), q2.collide_block(b1));
    assert_eq!(b1.collide_quad(q3), q3.collide_block(b1));
}

#[test]
fn block_against_quad() {
    let b1 = Bloco::new((1, 1), (3, 3));
    let b2 = Bloco::new((2, 2), (5, 5));
    let b3 = Bloco::new((4, 4), (6, 6));
    let q1 = Quadrilatero::new((1, 1), 2, 2);
    let q2 = Quadrilatero::new((2, 2), 2, 2);
    let q3 = Quadrilatero::new((4, 4), 2, 2);
    assert!(b1.collide_quad(q2));
    assert!(b2.collide_quad(q3));
    assert!(!b3.collide_quad(q1));
    assert!(!q1.collide_block(b3));
}

#[test]
fn touching_edges_count_as_collision() {
    let a = Bloco::new((0, 0), (1, 1));
    let b = Bloco::new((1, 1), (2, 2));
    assert!(a.collide_block(b));

    let qa = Quadrilatero::new((0, 0), 1, 1);
    let qb = Quadrilatero::new((1, 0), 1, 1);
    assert!(qa.collide_quad(qb));
}

#[test]
fn quad_merge_exact_bounds() {
    let q1 = Quadrilatero::new((1, 2), 4, 1);
    let q2 = Quadrilatero::from(Ponto::new(2, 4), 1, 1);
    let m = Quadrilatero::merge(q1, q2);
    assert_eq!(m.p, Ponto::new(1, 2));
    assert_eq!(m.tx, 4);
    assert_eq!(m.ty, 3);
}

#[test]
fn quad_mov_and_sum_translate() {
    let v = Vetor::new(2, 4);
    let q = Quadrilatero::new((1, 2), 4, 1);
    let moved = q.sum(v);
    assert_eq!(moved.p, Ponto::new(3, 6));
    assert_eq!(moved.tx, 4);
    assert_eq!(moved.ty, 1);
    assert_eq!(q.p, Ponto::new(1, 2));

    let mut w = q;
    w.mov(v);
    assert_eq!(w, moved);
}

#[test]
fn block_quad_round_trip() {
    let b = Bloco::new((1, 1), (3, 4));
    let q = b.into_quad();
    assert_eq!(q.p, Ponto::new(1, 1));
    assert_eq!(q.tx, 2);
    assert_eq!(q.ty, 3);
    assert_eq!(q.into_block(), b);

    let b2 = Bloco::from(Ponto::new(-7, 2), Ponto::new(0, 2));
    assert_eq!(b2.into_quad().into_block(), b2);
}

#[test]
fn circle_collision() {
    // Centers sqrt(8) apart, radii summing to 3: they overlap.
    let c1 = Circulo::new((1, 1), 2);
    let c2 = Circulo::from(Ponto::new(3, 3), 1);
    assert!(c1.collide_circle(c2));

    // Centers exactly 2 apart with radii summing to 2: they touch, which
    // counts as overlap.
    let c3 = Circulo::new((3, 5), 1);
    assert!(c2.collide_circle(c3));

    // Centers sqrt(20) apart with radii summing to 3: they miss.
    assert!(!c3.collide_circle(c1));
    assert!(!c1.collide_circle(c3));
}

#[test]
fn circle_with_negative_radius_sum_misses_everything() {
    let a = Circulo::new((0, 0), -3);
    let b = Circulo::new((0, 0), 1);
    assert!(!a.collide_circle(b));
}

#[test]
fn circle_mov_and_sum_translate() {
    let v = Vetor::new(-1, 6);
    let c = Circulo::new((2, 2), 5);
    let moved = c.sum(v);
    assert_eq!(moved.p, Ponto::new(1, 8));
    assert_eq!(moved.r, 5);
    assert_eq!(c.p, Ponto::new(2, 2));

    let mut d = c;
    d.mov(v);
    assert_eq!(d, moved);
}
