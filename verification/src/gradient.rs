//! Integer geometry for gradient interpolation over a 2-D surface.
//!
//! A gradient query starts from an integer cell position and the integer size
//! of the surface.  The floating-point parts of interpolation (ratios, square
//! roots, rotation) live with the caller; this module holds the exact integer
//! steps: the quadrant folding of an angled gradient and the squared distances
//! of a radial gradient.

use vstd::prelude::*;

verus! {

/// A pair of integer components: a cell position or a surface size.
#[derive(Clone, Copy, PartialEq, Eq, Structural, Debug)]
pub struct Vec2 {
    /// Horizontal component.
    pub x: usize,
    /// Vertical component.
    pub y: usize,
}

impl Vec2 {
    /// Build a vector from its two components.
    pub fn new(x: usize, y: usize) -> (r: Vec2)
        ensures
            r.x == x,
            r.y == y,
    {
        Vec2 { x, y }
    }

    /// Exchange the two components.
    pub fn swap(self) -> (r: Vec2)
        ensures
            r.x == self.y,
            r.y == self.x,
    {
        Vec2 { x: self.y, y: self.x }
    }
}

/// The quarter turn of the circle that an angle, normalized into one full
/// turn, falls in: `First` covers angles below a quarter turn, `Second` those
/// below a half turn, and so on.
#[derive(Clone, Copy, PartialEq, Eq, Structural, Debug)]
pub enum Quadrant {
    /// Angles in the first quarter turn.
    First,
    /// Angles in the second quarter turn.
    Second,
    /// Angles in the third quarter turn.
    Third,
    /// Angles in the fourth quarter turn.
    Fourth,
}

/// A gradient query as a mathematical value: the position's two components
/// followed by the size's two components.
pub type QuerySpec = (int, int, int, int);

/// The first-quadrant fold of a query, one quadrant at a time: the second
/// quadrant swaps the axes and reflects the new horizontal one, the third
/// reflects both axes through the center, and the fourth is the mirror of
/// the second.  The first quadrant leaves the query untouched.
pub open spec fn fold_quadrant(q: QuerySpec, quadrant: Quadrant) -> QuerySpec {
    let (px, py, sx, sy) = q;
    match quadrant {
        Quadrant::First => (px, py, sx, sy),
        Quadrant::Second => (sy - py, px, sy, sx),
        Quadrant::Third => (sx - px, sy - py, sx, sy),
        Quadrant::Fourth => (py, sx - px, sy, sx),
    }
}

/// The query that a position and size stand for.
pub open spec fn query_of(pos: Vec2, size: Vec2) -> QuerySpec {
    (pos.x as int, pos.y as int, size.x as int, size.y as int)
}

/// Map a query position and surface size into the equivalent first-quadrant
/// problem, exploiting the quarter-turn symmetry of an angled gradient.
pub fn fold_to_first_quadrant(pos: Vec2, size: Vec2, quadrant: Quadrant) -> (r: (Vec2, Vec2))
    requires
        pos.x <= size.x,
        pos.y <= size.y,
    ensures
        query_of(r.0, r.1) == fold_quadrant(query_of(pos, size), quadrant),
        r.0.x <= r.1.x,
        r.0.y <= r.1.y,
{
    match quadrant {
        Quadrant::First => (pos, size),
        Quadrant::Second => (Vec2::new(size.y - pos.y, pos.x), size.swap()),
        Quadrant::Third => (Vec2::new(size.x - pos.x, size.y - pos.y), size),
        Quadrant::Fourth => (Vec2::new(pos.y, size.x - pos.x), size.swap()),
    }
}

/// The quadrant folds compose as quarter turns of the surface: folding by
/// the second quadrant's transform twice equals folding by the third's once,
/// three times equals the fourth's, and four times returns the original
/// query.  Folding by the third quadrant's transform is an involution, and
/// the fourth's transform undoes the second's.  This is the symmetry that
/// lets an angled gradient treat every angle as a first-quadrant angle.
pub proof fn lemma_quarter_turn_composition(q: QuerySpec)
    ensures
        fold_quadrant(fold_quadrant(q, Quadrant::Second), Quadrant::Second) == fold_quadrant(
            q,
            Quadrant::Third,
        ),
        fold_quadrant(fold_quadrant(fold_quadrant(q, Quadrant::Second), Quadrant::Second),
            Quadrant::Second) == fold_quadrant(q, Quadrant::Fourth),
        fold_quadrant(fold_quadrant(fold_quadrant(fold_quadrant(q, Quadrant::Second),
            Quadrant::Second), Quadrant::Second), Quadrant::Second) == q,
        fold_quadrant(fold_quadrant(q, Quadrant::Third), Quadrant::Third) == q,
        fold_quadrant(fold_quadrant(q, Quadrant::Second), Quadrant::Fourth) == q,
        fold_quadrant(fold_quadrant(q, Quadrant::Fourth), Quadrant::Second) == q,
{
}

/// Largest component magnitude for which squared norms stay inside `i64`.
pub const SQ_NORM_BOUND: i64 = 0x7fff_ffff;

/// The squared Euclidean norm of a signed integer vector.
pub fn sq_norm(x: i64, y: i64) -> (r: i64)
    requires
        -SQ_NORM_BOUND <= x <= SQ_NORM_BOUND,
        -SQ_NORM_BOUND <= y <= SQ_NORM_BOUND,
    ensures
        r == x * x + y * y,
        r >= 0,
{
    proof {
        assert(0 <= x * x < 0x4000_0000_0000_0000) by (nonlinear_arith)
            requires
                -0x7fff_ffff <= x <= 0x7fff_ffff,
        {
        }
        assert(0 <= y * y < 0x4000_0000_0000_0000) by (nonlinear_arith)
            requires
                -0x7fff_ffff <= y <= 0x7fff_ffff,
        {
        }
    }
    x * x + y * y
}

/// The squared Euclidean distance between two signed integer points.
pub fn sq_dist(ax: i64, ay: i64, bx: i64, by: i64) -> (r: i64)
    requires
        -SQ_NORM_BOUND <= ax - bx <= SQ_NORM_BOUND,
        -SQ_NORM_BOUND <= ay - by <= SQ_NORM_BOUND,
    ensures
        r == (ax - bx) * (ax - bx) + (ay - by) * (ay - by),
        r >= 0,
{
    sq_norm(ax - bx, ay - by)
}

} // verus!
