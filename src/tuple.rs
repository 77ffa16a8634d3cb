use vstd::prelude::*;
use crate::approx::ApproxEq;

verus! {

/// Discriminator of a point.
pub const POINT: i8 = 1;

/// Discriminator of a free vector.
pub const VECTOR: i8 = 0;

/// A homogeneous coordinate: `x`, `y`, `z` over the scalar `S`, and the
/// discriminator `w` (`POINT` or `VECTOR` for every value that callers
/// combine sensibly; arithmetic does not enforce it).
#[derive(Clone, Copy, Debug)]
pub struct Tuple<S> {
    pub x: S,
    pub y: S,
    pub z: S,
    pub w: i8,
}

/// A point at `(x, y, z)`.
pub fn make_point<S>(x: S, y: S, z: S) -> (t: Tuple<S>)
    ensures
        t == (Tuple { x, y, z, w: POINT }),
{
    Tuple { x, y, z, w: POINT }
}

/// A vector with components `(x, y, z)`.
pub fn make_vector<S>(x: S, y: S, z: S) -> (t: Tuple<S>)
    ensures
        t == (Tuple { x, y, z, w: VECTOR }),
{
    Tuple { x, y, z, w: VECTOR }
}

/// Two tuples are approximately equal when each coordinate is, and the
/// discriminators are exactly equal: a point never equals a vector.
impl<S: ApproxEq> ApproxEq for Tuple<S> {
    open spec fn approx_eq(&self, other: &Self) -> bool {
        &&& self.x.approx_eq(&other.x)
        &&& self.y.approx_eq(&other.y)
        &&& self.z.approx_eq(&other.z)
        &&& self.w == other.w
    }

    fn is_approx_eq(&self, other: &Self) -> (r: bool) {
        self.x.is_approx_eq(&other.x) && self.y.is_approx_eq(&other.y) && self.z.is_approx_eq(
            &other.z,
        ) && self.w == other.w
    }
}

impl<S: Copy> Tuple<S> {
    /// Applies `f` to each coordinate and keeps the discriminator: the shape
    /// of negation, scaling, division and normalization.
    pub fn map_coords<F: Fn(S) -> S>(&self, f: F) -> (r: Tuple<S>)
        requires
            forall|c: S| #[trigger] f.requires((c,)),
        ensures
            f.ensures((self.x,), r.x),
            f.ensures((self.y,), r.y),
            f.ensures((self.z,), r.z),
            r.w == self.w,
    {
        Tuple { x: f(self.x), y: f(self.y), z: f(self.z), w: self.w }
    }

    /// Combines the coordinates pairwise with `plus` and sums the
    /// discriminators: point + vector is a point, vector + vector a vector.
    pub fn add_with<F: Fn(S, S) -> S>(&self, other: &Tuple<S>, plus: F) -> (r: Tuple<S>)
        requires
            forall|a: S, b: S| #[trigger] plus.requires((a, b)),
            i8::MIN <= self.w + other.w <= i8::MAX,
        ensures
            plus.ensures((self.x, other.x), r.x),
            plus.ensures((self.y, other.y), r.y),
            plus.ensures((self.z, other.z), r.z),
            r.w == self.w + other.w,
    {
        Tuple {
            x: plus(self.x, other.x),
            y: plus(self.y, other.y),
            z: plus(self.z, other.z),
            w: self.w + other.w,
        }
    }

    /// Combines the coordinates pairwise with `minus` and subtracts the
    /// discriminators: point - point is a vector, point - vector a point.
    pub fn sub_with<F: Fn(S, S) -> S>(&self, other: &Tuple<S>, minus: F) -> (r: Tuple<S>)
        requires
            forall|a: S, b: S| #[trigger] minus.requires((a, b)),
            i8::MIN <= self.w - other.w <= i8::MAX,
        ensures
            minus.ensures((self.x, other.x), r.x),
            minus.ensures((self.y, other.y), r.y),
            minus.ensures((self.z, other.z), r.z),
            r.w == self.w - other.w,
    {
        Tuple {
            x: minus(self.x, other.x),
            y: minus(self.y, other.y),
            z: minus(self.z, other.z),
            w: self.w - other.w,
        }
    }

    /// The zero-length tuple with this discriminator: what normalization
    /// returns for a tuple of magnitude zero.
    pub fn with_zero_coords(&self, zero: S) -> (r: Tuple<S>)
        ensures
            r == (Tuple { x: zero, y: zero, z: zero, w: self.w }),
    {
        Tuple { x: zero, y: zero, z: zero, w: self.w }
    }
}

/// A point and a vector are never approximately equal, whatever their
/// coordinates.
pub proof fn lemma_point_never_approx_eq_vector<S: ApproxEq>(p: Tuple<S>, v: Tuple<S>)
    requires
        p.w == POINT,
        v.w == VECTOR,
    ensures
        !p.approx_eq(&v),
        !v.approx_eq(&p),
{
}

/// How sums and differences combine discriminators: point + vector and
/// point - vector are points; vector + vector, vector - vector and
/// point - point are vectors.
pub proof fn lemma_discriminator_arithmetic<S>(a: Tuple<S>, b: Tuple<S>)
    ensures
        a.w == POINT && b.w == VECTOR ==> a.w + b.w == POINT && a.w - b.w == POINT,
        a.w == VECTOR && b.w == POINT ==> a.w + b.w == POINT,
        a.w == VECTOR && b.w == VECTOR ==> a.w + b.w == VECTOR && a.w - b.w == VECTOR,
        a.w == POINT && b.w == POINT ==> a.w - b.w == VECTOR,
{
}

/// A tuple equals an identically built one whenever each coordinate equals
/// itself, and differs from any tuple that disagrees in one coordinate or in
/// the discriminator.
pub proof fn lemma_tuple_round_trip<S: ApproxEq>(t: Tuple<S>, u: Tuple<S>)
    ensures
        t.x.approx_eq(&t.x) && t.y.approx_eq(&t.y) && t.z.approx_eq(&t.z) ==> t.approx_eq(&t),
        !t.x.approx_eq(&u.x) || !t.y.approx_eq(&u.y) || !t.z.approx_eq(&u.z) || t.w != u.w
            ==> !t.approx_eq(&u),
{
}

} // verus!
