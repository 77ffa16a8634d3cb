use vstd::prelude::*;
use crate::approx::ApproxEq;

verus! {

/// A linear RGB color over the scalar `S`. Channels are not clamped: range
/// enforcement belongs to whatever displays the color.
#[derive(Clone, Copy, Debug)]
pub struct Color<S> {
    pub r: S,
    pub g: S,
    pub b: S,
}

/// The color with channels `(r, g, b)`.
pub fn make_color<S>(r: S, g: S, b: S) -> (c: Color<S>)
    ensures
        c == (Color { r, g, b }),
{
    Color { r, g, b }
}

/// Two colors are approximately equal when each channel is.
impl<S: ApproxEq> ApproxEq for Color<S> {
    open spec fn approx_eq(&self, other: &Self) -> bool {
        &&& self.r.approx_eq(&other.r)
        &&& self.g.approx_eq(&other.g)
        &&& self.b.approx_eq(&other.b)
    }

    fn is_approx_eq(&self, other: &Self) -> (r: bool) {
        self.r.is_approx_eq(&other.r) && self.g.is_approx_eq(&other.g) && self.b.is_approx_eq(
            &other.b,
        )
    }
}

impl<S: Copy> Color<S> {
    /// Applies `f` to each channel: the shape of scaling by a scalar.
    pub fn map_channels<F: Fn(S) -> S>(&self, f: F) -> (c: Color<S>)
        requires
            forall|v: S| #[trigger] f.requires((v,)),
        ensures
            f.ensures((self.r,), c.r),
            f.ensures((self.g,), c.g),
            f.ensures((self.b,), c.b),
    {
        Color { r: f(self.r), g: f(self.g), b: f(self.b) }
    }

    /// Combines the channels pairwise with `f`: the shape of addition,
    /// subtraction and the Hadamard product.
    pub fn zip_channels<F: Fn(S, S) -> S>(&self, other: &Color<S>, f: F) -> (c: Color<S>)
        requires
            forall|u: S, v: S| #[trigger] f.requires((u, v)),
        ensures
            f.ensures((self.r, other.r), c.r),
            f.ensures((self.g, other.g), c.g),
            f.ensures((self.b, other.b), c.b),
    {
        Color { r: f(self.r, other.r), g: f(self.g, other.g), b: f(self.b, other.b) }
    }
}

/// A color equals an identically built one whenever each channel equals
/// itself, and differs from any color that disagrees in one channel.
pub proof fn lemma_color_round_trip<S: ApproxEq>(c: Color<S>, d: Color<S>)
    ensures
        c.r.approx_eq(&c.r) && c.g.approx_eq(&c.g) && c.b.approx_eq(&c.b) ==> c.approx_eq(&c),
        !c.r.approx_eq(&d.r) || !c.g.approx_eq(&d.g) || !c.b.approx_eq(&d.b) ==> !c.approx_eq(&d),
{
}

} // verus!
