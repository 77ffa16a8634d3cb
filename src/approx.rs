use vstd::prelude::*;

verus! {

/// Equality up to a fixed tolerance.
///
/// Scalars decide it from their values; aggregates compose it from their
/// components. Callers that hold two values of one type compare them through
/// `is_approx_eq`, whatever that type is.
///
/// Compiled outside Verus, `approx_eq` is an ordinary method: an
/// implementation written there defines it as the same predicate that its
/// `is_approx_eq` computes.
pub trait ApproxEq: Sized {
    /// Whether `self` and `other` count as equal under this type's rule.
    spec fn approx_eq(&self, other: &Self) -> bool;

    /// Decides `approx_eq`; never fails.
    fn is_approx_eq(&self, other: &Self) -> (r: bool)
        ensures
            r == self.approx_eq(other),
    ;
}

/// The uniform equality operation over every type with the capability.
pub fn is_approx_eq<T: ApproxEq>(lhs: &T, rhs: &T) -> (r: bool)
    ensures
        r == lhs.approx_eq(rhs),
{
    lhs.is_approx_eq(rhs)
}

} // verus!
