//! The value types that expressions are evaluated over.
use vstd::prelude::*;

verus! {

/// A type that expressions can be evaluated and differentiated over.
///
/// It supplies the additive and multiplicative identities used by the
/// differentiation rules, and the addition and multiplication used by
/// evaluation. Each executable operation is tied to a spec function, so
/// that the meaning of an evaluation can be stated exactly.
pub trait Domain: Sized + Copy {
    /// The additive identity.
    spec fn zero_spec() -> Self;

    /// The multiplicative identity.
    spec fn one_spec() -> Self;

    /// What `add` returns.
    spec fn add_spec(a: Self, b: Self) -> Self;

    /// What `mul` returns.
    spec fn mul_spec(a: Self, b: Self) -> Self;

    /// Returns the additive identity.
    fn zero() -> (r: Self)
        ensures
            r == Self::zero_spec(),
    ;

    /// Returns the multiplicative identity.
    fn one() -> (r: Self)
        ensures
            r == Self::one_spec(),
    ;

    /// Returns `a + b`.
    fn add(a: Self, b: Self) -> (r: Self)
        ensures
            r == Self::add_spec(a, b),
    ;

    /// Returns `a * b`.
    fn mul(a: Self, b: Self) -> (r: Self)
        ensures
            r == Self::mul_spec(a, b),
    ;
}

} // verus!
