//! Laws that every expression obeys, stated over the spec meaning of
//! differentiation.
use crate::consts::Const;
use crate::differentiables::cos::{Cos, Cosable};
use crate::differentiables::neg::Negatable;
use crate::differentiables::{add, mul, neg};
use crate::differentiables::sin::{Sin, Sinable};
use crate::differentiables::{Differentiable, D};
use crate::domain::Domain;
use crate::var::{Var, V, X, Y, Z};
use std::marker::PhantomData;
use vstd::prelude::*;

verus! {

/// Wraps a node in `D`.
pub open spec fn wrap<T, I>(i: I) -> D<T, I> {
    D(i, PhantomData)
}

/// Differentiation is deterministic: equal expressions have equal
/// derivatives with respect to the same variable.
pub proof fn lemma_diff_deterministic<T, E: Differentiable<T>>(a: E, b: E, target: u64)
    requires
        a == b,
    ensures
        a.derivative(target) == b.derivative(target),
{
}

/// The derivative of a constant is the constant zero, whatever its value and
/// whatever the variable.
pub proof fn lemma_constant_rule<T: Domain>(value: T, target: u64)
    ensures
        Const(value).derivative(target) == Const(T::zero_spec()),
        wrap::<T, _>(Const(value)).derivative(target) == Const(T::zero_spec()),
{
}

/// The derivative of a variable is one with respect to itself and zero with
/// respect to any variable with another key.
pub proof fn lemma_variable_rule<T: Domain, W: Var, U: Var>()
    ensures
        V::<T, W>(PhantomData).derivative(W::identity().key) == Const(T::one_spec()),
        W::identity().key != U::identity().key ==> V::<T, U>(PhantomData).derivative(
            W::identity().key,
        ) == Const(T::zero_spec()),
{
}

/// `X`, `Y` and `Z` are three distinct variables.
pub proof fn lemma_standard_variables_distinct()
    ensures
        X::identity().key != Y::identity().key,
        X::identity().key != Z::identity().key,
        Y::identity().key != Z::identity().key,
{
}

/// The sum rule: the derivative of `a + b` is the sum of the derivatives of
/// `a` and `b`.
pub proof fn lemma_sum_rule<T: Domain, A: Differentiable<T>, B: Differentiable<T>>(
    a: A,
    b: B,
    target: u64,
)
    ensures
        wrap::<T, _>(add::Add(a, b, PhantomData::<T>)).derivative(target) == add::Add(
            wrap::<T, _>(a.derivative(target)),
            wrap::<T, _>(b.derivative(target)),
            PhantomData::<T>,
        ),
{
}

/// The product rule: the derivative of `a * b` is `a' * b + a * b'`, with `a`
/// and `b` themselves unchanged.
pub proof fn lemma_product_rule<T: Domain, A: Differentiable<T>, B: Differentiable<T>>(
    a: A,
    b: B,
    target: u64,
)
    ensures
        wrap::<T, _>(mul::Mul(a, b, PhantomData::<T>)).derivative(target) == add::Add(
            wrap::<T, _>(mul::Mul(wrap::<T, _>(a.derivative(target)), b, PhantomData::<T>)),
            wrap::<T, _>(mul::Mul(a, wrap::<T, _>(b.derivative(target)), PhantomData::<T>)),
            PhantomData::<T>,
        ),
{
}

/// Differentiating `cos(X) + sin(Y) + k` with respect to one variable
/// leaves the constant zero as the inner derivative of the term in the
/// other variable.
pub proof fn lemma_independent_variables<T: Domain + Sinable + Cosable + Negatable>(k: T)
    ensures
        ({
            let vx = wrap::<T, _>(V::<T, X>(PhantomData));
            let vy = wrap::<T, _>(V::<T, Y>(PhantomData));
            let e = add::Add(
                wrap::<T, _>(
                    add::Add(wrap::<T, _>(Cos(vx, PhantomData::<T>)), wrap::<T, _>(Sin(vy, PhantomData::<T>)), PhantomData::<T>),
                ),
                wrap::<T, _>(Const(k)),
                PhantomData::<T>,
            );
            let one = wrap::<T, _>(Const(T::one_spec()));
            let zero = wrap::<T, _>(Const(T::zero_spec()));
            let minus_sin_x = wrap::<T, _>(neg::Neg(wrap::<T, _>(Sin(vx, PhantomData::<T>)), PhantomData::<T>));
            let cos_y = wrap::<T, _>(Cos(vy, PhantomData::<T>));
            &&& e.derivative(X::identity().key) == add::Add(
                wrap::<T, _>(
                    add::Add(
                        wrap::<T, _>(mul::Mul(minus_sin_x, one, PhantomData::<T>)),
                        wrap::<T, _>(mul::Mul(cos_y, zero, PhantomData::<T>)),
                        PhantomData::<T>,
                    ),
                ),
                zero,
                PhantomData::<T>,
            )
            &&& e.derivative(Y::identity().key) == add::Add(
                wrap::<T, _>(
                    add::Add(
                        wrap::<T, _>(mul::Mul(minus_sin_x, zero, PhantomData::<T>)),
                        wrap::<T, _>(mul::Mul(cos_y, one, PhantomData::<T>)),
                        PhantomData::<T>,
                    ),
                ),
                zero,
                PhantomData::<T>,
            )
        }),
{
}

} // verus!
