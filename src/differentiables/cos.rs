//! Cosines.
use crate::differentiables::mul;
use crate::differentiables::neg::{self, Negatable};
use crate::differentiables::sin::{sin, Sin, Sinable};
use crate::differentiables::{Differentiable, VarNotProvided, D};
use crate::domain::Domain;
use crate::var::{Values, Var};
use std::marker::PhantomData;
use vstd::prelude::*;

verus! {

/// A value type with the cosine function.
pub trait Cosable: Sized {
    /// What `cos` returns.
    spec fn cos_spec(v: Self) -> Self;

    fn cos(v: Self) -> (r: Self)
        ensures
            r == Self::cos_spec(v),
    ;
}

/// The cosine of an expression.
#[derive(PartialEq, Eq, Debug)]
pub struct Cos<T, A>(pub A, pub PhantomData<T>);

impl<T: Domain + Sinable + Cosable + Negatable, A: Differentiable<T>> Differentiable<T> for Cos<
    T,
    A,
> {
    type Return = mul::Mul<T, D<T, neg::Neg<T, D<T, Sin<T, A>>>>, D<T, A::Return>>;

    open spec fn value(&self, vals: Seq<(u64, T)>) -> Result<T, VarNotProvided> {
        match self.0.value(vals) {
            Err(e) => Err(e),
            Ok(a) => Ok(T::cos_spec(a)),
        }
    }

    /// The chain rule: `-sin(a) * a'`.
    open spec fn derivative(&self, target: u64) -> Self::Return {
        mul::Mul(
            D(neg::Neg(D(Sin(self.0, PhantomData), PhantomData), PhantomData), PhantomData),
            D(self.0.derivative(target), PhantomData),
            PhantomData,
        )
    }

    fn eval(&self, vals: &Values<T>) -> (r: Result<T, VarNotProvided>) {
        match self.0.eval(vals) {
            Err(e) => Err(e),
            Ok(a) => Ok(T::cos(a)),
        }
    }

    fn diff<ID: Var>(&self) -> (r: D<T, Self::Return>) {
        mul::mul(neg::neg(sin(self.0.duplicate())), self.0.diff::<ID>())
    }

    fn duplicate(&self) -> (r: Self) {
        Cos(self.0.duplicate(), PhantomData)
    }
}

/// Builds the cosine `cos(a)`.
pub fn cos<T: Domain + Sinable + Cosable + Negatable, A>(a: A) -> (r: D<
    T,
    Cos<T, A>,
>)
    ensures
        r == D(Cos(a, PhantomData::<T>), PhantomData::<T>),
{
    D(Cos(a, PhantomData), PhantomData)
}

} // verus!
