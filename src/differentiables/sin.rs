//! Sines.
use crate::differentiables::cos::{cos, Cos, Cosable};
use crate::differentiables::mul;
use crate::differentiables::neg::Negatable;
use crate::differentiables::{Differentiable, VarNotProvided, D};
use crate::domain::Domain;
use crate::var::{Values, Var};
use std::marker::PhantomData;
use vstd::prelude::*;

verus! {

/// A value type with the sine function.
pub trait Sinable: Sized {
    /// What `sin` returns.
    spec fn sin_spec(v: Self) -> Self;

    fn sin(v: Self) -> (r: Self)
        ensures
            r == Self::sin_spec(v),
    ;
}

/// The sine of an expression.
#[derive(PartialEq, Eq, Debug)]
pub struct Sin<T, A>(pub A, pub PhantomData<T>);

impl<T: Domain + Sinable + Cosable + Negatable, A: Differentiable<T>> Differentiable<T> for Sin<
    T,
    A,
> {
    type Return = mul::Mul<T, D<T, Cos<T, A>>, D<T, A::Return>>;

    open spec fn value(&self, vals: Seq<(u64, T)>) -> Result<T, VarNotProvided> {
        match self.0.value(vals) {
            Err(e) => Err(e),
            Ok(a) => Ok(T::sin_spec(a)),
        }
    }

    /// The chain rule: `cos(a) * a'`.
    open spec fn derivative(&self, target: u64) -> Self::Return {
        mul::Mul(
            D(Cos(self.0, PhantomData), PhantomData),
            D(self.0.derivative(target), PhantomData),
            PhantomData,
        )
    }

    fn eval(&self, vals: &Values<T>) -> (r: Result<T, VarNotProvided>) {
        match self.0.eval(vals) {
            Err(e) => Err(e),
            Ok(a) => Ok(T::sin(a)),
        }
    }

    fn diff<ID: Var>(&self) -> (r: D<T, Self::Return>) {
        mul::mul(cos(self.0.duplicate()), self.0.diff::<ID>())
    }

    fn duplicate(&self) -> (r: Self) {
        Sin(self.0.duplicate(), PhantomData)
    }
}

/// Builds the sine `sin(a)`.
pub fn sin<T: Domain + Sinable + Cosable + Negatable, A>(a: A) -> (r: D<
    T,
    Sin<T, A>,
>)
    ensures
        r == D(Sin(a, PhantomData::<T>), PhantomData::<T>),
{
    D(Sin(a, PhantomData), PhantomData)
}

} // verus!
