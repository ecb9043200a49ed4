//! Products.
use crate::differentiables::add;
use crate::differentiables::{Differentiable, VarNotProvided, D};
use crate::domain::Domain;
use crate::var::{Values, Var};
use std::marker::PhantomData;
use vstd::prelude::*;

verus! {

/// The product of two expressions.
#[derive(PartialEq, Eq, Debug)]
pub struct Mul<T, A, B>(pub A, pub B, pub PhantomData<T>);

impl<T: Domain, A: Differentiable<T>, B: Differentiable<T>> Differentiable<T> for Mul<T, A, B> {
    type Return = add::Add<T, D<T, Mul<T, D<T, A::Return>, B>>, D<T, Mul<T, A, D<T, B::Return>>>>;

    /// The product of the two values; the left operand's failure comes first.
    open spec fn value(&self, vals: Seq<(u64, T)>) -> Result<T, VarNotProvided> {
        match self.0.value(vals) {
            Err(e) => Err(e),
            Ok(a) => match self.1.value(vals) {
                Err(e) => Err(e),
                Ok(b) => Ok(T::mul_spec(a, b)),
            },
        }
    }

    /// The product rule: `a' * b + a * b'`, with the operands kept as they
    /// are.
    open spec fn derivative(&self, target: u64) -> Self::Return {
        add::Add(
            D(Mul(D(self.0.derivative(target), PhantomData), self.1, PhantomData), PhantomData),
            D(Mul(self.0, D(self.1.derivative(target), PhantomData), PhantomData), PhantomData),
            PhantomData,
        )
    }

    fn eval(&self, vals: &Values<T>) -> (r: Result<T, VarNotProvided>) {
        match self.0.eval(vals) {
            Err(e) => Err(e),
            Ok(a) => match self.1.eval(vals) {
                Err(e) => Err(e),
                Ok(b) => Ok(T::mul(a, b)),
            },
        }
    }

    fn diff<ID: Var>(&self) -> (r: D<T, Self::Return>) {
        add::add(
            self::mul(self.0.diff::<ID>(), self.1.duplicate()),
            self::mul(self.0.duplicate(), self.1.diff::<ID>()),
        )
    }

    fn duplicate(&self) -> (r: Self) {
        Mul(self.0.duplicate(), self.1.duplicate(), PhantomData)
    }
}

/// Builds the product `a * b`.
pub fn mul<T: Domain, A, B>(a: A, b: B) -> (r: D<
    T,
    Mul<T, A, B>,
>)
    ensures
        r == D(Mul(a, b, PhantomData::<T>), PhantomData::<T>),
{
    D(Mul(a, b, PhantomData), PhantomData)
}

impl<T: Domain, A: Differentiable<T>, B: Differentiable<T>> std::ops::Mul<D<T, B>> for D<T, A> {
    type Output = D<T, Mul<T, D<T, A>, D<T, B>>>;

    fn mul(self, rhs: D<T, B>) -> (r: Self::Output) {
        self::mul(self, rhs)
    }
}

impl<T: Domain, A: Differentiable<T>, B: Differentiable<T>> vstd::std_specs::ops::MulSpecImpl<D<T, B>> for D<T, A> {
    open spec fn obeys_mul_spec() -> bool {
        true
    }

    open spec fn mul_req(self, rhs: D<T, B>) -> bool {
        true
    }

    open spec fn mul_spec(self, rhs: D<T, B>) -> Self::Output {
        D(Mul(self, rhs, PhantomData), PhantomData)
    }
}

} // verus!
