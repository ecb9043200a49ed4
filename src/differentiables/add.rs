//! Sums.
use crate::differentiables::{Differentiable, VarNotProvided, D};
use crate::domain::Domain;
use crate::var::{Values, Var};
use std::marker::PhantomData;
use vstd::prelude::*;

verus! {

/// The sum of two expressions.
#[derive(PartialEq, Eq, Debug)]
pub struct Add<T, A, B>(pub A, pub B, pub PhantomData<T>);

impl<T: Domain, A: Differentiable<T>, B: Differentiable<T>> Differentiable<T> for Add<T, A, B> {
    type Return = Add<T, D<T, A::Return>, D<T, B::Return>>;

    /// The sum of the two values; the left operand's failure comes first.
    open spec fn value(&self, vals: Seq<(u64, T)>) -> Result<T, VarNotProvided> {
        match self.0.value(vals) {
            Err(e) => Err(e),
            Ok(a) => match self.1.value(vals) {
                Err(e) => Err(e),
                Ok(b) => Ok(T::add_spec(a, b)),
            },
        }
    }

    /// The sum rule: the sum of the two derivatives.
    open spec fn derivative(&self, target: u64) -> Self::Return {
        Add(
            D(self.0.derivative(target), PhantomData),
            D(self.1.derivative(target), PhantomData),
            PhantomData,
        )
    }

    fn eval(&self, vals: &Values<T>) -> (r: Result<T, VarNotProvided>) {
        match self.0.eval(vals) {
            Err(e) => Err(e),
            Ok(a) => match self.1.eval(vals) {
                Err(e) => Err(e),
                Ok(b) => Ok(T::add(a, b)),
            },
        }
    }

    fn diff<ID: Var>(&self) -> (r: D<T, Self::Return>) {
        self::add(self.0.diff::<ID>(), self.1.diff::<ID>())
    }

    fn duplicate(&self) -> (r: Self) {
        Add(self.0.duplicate(), self.1.duplicate(), PhantomData)
    }
}

/// Builds the sum `a + b`.
pub fn add<T: Domain, A, B>(a: A, b: B) -> (r: D<
    T,
    Add<T, A, B>,
>)
    ensures
        r == D(Add(a, b, PhantomData::<T>), PhantomData::<T>),
{
    D(Add(a, b, PhantomData), PhantomData)
}

impl<T: Domain, A: Differentiable<T>, B: Differentiable<T>> std::ops::Add<D<T, B>> for D<T, A> {
    type Output = D<T, Add<T, D<T, A>, D<T, B>>>;

    fn add(self, rhs: D<T, B>) -> (r: Self::Output) {
        self::add(self, rhs)
    }
}

impl<T: Domain, A: Differentiable<T>, B: Differentiable<T>> vstd::std_specs::ops::AddSpecImpl<D<T, B>> for D<T, A> {
    open spec fn obeys_add_spec() -> bool {
        true
    }

    open spec fn add_req(self, rhs: D<T, B>) -> bool {
        true
    }

    open spec fn add_spec(self, rhs: D<T, B>) -> Self::Output {
        D(Add(self, rhs, PhantomData), PhantomData)
    }
}

} // verus!
