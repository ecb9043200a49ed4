//! Negations.
use crate::differentiables::{Differentiable, VarNotProvided, D};
use crate::domain::Domain;
use crate::var::{Values, Var};
use std::marker::PhantomData;
use vstd::prelude::*;

verus! {

/// A value type with negation.
pub trait Negatable: Sized {
    /// What `neg` returns.
    spec fn neg_spec(v: Self) -> Self;

    fn neg(v: Self) -> (r: Self)
        ensures
            r == Self::neg_spec(v),
    ;
}

/// The negation of an expression.
#[derive(PartialEq, Eq, Debug)]
pub struct Neg<T, A>(pub A, pub PhantomData<T>);

impl<T: Domain + Negatable, A: Differentiable<T>> Differentiable<T> for Neg<T, A> {
    type Return = Neg<T, D<T, A::Return>>;

    open spec fn value(&self, vals: Seq<(u64, T)>) -> Result<T, VarNotProvided> {
        match self.0.value(vals) {
            Err(e) => Err(e),
            Ok(a) => Ok(T::neg_spec(a)),
        }
    }

    /// The negation of the derivative.
    open spec fn derivative(&self, target: u64) -> Self::Return {
        Neg(D(self.0.derivative(target), PhantomData), PhantomData)
    }

    fn eval(&self, vals: &Values<T>) -> (r: Result<T, VarNotProvided>) {
        match self.0.eval(vals) {
            Err(e) => Err(e),
            Ok(a) => Ok(T::neg(a)),
        }
    }

    fn diff<ID: Var>(&self) -> (r: D<T, Self::Return>) {
        self::neg(self.0.diff::<ID>())
    }

    fn duplicate(&self) -> (r: Self) {
        Neg(self.0.duplicate(), PhantomData)
    }
}

/// Builds the negation `-a`.
pub fn neg<T: Domain + Negatable, A>(a: A) -> (r: D<T, Neg<T, A>>)
    ensures
        r == D(Neg(a, PhantomData::<T>), PhantomData::<T>),
{
    D(Neg(a, PhantomData), PhantomData)
}

impl<T: Domain + Negatable, A: Differentiable<T>> std::ops::Neg for D<T, A> {
    type Output = D<T, Neg<T, D<T, A>>>;

    fn neg(self) -> (r: Self::Output) {
        self::neg(self)
    }
}

impl<T: Domain + Negatable, A: Differentiable<T>> vstd::std_specs::ops::NegSpecImpl for D<T, A> {
    open spec fn obeys_neg_spec() -> bool {
        true
    }

    open spec fn neg_req(self) -> bool {
        true
    }

    open spec fn neg_spec(self) -> Self::Output {
        D(Neg(self, PhantomData), PhantomData)
    }
}

} // verus!
