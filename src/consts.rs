//! Constants.
use crate::differentiables::{Differentiable, VarNotProvided, D};
use crate::domain::Domain;
use crate::var::{Values, Var};
use std::marker::PhantomData;
use vstd::prelude::*;

verus! {

/// An expression that is the constant value it holds.
#[derive(PartialEq, Eq, Debug)]
pub struct Const<T>(pub T);

impl<T: Domain> Differentiable<T> for Const<T> {
    type Return = Const<T>;

    open spec fn value(&self, vals: Seq<(u64, T)>) -> Result<T, VarNotProvided> {
        Ok(self.0)
    }

    open spec fn derivative(&self, target: u64) -> Const<T> {
        Const(T::zero_spec())
    }

    fn eval(&self, vals: &Values<T>) -> (r: Result<T, VarNotProvided>) {
        Ok(self.0)
    }

    fn diff<ID: Var>(&self) -> (r: D<T, Const<T>>) {
        c(T::zero())
    }

    fn duplicate(&self) -> (r: Self) {
        Const(self.0)
    }
}

impl<T: Domain> From<T> for D<T, Const<T>> {
    fn from(t: T) -> (r: Self) {
        D(Const(t), PhantomData)
    }
}

impl<T: Domain> vstd::std_specs::convert::FromSpecImpl<T> for D<T, Const<T>> {
    open spec fn obeys_from_spec() -> bool {
        true
    }

    open spec fn from_spec(t: T) -> Self {
        D(Const(t), PhantomData)
    }
}

/// Builds the constant expression `t`.
pub fn c<T: Domain>(t: T) -> (r: D<T, Const<T>>)
    ensures
        r == D(Const(t), PhantomData::<T>),
{
    D::from(t)
}

} // verus!
