//! The building blocks of expressions, one module per kind of node.
pub mod add;
pub mod cos;
pub mod mul;
pub mod neg;
pub mod sin;

use crate::var::{val, vals, Values, Var, X, Y, Z};
use std::marker::PhantomData;
use vstd::prelude::*;

verus! {

/// An expression that can be evaluated against variable values and
/// differentiated with respect to a variable.
///
/// `value` and `derivative` are the mathematical meaning of the node: what
/// evaluation returns on a list of `(variable key, value)` entries, and the
/// expression that differentiation builds for the variable with a given key.
pub trait Differentiable<T>: Sized {
    /// The type of the derivative of this expression.
    type Return;

    /// The result of evaluating this expression on the given entries.
    spec fn value(&self, vals: Seq<(u64, T)>) -> Result<T, VarNotProvided>;

    /// The derivative of this expression with respect to the variable whose
    /// key is `target`.
    spec fn derivative(&self, target: u64) -> Self::Return;

    /// Evaluates this expression with the provided values, which it only
    /// borrows, so that both operands of a node can read them.
    fn eval(&self, vals: &Values<T>) -> (r: Result<T, VarNotProvided>)
        ensures
            r == self.value(vals@),
    ;

    /// Evaluates this expression with the provided values.
    ///
    /// A variable that has no entry fails the evaluation with its label;
    /// the operands of a node are evaluated left to right, and the first
    /// failure is the result.
    fn calc(&self, vals: Values<T>) -> (r: Result<T, VarNotProvided>)
        ensures
            r == self.value(vals@),
    {
        self.eval(&vals)
    }

    /// Shorthand for evaluating an expression that only contains `X`.
    fn calc_x(&self, x: T) -> (r: Result<T, VarNotProvided>)
        ensures
            r == self.value(seq![(X::identity().key, x)]),
    {
        self.calc(val(X, x))
    }

    /// Shorthand for evaluating an expression that only contains `X` and `Y`.
    fn calc_xy(&self, x: T, y: T) -> (r: Result<T, VarNotProvided>)
        ensures
            r == self.value(seq![(X::identity().key, x), (Y::identity().key, y)]),
    {
        let b = vals(X, x).add(Y, y).build();
        proof {
            assert(b@ =~= seq![(X::identity().key, x), (Y::identity().key, y)]);
        }
        self.calc(b)
    }

    /// Shorthand for evaluating an expression that only contains `X`, `Y`
    /// and `Z`.
    fn calc_xyz(&self, x: T, y: T, z: T) -> (r: Result<T, VarNotProvided>)
        ensures
            r == self.value(
                seq![(X::identity().key, x), (Y::identity().key, y), (Z::identity().key, z)],
            ),
    {
        let b = vals(X, x).add(Y, y).add(Z, z).build();
        proof {
            assert(b@ =~= seq![
                (X::identity().key, x),
                (Y::identity().key, y),
                (Z::identity().key, z),
            ]);
        }
        self.calc(b)
    }

    /// Differentiates this expression with respect to the variable `ID`.
    fn diff<ID: Var>(&self) -> (r: D<T, Self::Return>)
        ensures
            r == D(self.derivative(ID::identity().key), PhantomData::<T>),
    ;

    /// An exact copy of this expression.
    fn duplicate(&self) -> (r: Self)
        ensures
            r == *self,
    ;
}

/// Wrapper type for expressions, on which the operators `+`, `*` and unary
/// `-` build sums, products and negations.
#[derive(PartialEq, Eq, Debug)]
pub struct D<T, I>(pub I, pub PhantomData<T>);

impl<T, I: Differentiable<T>> Differentiable<T> for D<T, I> {
    type Return = I::Return;

    open spec fn value(&self, vals: Seq<(u64, T)>) -> Result<T, VarNotProvided> {
        self.0.value(vals)
    }

    open spec fn derivative(&self, target: u64) -> I::Return {
        self.0.derivative(target)
    }

    fn eval(&self, vals: &Values<T>) -> (r: Result<T, VarNotProvided>) {
        self.0.eval(vals)
    }

    fn diff<ID: Var>(&self) -> (r: D<T, I::Return>) {
        self.0.diff::<ID>()
    }

    fn duplicate(&self) -> (r: Self) {
        D(self.0.duplicate(), PhantomData)
    }
}

/// The error of an evaluation that reached a variable with no value: it
/// holds the label of that variable.
#[derive(Debug, PartialEq, Eq, Clone, Copy)]
pub struct VarNotProvided(pub &'static str);

} // verus!
