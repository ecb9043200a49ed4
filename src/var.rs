//! Variables, and the values given to them for an evaluation.
use crate::consts::{c, Const};
use crate::differentiables::{Differentiable, VarNotProvided, D};
use crate::domain::Domain;
use std::marker::PhantomData;
use vstd::prelude::*;

verus! {

/// The identity of a variable.
///
/// Two variables are the same variable exactly when their keys are equal;
/// the label only names the variable in an error.
#[derive(Debug, PartialEq, Eq, Clone, Copy)]
pub struct VarId {
    pub key: u64,
    pub label: &'static str,
}

/// A variable: a type whose identity is fixed.
///
/// Each variable must have a key of its own. The keys 0, 1 and 2 belong to
/// `X`, `Y` and `Z`.
pub trait Var {
    /// The identity of this variable.
    spec fn identity() -> VarId;

    fn id() -> (r: VarId)
        ensures
            r == Self::identity(),
    ;
}

/// The value of the first entry for `key`, if there is one.
pub open spec fn lookup<T>(entries: Seq<(u64, T)>, key: u64) -> Option<T>
    decreases entries.len(),
{
    if entries.len() == 0 {
        None
    } else if entries[0].0 == key {
        Some(entries[0].1)
    } else {
        lookup(entries.drop_first(), key)
    }
}

/// An expression that is the variable `W`.
#[derive(PartialEq, Eq, Debug)]
pub struct V<T, W>(pub PhantomData<(T, W)>);

impl<T: Domain, W: Var> Differentiable<T> for V<T, W> {
    type Return = Const<T>;

    open spec fn value(&self, vals: Seq<(u64, T)>) -> Result<T, VarNotProvided> {
        match lookup(vals, W::identity().key) {
            Some(t) => Ok(t),
            None => Err(VarNotProvided(W::identity().label)),
        }
    }

    open spec fn derivative(&self, target: u64) -> Const<T> {
        if W::identity().key == target {
            Const(T::one_spec())
        } else {
            Const(T::zero_spec())
        }
    }

    fn eval(&self, vals: &Values<T>) -> (r: Result<T, VarNotProvided>) {
        let id = W::id();
        match vals.get(id.key) {
            Some(t) => Ok(t),
            None => Err(VarNotProvided(id.label)),
        }
    }

    fn diff<ID: Var>(&self) -> (r: D<T, Const<T>>) {
        if W::id().key == ID::id().key {
            c(T::one())
        } else {
            c(T::zero())
        }
    }

    fn duplicate(&self) -> (r: Self) {
        V(PhantomData)
    }
}

/// Builds the expression that is the variable `ID`.
pub fn v<T: Domain, ID: Var>(_id: ID) -> (r: D<T, V<T, ID>>)
    ensures
        r == D(V(PhantomData::<(T, ID)>), PhantomData::<T>),
{
    D(V(PhantomData), PhantomData)
}

/// The values of variables for one evaluation: a list of entries, each a
/// variable's key and its value.
///
/// A variable may be given more than once; lookup takes the first entry
/// for it, in the order in which the entries were added.
pub struct Values<T> {
    entries: Vec<(u64, T)>,
}

impl<T> View for Values<T> {
    type V = Seq<(u64, T)>;

    closed spec fn view(&self) -> Seq<(u64, T)> {
        self.entries@
    }
}

impl<T: Copy> Values<T> {
    /// The value of the first entry for `key`, if there is one.
    pub fn get(&self, key: u64) -> (r: Option<T>)
        ensures
            r == lookup(self@, key),
    {
        let n = self.entries.len();
        let mut i: usize = 0;
        assert(self.entries@.subrange(0, n as int) =~= self.entries@);
        while i < n
            invariant
                n == self.entries@.len(),
                0 <= i <= n,
                lookup(self.entries@, key) == lookup(
                    self.entries@.subrange(i as int, n as int),
                    key,
                ),
            decreases n - i,
        {
            let ghost rest = self.entries@.subrange(i as int, n as int);
            if self.entries[i].0 == key {
                assert(rest[0] == self.entries@[i as int]);
                return Some(self.entries[i].1);
            }
            assert(rest.drop_first() =~= self.entries@.subrange(i + 1, n as int));
            i += 1;
        }
        assert(self.entries@.subrange(n as int, n as int) =~= Seq::<(u64, T)>::empty());
        None
    }
}

/// Collects the values of variables, one at a time, for a `Values`.
pub struct ValuesBuilder<T>(Vec<(u64, T)>);

impl<T> View for ValuesBuilder<T> {
    type V = Seq<(u64, T)>;

    closed spec fn view(&self) -> Seq<(u64, T)> {
        self.0@
    }
}

impl<T> ValuesBuilder<T> {
    /// A builder with no entries.
    pub fn new() -> (r: Self)
        ensures
            r@ == Seq::<(u64, T)>::empty(),
    {
        ValuesBuilder(Vec::new())
    }

    /// Adds the value `t` for the variable `ID` after the entries so far.
    pub fn add<ID: Var>(self, _id: ID, t: T) -> (r: Self)
        ensures
            r@ == self@.push((ID::identity().key, t)),
    {
        let mut entries = self.0;
        entries.push((ID::id().key, t));
        ValuesBuilder(entries)
    }

    /// The values collected so far.
    pub fn build(self) -> (r: Values<T>)
        ensures
            r@ == self@,
    {
        Values { entries: self.0 }
    }
}

/// Returns the `Values` that holds the single variable `ID` with value `t`.
pub fn val<T, ID: Var>(i: ID, t: T) -> (r: Values<T>)
    ensures
        r@ == seq![(ID::identity().key, t)],
{
    let b = ValuesBuilder::new().add(i, t);
    assert(b@ =~= seq![(ID::identity().key, t)]);
    b.build()
}

/// Returns a `ValuesBuilder` that holds the variable `ID` with value `t`.
pub fn vals<T, ID: Var>(i: ID, t: T) -> (r: ValuesBuilder<T>)
    ensures
        r@ == seq![(ID::identity().key, t)],
{
    let b = ValuesBuilder::new().add(i, t);
    assert(b@ =~= seq![(ID::identity().key, t)]);
    b
}

/// The variable `X`.
#[derive(PartialEq, Eq, Debug, Clone, Copy)]
pub struct X;

impl Var for X {
    open spec fn identity() -> VarId {
        VarId { key: 0, label: "rad::var::X" }
    }

    fn id() -> (r: VarId) {
        VarId { key: 0, label: "rad::var::X" }
    }
}

/// The variable `Y`.
#[derive(PartialEq, Eq, Debug, Clone, Copy)]
pub struct Y;

impl Var for Y {
    open spec fn identity() -> VarId {
        VarId { key: 1, label: "rad::var::Y" }
    }

    fn id() -> (r: VarId) {
        VarId { key: 1, label: "rad::var::Y" }
    }
}

/// The variable `Z`.
#[derive(PartialEq, Eq, Debug, Clone, Copy)]
pub struct Z;

impl Var for Z {
    open spec fn identity() -> VarId {
        VarId { key: 2, label: "rad::var::Z" }
    }

    fn id() -> (r: VarId) {
        VarId { key: 2, label: "rad::var::Z" }
    }
}

} // verus!
