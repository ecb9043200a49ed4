//! Symbolic differentiation of expression trees.
//!
//! An expression is built from constants, variables, sums, products,
//! negations, sines and cosines. It can be evaluated against a set of
//! variable values, and differentiated with respect to any variable, which
//! yields a new expression.
pub mod consts;
pub mod default_impls;
pub mod differentiables;
pub mod domain;
pub mod laws;
pub mod var;

pub use crate::consts::c;
pub use crate::differentiables::add::add;
pub use crate::differentiables::cos::{cos, Cosable};
pub use crate::differentiables::mul::mul;
pub use crate::differentiables::neg::{neg, Negatable};
pub use crate::differentiables::sin::{sin, Sinable};
pub use crate::differentiables::{Differentiable, VarNotProvided, D};
pub use crate::domain::Domain;
pub use crate::var::{v, val, vals, Values, ValuesBuilder, Var, VarId, X, Y, Z};
