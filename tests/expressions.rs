use rad::differentiables::Differentiable;
use rad::{c, cos, sin, v, vals, Cosable, Domain, Negatable, Sinable, VarNotProvided, X, Y};

/// An `f32` value domain.
#[derive(Debug, Clone, Copy, PartialEq)]
struct F32(f32);

// The `*_spec` items are the trait's spec functions, which the compiled
// library keeps as declarations; only the verifier gives them a meaning.
impl Domain for F32 {
    fn zero_spec() -> Self {
        unreachable!()
    }
    fn one_spec() -> Self {
        unreachable!()
    }
    fn add_spec(_a: Self, _b: Self) -> Self {
        unreachable!()
    }
    fn mul_spec(_a: Self, _b: Self) -> Self {
        unreachable!()
    }
    fn zero() -> Self {
        F32(0.0)
    }
    fn one() -> Self {
        F32(1.0)
    }
    fn add(a: Self, b: Self) -> Self {
        F32(a.0 + b.0)
    }
    fn mul(a: Self, b: Self) -> Self {
        F32(a.0 * b.0)
    }
}

impl Negatable for F32 {
    fn neg_spec(_v: Self) -> Self {
        unreachable!()
    }
    fn neg(v: Self) -> Self {
        F32(-v.0)
    }
}

impl Sinable for F32 {
    fn sin_spec(_v: Self) -> Self {
        unreachable!()
    }
    fn sin(v: Self) -> Self {
        F32(v.0.sin())
    }
}

impl Cosable for F32 {
    fn cos_spec(_v: Self) -> Self {
        unreachable!()
    }
    fn cos(v: Self) -> Self {
        F32(v.0.cos())
    }
}

/// An `f64` value domain.
#[derive(Debug, Clone, Copy, PartialEq)]
struct F64(f64);

// The `*_spec` items are the trait's spec functions, which the compiled
// library keeps as declarations; only the verifier gives them a meaning.
impl Domain for F64 {
    fn zero_spec() -> Self {
        unreachable!()
    }
    fn one_spec() -> Self {
        unreachable!()
    }
    fn add_spec(_a: Self, _b: Self) -> Self {
        unreachable!()
    }
    fn mul_spec(_a: Self, _b: Self) -> Self {
        unreachable!()
    }
    fn zero() -> Self {
        F64(0.0)
    }
    fn one() -> Self {
        F64(1.0)
    }
    fn add(a: Self, b: Self) -> Self {
        F64(a.0 + b.0)
    }
    fn mul(a: Self, b: Self) -> Self {
        F64(a.0 * b.0)
    }
}

impl Negatable for F64 {
    fn neg_spec(_v: Self) -> Self {
        unreachable!()
    }
    fn neg(v: Self) -> Self {
        F64(-v.0)
    }
}

impl Sinable for F64 {
    fn sin_spec(_v: Self) -> Self {
        unreachable!()
    }
    fn sin(v: Self) -> Self {
        F64(v.0.sin())
    }
}

impl Cosable for F64 {
    fn cos_spec(_v: Self) -> Self {
        unreachable!()
    }
    fn cos(v: Self) -> Self {
        F64(v.0.cos())
    }
}

#[test]
fn simple_addition() {
    let addition = v(X) + c(1i32);
    let r = addition.diff::<X>();

    assert_eq!(r, c(1) + c(0));
    // `r` is a constant, so the value given to X is not used
    assert_eq!(r.calc_x(0).unwrap(), 1);
}

#[test]
fn calc_val() {
    let v = v(X);

    assert_eq!(v.calc_x(F64(33.0)).unwrap(), F64(33.0));
}

#[test]
fn calc_val_wrong_var() {
    let v = v(Y);

    assert_eq!(v.calc_x(F32(33.0f32)), Err(VarNotProvided("rad::var::Y")));
}

#[test]
fn calc_add_cos() {
    let cos = cos(v(X)) + cos(v(X));

    assert_eq!(cos.calc_x(F64(0.0)).unwrap(), F64(2.0));
}

#[test]
fn calc_mul_cos() {
    let cos = cos(v(X)) * c(F64(3.0));

    assert_eq!(cos.calc_x(F64(0.0)).unwrap(), F64(3.0));
}

#[test]
fn addition_with_sin() {
    let addition = c(F64(1.0)) + sin(v(X));
    assert_eq!(addition.calc_x(F64(0.0)).unwrap(), F64(1.0));

    let r = addition.diff::<X>();

    assert_eq!(r, c(F64(0.0)) + rad::mul(cos(v(X)), c(F64(1.0))));
    assert_eq!(r.calc_x(F64(0.0)).unwrap(), F64(1.0));
}

#[test]
fn weird_one() {
    let val = cos(c(F32(1.0f32)) + sin(v(X)));

    let r = val.diff::<X>();

    assert_eq!(
        r,
        -sin(c(F32(1.0)) + sin(v(X))) * (c(F32(0.0)) + (cos(v(X)) * c(F32(1.0))))
    );
}

#[test]
fn chain_rule() {
    let val = cos(cos(cos(v(X)))) + c(F32(1.0f32));

    let r = val.diff::<X>();

    let e = (-sin(cos(cos(v(X)))) * (-sin(cos(v(X))) * (-sin(v(X)) * c(F32(1.0)))))
        + c(F32(0.0));

    assert_eq!(r, e);
}

#[test]
fn simple() {
    let val = cos(v(X)) + sin(v(Y)) + c(F32(1.0f32));

    let rx = val.diff::<X>();

    assert_eq!(
        rx,
        ((-sin(v(X)) * c(F32(1.0))) + (cos(v(Y)) * c(F32(0.0)))) + c(F32(0.0))
    );

    let ry = val.diff::<Y>();

    assert_eq!(
        ry,
        ((-sin(v(X)) * c(F32(0.0))) + (cos(v(Y)) * c(F32(1.0)))) + c(F32(0.0))
    );

    assert_eq!(
        val.calc(
            vals(X, F32(0.0))
                .add(Y, F32(std::f32::consts::PI / 2.0))
                .build()
        )
        .unwrap(),
        F32(3.0)
    );
    // the shorthands give the same
    assert_eq!(rx.calc_xy(F32(0.0), F32(0.0)).unwrap(), F32(0.0));
    assert_eq!(ry.calc_xy(F32(0.0), F32(0.0)).unwrap(), F32(1.0));
}

#[test]
fn lib_chain_rule() {
    let val = cos(cos(cos(v(X) * v(Y)))) + c(F32(1.0f32));

    let r = val.diff::<X>();

    let e = (-sin(cos(cos(v(X) * v(Y))))
        * (-sin(cos(v(X) * v(Y)))
            * (-sin(v(X) * v(Y)) * (c(F32(1.0)) * v(Y) + v(X) * c(F32(0.0))))))
        + c(F32(0.0f32));

    // with no simplification, the result is
    //     ((-sin(cos(cos((X * Y)))) * (-sin(cos((X * Y))) * (-sin((X * Y)) * ((1 * Y) + (X * 0))))) + 0)
    // which is -y sin(x y) sin(cos(x y)) sin(cos(cos(x y)))

    assert_eq!(r, e);
}
