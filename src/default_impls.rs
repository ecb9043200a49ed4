//! The integer types as value domains.
//!
//! Addition, multiplication and negation wrap around on overflow, so that
//! evaluation is total on every input.
use crate::differentiables::neg::Negatable;
use crate::domain::Domain;
use vstd::prelude::*;

verus! {

impl Domain for u8 {
    open spec fn zero_spec() -> u8 {
        0
    }

    open spec fn one_spec() -> u8 {
        1
    }

    open spec fn add_spec(a: u8, b: u8) -> u8 {
        a.wrapping_add(b)
    }

    open spec fn mul_spec(a: u8, b: u8) -> u8 {
        a.wrapping_mul(b)
    }

    fn zero() -> (r: u8) {
        0
    }

    fn one() -> (r: u8) {
        1
    }

    fn add(a: u8, b: u8) -> (r: u8) {
        a.wrapping_add(b)
    }

    fn mul(a: u8, b: u8) -> (r: u8) {
        a.wrapping_mul(b)
    }
}

impl Domain for i8 {
    open spec fn zero_spec() -> i8 {
        0
    }

    open spec fn one_spec() -> i8 {
        1
    }

    open spec fn add_spec(a: i8, b: i8) -> i8 {
        a.wrapping_add(b)
    }

    open spec fn mul_spec(a: i8, b: i8) -> i8 {
        a.wrapping_mul(b)
    }

    fn zero() -> (r: i8) {
        0
    }

    fn one() -> (r: i8) {
        1
    }

    fn add(a: i8, b: i8) -> (r: i8) {
        a.wrapping_add(b)
    }

    fn mul(a: i8, b: i8) -> (r: i8) {
        a.wrapping_mul(b)
    }
}

impl Domain for u16 {
    open spec fn zero_spec() -> u16 {
        0
    }

    open spec fn one_spec() -> u16 {
        1
    }

    open spec fn add_spec(a: u16, b: u16) -> u16 {
        a.wrapping_add(b)
    }

    open spec fn mul_spec(a: u16, b: u16) -> u16 {
        a.wrapping_mul(b)
    }

    fn zero() -> (r: u16) {
        0
    }

    fn one() -> (r: u16) {
        1
    }

    fn add(a: u16, b: u16) -> (r: u16) {
        a.wrapping_add(b)
    }

    fn mul(a: u16, b: u16) -> (r: u16) {
        a.wrapping_mul(b)
    }
}

impl Domain for i16 {
    open spec fn zero_spec() -> i16 {
        0
    }

    open spec fn one_spec() -> i16 {
        1
    }

    open spec fn add_spec(a: i16, b: i16) -> i16 {
        a.wrapping_add(b)
    }

    open spec fn mul_spec(a: i16, b: i16) -> i16 {
        a.wrapping_mul(b)
    }

    fn zero() -> (r: i16) {
        0
    }

    fn one() -> (r: i16) {
        1
    }

    fn add(a: i16, b: i16) -> (r: i16) {
        a.wrapping_add(b)
    }

    fn mul(a: i16, b: i16) -> (r: i16) {
        a.wrapping_mul(b)
    }
}

impl Domain for u32 {
    open spec fn zero_spec() -> u32 {
        0
    }

    open spec fn one_spec() -> u32 {
        1
    }

    open spec fn add_spec(a: u32, b: u32) -> u32 {
        a.wrapping_add(b)
    }

    open spec fn mul_spec(a: u32, b: u32) -> u32 {
        a.wrapping_mul(b)
    }

    fn zero() -> (r: u32) {
        0
    }

    fn one() -> (r: u32) {
        1
    }

    fn add(a: u32, b: u32) -> (r: u32) {
        a.wrapping_add(b)
    }

    fn mul(a: u32, b: u32) -> (r: u32) {
        a.wrapping_mul(b)
    }
}

impl Domain for i32 {
    open spec fn zero_spec() -> i32 {
        0
    }

    open spec fn one_spec() -> i32 {
        1
    }

    open spec fn add_spec(a: i32, b: i32) -> i32 {
        a.wrapping_add(b)
    }

    open spec fn mul_spec(a: i32, b: i32) -> i32 {
        a.wrapping_mul(b)
    }

    fn zero() -> (r: i32) {
        0
    }

    fn one() -> (r: i32) {
        1
    }

    fn add(a: i32, b: i32) -> (r: i32) {
        a.wrapping_add(b)
    }

    fn mul(a: i32, b: i32) -> (r: i32) {
        a.wrapping_mul(b)
    }
}

impl Domain for u64 {
    open spec fn zero_spec() -> u64 {
        0
    }

    open spec fn one_spec() -> u64 {
        1
    }

    open spec fn add_spec(a: u64, b: u64) -> u64 {
        a.wrapping_add(b)
    }

    open spec fn mul_spec(a: u64, b: u64) -> u64 {
        a.wrapping_mul(b)
    }

    fn zero() -> (r: u64) {
        0
    }

    fn one() -> (r: u64) {
        1
    }

    fn add(a: u64, b: u64) -> (r: u64) {
        a.wrapping_add(b)
    }

    fn mul(a: u64, b: u64) -> (r: u64) {
        a.wrapping_mul(b)
    }
}

impl Domain for i64 {
    open spec fn zero_spec() -> i64 {
        0
    }

    open spec fn one_spec() -> i64 {
        1
    }

    open spec fn add_spec(a: i64, b: i64) -> i64 {
        a.wrapping_add(b)
    }

    open spec fn mul_spec(a: i64, b: i64) -> i64 {
        a.wrapping_mul(b)
    }

    fn zero() -> (r: i64) {
        0
    }

    fn one() -> (r: i64) {
        1
    }

    fn add(a: i64, b: i64) -> (r: i64) {
        a.wrapping_add(b)
    }

    fn mul(a: i64, b: i64) -> (r: i64) {
        a.wrapping_mul(b)
    }
}

impl Negatable for i8 {
    open spec fn neg_spec(v: i8) -> i8 {
        0i8.wrapping_sub(v)
    }

    fn neg(v: i8) -> (r: i8) {
        0i8.wrapping_sub(v)
    }
}

impl Negatable for i16 {
    open spec fn neg_spec(v: i16) -> i16 {
        0i16.wrapping_sub(v)
    }

    fn neg(v: i16) -> (r: i16) {
        0i16.wrapping_sub(v)
    }
}

impl Negatable for i32 {
    open spec fn neg_spec(v: i32) -> i32 {
        0i32.wrapping_sub(v)
    }

    fn neg(v: i32) -> (r: i32) {
        0i32.wrapping_sub(v)
    }
}

impl Negatable for i64 {
    open spec fn neg_spec(v: i64) -> i64 {
        0i64.wrapping_sub(v)
    }

    fn neg(v: i64) -> (r: i64) {
        0i64.wrapping_sub(v)
    }
}

} // verus!
