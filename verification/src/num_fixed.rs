//! The numeric operation set.
//!
//! Every primitive numeric kind supports comparison (never failing between
//! values of the same kind) and checked arithmetic; fixed-width overflow,
//! underflow and division by zero surface as a `BoundBroken` failure rather
//! than wrapping or aborting, and operator/kind pairs with no meaning
//! surface as an `InvalidTypeReceived` failure. Arbitrary-precision
//! integers are backed by the `num_bigint` crate behind trusted wrappers;
//! their only failure is division by zero (and, for the unsigned kind,
//! subtraction below zero). Decimal literal kinds support exact comparison
//! of their digit strings; arithmetic on them is not defined here.

use vstd::prelude::*;

use crate::notes::ErrorType;

verus! {

/// A comparison operator.
#[derive(Clone, Copy, PartialEq, Eq, Structural, Debug)]
pub enum CmpOp {
    Eq,
    Ne,
    Gt,
    Ge,
    Lt,
    Le,
}

/// An arithmetic operator.
#[derive(Clone, Copy, PartialEq, Eq, Structural, Debug)]
pub enum ArithOp {
    Add,
    Sub,
    Mul,
    Div,
}

/// What a comparison operator means on mathematical integers.
pub open spec fn cmp_int_spec(op: CmpOp, a: int, b: int) -> bool {
    match op {
        CmpOp::Eq => a == b,
        CmpOp::Ne => a != b,
        CmpOp::Gt => a > b,
        CmpOp::Ge => a >= b,
        CmpOp::Lt => a < b,
        CmpOp::Le => a <= b,
    }
}

/// Division truncating toward zero, as the machine division operators do.
pub open spec fn trunc_div(x: int, d: int) -> int {
    if x == 0 {
        0
    } else if x > 0 && d > 0 {
        x / d
    } else if x < 0 && d < 0 {
        (x * -1) / (d * -1)
    } else if x < 0 {
        ((x * -1) / d) * -1
    } else {
        (x / (d * -1)) * -1
    }
}

/// What an arithmetic operator means on mathematical integers;
/// `None` only for division by zero.
pub open spec fn int_arith(op: ArithOp, a: int, b: int) -> Option<int> {
    match op {
        ArithOp::Add => Option::Some(a + b),
        ArithOp::Sub => Option::Some(a - b),
        ArithOp::Mul => Option::Some(a * b),
        ArithOp::Div => if b == 0 {
            Option::None
        } else {
            Option::Some(trunc_div(a, b))
        },
    }
}

/// Checked arithmetic on a fixed-width integer kind with the given bounds;
/// `None` marks a broken bound (overflow, underflow or division by zero).
pub open spec fn fixed_arith(op: ArithOp, a: int, b: int, lo: int, hi: int) -> Option<int> {
    match int_arith(op, a, b) {
        Option::Some(v) => if lo <= v <= hi {
            Option::Some(v)
        } else {
            Option::None
        },
        Option::None => Option::None,
    }
}

fn try_eq_i8(a: i8, b: i8) -> (r: bool)
    ensures
        r == (a == b),
{
    a == b
}

fn try_gt_i8(a: i8, b: i8) -> (r: bool)
    ensures
        r == (a > b),
{
    a > b
}

fn try_lt_i8(a: i8, b: i8) -> (r: bool)
    ensures
        r == (a < b),
{
    a < b
}

pub(crate) fn cmp_i8(op: CmpOp, a: i8, b: i8) -> (r: bool)
    ensures
        r == cmp_int_spec(op, a as int, b as int),
{
    match op {
        CmpOp::Eq => try_eq_i8(a, b),
        CmpOp::Ne => !try_eq_i8(a, b),
        CmpOp::Gt => try_gt_i8(a, b),
        CmpOp::Le => !try_gt_i8(a, b),
        CmpOp::Lt => try_lt_i8(a, b),
        CmpOp::Ge => !try_lt_i8(a, b),
    }
}

fn try_eq_i16(a: i16, b: i16) -> (r: bool)
    ensures
        r == (a == b),
{
    a == b
}

fn try_gt_i16(a: i16, b: i16) -> (r: bool)
    ensures
        r == (a > b),
{
    a > b
}

fn try_lt_i16(a: i16, b: i16) -> (r: bool)
    ensures
        r == (a < b),
{
    a < b
}

pub(crate) fn cmp_i16(op: CmpOp, a: i16, b: i16) -> (r: bool)
    ensures
        r == cmp_int_spec(op, a as int, b as int),
{
    match op {
        CmpOp::Eq => try_eq_i16(a, b),
        CmpOp::Ne => !try_eq_i16(a, b),
        CmpOp::Gt => try_gt_i16(a, b),
        CmpOp::Le => !try_gt_i16(a, b),
        CmpOp::Lt => try_lt_i16(a, b),
        CmpOp::Ge => !try_lt_i16(a, b),
    }
}

fn try_eq_i32(a: i32, b: i32) -> (r: bool)
    ensures
        r == (a == b),
{
    a == b
}

fn try_gt_i32(a: i32, b: i32) -> (r: bool)
    ensures
        r == (a > b),
{
    a > b
}

fn try_lt_i32(a: i32, b: i32) -> (r: bool)
    ensures
        r == (a < b),
{
    a < b
}

pub(crate) fn cmp_i32(op: CmpOp, a: i32, b: i32) -> (r: bool)
    ensures
        r == cmp_int_spec(op, a as int, b as int),
{
    match op {
        CmpOp::Eq => try_eq_i32(a, b),
        CmpOp::Ne => !try_eq_i32(a, b),
        CmpOp::Gt => try_gt_i32(a, b),
        CmpOp::Le => !try_gt_i32(a, b),
        CmpOp::Lt => try_lt_i32(a, b),
        CmpOp::Ge => !try_lt_i32(a, b),
    }
}

fn try_eq_i64(a: i64, b: i64) -> (r: bool)
    ensures
        r == (a == b),
{
    a == b
}

fn try_gt_i64(a: i64, b: i64) -> (r: bool)
    ensures
        r == (a > b),
{
    a > b
}

fn try_lt_i64(a: i64, b: i64) -> (r: bool)
    ensures
        r == (a < b),
{
    a < b
}

pub(crate) fn cmp_i64(op: CmpOp, a: i64, b: i64) -> (r: bool)
    ensures
        r == cmp_int_spec(op, a as int, b as int),
{
    match op {
        CmpOp::Eq => try_eq_i64(a, b),
        CmpOp::Ne => !try_eq_i64(a, b),
        CmpOp::Gt => try_gt_i64(a, b),
        CmpOp::Le => !try_gt_i64(a, b),
        CmpOp::Lt => try_lt_i64(a, b),
        CmpOp::Ge => !try_lt_i64(a, b),
    }
}

fn try_eq_i128(a: i128, b: i128) -> (r: bool)
    ensures
        r == (a == b),
{
    a == b
}

fn try_gt_i128(a: i128, b: i128) -> (r: bool)
    ensures
        r == (a > b),
{
    a > b
}

fn try_lt_i128(a: i128, b: i128) -> (r: bool)
    ensures
        r == (a < b),
{
    a < b
}

pub(crate) fn cmp_i128(op: CmpOp, a: i128, b: i128) -> (r: bool)
    ensures
        r == cmp_int_spec(op, a as int, b as int),
{
    match op {
        CmpOp::Eq => try_eq_i128(a, b),
        CmpOp::Ne => !try_eq_i128(a, b),
        CmpOp::Gt => try_gt_i128(a, b),
        CmpOp::Le => !try_gt_i128(a, b),
        CmpOp::Lt => try_lt_i128(a, b),
        CmpOp::Ge => !try_lt_i128(a, b),
    }
}

fn try_eq_u8(a: u8, b: u8) -> (r: bool)
    ensures
        r == (a == b),
{
    a == b
}

fn try_gt_u8(a: u8, b: u8) -> (r: bool)
    ensures
        r == (a > b),
{
    a > b
}

fn try_lt_u8(a: u8, b: u8) -> (r: bool)
    ensures
        r == (a < b),
{
    a < b
}

pub(crate) fn cmp_u8(op: CmpOp, a: u8, b: u8) -> (r: bool)
    ensures
        r == cmp_int_spec(op, a as int, b as int),
{
    match op {
        CmpOp::Eq => try_eq_u8(a, b),
        CmpOp::Ne => !try_eq_u8(a, b),
        CmpOp::Gt => try_gt_u8(a, b),
        CmpOp::Le => !try_gt_u8(a, b),
        CmpOp::Lt => try_lt_u8(a, b),
        CmpOp::Ge => !try_lt_u8(a, b),
    }
}

fn try_eq_u16(a: u16, b: u16) -> (r: bool)
    ensures
        r == (a == b),
{
    a == b
}

fn try_gt_u16(a: u16, b: u16) -> (r: bool)
    ensures
        r == (a > b),
{
    a > b
}

fn try_lt_u16(a: u16, b: u16) -> (r: bool)
    ensures
        r == (a < b),
{
    a < b
}

pub(crate) fn cmp_u16(op: CmpOp, a: u16, b: u16) -> (r: bool)
    ensures
        r == cmp_int_spec(op, a as int, b as int),
{
    match op {
        CmpOp::Eq => try_eq_u16(a, b),
        CmpOp::Ne => !try_eq_u16(a, b),
        CmpOp::Gt => try_gt_u16(a, b),
        CmpOp::Le => !try_gt_u16(a, b),
        CmpOp::Lt => try_lt_u16(a, b),
        CmpOp::Ge => !try_lt_u16(a, b),
    }
}

fn try_eq_u32(a: u32, b: u32) -> (r: bool)
    ensures
        r == (a == b),
{
    a == b
}

fn try_gt_u32(a: u32, b: u32) -> (r: bool)
    ensures
        r == (a > b),
{
    a > b
}

fn try_lt_u32(a: u32, b: u32) -> (r: bool)
    ensures
        r == (a < b),
{
    a < b
}

pub(crate) fn cmp_u32(op: CmpOp, a: u32, b: u32) -> (r: bool)
    ensures
        r == cmp_int_spec(op, a as int, b as int),
{
    match op {
        CmpOp::Eq => try_eq_u32(a, b),
        CmpOp::Ne => !try_eq_u32(a, b),
        CmpOp::Gt => try_gt_u32(a, b),
        CmpOp::Le => !try_gt_u32(a, b),
        CmpOp::Lt => try_lt_u32(a, b),
        CmpOp::Ge => !try_lt_u32(a, b),
    }
}

fn try_eq_u64(a: u64, b: u64) -> (r: bool)
    ensures
        r == (a == b),
{
    a == b
}

fn try_gt_u64(a: u64, b: u64) -> (r: bool)
    ensures
        r == (a > b),
{
    a > b
}

fn try_lt_u64(a: u64, b: u64) -> (r: bool)
    ensures
        r == (a < b),
{
    a < b
}

pub(crate) fn cmp_u64(op: CmpOp, a: u64, b: u64) -> (r: bool)
    ensures
        r == cmp_int_spec(op, a as int, b as int),
{
    match op {
        CmpOp::Eq => try_eq_u64(a, b),
        CmpOp::Ne => !try_eq_u64(a, b),
        CmpOp::Gt => try_gt_u64(a, b),
        CmpOp::Le => !try_gt_u64(a, b),
        CmpOp::Lt => try_lt_u64(a, b),
        CmpOp::Ge => !try_lt_u64(a, b),
    }
}

fn try_eq_u128(a: u128, b: u128) -> (r: bool)
    ensures
        r == (a == b),
{
    a == b
}

fn try_gt_u128(a: u128, b: u128) -> (r: bool)
    ensures
        r == (a > b),
{
    a > b
}

fn try_lt_u128(a: u128, b: u128) -> (r: bool)
    ensures
        r == (a < b),
{
    a < b
}

pub(crate) fn cmp_u128(op: CmpOp, a: u128, b: u128) -> (r: bool)
    ensures
        r == cmp_int_spec(op, a as int, b as int),
{
    match op {
        CmpOp::Eq => try_eq_u128(a, b),
        CmpOp::Ne => !try_eq_u128(a, b),
        CmpOp::Gt => try_gt_u128(a, b),
        CmpOp::Le => !try_gt_u128(a, b),
        CmpOp::Lt => try_lt_u128(a, b),
        CmpOp::Ge => !try_lt_u128(a, b),
    }
}

fn try_add_i8(a: i8, b: i8) -> (r: Result<i8, ErrorType>)
    ensures
        (match fixed_arith(ArithOp::Add, a as int, b as int, i8::MIN as int, i8::MAX as int) {
            Option::Some(v) => r matches Ok(x) && x as int == v,
            Option::None => r == Err::<i8, ErrorType>(ErrorType::BoundBroken),
        }),
{
    match a.checked_add(b) {
        Option::Some(v) => Ok(v),
        Option::None => Err(ErrorType::BoundBroken),
    }
}

fn try_sub_i8(a: i8, b: i8) -> (r: Result<i8, ErrorType>)
    ensures
        (match fixed_arith(ArithOp::Sub, a as int, b as int, i8::MIN as int, i8::MAX as int) {
            Option::Some(v) => r matches Ok(x) && x as int == v,
            Option::None => r == Err::<i8, ErrorType>(ErrorType::BoundBroken),
        }),
{
    match a.checked_sub(b) {
        Option::Some(v) => Ok(v),
        Option::None => Err(ErrorType::BoundBroken),
    }
}

fn try_mul_i8(a: i8, b: i8) -> (r: Result<i8, ErrorType>)
    ensures
        (match fixed_arith(ArithOp::Mul, a as int, b as int, i8::MIN as int, i8::MAX as int) {
            Option::Some(v) => r matches Ok(x) && x as int == v,
            Option::None => r == Err::<i8, ErrorType>(ErrorType::BoundBroken),
        }),
{
    match a.checked_mul(b) {
        Option::Some(v) => Ok(v),
        Option::None => Err(ErrorType::BoundBroken),
    }
}

fn try_div_i8(a: i8, b: i8) -> (r: Result<i8, ErrorType>)
    ensures
        (match fixed_arith(ArithOp::Div, a as int, b as int, i8::MIN as int, i8::MAX as int) {
            Option::Some(v) => r matches Ok(x) && x as int == v,
            Option::None => r == Err::<i8, ErrorType>(ErrorType::BoundBroken),
        }),
{
    match a.checked_div(b) {
        Option::Some(v) => Ok(v),
        Option::None => Err(ErrorType::BoundBroken),
    }
}

pub(crate) fn arith_i8(op: ArithOp, a: i8, b: i8) -> (r: Result<i8, ErrorType>)
    ensures
        (match fixed_arith(op, a as int, b as int, i8::MIN as int, i8::MAX as int) {
            Option::Some(v) => r matches Ok(x) && x as int == v,
            Option::None => r == Err::<i8, ErrorType>(ErrorType::BoundBroken),
        }),
{
    match op {
        ArithOp::Add => try_add_i8(a, b),
        ArithOp::Sub => try_sub_i8(a, b),
        ArithOp::Mul => try_mul_i8(a, b),
        ArithOp::Div => try_div_i8(a, b),
    }
}

fn try_add_i16(a: i16, b: i16) -> (r: Result<i16, ErrorType>)
    ensures
        (match fixed_arith(ArithOp::Add, a as int, b as int, i16::MIN as int, i16::MAX as int) {
            Option::Some(v) => r matches Ok(x) && x as int == v,
            Option::None => r == Err::<i16, ErrorType>(ErrorType::BoundBroken),
        }),
{
    match a.checked_add(b) {
        Option::Some(v) => Ok(v),
        Option::None => Err(ErrorType::BoundBroken),
    }
}

fn try_sub_i16(a: i16, b: i16) -> (r: Result<i16, ErrorType>)
    ensures
        (match fixed_arith(ArithOp::Sub, a as int, b as int, i16::MIN as int, i16::MAX as int) {
            Option::Some(v) => r matches Ok(x) && x as int == v,
            Option::None => r == Err::<i16, ErrorType>(ErrorType::BoundBroken),
        }),
{
    match a.checked_sub(b) {
        Option::Some(v) => Ok(v),
        Option::None => Err(ErrorType::BoundBroken),
    }
}

fn try_mul_i16(a: i16, b: i16) -> (r: Result<i16, ErrorType>)
    ensures
        (match fixed_arith(ArithOp::Mul, a as int, b as int, i16::MIN as int, i16::MAX as int) {
            Option::Some(v) => r matches Ok(x) && x as int == v,
            Option::None => r == Err::<i16, ErrorType>(ErrorType::BoundBroken),
        }),
{
    match a.checked_mul(b) {
        Option::Some(v) => Ok(v),
        Option::None => Err(ErrorType::BoundBroken),
    }
}

fn try_div_i16(a: i16, b: i16) -> (r: Result<i16, ErrorType>)
    ensures
        (match fixed_arith(ArithOp::Div, a as int, b as int, i16::MIN as int, i16::MAX as int) {
            Option::Some(v) => r matches Ok(x) && x as int == v,
            Option::None => r == Err::<i16, ErrorType>(ErrorType::BoundBroken),
        }),
{
    match a.checked_div(b) {
        Option::Some(v) => Ok(v),
        Option::None => Err(ErrorType::BoundBroken),
    }
}

pub(crate) fn arith_i16(op: ArithOp, a: i16, b: i16) -> (r: Result<i16, ErrorType>)
    ensures
        (match fixed_arith(op, a as int, b as int, i16::MIN as int, i16::MAX as int) {
            Option::Some(v) => r matches Ok(x) && x as int == v,
            Option::None => r == Err::<i16, ErrorType>(ErrorType::BoundBroken),
        }),
{
    match op {
        ArithOp::Add => try_add_i16(a, b),
        ArithOp::Sub => try_sub_i16(a, b),
        ArithOp::Mul => try_mul_i16(a, b),
        ArithOp::Div => try_div_i16(a, b),
    }
}

fn try_add_i32(a: i32, b: i32) -> (r: Result<i32, ErrorType>)
    ensures
        (match fixed_arith(ArithOp::Add, a as int, b as int, i32::MIN as int, i32::MAX as int) {
            Option::Some(v) => r matches Ok(x) && x as int == v,
            Option::None => r == Err::<i32, ErrorType>(ErrorType::BoundBroken),
        }),
{
    match a.checked_add(b) {
        Option::Some(v) => Ok(v),
        Option::None => Err(ErrorType::BoundBroken),
    }
}

fn try_sub_i32(a: i32, b: i32) -> (r: Result<i32, ErrorType>)
    ensures
        (match fixed_arith(ArithOp::Sub, a as int, b as int, i32::MIN as int, i32::MAX as int) {
            Option::Some(v) => r matches Ok(x) && x as int == v,
            Option::None => r == Err::<i32, ErrorType>(ErrorType::BoundBroken),
        }),
{
    match a.checked_sub(b) {
        Option::Some(v) => Ok(v),
        Option::None => Err(ErrorType::BoundBroken),
    }
}

fn try_mul_i32(a: i32, b: i32) -> (r: Result<i32, ErrorType>)
    ensures
        (match fixed_arith(ArithOp::Mul, a as int, b as int, i32::MIN as int, i32::MAX as int) {
            Option::Some(v) => r matches Ok(x) && x as int == v,
            Option::None => r == Err::<i32, ErrorType>(ErrorType::BoundBroken),
        }),
{
    match a.checked_mul(b) {
        Option::Some(v) => Ok(v),
        Option::None => Err(ErrorType::BoundBroken),
    }
}

fn try_div_i32(a: i32, b: i32) -> (r: Result<i32, ErrorType>)
    ensures
        (match fixed_arith(ArithOp::Div, a as int, b as int, i32::MIN as int, i32::MAX as int) {
            Option::Some(v) => r matches Ok(x) && x as int == v,
            Option::None => r == Err::<i32, ErrorType>(ErrorType::BoundBroken),
        }),
{
    match a.checked_div(b) {
        Option::Some(v) => Ok(v),
        Option::None => Err(ErrorType::BoundBroken),
    }
}

pub(crate) fn arith_i32(op: ArithOp, a: i32, b: i32) -> (r: Result<i32, ErrorType>)
    ensures
        (match fixed_arith(op, a as int, b as int, i32::MIN as int, i32::MAX as int) {
            Option::Some(v) => r matches Ok(x) && x as int == v,
            Option::None => r == Err::<i32, ErrorType>(ErrorType::BoundBroken),
        }),
{
    match op {
        ArithOp::Add => try_add_i32(a, b),
        ArithOp::Sub => try_sub_i32(a, b),
        ArithOp::Mul => try_mul_i32(a, b),
        ArithOp::Div => try_div_i32(a, b),
    }
}

fn try_add_i64(a: i64, b: i64) -> (r: Result<i64, ErrorType>)
    ensures
        (match fixed_arith(ArithOp::Add, a as int, b as int, i64::MIN as int, i64::MAX as int) {
            Option::Some(v) => r matches Ok(x) && x as int == v,
            Option::None => r == Err::<i64, ErrorType>(ErrorType::BoundBroken),
        }),
{
    match a.checked_add(b) {
        Option::Some(v) => Ok(v),
        Option::None => Err(ErrorType::BoundBroken),
    }
}

fn try_sub_i64(a: i64, b: i64) -> (r: Result<i64, ErrorType>)
    ensures
        (match fixed_arith(ArithOp::Sub, a as int, b as int, i64::MIN as int, i64::MAX as int) {
            Option::Some(v) => r matches Ok(x) && x as int == v,
            Option::None => r == Err::<i64, ErrorType>(ErrorType::BoundBroken),
        }),
{
    match a.checked_sub(b) {
        Option::Some(v) => Ok(v),
        Option::None => Err(ErrorType::BoundBroken),
    }
}

fn try_mul_i64(a: i64, b: i64) -> (r: Result<i64, ErrorType>)
    ensures
        (match fixed_arith(ArithOp::Mul, a as int, b as int, i64::MIN as int, i64::MAX as int) {
            Option::Some(v) => r matches Ok(x) && x as int == v,
            Option::None => r == Err::<i64, ErrorType>(ErrorType::BoundBroken),
        }),
{
    match a.checked_mul(b) {
        Option::Some(v) => Ok(v),
        Option::None => Err(ErrorType::BoundBroken),
    }
}

fn try_div_i64(a: i64, b: i64) -> (r: Result<i64, ErrorType>)
    ensures
        (match fixed_arith(ArithOp::Div, a as int, b as int, i64::MIN as int, i64::MAX as int) {
            Option::Some(v) => r matches Ok(x) && x as int == v,
            Option::None => r == Err::<i64, ErrorType>(ErrorType::BoundBroken),
        }),
{
    match a.checked_div(b) {
        Option::Some(v) => Ok(v),
        Option::None => Err(ErrorType::BoundBroken),
    }
}

pub(crate) fn arith_i64(op: ArithOp, a: i64, b: i64) -> (r: Result<i64, ErrorType>)
    ensures
        (match fixed_arith(op, a as int, b as int, i64::MIN as int, i64::MAX as int) {
            Option::Some(v) => r matches Ok(x) && x as int == v,
            Option::None => r == Err::<i64, ErrorType>(ErrorType::BoundBroken),
        }),
{
    match op {
        ArithOp::Add => try_add_i64(a, b),
        ArithOp::Sub => try_sub_i64(a, b),
        ArithOp::Mul => try_mul_i64(a, b),
        ArithOp::Div => try_div_i64(a, b),
    }
}

fn try_add_i128(a: i128, b: i128) -> (r: Result<i128, ErrorType>)
    ensures
        (match fixed_arith(ArithOp::Add, a as int, b as int, i128::MIN as int, i128::MAX as int) {
            Option::Some(v) => r matches Ok(x) && x as int == v,
            Option::None => r == Err::<i128, ErrorType>(ErrorType::BoundBroken),
        }),
{
    match a.checked_add(b) {
        Option::Some(v) => Ok(v),
        Option::None => Err(ErrorType::BoundBroken),
    }
}

fn try_sub_i128(a: i128, b: i128) -> (r: Result<i128, ErrorType>)
    ensures
        (match fixed_arith(ArithOp::Sub, a as int, b as int, i128::MIN as int, i128::MAX as int) {
            Option::Some(v) => r matches Ok(x) && x as int == v,
            Option::None => r == Err::<i128, ErrorType>(ErrorType::BoundBroken),
        }),
{
    match a.checked_sub(b) {
        Option::Some(v) => Ok(v),
        Option::None => Err(ErrorType::BoundBroken),
    }
}

fn try_mul_i128(a: i128, b: i128) -> (r: Result<i128, ErrorType>)
    ensures
        (match fixed_arith(ArithOp::Mul, a as int, b as int, i128::MIN as int, i128::MAX as int) {
            Option::Some(v) => r matches Ok(x) && x as int == v,
            Option::None => r == Err::<i128, ErrorType>(ErrorType::BoundBroken),
        }),
{
    match a.checked_mul(b) {
        Option::Some(v) => Ok(v),
        Option::None => Err(ErrorType::BoundBroken),
    }
}

fn try_div_i128(a: i128, b: i128) -> (r: Result<i128, ErrorType>)
    ensures
        (match fixed_arith(ArithOp::Div, a as int, b as int, i128::MIN as int, i128::MAX as int) {
            Option::Some(v) => r matches Ok(x) && x as int == v,
            Option::None => r == Err::<i128, ErrorType>(ErrorType::BoundBroken),
        }),
{
    match a.checked_div(b) {
        Option::Some(v) => Ok(v),
        Option::None => Err(ErrorType::BoundBroken),
    }
}

pub(crate) fn arith_i128(op: ArithOp, a: i128, b: i128) -> (r: Result<i128, ErrorType>)
    ensures
        (match fixed_arith(op, a as int, b as int, i128::MIN as int, i128::MAX as int) {
            Option::Some(v) => r matches Ok(x) && x as int == v,
            Option::None => r == Err::<i128, ErrorType>(ErrorType::BoundBroken),
        }),
{
    match op {
        ArithOp::Add => try_add_i128(a, b),
        ArithOp::Sub => try_sub_i128(a, b),
        ArithOp::Mul => try_mul_i128(a, b),
        ArithOp::Div => try_div_i128(a, b),
    }
}

fn try_add_u8(a: u8, b: u8) -> (r: Result<u8, ErrorType>)
    ensures
        (match fixed_arith(ArithOp::Add, a as int, b as int, u8::MIN as int, u8::MAX as int) {
            Option::Some(v) => r matches Ok(x) && x as int == v,
            Option::None => r == Err::<u8, ErrorType>(ErrorType::BoundBroken),
        }),
{
    match a.checked_add(b) {
        Option::Some(v) => Ok(v),
        Option::None => Err(ErrorType::BoundBroken),
    }
}

fn try_sub_u8(a: u8, b: u8) -> (r: Result<u8, ErrorType>)
    ensures
        (match fixed_arith(ArithOp::Sub, a as int, b as int, u8::MIN as int, u8::MAX as int) {
            Option::Some(v) => r matches Ok(x) && x as int == v,
            Option::None => r == Err::<u8, ErrorType>(ErrorType::BoundBroken),
        }),
{
    match a.checked_sub(b) {
        Option::Some(v) => Ok(v),
        Option::None => Err(ErrorType::BoundBroken),
    }
}

fn try_mul_u8(a: u8, b: u8) -> (r: Result<u8, ErrorType>)
    ensures
        (match fixed_arith(ArithOp::Mul, a as int, b as int, u8::MIN as int, u8::MAX as int) {
            Option::Some(v) => r matches Ok(x) && x as int == v,
            Option::None => r == Err::<u8, ErrorType>(ErrorType::BoundBroken),
        }),
{
    match a.checked_mul(b) {
        Option::Some(v) => Ok(v),
        Option::None => Err(ErrorType::BoundBroken),
    }
}

fn try_div_u8(a: u8, b: u8) -> (r: Result<u8, ErrorType>)
    ensures
        (match fixed_arith(ArithOp::Div, a as int, b as int, u8::MIN as int, u8::MAX as int) {
            Option::Some(v) => r matches Ok(x) && x as int == v,
            Option::None => r == Err::<u8, ErrorType>(ErrorType::BoundBroken),
        }),
{
    match a.checked_div(b) {
        Option::Some(v) => Ok(v),
        Option::None => Err(ErrorType::BoundBroken),
    }
}

pub(crate) fn arith_u8(op: ArithOp, a: u8, b: u8) -> (r: Result<u8, ErrorType>)
    ensures
        (match fixed_arith(op, a as int, b as int, u8::MIN as int, u8::MAX as int) {
            Option::Some(v) => r matches Ok(x) && x as int == v,
            Option::None => r == Err::<u8, ErrorType>(ErrorType::BoundBroken),
        }),
{
    match op {
        ArithOp::Add => try_add_u8(a, b),
        ArithOp::Sub => try_sub_u8(a, b),
        ArithOp::Mul => try_mul_u8(a, b),
        ArithOp::Div => try_div_u8(a, b),
    }
}

fn try_add_u16(a: u16, b: u16) -> (r: Result<u16, ErrorType>)
    ensures
        (match fixed_arith(ArithOp::Add, a as int, b as int, u16::MIN as int, u16::MAX as int) {
            Option::Some(v) => r matches Ok(x) && x as int == v,
            Option::None => r == Err::<u16, ErrorType>(ErrorType::BoundBroken),
        }),
{
    match a.checked_add(b) {
        Option::Some(v) => Ok(v),
        Option::None => Err(ErrorType::BoundBroken),
    }
}

fn try_sub_u16(a: u16, b: u16) -> (r: Result<u16, ErrorType>)
    ensures
        (match fixed_arith(ArithOp::Sub, a as int, b as int, u16::MIN as int, u16::MAX as int) {
            Option::Some(v) => r matches Ok(x) && x as int == v,
            Option::None => r == Err::<u16, ErrorType>(ErrorType::BoundBroken),
        }),
{
    match a.checked_sub(b) {
        Option::Some(v) => Ok(v),
        Option::None => Err(ErrorType::BoundBroken),
    }
}

fn try_mul_u16(a: u16, b: u16) -> (r: Result<u16, ErrorType>)
    ensures
        (match fixed_arith(ArithOp::Mul, a as int, b as int, u16::MIN as int, u16::MAX as int) {
            Option::Some(v) => r matches Ok(x) && x as int == v,
            Option::None => r == Err::<u16, ErrorType>(ErrorType::BoundBroken),
        }),
{
    match a.checked_mul(b) {
        Option::Some(v) => Ok(v),
        Option::None => Err(ErrorType::BoundBroken),
    }
}

fn try_div_u16(a: u16, b: u16) -> (r: Result<u16, ErrorType>)
    ensures
        (match fixed_arith(ArithOp::Div, a as int, b as int, u16::MIN as int, u16::MAX as int) {
            Option::Some(v) => r matches Ok(x) && x as int == v,
            Option::None => r == Err::<u16, ErrorType>(ErrorType::BoundBroken),
        }),
{
    match a.checked_div(b) {
        Option::Some(v) => Ok(v),
        Option::None => Err(ErrorType::BoundBroken),
    }
}

pub(crate) fn arith_u16(op: ArithOp, a: u16, b: u16) -> (r: Result<u16, ErrorType>)
    ensures
        (match fixed_arith(op, a as int, b as int, u16::MIN as int, u16::MAX as int) {
            Option::Some(v) => r matches Ok(x) && x as int == v,
            Option::None => r == Err::<u16, ErrorType>(ErrorType::BoundBroken),
        }),
{
    match op {
        ArithOp::Add => try_add_u16(a, b),
        ArithOp::Sub => try_sub_u16(a, b),
        ArithOp::Mul => try_mul_u16(a, b),
        ArithOp::Div => try_div_u16(a, b),
    }
}

fn try_add_u32(a: u32, b: u32) -> (r: Result<u32, ErrorType>)
    ensures
        (match fixed_arith(ArithOp::Add, a as int, b as int, u32::MIN as int, u32::MAX as int) {
            Option::Some(v) => r matches Ok(x) && x as int == v,
            Option::None => r == Err::<u32, ErrorType>(ErrorType::BoundBroken),
        }),
{
    match a.checked_add(b) {
        Option::Some(v) => Ok(v),
        Option::None => Err(ErrorType::BoundBroken),
    }
}

fn try_sub_u32(a: u32, b: u32) -> (r: Result<u32, ErrorType>)
    ensures
        (match fixed_arith(ArithOp::Sub, a as int, b as int, u32::MIN as int, u32::MAX as int) {
            Option::Some(v) => r matches Ok(x) && x as int == v,
            Option::None => r == Err::<u32, ErrorType>(ErrorType::BoundBroken),
        }),
{
    match a.checked_sub(b) {
        Option::Some(v) => Ok(v),
        Option::None => Err(ErrorType::BoundBroken),
    }
}

fn try_mul_u32(a: u32, b: u32) -> (r: Result<u32, ErrorType>)
    ensures
        (match fixed_arith(ArithOp::Mul, a as int, b as int, u32::MIN as int, u32::MAX as int) {
            Option::Some(v) => r matches Ok(x) && x as int == v,
            Option::None => r == Err::<u32, ErrorType>(ErrorType::BoundBroken),
        }),
{
    match a.checked_mul(b) {
        Option::Some(v) => Ok(v),
        Option::None => Err(ErrorType::BoundBroken),
    }
}

fn try_div_u32(a: u32, b: u32) -> (r: Result<u32, ErrorType>)
    ensures
        (match fixed_arith(ArithOp::Div, a as int, b as int, u32::MIN as int, u32::MAX as int) {
            Option::Some(v) => r matches Ok(x) && x as int == v,
            Option::None => r == Err::<u32, ErrorType>(ErrorType::BoundBroken),
        }),
{
    match a.checked_div(b) {
        Option::Some(v) => Ok(v),
        Option::None => Err(ErrorType::BoundBroken),
    }
}

pub(crate) fn arith_u32(op: ArithOp, a: u32, b: u32) -> (r: Result<u32, ErrorType>)
    ensures
        (match fixed_arith(op, a as int, b as int, u32::MIN as int, u32::MAX as int) {
            Option::Some(v) => r matches Ok(x) && x as int == v,
            Option::None => r == Err::<u32, ErrorType>(ErrorType::BoundBroken),
        }),
{
    match op {
        ArithOp::Add => try_add_u32(a, b),
        ArithOp::Sub => try_sub_u32(a, b),
        ArithOp::Mul => try_mul_u32(a, b),
        ArithOp::Div => try_div_u32(a, b),
    }
}

fn try_add_u64(a: u64, b: u64) -> (r: Result<u64, ErrorType>)
    ensures
        (match fixed_arith(ArithOp::Add, a as int, b as int, u64::MIN as int, u64::MAX as int) {
            Option::Some(v) => r matches Ok(x) && x as int == v,
            Option::None => r == Err::<u64, ErrorType>(ErrorType::BoundBroken),
        }),
{
    match a.checked_add(b) {
        Option::Some(v) => Ok(v),
        Option::None => Err(ErrorType::BoundBroken),
    }
}

fn try_sub_u64(a: u64, b: u64) -> (r: Result<u64, ErrorType>)
    ensures
        (match fixed_arith(ArithOp::Sub, a as int, b as int, u64::MIN as int, u64::MAX as int) {
            Option::Some(v) => r matches Ok(x) && x as int == v,
            Option::None => r == Err::<u64, ErrorType>(ErrorType::BoundBroken),
        }),
{
    match a.checked_sub(b) {
        Option::Some(v) => Ok(v),
        Option::None => Err(ErrorType::BoundBroken),
    }
}

fn try_mul_u64(a: u64, b: u64) -> (r: Result<u64, ErrorType>)
    ensures
        (match fixed_arith(ArithOp::Mul, a as int, b as int, u64::MIN as int, u64::MAX as int) {
            Option::Some(v) => r matches Ok(x) && x as int == v,
            Option::None => r == Err::<u64, ErrorType>(ErrorType::BoundBroken),
        }),
{
    match a.checked_mul(b) {
        Option::Some(v) => Ok(v),
        Option::None => Err(ErrorType::BoundBroken),
    }
}

fn try_div_u64(a: u64, b: u64) -> (r: Result<u64, ErrorType>)
    ensures
        (match fixed_arith(ArithOp::Div, a as int, b as int, u64::MIN as int, u64::MAX as int) {
            Option::Some(v) => r matches Ok(x) && x as int == v,
            Option::None => r == Err::<u64, ErrorType>(ErrorType::BoundBroken),
        }),
{
    match a.checked_div(b) {
        Option::Some(v) => Ok(v),
        Option::None => Err(ErrorType::BoundBroken),
    }
}

pub(crate) fn arith_u64(op: ArithOp, a: u64, b: u64) -> (r: Result<u64, ErrorType>)
    ensures
        (match fixed_arith(op, a as int, b as int, u64::MIN as int, u64::MAX as int) {
            Option::Some(v) => r matches Ok(x) && x as int == v,
            Option::None => r == Err::<u64, ErrorType>(ErrorType::BoundBroken),
        }),
{
    match op {
        ArithOp::Add => try_add_u64(a, b),
        ArithOp::Sub => try_sub_u64(a, b),
        ArithOp::Mul => try_mul_u64(a, b),
        ArithOp::Div => try_div_u64(a, b),
    }
}

fn try_add_u128(a: u128, b: u128) -> (r: Result<u128, ErrorType>)
    ensures
        (match fixed_arith(ArithOp::Add, a as int, b as int, u128::MIN as int, u128::MAX as int) {
            Option::Some(v) => r matches Ok(x) && x as int == v,
            Option::None => r == Err::<u128, ErrorType>(ErrorType::BoundBroken),
        }),
{
    match a.checked_add(b) {
        Option::Some(v) => Ok(v),
        Option::None => Err(ErrorType::BoundBroken),
    }
}

fn try_sub_u128(a: u128, b: u128) -> (r: Result<u128, ErrorType>)
    ensures
        (match fixed_arith(ArithOp::Sub, a as int, b as int, u128::MIN as int, u128::MAX as int) {
            Option::Some(v) => r matches Ok(x) && x as int == v,
            Option::None => r == Err::<u128, ErrorType>(ErrorType::BoundBroken),
        }),
{
    match a.checked_sub(b) {
        Option::Some(v) => Ok(v),
        Option::None => Err(ErrorType::BoundBroken),
    }
}

fn try_mul_u128(a: u128, b: u128) -> (r: Result<u128, ErrorType>)
    ensures
        (match fixed_arith(ArithOp::Mul, a as int, b as int, u128::MIN as int, u128::MAX as int) {
            Option::Some(v) => r matches Ok(x) && x as int == v,
            Option::None => r == Err::<u128, ErrorType>(ErrorType::BoundBroken),
        }),
{
    match a.checked_mul(b) {
        Option::Some(v) => Ok(v),
        Option::None => Err(ErrorType::BoundBroken),
    }
}

fn try_div_u128(a: u128, b: u128) -> (r: Result<u128, ErrorType>)
    ensures
        (match fixed_arith(ArithOp::Div, a as int, b as int, u128::MIN as int, u128::MAX as int) {
            Option::Some(v) => r matches Ok(x) && x as int == v,
            Option::None => r == Err::<u128, ErrorType>(ErrorType::BoundBroken),
        }),
{
    match a.checked_div(b) {
        Option::Some(v) => Ok(v),
        Option::None => Err(ErrorType::BoundBroken),
    }
}

pub(crate) fn arith_u128(op: ArithOp, a: u128, b: u128) -> (r: Result<u128, ErrorType>)
    ensures
        (match fixed_arith(op, a as int, b as int, u128::MIN as int, u128::MAX as int) {
            Option::Some(v) => r matches Ok(x) && x as int == v,
            Option::None => r == Err::<u128, ErrorType>(ErrorType::BoundBroken),
        }),
{
    match op {
        ArithOp::Add => try_add_u128(a, b),
        ArithOp::Sub => try_sub_u128(a, b),
        ArithOp::Mul => try_mul_u128(a, b),
        ArithOp::Div => try_div_u128(a, b),
    }
}

} // verus!
