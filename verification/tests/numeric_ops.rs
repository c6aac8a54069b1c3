//! Tests of the numeric operation set: checked fixed-width arithmetic,
//! arbitrary-precision integers, and exact decimal comparison.

use vesuvius::{ArithOp, BigNum, CmpOp, DecLit, ErrorType, Num};

fn ibig(neg: bool, mag: Vec<u8>) -> Num {
    Num::IBig(BigNum { neg, mag })
}

fn ubig(mag: Vec<u8>) -> Num {
    Num::UBig(BigNum { neg: false, mag })
}

fn dec(int_digits: Vec<u8>, frac_digits: Vec<u8>) -> DecLit {
    DecLit { int_digits, frac_digits }
}

#[test]
fn fixed_cmp() {
    assert_eq!(Num::I8(3).try_eq(&Num::I8(3)), Ok(true));
    assert_eq!(Num::I8(3).try_ne(&Num::I8(3)), Ok(false));
    assert_eq!(Num::I8(-3).try_lt(&Num::I8(3)), Ok(true));
    assert_eq!(Num::U64(7).try_ge(&Num::U64(7)), Ok(true));
    assert_eq!(Num::I128(-1).try_gt(&Num::I128(-2)), Ok(true));
    assert_eq!(Num::U128(1).try_le(&Num::U128(0)), Ok(false));
}

#[test]
fn fixed_cmp_kind_mismatch() {
    assert_eq!(Num::I8(3).try_eq(&Num::U8(3)), Err(ErrorType::InvalidTypeReceived));
    assert_eq!(Num::I32(3).try_lt(&Num::I64(3)), Err(ErrorType::InvalidTypeReceived));
}

#[test]
fn fixed_arith_checked() {
    assert_eq!(Num::I8(100).try_arith(ArithOp::Add, &Num::I8(27)), Ok(Num::I8(127)));
    assert_eq!(
        Num::I8(100).try_arith(ArithOp::Add, &Num::I8(28)),
        Err(ErrorType::BoundBroken)
    );
    assert_eq!(Num::U8(1).try_arith(ArithOp::Sub, &Num::U8(2)), Err(ErrorType::BoundBroken));
    assert_eq!(Num::I32(6).try_arith(ArithOp::Mul, &Num::I32(7)), Ok(Num::I32(42)));
    assert_eq!(Num::I32(7).try_arith(ArithOp::Div, &Num::I32(2)), Ok(Num::I32(3)));
    assert_eq!(Num::I32(-7).try_arith(ArithOp::Div, &Num::I32(2)), Ok(Num::I32(-3)));
    assert_eq!(Num::I32(1).try_arith(ArithOp::Div, &Num::I32(0)), Err(ErrorType::BoundBroken));
    assert_eq!(
        Num::I8(i8::MIN).try_arith(ArithOp::Div, &Num::I8(-1)),
        Err(ErrorType::BoundBroken)
    );
}

#[test]
fn big_cmp_through_backend() {
    assert_eq!(ibig(false, vec![1]).try_eq(&ibig(false, vec![1])), Ok(true));
    assert_eq!(ibig(false, vec![1]).try_eq(&ibig(false, vec![2])), Ok(false));
    assert_eq!(ibig(true, vec![1]).try_lt(&ibig(false, vec![0])), Ok(true));
    // A two-byte little-endian magnitude: 0x0101 = 257.
    assert_eq!(ibig(false, vec![1, 1]).try_gt(&ibig(false, vec![255])), Ok(true));
}

#[test]
fn big_arith_through_backend() {
    // 200 + 100 = 300: crosses one byte, so an identity-shaped backend
    // would get it wrong.
    let sum = ibig(false, vec![200]).try_arith(ArithOp::Add, &ibig(false, vec![100])).unwrap();
    assert_eq!(sum.try_eq(&ibig(false, vec![44, 1])), Ok(true));
    // 1 - 2 = -1 for the signed kind.
    let diff = ibig(false, vec![1]).try_arith(ArithOp::Sub, &ibig(false, vec![2])).unwrap();
    assert_eq!(diff.try_eq(&ibig(true, vec![1])), Ok(true));
    // 16 * 16 = 256.
    let prod = ibig(false, vec![16]).try_arith(ArithOp::Mul, &ibig(false, vec![16])).unwrap();
    assert_eq!(prod.try_eq(&ibig(false, vec![0, 1])), Ok(true));
    // Division truncates toward zero.
    let q = ibig(true, vec![7]).try_arith(ArithOp::Div, &ibig(false, vec![2])).unwrap();
    assert_eq!(q.try_eq(&ibig(true, vec![3])), Ok(true));
    assert_eq!(
        ibig(false, vec![7]).try_arith(ArithOp::Div, &ibig(false, vec![])),
        Err(ErrorType::BoundBroken)
    );
}

#[test]
fn unsigned_big_never_goes_negative() {
    assert_eq!(
        ubig(vec![1]).try_arith(ArithOp::Sub, &ubig(vec![2])),
        Err(ErrorType::BoundBroken)
    );
    let d = ubig(vec![2]).try_arith(ArithOp::Sub, &ubig(vec![1])).unwrap();
    assert_eq!(d.try_eq(&ubig(vec![1])), Ok(true));
    assert_eq!(
        ubig(vec![1]).try_arith(ArithOp::Div, &ubig(vec![0])),
        Err(ErrorType::BoundBroken)
    );
}

#[test]
fn decimal_comparison_is_exact() {
    let a = Num::F32(dec(vec![1], vec![5]));
    let b = Num::F32(dec(vec![1], vec![5, 0]));
    assert_eq!(a.try_eq(&b), Ok(true));
    let c = Num::F32(dec(vec![1], vec![2, 5]));
    let d = Num::F32(dec(vec![1], vec![3]));
    assert_eq!(c.try_lt(&d), Ok(true));
    assert_eq!(d.try_gt(&c), Ok(true));
    // 10.0 against 9.9: the integer part dominates.
    let e = Num::F64(dec(vec![1, 0], vec![0]));
    let f = Num::F64(dec(vec![9], vec![9]));
    assert_eq!(e.try_gt(&f), Ok(true));
}

#[test]
fn decimal_arithmetic_is_unsupported() {
    let a = Num::F32(dec(vec![1], vec![5]));
    let b = Num::F32(dec(vec![1], vec![5]));
    assert_eq!(a.try_arith(ArithOp::Add, &b), Err(ErrorType::InvalidTypeReceived));
}

#[test]
fn cmp_dispatch_by_operator() {
    assert_eq!(Num::I16(2).try_cmp(CmpOp::Le, &Num::I16(2)), Ok(true));
    assert_eq!(Num::I16(2).try_cmp(CmpOp::Gt, &Num::I16(2)), Ok(false));
    assert_eq!(Num::I16(2).try_cmp(CmpOp::Ge, &Num::I16(3)), Ok(false));
}
