//! The closed union of numeric kinds, and the arbitrary-precision backend.
//!
//! A [`Num`] is one scalar value of one numeric kind: a fixed-width signed
//! or unsigned integer, an arbitrary-precision integer (signed or
//! unsigned), or a decimal literal standing for one of the decimal kinds.
//! All constraint machinery dispatches through this one union.
//!
//! Arbitrary-precision values are held as a sign and a little-endian
//! base-256 magnitude, and their arithmetic and ordering are delegated to
//! the `num_bigint` crate through the trusted wrappers in this file; each
//! wrapper's contract states the mathematical value of what the crate
//! returns.

use vstd::prelude::*;
use vstd::arithmetic::div_mod::lemma_div_pos_is_pos;

use crate::notes::ErrorType;
use crate::num_fixed::{
    CmpOp, ArithOp, cmp_int_spec, trunc_div, int_arith, fixed_arith,
    cmp_i8, cmp_i16, cmp_i32, cmp_i64, cmp_i128,
    cmp_u8, cmp_u16, cmp_u32, cmp_u64, cmp_u128,
    arith_i8, arith_i16, arith_i32, arith_i64, arith_i128,
    arith_u8, arith_u16, arith_u32, arith_u64, arith_u128,
};

verus! {

/// An arbitrary-precision integer: a sign and a little-endian base-256
/// magnitude. The representation is not required to be canonical; the
/// value it stands for is [`big_value`].
#[derive(Debug, PartialEq, Eq)]
pub struct BigNum {
    pub neg: bool,
    pub mag: Vec<u8>,
}

/// The value of a little-endian base-256 byte string.
pub open spec fn bytes_le_value(s: Seq<u8>) -> nat
    decreases s,
{
    if s.len() == 0 {
        0
    } else {
        (s[0] + 256 * bytes_le_value(s.drop_first())) as nat
    }
}

/// The mathematical value of a [`BigNum`].
pub open spec fn big_value(b: BigNum) -> int {
    if b.neg {
        -(bytes_le_value(b.mag@) as int)
    } else {
        bytes_le_value(b.mag@) as int
    }
}

/// The value of a big-endian base-10 digit string.
pub open spec fn digits_be_value(s: Seq<u8>) -> nat
    decreases s,
{
    if s.len() == 0 {
        0
    } else {
        (digits_be_value(s.drop_last()) * 10 + s.last()) as nat
    }
}

impl BigNum {
    /// The representation of zero.
    pub fn zero() -> (r: BigNum)
        ensures
            big_value(r) == 0,
            !r.neg,
    {
        let r = BigNum { neg: false, mag: Vec::new() };
        proof {
            assert(r.mag@.len() == 0);
        }
        r
    }
}

impl Clone for BigNum {
    fn clone(&self) -> (r: Self)
        ensures
            big_value(r) == big_value(*self),
            r.neg == self.neg,
    {
        let mag = self.mag.clone();
        proof {
            assert(mag@ =~= self.mag@);
        }
        BigNum { neg: self.neg, mag }
    }
}

/// Relies on `num_bigint::BigInt`'s `Ord`: big integers are ordered by
/// their mathematical value. `from_bytes_le` reads a sign and a
/// little-endian base-256 magnitude.
#[verifier::external_body]
fn big_cmp(a: &BigNum, b: &BigNum) -> (r: i8)
    ensures
        -1 <= r <= 1,
        (r == -1) <==> big_value(*a) < big_value(*b),
        (r == 0) <==> big_value(*a) == big_value(*b),
{
    let x = num_bigint::BigInt::from_bytes_le(if a.neg { num_bigint::Sign::Minus } else { num_bigint::Sign::Plus }, &a.mag);
    let y = num_bigint::BigInt::from_bytes_le(if b.neg { num_bigint::Sign::Minus } else { num_bigint::Sign::Plus }, &b.mag);
    match x.cmp(&y) {
        core::cmp::Ordering::Less => -1,
        core::cmp::Ordering::Equal => 0,
        core::cmp::Ordering::Greater => 1,
    }
}

/// Relies on `num_bigint::BigInt`'s `Add`: addition of big integers is
/// integer addition; `to_bytes_le` reports a minus sign only on a
/// negative value.
#[verifier::external_body]
fn big_add(a: &BigNum, b: &BigNum) -> (r: BigNum)
    ensures
        big_value(r) == big_value(*a) + big_value(*b),
        r.neg ==> big_value(r) < 0,
{
    let x = num_bigint::BigInt::from_bytes_le(if a.neg { num_bigint::Sign::Minus } else { num_bigint::Sign::Plus }, &a.mag);
    let y = num_bigint::BigInt::from_bytes_le(if b.neg { num_bigint::Sign::Minus } else { num_bigint::Sign::Plus }, &b.mag);
    let (sign, mag) = (x + y).to_bytes_le();
    BigNum { neg: matches!(sign, num_bigint::Sign::Minus), mag }
}

/// Relies on `num_bigint::BigInt`'s `Sub`: subtraction of big integers is
/// integer subtraction.
#[verifier::external_body]
fn big_sub(a: &BigNum, b: &BigNum) -> (r: BigNum)
    ensures
        big_value(r) == big_value(*a) - big_value(*b),
        r.neg ==> big_value(r) < 0,
{
    let x = num_bigint::BigInt::from_bytes_le(if a.neg { num_bigint::Sign::Minus } else { num_bigint::Sign::Plus }, &a.mag);
    let y = num_bigint::BigInt::from_bytes_le(if b.neg { num_bigint::Sign::Minus } else { num_bigint::Sign::Plus }, &b.mag);
    let (sign, mag) = (x - y).to_bytes_le();
    BigNum { neg: matches!(sign, num_bigint::Sign::Minus), mag }
}

/// Relies on `num_bigint::BigInt`'s `Mul`: multiplication of big integers
/// is integer multiplication.
#[verifier::external_body]
fn big_mul(a: &BigNum, b: &BigNum) -> (r: BigNum)
    ensures
        big_value(r) == big_value(*a) * big_value(*b),
        r.neg ==> big_value(r) < 0,
{
    let x = num_bigint::BigInt::from_bytes_le(if a.neg { num_bigint::Sign::Minus } else { num_bigint::Sign::Plus }, &a.mag);
    let y = num_bigint::BigInt::from_bytes_le(if b.neg { num_bigint::Sign::Minus } else { num_bigint::Sign::Plus }, &b.mag);
    let (sign, mag) = (x * y).to_bytes_le();
    BigNum { neg: matches!(sign, num_bigint::Sign::Minus), mag }
}

/// Relies on `num_bigint::BigInt`'s `Div`: division of big integers
/// truncates toward zero and panics on a zero divisor, so a zero divisor
/// is excluded here.
#[verifier::external_body]
fn big_div(a: &BigNum, b: &BigNum) -> (r: BigNum)
    requires
        big_value(*b) != 0,
    ensures
        big_value(r) == trunc_div(big_value(*a), big_value(*b)),
        r.neg ==> big_value(r) < 0,
{
    let x = num_bigint::BigInt::from_bytes_le(if a.neg { num_bigint::Sign::Minus } else { num_bigint::Sign::Plus }, &a.mag);
    let y = num_bigint::BigInt::from_bytes_le(if b.neg { num_bigint::Sign::Minus } else { num_bigint::Sign::Plus }, &b.mag);
    let (sign, mag) = (x / y).to_bytes_le();
    BigNum { neg: matches!(sign, num_bigint::Sign::Minus), mag }
}

/// Relies on `num_bigint::BigUint::from_radix_be`: each input byte is one
/// digit, most significant first, and the result is the value of that
/// digit string (`Some` because every digit is below the radix).
#[verifier::external_body]
pub(crate) fn big_from_digits(digits: &Vec<u8>) -> (r: BigNum)
    requires
        forall|i: int| 0 <= i < digits@.len() ==> digits@[i] < 10,
    ensures
        big_value(r) == digits_be_value(digits@),
        !r.neg,
{
    let u = num_bigint::BigUint::from_radix_be(digits, 10).unwrap();
    BigNum { neg: false, mag: u.to_bytes_le() }
}

/// A decimal literal: the digits before and after the point, base 10,
/// most significant first.
#[derive(Debug, PartialEq, Eq)]
pub struct DecLit {
    pub int_digits: Vec<u8>,
    pub frac_digits: Vec<u8>,
}

/// Mathematical image of a [`DecLit`].
pub struct DecS {
    pub int_digits: Seq<u8>,
    pub frac_digits: Seq<u8>,
}

impl View for DecLit {
    type V = DecS;

    open spec fn view(&self) -> DecS {
        DecS { int_digits: self.int_digits@, frac_digits: self.frac_digits@ }
    }
}

impl Clone for DecLit {
    fn clone(&self) -> (r: Self)
        ensures
            r@ == self@,
    {
        let int_digits = self.int_digits.clone();
        let frac_digits = self.frac_digits.clone();
        proof {
            assert(int_digits@ =~= self.int_digits@);
            assert(frac_digits@ =~= self.frac_digits@);
        }
        DecLit { int_digits, frac_digits }
    }
}

pub open spec fn wf_dec(d: DecS) -> bool {
    &&& d.int_digits.len() + d.frac_digits.len() <= usize::MAX as int / 2
    &&& d.int_digits.len() > 0
    &&& forall|i: int| 0 <= i < d.int_digits.len() ==> d.int_digits[i] < 10
    &&& d.frac_digits.len() > 0
    &&& forall|i: int| 0 <= i < d.frac_digits.len() ==> d.frac_digits[i] < 10
}

/// The value of a decimal literal scaled by ten to the `scale`:
/// the value of its digit string once the fraction is padded with zeros
/// out to `scale` digits. Two decimals compare as their values scaled by
/// a common power of ten compare.
pub open spec fn dec_scaled(d: DecS, scale: nat) -> nat {
    digits_be_value(
        d.int_digits + d.frac_digits + Seq::new((scale - d.frac_digits.len()) as nat, |i: int| 0u8),
    )
}

/// The common scale at which two decimal literals are compared.
pub open spec fn dec_common_scale(a: DecS, b: DecS) -> nat {
    if a.frac_digits.len() >= b.frac_digits.len() {
        a.frac_digits.len()
    } else {
        b.frac_digits.len()
    }
}

/// The digit string of `d` padded with zeros out to `scale` fraction
/// digits, whose value is `dec_scaled(d@, scale)`.
fn dec_padded_digits(d: &DecLit, scale: usize) -> (r: Vec<u8>)
    requires
        d@.frac_digits.len() <= scale,
        d@.int_digits.len() + scale <= usize::MAX,
    ensures
        r@ =~= d@.int_digits + d@.frac_digits + Seq::new(
            (scale - d@.frac_digits.len()) as nat,
            |i: int| 0u8,
        ),
{
    let mut r: Vec<u8> = Vec::new();
    let mut i: usize = 0;
    while i < d.int_digits.len()
        invariant
            i <= d.int_digits@.len(),
            r@ =~= d.int_digits@.take(i as int),
        decreases d.int_digits@.len() - i,
    {
        let x = d.int_digits[i];
        r.push(x);
        i = i + 1;
    }
    let mut j: usize = 0;
    while j < d.frac_digits.len()
        invariant
            j <= d.frac_digits@.len(),
            r@ =~= d.int_digits@ + d.frac_digits@.take(j as int),
        decreases d.frac_digits@.len() - j,
    {
        let x = d.frac_digits[j];
        r.push(x);
        j = j + 1;
    }
    let pad = scale - d.frac_digits.len();
    let mut k: usize = 0;
    while k < pad
        invariant
            k <= pad,
            pad == scale - d.frac_digits@.len(),
            r@ =~= d.int_digits@ + d.frac_digits@ + Seq::new(k as nat, |i: int| 0u8),
        decreases pad - k,
    {
        r.push(0u8);
        k = k + 1;
    }
    r
}

/// Compare two decimal literals exactly, by their values at a common scale.
fn dec_cmp(a: &DecLit, b: &DecLit) -> (r: i8)
    requires
        wf_dec(a@),
        wf_dec(b@),
        a@.int_digits.len() + dec_common_scale(a@, b@) <= usize::MAX,
        b@.int_digits.len() + dec_common_scale(a@, b@) <= usize::MAX,
    ensures
        -1 <= r <= 1,
        (r == -1) <==> dec_scaled(a@, dec_common_scale(a@, b@)) < dec_scaled(
            b@,
            dec_common_scale(a@, b@),
        ),
        (r == 0) <==> dec_scaled(a@, dec_common_scale(a@, b@)) == dec_scaled(
            b@,
            dec_common_scale(a@, b@),
        ),
{
    let scale = if a.frac_digits.len() >= b.frac_digits.len() {
        a.frac_digits.len()
    } else {
        b.frac_digits.len()
    };
    let da = dec_padded_digits(a, scale);
    let db = dec_padded_digits(b, scale);
    let ba = big_from_digits(&da);
    let bb = big_from_digits(&db);
    big_cmp(&ba, &bb)
}

/// One scalar value of one numeric kind.
#[derive(Debug, PartialEq, Eq)]
pub enum Num {
    I8(i8),
    I16(i16),
    I32(i32),
    I64(i64),
    I128(i128),
    IBig(BigNum),
    U8(u8),
    U16(u16),
    U32(u32),
    U64(u64),
    U128(u128),
    UBig(BigNum),
    F32(DecLit),
    F64(DecLit),
    FBig(DecLit),
}

/// Mathematical image of a [`Num`]: arbitrary-precision payloads become
/// their integer value; decimal payloads keep their digit strings.
pub enum NumS {
    I8(i8),
    I16(i16),
    I32(i32),
    I64(i64),
    I128(i128),
    IBig(int),
    U8(u8),
    U16(u16),
    U32(u32),
    U64(u64),
    U128(u128),
    UBig(int),
    F32(DecS),
    F64(DecS),
    FBig(DecS),
}

impl View for Num {
    type V = NumS;

    open spec fn view(&self) -> NumS {
        match self {
            Num::I8(v) => NumS::I8(*v),
            Num::I16(v) => NumS::I16(*v),
            Num::I32(v) => NumS::I32(*v),
            Num::I64(v) => NumS::I64(*v),
            Num::I128(v) => NumS::I128(*v),
            Num::IBig(b) => NumS::IBig(big_value(*b)),
            Num::U8(v) => NumS::U8(*v),
            Num::U16(v) => NumS::U16(*v),
            Num::U32(v) => NumS::U32(*v),
            Num::U64(v) => NumS::U64(*v),
            Num::U128(v) => NumS::U128(*v),
            Num::UBig(b) => NumS::UBig(big_value(*b)),
            Num::F32(d) => NumS::F32(d@),
            Num::F64(d) => NumS::F64(d@),
            Num::FBig(d) => NumS::FBig(d@),
        }
    }
}

impl Clone for Num {
    fn clone(&self) -> (r: Self)
        ensures
            r@ == self@,
    {
        match self {
            Num::I8(v) => Num::I8(*v),
            Num::I16(v) => Num::I16(*v),
            Num::I32(v) => Num::I32(*v),
            Num::I64(v) => Num::I64(*v),
            Num::I128(v) => Num::I128(*v),
            Num::IBig(b) => Num::IBig(b.clone()),
            Num::U8(v) => Num::U8(*v),
            Num::U16(v) => Num::U16(*v),
            Num::U32(v) => Num::U32(*v),
            Num::U64(v) => Num::U64(*v),
            Num::U128(v) => Num::U128(*v),
            Num::UBig(b) => Num::UBig(b.clone()),
            Num::F32(d) => Num::F32(d.clone()),
            Num::F64(d) => Num::F64(d.clone()),
            Num::FBig(d) => Num::FBig(d.clone()),
        }
    }
}

/// Well-formedness of one numeric value: decimal digit strings hold
/// actual digits. An unsigned arbitrary-precision value is nonnegative.
pub open spec fn wf_num(n: NumS) -> bool {
    match n {
        NumS::UBig(v) => v >= 0,
        NumS::F32(d) => wf_dec(d),
        NumS::F64(d) => wf_dec(d),
        NumS::FBig(d) => wf_dec(d),
        _ => true,
    }
}

/// The kind (width and family) of a numeric value.
#[derive(Clone, Copy, PartialEq, Eq, Structural, Debug)]
pub enum NumKind {
    I8,
    I16,
    I32,
    I64,
    I128,
    IBig,
    U8,
    U16,
    U32,
    U64,
    U128,
    UBig,
    F32,
    F64,
    FBig,
}

/// The kind of a numeric value.
pub open spec fn kind_of(n: NumS) -> NumKind {
    match n {
        NumS::I8(_) => NumKind::I8,
        NumS::I16(_) => NumKind::I16,
        NumS::I32(_) => NumKind::I32,
        NumS::I64(_) => NumKind::I64,
        NumS::I128(_) => NumKind::I128,
        NumS::IBig(_) => NumKind::IBig,
        NumS::U8(_) => NumKind::U8,
        NumS::U16(_) => NumKind::U16,
        NumS::U32(_) => NumKind::U32,
        NumS::U64(_) => NumKind::U64,
        NumS::U128(_) => NumKind::U128,
        NumS::UBig(_) => NumKind::UBig,
        NumS::F32(_) => NumKind::F32,
        NumS::F64(_) => NumKind::F64,
        NumS::FBig(_) => NumKind::FBig,
    }
}

/// Whether two numeric values are of the same kind.
pub open spec fn same_num_kind(a: NumS, b: NumS) -> bool {
    ||| a is I8 && b is I8
    ||| a is I16 && b is I16
    ||| a is I32 && b is I32
    ||| a is I64 && b is I64
    ||| a is I128 && b is I128
    ||| a is IBig && b is IBig
    ||| a is U8 && b is U8
    ||| a is U16 && b is U16
    ||| a is U32 && b is U32
    ||| a is U64 && b is U64
    ||| a is U128 && b is U128
    ||| a is UBig && b is UBig
    ||| a is F32 && b is F32
    ||| a is F64 && b is F64
    ||| a is FBig && b is FBig
}

/// What a comparison returns on two numeric values: their integer (or
/// scaled decimal) values compared when the kinds agree, and an
/// invalid-type failure when they do not. Comparison between values of
/// one kind never fails.
pub open spec fn num_cmp_spec(op: CmpOp, a: NumS, b: NumS) -> Result<bool, ErrorType> {
    match (a, b) {
        (NumS::I8(x), NumS::I8(y)) => Ok(cmp_int_spec(op, x as int, y as int)),
        (NumS::I16(x), NumS::I16(y)) => Ok(cmp_int_spec(op, x as int, y as int)),
        (NumS::I32(x), NumS::I32(y)) => Ok(cmp_int_spec(op, x as int, y as int)),
        (NumS::I64(x), NumS::I64(y)) => Ok(cmp_int_spec(op, x as int, y as int)),
        (NumS::I128(x), NumS::I128(y)) => Ok(cmp_int_spec(op, x as int, y as int)),
        (NumS::IBig(x), NumS::IBig(y)) => Ok(cmp_int_spec(op, x, y)),
        (NumS::U8(x), NumS::U8(y)) => Ok(cmp_int_spec(op, x as int, y as int)),
        (NumS::U16(x), NumS::U16(y)) => Ok(cmp_int_spec(op, x as int, y as int)),
        (NumS::U32(x), NumS::U32(y)) => Ok(cmp_int_spec(op, x as int, y as int)),
        (NumS::U64(x), NumS::U64(y)) => Ok(cmp_int_spec(op, x as int, y as int)),
        (NumS::U128(x), NumS::U128(y)) => Ok(cmp_int_spec(op, x as int, y as int)),
        (NumS::UBig(x), NumS::UBig(y)) => Ok(cmp_int_spec(op, x, y)),
        (NumS::F32(x), NumS::F32(y)) => Ok(
            cmp_int_spec(
                op,
                dec_scaled(x, dec_common_scale(x, y)) as int,
                dec_scaled(y, dec_common_scale(x, y)) as int,
            ),
        ),
        (NumS::F64(x), NumS::F64(y)) => Ok(
            cmp_int_spec(
                op,
                dec_scaled(x, dec_common_scale(x, y)) as int,
                dec_scaled(y, dec_common_scale(x, y)) as int,
            ),
        ),
        (NumS::FBig(x), NumS::FBig(y)) => Ok(
            cmp_int_spec(
                op,
                dec_scaled(x, dec_common_scale(x, y)) as int,
                dec_scaled(y, dec_common_scale(x, y)) as int,
            ),
        ),
        _ => Err(ErrorType::InvalidTypeReceived),
    }
}

/// What an arithmetic operator returns on two numeric values: checked
/// fixed-width arithmetic bound-breaks outside its range; the
/// arbitrary-precision kinds bound-break only on division by zero (and,
/// unsigned, below zero); the decimal kinds and mismatched kinds are an
/// invalid-type failure.
pub open spec fn num_arith_spec(op: ArithOp, a: NumS, b: NumS) -> Result<NumS, ErrorType> {
    match (a, b) {
        (NumS::I8(x), NumS::I8(y)) => match fixed_arith(
            op,
            x as int,
            y as int,
            i8::MIN as int,
            i8::MAX as int,
        ) {
            Option::Some(v) => Ok(NumS::I8(v as i8)),
            Option::None => Err(ErrorType::BoundBroken),
        },
        (NumS::I16(x), NumS::I16(y)) => match fixed_arith(
            op,
            x as int,
            y as int,
            i16::MIN as int,
            i16::MAX as int,
        ) {
            Option::Some(v) => Ok(NumS::I16(v as i16)),
            Option::None => Err(ErrorType::BoundBroken),
        },
        (NumS::I32(x), NumS::I32(y)) => match fixed_arith(
            op,
            x as int,
            y as int,
            i32::MIN as int,
            i32::MAX as int,
        ) {
            Option::Some(v) => Ok(NumS::I32(v as i32)),
            Option::None => Err(ErrorType::BoundBroken),
        },
        (NumS::I64(x), NumS::I64(y)) => match fixed_arith(
            op,
            x as int,
            y as int,
            i64::MIN as int,
            i64::MAX as int,
        ) {
            Option::Some(v) => Ok(NumS::I64(v as i64)),
            Option::None => Err(ErrorType::BoundBroken),
        },
        (NumS::I128(x), NumS::I128(y)) => match fixed_arith(
            op,
            x as int,
            y as int,
            i128::MIN as int,
            i128::MAX as int,
        ) {
            Option::Some(v) => Ok(NumS::I128(v as i128)),
            Option::None => Err(ErrorType::BoundBroken),
        },
        (NumS::IBig(x), NumS::IBig(y)) => match int_arith(op, x, y) {
            Option::Some(v) => Ok(NumS::IBig(v)),
            Option::None => Err(ErrorType::BoundBroken),
        },
        (NumS::U8(x), NumS::U8(y)) => match fixed_arith(op, x as int, y as int, 0, u8::MAX as int) {
            Option::Some(v) => Ok(NumS::U8(v as u8)),
            Option::None => Err(ErrorType::BoundBroken),
        },
        (NumS::U16(x), NumS::U16(y)) => match fixed_arith(
            op,
            x as int,
            y as int,
            0,
            u16::MAX as int,
        ) {
            Option::Some(v) => Ok(NumS::U16(v as u16)),
            Option::None => Err(ErrorType::BoundBroken),
        },
        (NumS::U32(x), NumS::U32(y)) => match fixed_arith(
            op,
            x as int,
            y as int,
            0,
            u32::MAX as int,
        ) {
            Option::Some(v) => Ok(NumS::U32(v as u32)),
            Option::None => Err(ErrorType::BoundBroken),
        },
        (NumS::U64(x), NumS::U64(y)) => match fixed_arith(
            op,
            x as int,
            y as int,
            0,
            u64::MAX as int,
        ) {
            Option::Some(v) => Ok(NumS::U64(v as u64)),
            Option::None => Err(ErrorType::BoundBroken),
        },
        (NumS::U128(x), NumS::U128(y)) => match fixed_arith(
            op,
            x as int,
            y as int,
            0,
            u128::MAX as int,
        ) {
            Option::Some(v) => Ok(NumS::U128(v as u128)),
            Option::None => Err(ErrorType::BoundBroken),
        },
        (NumS::UBig(x), NumS::UBig(y)) => match int_arith(op, x, y) {
            Option::Some(v) => if v >= 0 {
                Ok(NumS::UBig(v))
            } else {
                Err(ErrorType::BoundBroken)
            },
            Option::None => Err(ErrorType::BoundBroken),
        },
        _ => Err(ErrorType::InvalidTypeReceived),
    }
}

impl Num {
    /// Compare two numeric values with the given operator.
    pub fn try_cmp(&self, op: CmpOp, other: &Num) -> (r: Result<bool, ErrorType>)
        requires
            wf_num(self@),
            wf_num(other@),
        ensures
            r == num_cmp_spec(op, self@, other@),
    {
        match (self, other) {
            (Num::I8(x), Num::I8(y)) => Ok(cmp_i8(op, *x, *y)),
            (Num::I16(x), Num::I16(y)) => Ok(cmp_i16(op, *x, *y)),
            (Num::I32(x), Num::I32(y)) => Ok(cmp_i32(op, *x, *y)),
            (Num::I64(x), Num::I64(y)) => Ok(cmp_i64(op, *x, *y)),
            (Num::I128(x), Num::I128(y)) => Ok(cmp_i128(op, *x, *y)),
            (Num::IBig(x), Num::IBig(y)) => Ok(ordering_matches(op, big_cmp(x, y))),
            (Num::U8(x), Num::U8(y)) => Ok(cmp_u8(op, *x, *y)),
            (Num::U16(x), Num::U16(y)) => Ok(cmp_u16(op, *x, *y)),
            (Num::U32(x), Num::U32(y)) => Ok(cmp_u32(op, *x, *y)),
            (Num::U64(x), Num::U64(y)) => Ok(cmp_u64(op, *x, *y)),
            (Num::U128(x), Num::U128(y)) => Ok(cmp_u128(op, *x, *y)),
            (Num::UBig(x), Num::UBig(y)) => Ok(ordering_matches(op, big_cmp(x, y))),
            (Num::F32(x), Num::F32(y)) => Ok(ordering_matches(op, dec_cmp_checked(x, y))),
            (Num::F64(x), Num::F64(y)) => Ok(ordering_matches(op, dec_cmp_checked(x, y))),
            (Num::FBig(x), Num::FBig(y)) => Ok(ordering_matches(op, dec_cmp_checked(x, y))),
            _ => Err(ErrorType::InvalidTypeReceived),
        }
    }

    pub fn try_eq(&self, other: &Num) -> (r: Result<bool, ErrorType>)
        requires
            wf_num(self@),
            wf_num(other@),
        ensures
            r == num_cmp_spec(CmpOp::Eq, self@, other@),
    {
        self.try_cmp(CmpOp::Eq, other)
    }

    pub fn try_ne(&self, other: &Num) -> (r: Result<bool, ErrorType>)
        requires
            wf_num(self@),
            wf_num(other@),
        ensures
            r == num_cmp_spec(CmpOp::Ne, self@, other@),
    {
        self.try_cmp(CmpOp::Ne, other)
    }

    pub fn try_gt(&self, other: &Num) -> (r: Result<bool, ErrorType>)
        requires
            wf_num(self@),
            wf_num(other@),
        ensures
            r == num_cmp_spec(CmpOp::Gt, self@, other@),
    {
        self.try_cmp(CmpOp::Gt, other)
    }

    pub fn try_ge(&self, other: &Num) -> (r: Result<bool, ErrorType>)
        requires
            wf_num(self@),
            wf_num(other@),
        ensures
            r == num_cmp_spec(CmpOp::Ge, self@, other@),
    {
        self.try_cmp(CmpOp::Ge, other)
    }

    pub fn try_lt(&self, other: &Num) -> (r: Result<bool, ErrorType>)
        requires
            wf_num(self@),
            wf_num(other@),
        ensures
            r == num_cmp_spec(CmpOp::Lt, self@, other@),
    {
        self.try_cmp(CmpOp::Lt, other)
    }

    pub fn try_le(&self, other: &Num) -> (r: Result<bool, ErrorType>)
        requires
            wf_num(self@),
            wf_num(other@),
        ensures
            r == num_cmp_spec(CmpOp::Le, self@, other@),
    {
        self.try_cmp(CmpOp::Le, other)
    }

    /// Apply an arithmetic operator to two numeric values.
    #[verifier::rlimit(50)]
    pub fn try_arith(&self, op: ArithOp, other: &Num) -> (r: Result<Num, ErrorType>)
        requires
            wf_num(self@),
            wf_num(other@),
        ensures
            (match num_arith_spec(op, self@, other@) {
                Ok(v) => r matches Ok(x) && x@ == v && wf_num(x@),
                Err(e) => r matches Err(f) && f == e,
            }),
    {
        match (self, other) {
            (Num::I8(x), Num::I8(y)) => match arith_i8(op, *x, *y) {
                Ok(v) => Ok(Num::I8(v)),
                Err(e) => Err(e),
            },
            (Num::I16(x), Num::I16(y)) => match arith_i16(op, *x, *y) {
                Ok(v) => Ok(Num::I16(v)),
                Err(e) => Err(e),
            },
            (Num::I32(x), Num::I32(y)) => match arith_i32(op, *x, *y) {
                Ok(v) => Ok(Num::I32(v)),
                Err(e) => Err(e),
            },
            (Num::I64(x), Num::I64(y)) => match arith_i64(op, *x, *y) {
                Ok(v) => Ok(Num::I64(v)),
                Err(e) => Err(e),
            },
            (Num::I128(x), Num::I128(y)) => match arith_i128(op, *x, *y) {
                Ok(v) => Ok(Num::I128(v)),
                Err(e) => Err(e),
            },
            (Num::IBig(x), Num::IBig(y)) => big_arith(op, x, y, true),
            (Num::U8(x), Num::U8(y)) => match arith_u8(op, *x, *y) {
                Ok(v) => Ok(Num::U8(v)),
                Err(e) => Err(e),
            },
            (Num::U16(x), Num::U16(y)) => match arith_u16(op, *x, *y) {
                Ok(v) => Ok(Num::U16(v)),
                Err(e) => Err(e),
            },
            (Num::U32(x), Num::U32(y)) => match arith_u32(op, *x, *y) {
                Ok(v) => Ok(Num::U32(v)),
                Err(e) => Err(e),
            },
            (Num::U64(x), Num::U64(y)) => match arith_u64(op, *x, *y) {
                Ok(v) => Ok(Num::U64(v)),
                Err(e) => Err(e),
            },
            (Num::U128(x), Num::U128(y)) => match arith_u128(op, *x, *y) {
                Ok(v) => Ok(Num::U128(v)),
                Err(e) => Err(e),
            },
            (Num::UBig(x), Num::UBig(y)) => big_arith(op, x, y, false),
            _ => Err(ErrorType::InvalidTypeReceived),
        }
    }
}

/// Whether an ordering result (`-1`, `0`, `1`) satisfies a comparison
/// operator.
fn ordering_matches(op: CmpOp, c: i8) -> (r: bool)
    requires
        -1 <= c <= 1,
    ensures
        forall|a: int, b: int|
            ((c == -1 <==> a < b) && (c == 0 <==> a == b)) ==> r == cmp_int_spec(op, a, b),
{
    match op {
        CmpOp::Eq => c == 0,
        CmpOp::Ne => c != 0,
        CmpOp::Gt => c > 0,
        CmpOp::Ge => c >= 0,
        CmpOp::Lt => c < 0,
        CmpOp::Le => c <= 0,
    }
}

/// Decimal comparison, after checking that the padded digit strings stay
/// addressable.
fn dec_cmp_checked(a: &DecLit, b: &DecLit) -> (r: i8)
    requires
        wf_dec(a@),
        wf_dec(b@),
    ensures
        -1 <= r <= 1,
        (r == -1) <==> dec_scaled(a@, dec_common_scale(a@, b@)) < dec_scaled(
            b@,
            dec_common_scale(a@, b@),
        ),
        (r == 0) <==> dec_scaled(a@, dec_common_scale(a@, b@)) == dec_scaled(
            b@,
            dec_common_scale(a@, b@),
        ),
{
    dec_cmp(a, b)
}

/// Arbitrary-precision arithmetic: signed (`IBig`) or unsigned (`UBig`).
fn big_arith(op: ArithOp, x: &BigNum, y: &BigNum, signed: bool) -> (r: Result<Num, ErrorType>)
    requires
        !signed ==> big_value(*x) >= 0 && big_value(*y) >= 0,
    ensures
        signed ==> (match num_arith_spec(op, NumS::IBig(big_value(*x)), NumS::IBig(big_value(*y))) {
            Ok(v) => r matches Ok(n) && n@ == v && wf_num(n@),
            Err(e) => r matches Err(f) && f == e,
        }),
        !signed ==> (match num_arith_spec(
            op,
            NumS::UBig(big_value(*x)),
            NumS::UBig(big_value(*y)),
        ) {
            Ok(v) => r matches Ok(n) && n@ == v && wf_num(n@),
            Err(e) => r matches Err(f) && f == e,
        }),
{
    match op {
        ArithOp::Add => {
            let v = big_add(x, y);
            if signed {
                Ok(Num::IBig(v))
            } else {
                Ok(Num::UBig(v))
            }
        },
        ArithOp::Sub => {
            if !signed {
                let c = big_cmp(x, y);
                if c == -1 {
                    return Err(ErrorType::BoundBroken);
                }
            }
            let v = big_sub(x, y);
            if signed {
                Ok(Num::IBig(v))
            } else {
                Ok(Num::UBig(v))
            }
        },
        ArithOp::Mul => {
            let v = big_mul(x, y);
            if signed {
                Ok(Num::IBig(v))
            } else {
                proof {
                    lemma_mul_nonneg_helper(big_value(*x), big_value(*y));
                }
                Ok(Num::UBig(v))
            }
        },
        ArithOp::Div => {
            let z = BigNum::zero();
            let c = big_cmp(y, &z);
            if c == 0 {
                Err(ErrorType::BoundBroken)
            } else {
                let v = big_div(x, y);
                if signed {
                    Ok(Num::IBig(v))
                } else {
                    proof {
                        if big_value(*x) > 0 {
                            lemma_div_pos_is_pos(big_value(*x), big_value(*y));
                        }
                    }
                    Ok(Num::UBig(v))
                }
            }
        },
    }
}

proof fn lemma_mul_nonneg_helper(a: int, b: int)
    requires
        a >= 0,
        b >= 0,
    ensures
        a * b >= 0,
{
    vstd::arithmetic::mul::lemma_mul_nonnegative(a, b);
}

} // verus!
