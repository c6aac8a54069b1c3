//! Tests of the constraint model: the lattice join, candidate testing,
//! and range classification.

use vesuvius::{
    BreakReport, CmpOp, ArithOp, Num, TestResponse, ValConstr, ValConstrOrd, ValConstrRange,
    ValConstrState,
};

fn en(vals: Vec<bool>) -> ValConstr {
    ValConstr(ValConstrState::Enumerated(vals))
}

fn ord_en(ranges: Vec<ValConstrRange>) -> ValConstrOrd {
    ValConstrOrd(ValConstrState::Enumerated(ranges))
}

fn exact_i8(v: i8) -> ValConstrRange {
    ValConstrRange::Exact(Num::I8(v))
}

fn span_i8(lo: i8, hi: i8) -> ValConstrRange {
    ValConstrRange::MinInMaxIn(Num::I8(lo), Num::I8(hi))
}

#[test]
fn failed_constructors_carry_no_information() {
    assert_eq!(ValConstr::failed().when_eq_to(&true), TestResponse::Failed);
    let a = ord_en(vec![exact_i8(1)]);
    assert_eq!(ValConstrOrd::failed().op_bool_other(&a, CmpOp::Eq), TestResponse::Failed);
}

#[test]
fn combine_failed_absorbs() {
    let r = ValConstr(ValConstrState::Failed).combine(&en(vec![true]));
    assert!(matches!(r.0, ValConstrState::Failed));
    let r = en(vec![true]).combine(&ValConstr(ValConstrState::Failed));
    assert!(matches!(r.0, ValConstrState::Failed));
    // Failed absorbs even against Unconstrained.
    let r = ValConstr(ValConstrState::Failed).combine(&ValConstr(ValConstrState::Unconstrained));
    assert!(matches!(r.0, ValConstrState::Failed));
}

#[test]
fn combine_unconstrained_absorbs() {
    let r = ValConstr(ValConstrState::Unconstrained).combine(&en(vec![true]));
    assert!(matches!(r.0, ValConstrState::Unconstrained));
    let r = en(vec![false]).combine(&ValConstr(ValConstrState::Unconstrained));
    assert!(matches!(r.0, ValConstrState::Unconstrained));
}

#[test]
fn combine_enumerations_concatenate() {
    let r = en(vec![true]).combine(&en(vec![false]));
    match r.0 {
        ValConstrState::Enumerated(v) => assert_eq!(v, vec![true, false]),
        _ => panic!("expected an enumeration"),
    }
}

#[test]
fn combine_commutative_up_to_order() {
    let a = en(vec![true, true]);
    let b = en(vec![false]);
    let ab = a.combine(&b);
    let ba = b.combine(&a);
    let (mut x, mut y) = match (ab.0, ba.0) {
        (ValConstrState::Enumerated(x), ValConstrState::Enumerated(y)) => (x, y),
        _ => panic!("expected enumerations"),
    };
    x.sort();
    y.sort();
    assert_eq!(x, y);
}

#[test]
fn combine_associative() {
    let a = en(vec![true]);
    let b = en(vec![false]);
    let c = en(vec![true, false]);
    let left = a.combine(&b).combine(&c);
    let right = a.combine(&b.combine(&c));
    match (left.0, right.0) {
        (ValConstrState::Enumerated(x), ValConstrState::Enumerated(y)) => assert_eq!(x, y),
        _ => panic!("expected enumerations"),
    }
}

#[test]
fn bool_from_true_tests_always_against_true() {
    let c = en(vec![true]);
    assert_eq!(c.when_eq_to(&true), TestResponse::Always);
    assert_eq!(c.when_eq_to(&false), TestResponse::Never);
}

#[test]
fn bool_test_mixed_is_sometimes() {
    let c = en(vec![true, false]);
    assert_eq!(c.when_eq_to(&true), TestResponse::Sometimes);
    assert_eq!(c.when_eq_to(&false), TestResponse::Sometimes);
}

#[test]
fn bool_test_failed_and_unconstrained() {
    assert_eq!(ValConstr(ValConstrState::Failed).when_eq_to(&true), TestResponse::Failed);
    assert_eq!(
        ValConstr(ValConstrState::Unconstrained).when_eq_to(&true),
        TestResponse::Sometimes
    );
    assert_eq!(en(vec![]).when_eq_to(&true), TestResponse::Failed);
}

#[test]
fn bool_constraint_eq_ne() {
    let t = en(vec![true]);
    let f = en(vec![false]);
    assert_eq!(t.eq(&t), TestResponse::Always);
    assert_eq!(t.eq(&f), TestResponse::Never);
    assert_eq!(t.ne(&f), TestResponse::Always);
    assert_eq!(t.ne(&t), TestResponse::Never);
    assert_eq!(t.eq(&en(vec![true, false])), TestResponse::Sometimes);
}

#[test]
fn range_test_contains() {
    assert!(exact_i8(5).test(&Num::I8(5)));
    assert!(!exact_i8(5).test(&Num::I8(6)));
    assert!(span_i8(1, 10).test(&Num::I8(1)));
    assert!(span_i8(1, 10).test(&Num::I8(10)));
    assert!(!span_i8(1, 10).test(&Num::I8(11)));
    // A candidate of another kind is simply outside.
    assert!(!exact_i8(5).test(&Num::U8(5)));
}

#[test]
fn range_try_eq_classifies() {
    assert_eq!(exact_i8(5).try_eq(&exact_i8(5)), Ok(TestResponse::Always));
    assert_eq!(exact_i8(5).try_eq(&exact_i8(6)), Ok(TestResponse::Never));
    assert_eq!(exact_i8(5).try_eq(&span_i8(1, 10)), Ok(TestResponse::Sometimes));
    assert_eq!(span_i8(1, 2).try_eq(&span_i8(5, 6)), Ok(TestResponse::Never));
    assert_eq!(span_i8(3, 3).try_eq(&span_i8(3, 3)), Ok(TestResponse::Always));
    assert_eq!(span_i8(1, 4).try_eq(&span_i8(3, 8)), Ok(TestResponse::Sometimes));
}

#[test]
fn range_try_ne_classifies() {
    assert_eq!(exact_i8(5).try_ne(&exact_i8(5)), Ok(TestResponse::Never));
    assert_eq!(exact_i8(5).try_ne(&exact_i8(6)), Ok(TestResponse::Always));
    assert_eq!(span_i8(1, 4).try_ne(&span_i8(3, 8)), Ok(TestResponse::Sometimes));
}

#[test]
fn range_cross_kind_is_invalid() {
    let r = exact_i8(5).try_eq(&ValConstrRange::Exact(Num::U8(5)));
    assert!(r.is_err());
}

#[test]
fn ordered_op_bool_other() {
    let a = ord_en(vec![exact_i8(1)]);
    let b = ord_en(vec![exact_i8(2)]);
    assert_eq!(a.op_bool_other(&b, CmpOp::Lt), TestResponse::Always);
    assert_eq!(a.op_bool_other(&b, CmpOp::Gt), TestResponse::Never);
    assert_eq!(a.eq(&b), TestResponse::Never);
    assert_eq!(a.ne(&b), TestResponse::Always);
    let wide = ord_en(vec![span_i8(0, 5)]);
    assert_eq!(a.op_bool_other(&wide, CmpOp::Eq), TestResponse::Sometimes);
    assert_eq!(
        ValConstrOrd(ValConstrState::Failed).op_bool_other(&b, CmpOp::Eq),
        TestResponse::Failed
    );
    assert_eq!(
        ValConstrOrd(ValConstrState::Unconstrained).op_bool_other(&b, CmpOp::Eq),
        TestResponse::Sometimes
    );
}

#[test]
fn ordered_op_bool_single_value() {
    let a = ord_en(vec![span_i8(1, 10)]);
    assert_eq!(a.op_bool(&Num::I8(5), CmpOp::Eq), TestResponse::Sometimes);
    assert_eq!(a.op_bool(&Num::I8(11), CmpOp::Eq), TestResponse::Never);
}

#[test]
fn constraint_arith_exact_values() {
    let a = ord_en(vec![exact_i8(3)]);
    let b = ord_en(vec![exact_i8(4)]);
    let (r, report) = a.arith(ArithOp::Add, &b);
    assert_eq!(report, BreakReport::Unbroken);
    match r.0 {
        ValConstrState::Enumerated(v) => {
            assert_eq!(v.len(), 1);
            assert!(matches!(v[0], ValConstrRange::Exact(Num::I8(7))));
        },
        _ => panic!("expected an enumeration"),
    }
}

#[test]
fn constraint_arith_overflow_breaks() {
    let a = ord_en(vec![exact_i8(100)]);
    let b = ord_en(vec![exact_i8(100)]);
    let (r, report) = a.arith(ArithOp::Add, &b);
    assert_eq!(report, BreakReport::FullyBroken);
    assert!(matches!(r.0, ValConstrState::Failed));
}

#[test]
fn constraint_arith_partial_break() {
    let a = ord_en(vec![exact_i8(100), exact_i8(1)]);
    let b = ord_en(vec![exact_i8(100)]);
    let (r, report) = a.arith(ArithOp::Add, &b);
    assert_eq!(report, BreakReport::PartlyBroken);
    assert!(matches!(r.0, ValConstrState::Failed));
}

#[test]
fn constraint_arith_bounded_loses_information() {
    let a = ord_en(vec![span_i8(1, 2)]);
    let b = ord_en(vec![exact_i8(1)]);
    let (r, report) = a.arith(ArithOp::Add, &b);
    assert_eq!(report, BreakReport::Unbroken);
    assert!(matches!(r.0, ValConstrState::Failed));
}
