//! Values: what the verifier knows about one evaluated expression.
//!
//! A [`Value`] pairs a kind with the source range it came from. Values are
//! created fresh per evaluation and never mutated; across conditional
//! branches they are only combined into a new value. Two values are
//! type-compatible exactly when their kinds match, recursively through
//! function parameters and arity, with the `Unknown` kind (the result of
//! an unresolved name) compatible with everything so one missing symbol
//! does not cascade.

use vstd::prelude::*;

use crate::ast::Range;
use crate::notes::ErrorType;
use crate::num::{NumKind, kind_of, same_num_kind};
use crate::num_fixed::{CmpOp, ArithOp};
use crate::constr::{
    TestResponse, ValConstr, ValConstrOrd, ValConstrState, StateS, RangeS, combine_state,
    bool_op_response, bool_test_response, ord_op_response, ord_arith_state, ord_arith_break,
    BreakReport, wf_range, range_kind, range_lo, wf_ord_state, ranges_one_kind,
    ord_states_one_kind, wf_ranges, arith_rows,
};

verus! {

/// The kind of a value: what type it has, and what is known of its
/// possible contents.
pub enum ValueType {
    /// The wildcard kind of an unresolved name; compatible with everything.
    Unknown,
    /// The kind of a statement or block that yields nothing.
    Void,
    /// A function: named parameters, optional return value description,
    /// and the index of the declaration whose body it runs.
    Function(Box<Vec<(String, Value)>>, Box<Option<Value>>, usize),
    Bool(ValConstr),
    Int8(ValConstrOrd),
    Int16(ValConstrOrd),
    Int32(ValConstrOrd),
    Int64(ValConstrOrd),
    Int128(ValConstrOrd),
    IntBig(ValConstrOrd),
    Uint8(ValConstrOrd),
    Uint16(ValConstrOrd),
    Uint32(ValConstrOrd),
    Uint64(ValConstrOrd),
    Uint128(ValConstrOrd),
    UintBig(ValConstrOrd),
    Float32(ValConstrOrd),
    Float64(ValConstrOrd),
    FloatBig(ValConstrOrd),
}

/// A value: its kind and the source range it was evaluated from.
pub struct Value {
    pub value: ValueType,
    pub range: Range,
}

/// Mathematical image of a [`ValueType`].
pub enum ValueTypeS {
    Unknown,
    Void,
    Function(Seq<(Seq<char>, ValueS)>, Option<Box<ValueS>>, int),
    Bool(StateS<bool>),
    Int8(StateS<RangeS>),
    Int16(StateS<RangeS>),
    Int32(StateS<RangeS>),
    Int64(StateS<RangeS>),
    Int128(StateS<RangeS>),
    IntBig(StateS<RangeS>),
    Uint8(StateS<RangeS>),
    Uint16(StateS<RangeS>),
    Uint32(StateS<RangeS>),
    Uint64(StateS<RangeS>),
    Uint128(StateS<RangeS>),
    UintBig(StateS<RangeS>),
    Float32(StateS<RangeS>),
    Float64(StateS<RangeS>),
    FloatBig(StateS<RangeS>),
}

/// Mathematical image of a [`Value`].
pub struct ValueS {
    pub value: ValueTypeS,
    pub range: Range,
}

pub open spec fn value_view(v: Value) -> ValueS
    decreases v,
{
    ValueS { value: value_type_view(v.value), range: v.range }
}

pub open spec fn value_type_view(t: ValueType) -> ValueTypeS
    decreases t,
{
    match t {
        ValueType::Unknown => ValueTypeS::Unknown,
        ValueType::Void => ValueTypeS::Void,
        ValueType::Function(ps, ret, body) => ValueTypeS::Function(
            params_view(ps@),
            match *ret {
                Option::Some(r) => Option::Some(Box::new(value_view(r))),
                Option::None => Option::None,
            },
            body as int,
        ),
        ValueType::Bool(c) => ValueTypeS::Bool(c@),
        ValueType::Int8(c) => ValueTypeS::Int8(c@),
        ValueType::Int16(c) => ValueTypeS::Int16(c@),
        ValueType::Int32(c) => ValueTypeS::Int32(c@),
        ValueType::Int64(c) => ValueTypeS::Int64(c@),
        ValueType::Int128(c) => ValueTypeS::Int128(c@),
        ValueType::IntBig(c) => ValueTypeS::IntBig(c@),
        ValueType::Uint8(c) => ValueTypeS::Uint8(c@),
        ValueType::Uint16(c) => ValueTypeS::Uint16(c@),
        ValueType::Uint32(c) => ValueTypeS::Uint32(c@),
        ValueType::Uint64(c) => ValueTypeS::Uint64(c@),
        ValueType::Uint128(c) => ValueTypeS::Uint128(c@),
        ValueType::UintBig(c) => ValueTypeS::UintBig(c@),
        ValueType::Float32(c) => ValueTypeS::Float32(c@),
        ValueType::Float64(c) => ValueTypeS::Float64(c@),
        ValueType::FloatBig(c) => ValueTypeS::FloatBig(c@),
    }
}

pub open spec fn params_view(ps: Seq<(String, Value)>) -> Seq<(Seq<char>, ValueS)>
    decreases ps,
{
    if ps.len() == 0 {
        Seq::empty()
    } else {
        params_view(ps.drop_last()).push((ps.last().0@, value_view(ps.last().1)))
    }
}

pub proof fn lemma_params_view(ps: Seq<(String, Value)>)
    ensures
        params_view(ps).len() == ps.len(),
        forall|i: int|
            0 <= i < ps.len() ==> params_view(ps)[i] == ((#[trigger] ps[i]).0@, value_view(
                ps[i].1,
            )),
    decreases ps,
{
    if ps.len() > 0 {
        lemma_params_view(ps.drop_last());
        assert forall|i: int|
            0 <= i < ps.len() implies params_view(ps)[i] == ((#[trigger] ps[i]).0@, value_view(
            ps[i].1,
        )) by {
            if i < ps.len() - 1 {
                assert(ps.drop_last()[i] == ps[i]);
            }
        }
    }
}

impl View for Value {
    type V = ValueS;

    open spec fn view(&self) -> ValueS {
        value_view(*self)
    }
}

impl View for ValueType {
    type V = ValueTypeS;

    open spec fn view(&self) -> ValueTypeS {
        value_type_view(*self)
    }
}

/// An ordered constraint state all of whose ranges are well formed and of
/// one given kind.
pub open spec fn ord_state_of_kind(s: StateS<RangeS>, k: NumKind) -> bool {
    s is Enumerated ==> forall|i: int|
        0 <= i < s->Enumerated_0.len() ==> wf_range(#[trigger] s->Enumerated_0[i]) && range_kind(
            s->Enumerated_0[i],
        ) == k
}

/// Well-formedness of a value: every numeric constraint holds ranges of
/// the kind its variant names, recursively through functions.
pub open spec fn wf_value(v: ValueS) -> bool
    decreases v,
{
    wf_value_type(v.value)
}

pub open spec fn wf_value_type(t: ValueTypeS) -> bool
    decreases t,
{
    match t {
        ValueTypeS::Unknown => true,
        ValueTypeS::Void => true,
        ValueTypeS::Function(ps, ret, _) => wf_params(ps) && (match ret {
            Option::Some(r) => wf_value(*r),
            Option::None => true,
        }),
        ValueTypeS::Bool(_) => true,
        ValueTypeS::Int8(s) => ord_state_of_kind(s, NumKind::I8),
        ValueTypeS::Int16(s) => ord_state_of_kind(s, NumKind::I16),
        ValueTypeS::Int32(s) => ord_state_of_kind(s, NumKind::I32),
        ValueTypeS::Int64(s) => ord_state_of_kind(s, NumKind::I64),
        ValueTypeS::Int128(s) => ord_state_of_kind(s, NumKind::I128),
        ValueTypeS::IntBig(s) => ord_state_of_kind(s, NumKind::IBig),
        ValueTypeS::Uint8(s) => ord_state_of_kind(s, NumKind::U8),
        ValueTypeS::Uint16(s) => ord_state_of_kind(s, NumKind::U16),
        ValueTypeS::Uint32(s) => ord_state_of_kind(s, NumKind::U32),
        ValueTypeS::Uint64(s) => ord_state_of_kind(s, NumKind::U64),
        ValueTypeS::Uint128(s) => ord_state_of_kind(s, NumKind::U128),
        ValueTypeS::UintBig(s) => ord_state_of_kind(s, NumKind::UBig),
        ValueTypeS::Float32(s) => ord_state_of_kind(s, NumKind::F32),
        ValueTypeS::Float64(s) => ord_state_of_kind(s, NumKind::F64),
        ValueTypeS::FloatBig(s) => ord_state_of_kind(s, NumKind::FBig),
    }
}

pub open spec fn wf_params(ps: Seq<(Seq<char>, ValueS)>) -> bool
    decreases ps,
{
    if ps.len() == 0 {
        true
    } else {
        wf_params(ps.drop_last()) && wf_value(ps.last().1)
    }
}

/// Two numeric values whose kinds both equal `k` are of one kind.
pub proof fn lemma_kind_eq_same(a: RangeS, b: RangeS)
    requires
        range_kind(a) == range_kind(b),
    ensures
        same_num_kind(range_lo(a), range_lo(b)),
{
}

/// Two constraint states of one kind satisfy the preconditions of the
/// pairwise constraint operations.
pub proof fn lemma_of_kind_pair(a: StateS<RangeS>, b: StateS<RangeS>, k: NumKind)
    requires
        ord_state_of_kind(a, k),
        ord_state_of_kind(b, k),
    ensures
        wf_ord_state(a),
        wf_ord_state(b),
        ord_states_one_kind(a, b),
{
    if a is Enumerated {
        assert forall|i: int, j: int|
            0 <= i < a->Enumerated_0.len() && 0 <= j < a->Enumerated_0.len() implies same_num_kind(
            range_lo(#[trigger] a->Enumerated_0[i]),
            range_lo(#[trigger] a->Enumerated_0[j]),
        ) by {
            lemma_kind_eq_same(a->Enumerated_0[i], a->Enumerated_0[j]);
        }
    }
    if b is Enumerated {
        assert forall|i: int, j: int|
            0 <= i < b->Enumerated_0.len() && 0 <= j < b->Enumerated_0.len() implies same_num_kind(
            range_lo(#[trigger] b->Enumerated_0[i]),
            range_lo(#[trigger] b->Enumerated_0[j]),
        ) by {
            lemma_kind_eq_same(b->Enumerated_0[i], b->Enumerated_0[j]);
        }
    }
    if a is Enumerated && b is Enumerated {
        assert forall|i: int, j: int|
            0 <= i < a->Enumerated_0.len() && 0 <= j < b->Enumerated_0.len() implies same_num_kind(
            range_lo(#[trigger] a->Enumerated_0[i]),
            range_lo(#[trigger] b->Enumerated_0[j]),
        ) by {
            lemma_kind_eq_same(a->Enumerated_0[i], b->Enumerated_0[j]);
        }
    }
}

/// Type compatibility: kinds match, recursively through function
/// parameters and arity, and `Unknown` is compatible with everything.
pub open spec fn matches_type_s(a: ValueTypeS, b: ValueTypeS) -> bool
    decreases a,
{
    if a is Unknown || b is Unknown {
        true
    } else {
        match (a, b) {
            (ValueTypeS::Void, ValueTypeS::Void) => true,
            (ValueTypeS::Function(ps, ret, _), ValueTypeS::Function(qs, qret, _)) => {
                &&& ps.len() == qs.len()
                &&& (ret is Some <==> qret is Some)
                &&& params_match_s(ps, qs)
            },
            (ValueTypeS::Bool(_), ValueTypeS::Bool(_)) => true,
            (ValueTypeS::Int8(_), ValueTypeS::Int8(_)) => true,
            (ValueTypeS::Int16(_), ValueTypeS::Int16(_)) => true,
            (ValueTypeS::Int32(_), ValueTypeS::Int32(_)) => true,
            (ValueTypeS::Int64(_), ValueTypeS::Int64(_)) => true,
            (ValueTypeS::Int128(_), ValueTypeS::Int128(_)) => true,
            (ValueTypeS::IntBig(_), ValueTypeS::IntBig(_)) => true,
            (ValueTypeS::Uint8(_), ValueTypeS::Uint8(_)) => true,
            (ValueTypeS::Uint16(_), ValueTypeS::Uint16(_)) => true,
            (ValueTypeS::Uint32(_), ValueTypeS::Uint32(_)) => true,
            (ValueTypeS::Uint64(_), ValueTypeS::Uint64(_)) => true,
            (ValueTypeS::Uint128(_), ValueTypeS::Uint128(_)) => true,
            (ValueTypeS::UintBig(_), ValueTypeS::UintBig(_)) => true,
            (ValueTypeS::Float32(_), ValueTypeS::Float32(_)) => true,
            (ValueTypeS::Float64(_), ValueTypeS::Float64(_)) => true,
            (ValueTypeS::FloatBig(_), ValueTypeS::FloatBig(_)) => true,
            _ => false,
        }
    }
}

pub open spec fn params_match_s(ps: Seq<(Seq<char>, ValueS)>, qs: Seq<(Seq<char>, ValueS)>) -> bool
    decreases ps,
{
    if ps.len() == 0 {
        true
    } else {
        params_match_s(ps.drop_last(), qs.drop_last()) && (qs.len() > 0 ==> matches_type_s(
            ps.last().1.value,
            qs.last().1.value,
        ))
    }
}

/// The combination of two values across branches: constraints of one
/// kind join; `Void` joins to `Void`; everything else degrades to
/// `Unknown`. The result spans from the first value's start to the
/// second's end.
pub open spec fn combine_value_s(a: ValueS, b: ValueS) -> ValueS {
    ValueS {
        value: (match (a.value, b.value) {
            (ValueTypeS::Void, ValueTypeS::Void) => ValueTypeS::Void,
            (ValueTypeS::Bool(x), ValueTypeS::Bool(y)) => ValueTypeS::Bool(combine_state(x, y)),
            (ValueTypeS::Int8(x), ValueTypeS::Int8(y)) => ValueTypeS::Int8(combine_state(x, y)),
            (ValueTypeS::Int16(x), ValueTypeS::Int16(y)) => ValueTypeS::Int16(combine_state(x, y)),
            (ValueTypeS::Int32(x), ValueTypeS::Int32(y)) => ValueTypeS::Int32(combine_state(x, y)),
            (ValueTypeS::Int64(x), ValueTypeS::Int64(y)) => ValueTypeS::Int64(combine_state(x, y)),
            (ValueTypeS::Int128(x), ValueTypeS::Int128(y)) => ValueTypeS::Int128(combine_state(x, y)),
            (ValueTypeS::IntBig(x), ValueTypeS::IntBig(y)) => ValueTypeS::IntBig(combine_state(x, y)),
            (ValueTypeS::Uint8(x), ValueTypeS::Uint8(y)) => ValueTypeS::Uint8(combine_state(x, y)),
            (ValueTypeS::Uint16(x), ValueTypeS::Uint16(y)) => ValueTypeS::Uint16(combine_state(x, y)),
            (ValueTypeS::Uint32(x), ValueTypeS::Uint32(y)) => ValueTypeS::Uint32(combine_state(x, y)),
            (ValueTypeS::Uint64(x), ValueTypeS::Uint64(y)) => ValueTypeS::Uint64(combine_state(x, y)),
            (ValueTypeS::Uint128(x), ValueTypeS::Uint128(y)) => ValueTypeS::Uint128(combine_state(x, y)),
            (ValueTypeS::UintBig(x), ValueTypeS::UintBig(y)) => ValueTypeS::UintBig(combine_state(x, y)),
            (ValueTypeS::Float32(x), ValueTypeS::Float32(y)) => ValueTypeS::Float32(combine_state(x, y)),
            (ValueTypeS::Float64(x), ValueTypeS::Float64(y)) => ValueTypeS::Float64(combine_state(x, y)),
            (ValueTypeS::FloatBig(x), ValueTypeS::FloatBig(y)) => ValueTypeS::FloatBig(combine_state(x, y)),
            _ => ValueTypeS::Unknown,
        }),
        range: Range { module: a.range.module, start: a.range.start, end: b.range.end },
    }
}

/// The response of comparing two values: boolean and numeric constraints
/// of one kind are tested pairwise; two `Void` values are equal; any
/// `Unknown`, function, or mismatched pairing carries no information.
pub open spec fn value_cmp_s(op: CmpOp, a: ValueTypeS, b: ValueTypeS) -> TestResponse {
    if a is Unknown || b is Unknown {
        TestResponse::Failed
    } else {
        match (a, b) {
            (ValueTypeS::Void, ValueTypeS::Void) => (match op {
                CmpOp::Eq => TestResponse::Always,
                CmpOp::Ne => TestResponse::Never,
                _ => TestResponse::Failed,
            }),
            (ValueTypeS::Bool(x), ValueTypeS::Bool(y)) => bool_op_response(op, x, y),
            (ValueTypeS::Int8(x), ValueTypeS::Int8(y)) => ord_op_response(op, x, y),
            (ValueTypeS::Int16(x), ValueTypeS::Int16(y)) => ord_op_response(op, x, y),
            (ValueTypeS::Int32(x), ValueTypeS::Int32(y)) => ord_op_response(op, x, y),
            (ValueTypeS::Int64(x), ValueTypeS::Int64(y)) => ord_op_response(op, x, y),
            (ValueTypeS::Int128(x), ValueTypeS::Int128(y)) => ord_op_response(op, x, y),
            (ValueTypeS::IntBig(x), ValueTypeS::IntBig(y)) => ord_op_response(op, x, y),
            (ValueTypeS::Uint8(x), ValueTypeS::Uint8(y)) => ord_op_response(op, x, y),
            (ValueTypeS::Uint16(x), ValueTypeS::Uint16(y)) => ord_op_response(op, x, y),
            (ValueTypeS::Uint32(x), ValueTypeS::Uint32(y)) => ord_op_response(op, x, y),
            (ValueTypeS::Uint64(x), ValueTypeS::Uint64(y)) => ord_op_response(op, x, y),
            (ValueTypeS::Uint128(x), ValueTypeS::Uint128(y)) => ord_op_response(op, x, y),
            (ValueTypeS::UintBig(x), ValueTypeS::UintBig(y)) => ord_op_response(op, x, y),
            (ValueTypeS::Float32(x), ValueTypeS::Float32(y)) => ord_op_response(op, x, y),
            (ValueTypeS::Float64(x), ValueTypeS::Float64(y)) => ord_op_response(op, x, y),
            (ValueTypeS::FloatBig(x), ValueTypeS::FloatBig(y)) => ord_op_response(op, x, y),
            _ => TestResponse::Failed,
        }
    }
}

/// The outcome of arithmetic between two values: integer constraints of
/// one kind evaluate pairwise, `Unknown` stays `Unknown`, and any other
/// pairing is an invalid-type failure. The decimal kinds define no
/// arithmetic here: only comparison, which is exact on literals.
pub open spec fn value_arith_s(op: ArithOp, a: ValueTypeS, b: ValueTypeS) -> Result<
    (ValueTypeS, BreakReport),
    ErrorType,
> {
    if a is Unknown || b is Unknown {
        Ok((ValueTypeS::Unknown, BreakReport::Unbroken))
    } else {
        match (a, b) {
            (ValueTypeS::Int8(x), ValueTypeS::Int8(y)) => Ok((ValueTypeS::Int8(ord_arith_state(op, x, y)), ord_arith_break(op, x, y))),
            (ValueTypeS::Int16(x), ValueTypeS::Int16(y)) => Ok((ValueTypeS::Int16(ord_arith_state(op, x, y)), ord_arith_break(op, x, y))),
            (ValueTypeS::Int32(x), ValueTypeS::Int32(y)) => Ok((ValueTypeS::Int32(ord_arith_state(op, x, y)), ord_arith_break(op, x, y))),
            (ValueTypeS::Int64(x), ValueTypeS::Int64(y)) => Ok((ValueTypeS::Int64(ord_arith_state(op, x, y)), ord_arith_break(op, x, y))),
            (ValueTypeS::Int128(x), ValueTypeS::Int128(y)) => Ok((ValueTypeS::Int128(ord_arith_state(op, x, y)), ord_arith_break(op, x, y))),
            (ValueTypeS::IntBig(x), ValueTypeS::IntBig(y)) => Ok((ValueTypeS::IntBig(ord_arith_state(op, x, y)), ord_arith_break(op, x, y))),
            (ValueTypeS::Uint8(x), ValueTypeS::Uint8(y)) => Ok((ValueTypeS::Uint8(ord_arith_state(op, x, y)), ord_arith_break(op, x, y))),
            (ValueTypeS::Uint16(x), ValueTypeS::Uint16(y)) => Ok((ValueTypeS::Uint16(ord_arith_state(op, x, y)), ord_arith_break(op, x, y))),
            (ValueTypeS::Uint32(x), ValueTypeS::Uint32(y)) => Ok((ValueTypeS::Uint32(ord_arith_state(op, x, y)), ord_arith_break(op, x, y))),
            (ValueTypeS::Uint64(x), ValueTypeS::Uint64(y)) => Ok((ValueTypeS::Uint64(ord_arith_state(op, x, y)), ord_arith_break(op, x, y))),
            (ValueTypeS::Uint128(x), ValueTypeS::Uint128(y)) => Ok((ValueTypeS::Uint128(ord_arith_state(op, x, y)), ord_arith_break(op, x, y))),
            (ValueTypeS::UintBig(x), ValueTypeS::UintBig(y)) => Ok((ValueTypeS::UintBig(ord_arith_state(op, x, y)), ord_arith_break(op, x, y))),
            _ => Err(ErrorType::InvalidTypeReceived),
        }
    }
}

/// `same_num_kind` means equal kinds.
pub proof fn lemma_same_kind_eq(a: crate::num::NumS, b: crate::num::NumS)
    requires
        same_num_kind(a, b),
    ensures
        kind_of(a) == kind_of(b),
{
}

/// Arithmetic between a constraint of one kind and another preserves
/// that kind in the result.
pub proof fn lemma_arith_kind_preserved(
    a: StateS<RangeS>,
    b: StateS<RangeS>,
    r: StateS<RangeS>,
    k: NumKind,
    op: ArithOp,
)
    requires
        ord_state_of_kind(a, k),
        r == ord_arith_state(op, a, b),
        wf_ord_state(r),
        ord_states_one_kind(a, r),
    ensures
        ord_state_of_kind(r, k),
{
    if r is Enumerated {
        let rs = r->Enumerated_0;
        assert(a is Enumerated && b is Enumerated);
        let xs = a->Enumerated_0;
        if xs.len() == 0 {
            assert(arith_rows(op, xs, b->Enumerated_0).len() == 0);
        } else {
            assert forall|m: int| 0 <= m < rs.len() implies wf_range(#[trigger] rs[m])
                && range_kind(rs[m]) == k by {
                assert(same_num_kind(range_lo(xs[0]), range_lo(rs[m])));
                lemma_same_kind_eq(range_lo(xs[0]), range_lo(rs[m]));
            }
        }
    }
}

impl Clone for ValConstr {
    fn clone(&self) -> (r: Self)
        ensures
            r@ == self@,
    {
        match &self.0 {
            ValConstrState::Failed => ValConstr(ValConstrState::Failed),
            ValConstrState::Unconstrained => ValConstr(ValConstrState::Unconstrained),
            ValConstrState::Enumerated(xs) => {
                let mut v: Vec<bool> = Vec::new();
                let mut i: usize = 0;
                while i < xs.len()
                    invariant
                        i <= xs@.len(),
                        v@ =~= xs@.take(i as int),
                    decreases xs@.len() - i,
                {
                    let e = xs[i];
                    v.push(e);
                    i = i + 1;
                }
                let r = ValConstr(ValConstrState::Enumerated(v));
                proof {
                    assert(v@ =~= xs@);
                }
                r
            },
        }
    }
}

impl Clone for ValConstrOrd {
    fn clone(&self) -> (r: Self)
        ensures
            r@ == self@,
    {
        match &self.0 {
            ValConstrState::Failed => ValConstrOrd(ValConstrState::Failed),
            ValConstrState::Unconstrained => ValConstrOrd(ValConstrState::Unconstrained),
            ValConstrState::Enumerated(xs) => {
                let mut v: Vec<crate::constr::ValConstrRange> = Vec::new();
                let mut i: usize = 0;
                while i < xs.len()
                    invariant
                        i <= xs@.len(),
                        v@.len() == i as int,
                        forall|k: int| 0 <= k < i ==> (#[trigger] v@[k]@) == xs@[k]@,
                    decreases xs@.len() - i,
                {
                    let e = xs[i].clone();
                    v.push(e);
                    i = i + 1;
                }
                let r = ValConstrOrd(ValConstrState::Enumerated(v));
                proof {
                    assert(r@->Enumerated_0 =~= self@->Enumerated_0);
                }
                r
            },
        }
    }
}

impl Clone for Value {
    #[verifier::loop_isolation(false)]
    fn clone(&self) -> (r: Self)
        ensures
            r@ == self@,
        decreases self,
    {
        let value = match &self.value {
            ValueType::Unknown => ValueType::Unknown,
            ValueType::Void => ValueType::Void,
            ValueType::Function(ps, ret, body) => {
                let mut out: Vec<(String, Value)> = Vec::new();
                let mut i: usize = 0;
                while i < ps.len()
                    invariant
                        i <= ps@.len(),
                        out@.len() == i as int,
                        forall|k: int|
                            0 <= k < i ==> (#[trigger] out@[k]).0@ == ps@[k].0@ && out@[k].1@
                                == ps@[k].1@,
                    decreases ps@.len() - i,
                {
                    let name = ps[i].0.clone();
                    let v = ps[i].1.clone();
                    out.push((name, v));
                    i = i + 1;
                }
                let ret2: Option<Value> = match &**ret {
                    Option::Some(rv) => Option::Some(rv.clone()),
                    Option::None => Option::None,
                };
                let r = ValueType::Function(Box::new(out), Box::new(ret2), *body);
                proof {
                    lemma_params_view(out@);
                    lemma_params_view(ps@);
                    assert forall|k: int|
                        0 <= k < ps@.len() implies params_view(out@)[k] == params_view(
                        ps@,
                    )[k] by {
                        assert((#[trigger] out@[k]).0@ == (#[trigger] ps@[k]).0@);
                        assert(out@[k].1@ == ps@[k].1@);
                    }
                    assert(params_view(out@) =~= params_view(ps@));
                }
                r
            },
            ValueType::Bool(c) => ValueType::Bool(c.clone()),
            ValueType::Int8(c) => ValueType::Int8(c.clone()),
            ValueType::Int16(c) => ValueType::Int16(c.clone()),
            ValueType::Int32(c) => ValueType::Int32(c.clone()),
            ValueType::Int64(c) => ValueType::Int64(c.clone()),
            ValueType::Int128(c) => ValueType::Int128(c.clone()),
            ValueType::IntBig(c) => ValueType::IntBig(c.clone()),
            ValueType::Uint8(c) => ValueType::Uint8(c.clone()),
            ValueType::Uint16(c) => ValueType::Uint16(c.clone()),
            ValueType::Uint32(c) => ValueType::Uint32(c.clone()),
            ValueType::Uint64(c) => ValueType::Uint64(c.clone()),
            ValueType::Uint128(c) => ValueType::Uint128(c.clone()),
            ValueType::UintBig(c) => ValueType::UintBig(c.clone()),
            ValueType::Float32(c) => ValueType::Float32(c.clone()),
            ValueType::Float64(c) => ValueType::Float64(c.clone()),
            ValueType::FloatBig(c) => ValueType::FloatBig(c.clone()),
        };
        Value { value, range: self.range }
    }
}

impl Value {
    /// A boolean value standing for the outcome of a static test.
    pub fn bool_from(value: TestResponse, range: Range) -> (r: Value)
        ensures
            r@.range == range,
            r@.value == ValueTypeS::Bool(
                match value {
                    TestResponse::Always => StateS::Enumerated(seq![true]),
                    TestResponse::Sometimes => StateS::Enumerated(seq![true, false]),
                    TestResponse::Never => StateS::Enumerated(seq![false]),
                    TestResponse::Failed => StateS::<bool>::Failed,
                },
            ),
            wf_value(r@),
    {
        let c = match value {
            TestResponse::Always => {
                let mut v: Vec<bool> = Vec::new();
                v.push(true);
                proof {
                    assert(v@ =~= seq![true]);
                }
                ValConstr(ValConstrState::Enumerated(v))
            },
            TestResponse::Sometimes => {
                let mut v: Vec<bool> = Vec::new();
                v.push(true);
                v.push(false);
                proof {
                    assert(v@ =~= seq![true, false]);
                }
                ValConstr(ValConstrState::Enumerated(v))
            },
            TestResponse::Never => {
                let mut v: Vec<bool> = Vec::new();
                v.push(false);
                proof {
                    assert(v@ =~= seq![false]);
                }
                ValConstr(ValConstrState::Enumerated(v))
            },
            TestResponse::Failed => ValConstr(ValConstrState::Failed),
        };
        Value { value: ValueType::Bool(c), range }
    }

    /// Whether this value's type is compatible with another's.
    #[verifier::loop_isolation(false)]
    pub fn matches_type(&self, other: &Value) -> (r: bool)
        ensures
            r == matches_type_s(self@.value, other@.value),
        decreases self,
    {
        match (&self.value, &other.value) {
            (ValueType::Unknown, _) => true,
            (_, ValueType::Unknown) => true,
            (ValueType::Void, ValueType::Void) => true,
            (ValueType::Function(ps, ret, _), ValueType::Function(qs, qret, _)) => {
                if ps.len() != qs.len() {
                    proof {
                        lemma_params_view(ps@);
                        lemma_params_view(qs@);
                    }
                    return false;
                }
                let ret_ok = match (&**ret, &**qret) {
                    (Option::Some(_), Option::Some(_)) => true,
                    (Option::None, Option::None) => true,
                    _ => false,
                };
                if !ret_ok {
                    return false;
                }
                let mut pass = true;
                let mut i: usize = 0;
                proof {
                    lemma_params_view(ps@);
                    lemma_params_view(qs@);
                }
                while i < ps.len()
                    invariant
                        i <= ps@.len(),
                        pass == params_match_s(
                            params_view(ps@).take(i as int),
                            params_view(qs@).take(i as int),
                        ),
                    decreases ps@.len() - i,
                {
                    if pass {
                        let m = ps[i].1.matches_type(&qs[i].1);
                        pass = m;
                    }
                    i = i + 1;
                    proof {
                        lemma_params_match_push(
                            params_view(ps@).take(i as int),
                            params_view(qs@).take(i as int),
                        );
                        assert(params_view(ps@).take(i as int).drop_last() =~= params_view(
                            ps@,
                        ).take(i - 1));
                        assert(params_view(qs@).take(i as int).drop_last() =~= params_view(
                            qs@,
                        ).take(i - 1));
                    }
                }
                proof {
                    assert(params_view(ps@).take(i as int) =~= params_view(ps@));
                    assert(params_view(qs@).take(i as int) =~= params_view(qs@));
                }
                pass
            },
            (ValueType::Void, _) => false,
            (ValueType::Function(_, _, _), _) => false,
            (ValueType::Bool(_), ValueType::Bool(_)) => true,
            (ValueType::Bool(_), _) => false,
            (ValueType::Int8(_), ValueType::Int8(_)) => true,
            (ValueType::Int8(_), _) => false,
            (ValueType::Int16(_), ValueType::Int16(_)) => true,
            (ValueType::Int16(_), _) => false,
            (ValueType::Int32(_), ValueType::Int32(_)) => true,
            (ValueType::Int32(_), _) => false,
            (ValueType::Int64(_), ValueType::Int64(_)) => true,
            (ValueType::Int64(_), _) => false,
            (ValueType::Int128(_), ValueType::Int128(_)) => true,
            (ValueType::Int128(_), _) => false,
            (ValueType::IntBig(_), ValueType::IntBig(_)) => true,
            (ValueType::IntBig(_), _) => false,
            (ValueType::Uint8(_), ValueType::Uint8(_)) => true,
            (ValueType::Uint8(_), _) => false,
            (ValueType::Uint16(_), ValueType::Uint16(_)) => true,
            (ValueType::Uint16(_), _) => false,
            (ValueType::Uint32(_), ValueType::Uint32(_)) => true,
            (ValueType::Uint32(_), _) => false,
            (ValueType::Uint64(_), ValueType::Uint64(_)) => true,
            (ValueType::Uint64(_), _) => false,
            (ValueType::Uint128(_), ValueType::Uint128(_)) => true,
            (ValueType::Uint128(_), _) => false,
            (ValueType::UintBig(_), ValueType::UintBig(_)) => true,
            (ValueType::UintBig(_), _) => false,
            (ValueType::Float32(_), ValueType::Float32(_)) => true,
            (ValueType::Float32(_), _) => false,
            (ValueType::Float64(_), ValueType::Float64(_)) => true,
            (ValueType::Float64(_), _) => false,
            (ValueType::FloatBig(_), ValueType::FloatBig(_)) => true,
            (ValueType::FloatBig(_), _) => false,
        }
    }

    /// The printable name of this value's type.
    #[verifier::loop_isolation(false)]
    pub fn type_def(&self) -> (r: String)
        ensures
            r@ == type_def_s(self@.value),
        decreases self,
    {
        match &self.value {
            ValueType::Unknown => String::from_str("<?>"),
            ValueType::Void => String::from_str("void"),
            ValueType::Function(ps, ret, _) => {
                let mut s = String::from_str("fn(");
                let mut i: usize = 0;
                proof {
                    lemma_params_view(ps@);
                }
                while i < ps.len()
                    invariant
                        i <= ps@.len(),
                        s@ =~= "fn("@ + params_def_s(params_view(ps@).take(i as int)),
                    decreases ps@.len() - i,
                {
                    s.append(ps[i].0.as_str());
                    s.append(": ");
                    let t = ps[i].1.type_def();
                    s.append(t.as_str());
                    i = i + 1;
                    proof {
                        assert(params_view(ps@).take(i as int).drop_last() =~= params_view(
                            ps@,
                        ).take(i - 1));
                        assert(params_view(ps@).take(i as int).last() == params_view(ps@)[i - 1]);
                    }
                }
                proof {
                    assert(params_view(ps@).take(i as int) =~= params_view(ps@));
                }
                s.append(")");
                match &**ret {
                    Option::Some(rv) => {
                        s.append(" -> ");
                        let t = rv.type_def();
                        s.append(t.as_str());
                    },
                    Option::None => {},
                }
                s
            },
            ValueType::Bool(_) => String::from_str("bool"),
            ValueType::Int8(_) => String::from_str("int8"),
            ValueType::Int16(_) => String::from_str("int16"),
            ValueType::Int32(_) => String::from_str("int32"),
            ValueType::Int64(_) => String::from_str("int64"),
            ValueType::Int128(_) => String::from_str("int128"),
            ValueType::IntBig(_) => String::from_str("intbig"),
            ValueType::Uint8(_) => String::from_str("uint8"),
            ValueType::Uint16(_) => String::from_str("uint16"),
            ValueType::Uint32(_) => String::from_str("uint32"),
            ValueType::Uint64(_) => String::from_str("uint64"),
            ValueType::Uint128(_) => String::from_str("uint128"),
            ValueType::UintBig(_) => String::from_str("uintbig"),
            ValueType::Float32(_) => String::from_str("float32"),
            ValueType::Float64(_) => String::from_str("float64"),
            ValueType::FloatBig(_) => String::from_str("floatbig"),
        }
    }

    /// Combine this value with another across two branches.
    #[verifier::rlimit(100)]
    pub fn combine(&self, other: &Value) -> (r: Value)
        ensures
            r@ == combine_value_s(self@, other@),
    {
        let value = match (&self.value, &other.value) {
            (ValueType::Void, ValueType::Void) => ValueType::Void,
            (ValueType::Bool(x), ValueType::Bool(y)) => ValueType::Bool(x.combine(y)),
            (ValueType::Int8(x), ValueType::Int8(y)) => ValueType::Int8(x.combine(y)),
            (ValueType::Int16(x), ValueType::Int16(y)) => ValueType::Int16(x.combine(y)),
            (ValueType::Int32(x), ValueType::Int32(y)) => ValueType::Int32(x.combine(y)),
            (ValueType::Int64(x), ValueType::Int64(y)) => ValueType::Int64(x.combine(y)),
            (ValueType::Int128(x), ValueType::Int128(y)) => ValueType::Int128(x.combine(y)),
            (ValueType::IntBig(x), ValueType::IntBig(y)) => ValueType::IntBig(x.combine(y)),
            (ValueType::Uint8(x), ValueType::Uint8(y)) => ValueType::Uint8(x.combine(y)),
            (ValueType::Uint16(x), ValueType::Uint16(y)) => ValueType::Uint16(x.combine(y)),
            (ValueType::Uint32(x), ValueType::Uint32(y)) => ValueType::Uint32(x.combine(y)),
            (ValueType::Uint64(x), ValueType::Uint64(y)) => ValueType::Uint64(x.combine(y)),
            (ValueType::Uint128(x), ValueType::Uint128(y)) => ValueType::Uint128(x.combine(y)),
            (ValueType::UintBig(x), ValueType::UintBig(y)) => ValueType::UintBig(x.combine(y)),
            (ValueType::Float32(x), ValueType::Float32(y)) => ValueType::Float32(x.combine(y)),
            (ValueType::Float64(x), ValueType::Float64(y)) => ValueType::Float64(x.combine(y)),
            (ValueType::FloatBig(x), ValueType::FloatBig(y)) => ValueType::FloatBig(x.combine(y)),
            _ => ValueType::Unknown,
        };
        Value {
            value,
            range: Range { module: self.range.module, start: self.range.start, end: other.range.end },
        }
    }

    /// Classify a comparison between this value and another.
    #[verifier::rlimit(100)]
    pub fn test_cmp(&self, op: CmpOp, other: &Value) -> (r: TestResponse)
        requires
            wf_value(self@),
            wf_value(other@),
        ensures
            r == value_cmp_s(op, self@.value, other@.value),
    {
        match (&self.value, &other.value) {
            (ValueType::Unknown, _) => TestResponse::Failed,
            (_, ValueType::Unknown) => TestResponse::Failed,
            (ValueType::Void, ValueType::Void) => match op {
                CmpOp::Eq => TestResponse::Always,
                CmpOp::Ne => TestResponse::Never,
                _ => TestResponse::Failed,
            },
            (ValueType::Bool(x), ValueType::Bool(y)) => x.op_bool(y, op),
            (ValueType::Int8(x), ValueType::Int8(y)) => {
                proof {
                    lemma_of_kind_pair(x@, y@, NumKind::I8);
                }
                x.op_bool_other(y, op)
            },
            (ValueType::Int16(x), ValueType::Int16(y)) => {
                proof {
                    lemma_of_kind_pair(x@, y@, NumKind::I16);
                }
                x.op_bool_other(y, op)
            },
            (ValueType::Int32(x), ValueType::Int32(y)) => {
                proof {
                    lemma_of_kind_pair(x@, y@, NumKind::I32);
                }
                x.op_bool_other(y, op)
            },
            (ValueType::Int64(x), ValueType::Int64(y)) => {
                proof {
                    lemma_of_kind_pair(x@, y@, NumKind::I64);
                }
                x.op_bool_other(y, op)
            },
            (ValueType::Int128(x), ValueType::Int128(y)) => {
                proof {
                    lemma_of_kind_pair(x@, y@, NumKind::I128);
                }
                x.op_bool_other(y, op)
            },
            (ValueType::IntBig(x), ValueType::IntBig(y)) => {
                proof {
                    lemma_of_kind_pair(x@, y@, NumKind::IBig);
                }
                x.op_bool_other(y, op)
            },
            (ValueType::Uint8(x), ValueType::Uint8(y)) => {
                proof {
                    lemma_of_kind_pair(x@, y@, NumKind::U8);
                }
                x.op_bool_other(y, op)
            },
            (ValueType::Uint16(x), ValueType::Uint16(y)) => {
                proof {
                    lemma_of_kind_pair(x@, y@, NumKind::U16);
                }
                x.op_bool_other(y, op)
            },
            (ValueType::Uint32(x), ValueType::Uint32(y)) => {
                proof {
                    lemma_of_kind_pair(x@, y@, NumKind::U32);
                }
                x.op_bool_other(y, op)
            },
            (ValueType::Uint64(x), ValueType::Uint64(y)) => {
                proof {
                    lemma_of_kind_pair(x@, y@, NumKind::U64);
                }
                x.op_bool_other(y, op)
            },
            (ValueType::Uint128(x), ValueType::Uint128(y)) => {
                proof {
                    lemma_of_kind_pair(x@, y@, NumKind::U128);
                }
                x.op_bool_other(y, op)
            },
            (ValueType::UintBig(x), ValueType::UintBig(y)) => {
                proof {
                    lemma_of_kind_pair(x@, y@, NumKind::UBig);
                }
                x.op_bool_other(y, op)
            },
            (ValueType::Float32(x), ValueType::Float32(y)) => {
                proof {
                    lemma_of_kind_pair(x@, y@, NumKind::F32);
                }
                x.op_bool_other(y, op)
            },
            (ValueType::Float64(x), ValueType::Float64(y)) => {
                proof {
                    lemma_of_kind_pair(x@, y@, NumKind::F64);
                }
                x.op_bool_other(y, op)
            },
            (ValueType::FloatBig(x), ValueType::FloatBig(y)) => {
                proof {
                    lemma_of_kind_pair(x@, y@, NumKind::FBig);
                }
                x.op_bool_other(y, op)
            },
            _ => TestResponse::Failed,
        }
    }

    /// Classify equality between this value and another.
    pub fn eq(&self, other: &Value) -> (r: TestResponse)
        requires
            wf_value(self@),
            wf_value(other@),
        ensures
            r == value_cmp_s(CmpOp::Eq, self@.value, other@.value),
    {
        self.test_cmp(CmpOp::Eq, other)
    }

    /// Classify inequality between this value and another.
    pub fn ne(&self, other: &Value) -> (r: TestResponse)
        requires
            wf_value(self@),
            wf_value(other@),
        ensures
            r == value_cmp_s(CmpOp::Ne, self@.value, other@.value),
    {
        self.test_cmp(CmpOp::Ne, other)
    }

    /// Apply an arithmetic operator between this value and another. The
    /// result spans both operands; the report says how much of the
    /// evaluation broke numeric bounds.
    #[verifier::rlimit(100)]
    pub fn arith(&self, op: ArithOp, other: &Value) -> (r: Result<(Value, BreakReport), ErrorType>)
        requires
            wf_value(self@),
            wf_value(other@),
        ensures
            (match value_arith_s(op, self@.value, other@.value) {
                Ok((t, br)) => r matches Ok((v, b2)) && v@.value == t && b2 == br && wf_value(v@)
                    && v@.range == (Range {
                    module: self@.range.module,
                    start: self@.range.start,
                    end: other@.range.end,
                }),
                Err(e) => r matches Err(f) && f == e,
            }),
    {
        let range = Range {
            module: self.range.module,
            start: self.range.start,
            end: other.range.end,
        };
        match (&self.value, &other.value) {
            (ValueType::Unknown, _) => Ok((Value { value: ValueType::Unknown, range }, BreakReport::Unbroken)),
            (_, ValueType::Unknown) => Ok((Value { value: ValueType::Unknown, range }, BreakReport::Unbroken)),
            (ValueType::Int8(x), ValueType::Int8(y)) => {
                proof {
                    lemma_of_kind_pair(x@, y@, NumKind::I8);
                }
                let (c, br) = x.arith(op, y);
                proof {
                    lemma_arith_kind_preserved(x@, y@, c@, NumKind::I8, op);
                }
                Ok((Value { value: ValueType::Int8(c), range }, br))
            },
            (ValueType::Int16(x), ValueType::Int16(y)) => {
                proof {
                    lemma_of_kind_pair(x@, y@, NumKind::I16);
                }
                let (c, br) = x.arith(op, y);
                proof {
                    lemma_arith_kind_preserved(x@, y@, c@, NumKind::I16, op);
                }
                Ok((Value { value: ValueType::Int16(c), range }, br))
            },
            (ValueType::Int32(x), ValueType::Int32(y)) => {
                proof {
                    lemma_of_kind_pair(x@, y@, NumKind::I32);
                }
                let (c, br) = x.arith(op, y);
                proof {
                    lemma_arith_kind_preserved(x@, y@, c@, NumKind::I32, op);
                }
                Ok((Value { value: ValueType::Int32(c), range }, br))
            },
            (ValueType::Int64(x), ValueType::Int64(y)) => {
                proof {
                    lemma_of_kind_pair(x@, y@, NumKind::I64);
                }
                let (c, br) = x.arith(op, y);
                proof {
                    lemma_arith_kind_preserved(x@, y@, c@, NumKind::I64, op);
                }
                Ok((Value { value: ValueType::Int64(c), range }, br))
            },
            (ValueType::Int128(x), ValueType::Int128(y)) => {
                proof {
                    lemma_of_kind_pair(x@, y@, NumKind::I128);
                }
                let (c, br) = x.arith(op, y);
                proof {
                    lemma_arith_kind_preserved(x@, y@, c@, NumKind::I128, op);
                }
                Ok((Value { value: ValueType::Int128(c), range }, br))
            },
            (ValueType::IntBig(x), ValueType::IntBig(y)) => {
                proof {
                    lemma_of_kind_pair(x@, y@, NumKind::IBig);
                }
                let (c, br) = x.arith(op, y);
                proof {
                    lemma_arith_kind_preserved(x@, y@, c@, NumKind::IBig, op);
                }
                Ok((Value { value: ValueType::IntBig(c), range }, br))
            },
            (ValueType::Uint8(x), ValueType::Uint8(y)) => {
                proof {
                    lemma_of_kind_pair(x@, y@, NumKind::U8);
                }
                let (c, br) = x.arith(op, y);
                proof {
                    lemma_arith_kind_preserved(x@, y@, c@, NumKind::U8, op);
                }
                Ok((Value { value: ValueType::Uint8(c), range }, br))
            },
            (ValueType::Uint16(x), ValueType::Uint16(y)) => {
                proof {
                    lemma_of_kind_pair(x@, y@, NumKind::U16);
                }
                let (c, br) = x.arith(op, y);
                proof {
                    lemma_arith_kind_preserved(x@, y@, c@, NumKind::U16, op);
                }
                Ok((Value { value: ValueType::Uint16(c), range }, br))
            },
            (ValueType::Uint32(x), ValueType::Uint32(y)) => {
                proof {
                    lemma_of_kind_pair(x@, y@, NumKind::U32);
                }
                let (c, br) = x.arith(op, y);
                proof {
                    lemma_arith_kind_preserved(x@, y@, c@, NumKind::U32, op);
                }
                Ok((Value { value: ValueType::Uint32(c), range }, br))
            },
            (ValueType::Uint64(x), ValueType::Uint64(y)) => {
                proof {
                    lemma_of_kind_pair(x@, y@, NumKind::U64);
                }
                let (c, br) = x.arith(op, y);
                proof {
                    lemma_arith_kind_preserved(x@, y@, c@, NumKind::U64, op);
                }
                Ok((Value { value: ValueType::Uint64(c), range }, br))
            },
            (ValueType::Uint128(x), ValueType::Uint128(y)) => {
                proof {
                    lemma_of_kind_pair(x@, y@, NumKind::U128);
                }
                let (c, br) = x.arith(op, y);
                proof {
                    lemma_arith_kind_preserved(x@, y@, c@, NumKind::U128, op);
                }
                Ok((Value { value: ValueType::Uint128(c), range }, br))
            },
            (ValueType::UintBig(x), ValueType::UintBig(y)) => {
                proof {
                    lemma_of_kind_pair(x@, y@, NumKind::UBig);
                }
                let (c, br) = x.arith(op, y);
                proof {
                    lemma_arith_kind_preserved(x@, y@, c@, NumKind::UBig, op);
                }
                Ok((Value { value: ValueType::UintBig(c), range }, br))
            },
            _ => Err(ErrorType::InvalidTypeReceived),
        }
    }
}

proof fn lemma_params_match_push(ps: Seq<(Seq<char>, ValueS)>, qs: Seq<(Seq<char>, ValueS)>)
    requires
        ps.len() == qs.len(),
        ps.len() > 0,
    ensures
        params_match_s(ps, qs) == (params_match_s(ps.drop_last(), qs.drop_last())
            && matches_type_s(ps.last().1.value, qs.last().1.value)),
{
}

/// Joining two enumerations of one kind yields an enumeration of that
/// kind.
pub proof fn lemma_combine_of_kind(a: StateS<RangeS>, b: StateS<RangeS>, k: NumKind)
    requires
        ord_state_of_kind(a, k),
        ord_state_of_kind(b, k),
    ensures
        ord_state_of_kind(combine_state(a, b), k),
{
    let c = combine_state(a, b);
    if c is Enumerated {
        let xs = a->Enumerated_0;
        let ys = b->Enumerated_0;
        assert forall|i: int| 0 <= i < c->Enumerated_0.len() implies wf_range(
            #[trigger] c->Enumerated_0[i],
        ) && range_kind(c->Enumerated_0[i]) == k by {
            if i < xs.len() {
                assert(c->Enumerated_0[i] == xs[i]);
            } else {
                assert(c->Enumerated_0[i] == ys[i - xs.len()]);
            }
        }
    }
}

/// Combining two well-formed values yields a well-formed value.
pub proof fn lemma_combine_value_wf(a: ValueS, b: ValueS)
    requires
        wf_value(a),
        wf_value(b),
    ensures
        wf_value(combine_value_s(a, b)),
{
    match (a.value, b.value) {
        (ValueTypeS::Int8(x), ValueTypeS::Int8(y)) => lemma_combine_of_kind(x, y, NumKind::I8),
        (ValueTypeS::Int16(x), ValueTypeS::Int16(y)) => lemma_combine_of_kind(x, y, NumKind::I16),
        (ValueTypeS::Int32(x), ValueTypeS::Int32(y)) => lemma_combine_of_kind(x, y, NumKind::I32),
        (ValueTypeS::Int64(x), ValueTypeS::Int64(y)) => lemma_combine_of_kind(x, y, NumKind::I64),
        (ValueTypeS::Int128(x), ValueTypeS::Int128(y)) => lemma_combine_of_kind(
            x,
            y,
            NumKind::I128,
        ),
        (ValueTypeS::IntBig(x), ValueTypeS::IntBig(y)) => lemma_combine_of_kind(
            x,
            y,
            NumKind::IBig,
        ),
        (ValueTypeS::Uint8(x), ValueTypeS::Uint8(y)) => lemma_combine_of_kind(x, y, NumKind::U8),
        (ValueTypeS::Uint16(x), ValueTypeS::Uint16(y)) => lemma_combine_of_kind(x, y, NumKind::U16),
        (ValueTypeS::Uint32(x), ValueTypeS::Uint32(y)) => lemma_combine_of_kind(x, y, NumKind::U32),
        (ValueTypeS::Uint64(x), ValueTypeS::Uint64(y)) => lemma_combine_of_kind(x, y, NumKind::U64),
        (ValueTypeS::Uint128(x), ValueTypeS::Uint128(y)) => lemma_combine_of_kind(
            x,
            y,
            NumKind::U128,
        ),
        (ValueTypeS::UintBig(x), ValueTypeS::UintBig(y)) => lemma_combine_of_kind(
            x,
            y,
            NumKind::UBig,
        ),
        (ValueTypeS::Float32(x), ValueTypeS::Float32(y)) => lemma_combine_of_kind(
            x,
            y,
            NumKind::F32,
        ),
        (ValueTypeS::Float64(x), ValueTypeS::Float64(y)) => lemma_combine_of_kind(
            x,
            y,
            NumKind::F64,
        ),
        (ValueTypeS::FloatBig(x), ValueTypeS::FloatBig(y)) => lemma_combine_of_kind(
            x,
            y,
            NumKind::FBig,
        ),
        _ => {},
    }
}

/// The printable name of a type.
pub open spec fn type_def_s(t: ValueTypeS) -> Seq<char>
    decreases t,
{
    match t {
        ValueTypeS::Unknown => "<?>"@,
        ValueTypeS::Void => "void"@,
        ValueTypeS::Function(ps, ret, _) => "fn("@ + params_def_s(ps) + ")"@ + (match ret {
            Option::Some(r) => " -> "@ + type_def_s(r.value),
            Option::None => Seq::empty(),
        }),
        ValueTypeS::Bool(_) => "bool"@,
        ValueTypeS::Int8(_) => "int8"@,
        ValueTypeS::Int16(_) => "int16"@,
        ValueTypeS::Int32(_) => "int32"@,
        ValueTypeS::Int64(_) => "int64"@,
        ValueTypeS::Int128(_) => "int128"@,
        ValueTypeS::IntBig(_) => "intbig"@,
        ValueTypeS::Uint8(_) => "uint8"@,
        ValueTypeS::Uint16(_) => "uint16"@,
        ValueTypeS::Uint32(_) => "uint32"@,
        ValueTypeS::Uint64(_) => "uint64"@,
        ValueTypeS::Uint128(_) => "uint128"@,
        ValueTypeS::UintBig(_) => "uintbig"@,
        ValueTypeS::Float32(_) => "float32"@,
        ValueTypeS::Float64(_) => "float64"@,
        ValueTypeS::FloatBig(_) => "floatbig"@,
    }
}

pub open spec fn params_def_s(ps: Seq<(Seq<char>, ValueS)>) -> Seq<char>
    decreases ps,
{
    if ps.len() == 0 {
        Seq::empty()
    } else {
        params_def_s(ps.drop_last()) + ps.last().0 + ": "@ + type_def_s(ps.last().1.value)
    }
}

} // verus!
