//! The constraint model.
//!
//! A constraint describes what values an expression can take, short of
//! executing it: no information survives (`Failed`), an explicit list of
//! possibilities (`Enumerated`), or every value (`Unconstrained`).
//! Constraints over an unordered kind ([`ValConstr`], booleans) hold
//! values; constraints over the ordered numeric kinds ([`ValConstrOrd`])
//! hold inclusive value ranges. Testing a constraint against a candidate
//! or another constraint yields a four-way [`TestResponse`], which is what
//! lets the verifier prove whether a conditional branch always, sometimes,
//! or never executes. `combine` is the lattice join used to merge the
//! constraints of several reachable branches.

use vstd::prelude::*;

use crate::notes::ErrorType;
use crate::num::{Num, NumS, NumKind, kind_of, wf_num, same_num_kind, num_cmp_spec, num_arith_spec};
use crate::num_fixed::{CmpOp, ArithOp, cmp_int_spec};

verus! {

/// The result of statically testing a constraint against a predicate.
#[derive(Clone, Copy, PartialEq, Eq, Structural, Debug)]
pub enum TestResponse {
    /// The predicate holds of every value the constraint allows.
    Always,
    /// The predicate holds of some allowed values and fails for others.
    Sometimes,
    /// The predicate fails for every allowed value.
    Never,
    /// A previous operation lost the information this test would need.
    Failed,
}

/// The state of one constraint: no information, an explicit list of
/// possibilities, or any value at all.
pub enum ValConstrState<T> {
    Failed,
    Enumerated(Vec<T>),
    Unconstrained,
}

/// Mathematical image of a [`ValConstrState`].
pub enum StateS<T> {
    Failed,
    Enumerated(Seq<T>),
    Unconstrained,
}

/// The lattice join of two constraint states: `Failed` absorbs
/// everything, then `Unconstrained` absorbs what remains, and two
/// enumerations concatenate.
pub open spec fn combine_state<T>(a: StateS<T>, b: StateS<T>) -> StateS<T> {
    if a is Failed || b is Failed {
        StateS::Failed
    } else if a is Unconstrained || b is Unconstrained {
        StateS::Unconstrained
    } else {
        StateS::Enumerated(a->Enumerated_0 + b->Enumerated_0)
    }
}

/// Equivalence of constraint states up to the order of an enumeration:
/// two enumerations are equivalent when they list the same values the
/// same number of times.
pub open spec fn state_equiv<T>(a: StateS<T>, b: StateS<T>) -> bool {
    match (a, b) {
        (StateS::Enumerated(x), StateS::Enumerated(y)) => x.to_multiset() == y.to_multiset(),
        _ => a == b,
    }
}

/// `combine` with `Failed` on either side yields `Failed`.
pub proof fn lemma_combine_failed<T>(x: StateS<T>)
    ensures
        combine_state(StateS::Failed, x) == StateS::<T>::Failed,
        combine_state(x, StateS::Failed) == StateS::<T>::Failed,
{
}

/// `combine` with `Unconstrained` yields `Unconstrained`, except against
/// `Failed`, which absorbs first.
pub proof fn lemma_combine_unconstrained<T>(x: StateS<T>)
    requires
        !(x is Failed),
    ensures
        combine_state(StateS::Unconstrained, x) == StateS::<T>::Unconstrained,
        combine_state(x, StateS::Unconstrained) == StateS::<T>::Unconstrained,
{
}

/// `combine` is commutative, up to the order of an enumeration.
pub proof fn lemma_combine_commutative<T>(a: StateS<T>, b: StateS<T>)
    ensures
        state_equiv(combine_state(a, b), combine_state(b, a)),
{
    if a is Enumerated && b is Enumerated {
        let x = a->Enumerated_0;
        let y = b->Enumerated_0;
        vstd::seq_lib::lemma_multiset_commutative(x, y);
        vstd::seq_lib::lemma_multiset_commutative(y, x);
        assert(x.to_multiset().add(y.to_multiset()) =~= y.to_multiset().add(x.to_multiset()));
    }
}

/// `combine` is associative.
pub proof fn lemma_combine_associative<T>(a: StateS<T>, b: StateS<T>, c: StateS<T>)
    ensures
        combine_state(combine_state(a, b), c) == combine_state(a, combine_state(b, c)),
{
    if a is Enumerated && b is Enumerated && c is Enumerated {
        assert((a->Enumerated_0 + b->Enumerated_0) + c->Enumerated_0 =~= a->Enumerated_0 + (
        b->Enumerated_0 + c->Enumerated_0));
    }
}

/// Map match/mismatch flags to a response: nothing seen is `Failed`,
/// only matches is `Always`, only mismatches is `Never`, both is
/// `Sometimes`.
pub open spec fn resp_of_flags(t: bool, f: bool) -> TestResponse {
    if t && f {
        TestResponse::Sometimes
    } else if t {
        TestResponse::Always
    } else if f {
        TestResponse::Never
    } else {
        TestResponse::Failed
    }
}

/// The operator whose truth is the falsity of `op`.
pub open spec fn neg_op(op: CmpOp) -> CmpOp {
    match op {
        CmpOp::Eq => CmpOp::Ne,
        CmpOp::Ne => CmpOp::Eq,
        CmpOp::Gt => CmpOp::Le,
        CmpOp::Le => CmpOp::Gt,
        CmpOp::Lt => CmpOp::Ge,
        CmpOp::Ge => CmpOp::Lt,
    }
}

proof fn lemma_neg_op(op: CmpOp, a: int, b: int)
    ensures
        cmp_int_spec(neg_op(op), a, b) == !cmp_int_spec(op, a, b),
{
}

// ---------------------------------------------------------------------
// Boolean constraints
// ---------------------------------------------------------------------

/// A constraint over an unordered kind; in this language, booleans.
pub struct ValConstr(pub ValConstrState<bool>);

impl View for ValConstr {
    type V = StateS<bool>;

    open spec fn view(&self) -> StateS<bool> {
        match &self.0 {
            ValConstrState::Failed => StateS::Failed,
            ValConstrState::Enumerated(v) => StateS::Enumerated(v@),
            ValConstrState::Unconstrained => StateS::Unconstrained,
        }
    }
}

/// A boolean as the integer it compares as: `false` below `true`.
pub open spec fn bool_int(b: bool) -> int {
    if b {
        1
    } else {
        0
    }
}

/// What a comparison operator means on booleans.
pub open spec fn cmp_bool(op: CmpOp, a: bool, b: bool) -> bool {
    cmp_int_spec(op, bool_int(a), bool_int(b))
}

fn cmp_bool_exec(op: CmpOp, a: bool, b: bool) -> (r: bool)
    ensures
        r == cmp_bool(op, a, b),
{
    match op {
        CmpOp::Eq => a == b,
        CmpOp::Ne => a != b,
        CmpOp::Gt => a && !b,
        CmpOp::Ge => a || !b,
        CmpOp::Lt => !a && b,
        CmpOp::Le => !a || b,
    }
}

/// Whether some pair drawn from the two lists satisfies the operator.
pub open spec fn bool_pairs_true(op: CmpOp, xs: Seq<bool>, ys: Seq<bool>) -> bool {
    exists|i: int, j: int|
        0 <= i < xs.len() && 0 <= j < ys.len() && cmp_bool(op, xs[i], ys[j])
}

/// The response of testing two enumerated boolean lists against an
/// operator, pair by pair.
pub open spec fn bool_pairs_response(op: CmpOp, xs: Seq<bool>, ys: Seq<bool>) -> TestResponse {
    resp_of_flags(bool_pairs_true(op, xs, ys), bool_pairs_true(neg_op(op), xs, ys))
}

/// The response of testing two boolean constraints against an operator.
pub open spec fn bool_op_response(op: CmpOp, a: StateS<bool>, b: StateS<bool>) -> TestResponse {
    if a is Failed || b is Failed {
        TestResponse::Failed
    } else if a is Unconstrained || b is Unconstrained {
        TestResponse::Sometimes
    } else {
        bool_pairs_response(op, a->Enumerated_0, b->Enumerated_0)
    }
}

/// The response of testing a boolean constraint for equality with one
/// candidate value.
pub open spec fn bool_test_response(s: StateS<bool>, v: bool) -> TestResponse {
    match s {
        StateS::Failed => TestResponse::Failed,
        StateS::Unconstrained => TestResponse::Sometimes,
        StateS::Enumerated(xs) => resp_of_flags(
            exists|i: int| 0 <= i < xs.len() && xs[i] == v,
            exists|i: int| 0 <= i < xs.len() && xs[i] != v,
        ),
    }
}

fn bool_row_flags(op: CmpOp, x: bool, ys: &Vec<bool>) -> (tf: (bool, bool))
    ensures
        tf.0 == exists|j: int| 0 <= j < ys@.len() && cmp_bool(op, x, ys@[j]),
        tf.1 == exists|j: int| 0 <= j < ys@.len() && cmp_bool(neg_op(op), x, ys@[j]),
{
    let mut t = false;
    let mut f = false;
    let mut j: usize = 0;
    while j < ys.len()
        invariant
            j <= ys@.len(),
            t == exists|k: int| 0 <= k < j && cmp_bool(op, x, ys@[k]),
            f == exists|k: int| 0 <= k < j && cmp_bool(neg_op(op), x, ys@[k]),
        decreases ys@.len() - j,
    {
        let y = ys[j];
        if cmp_bool_exec(op, x, y) {
            t = true;
        } else {
            proof {
                lemma_neg_op(op, bool_int(x), bool_int(y));
            }
            f = true;
        }
        j = j + 1;
    }
    (t, f)
}

impl ValConstr {
    /// A constraint that carries no information.
    pub fn failed() -> (r: ValConstr)
        ensures
            r@ == StateS::<bool>::Failed,
    {
        ValConstr(ValConstrState::Failed)
    }

    /// The lattice join of two boolean constraints.
    pub fn combine(&self, other: &ValConstr) -> (r: ValConstr)
        ensures
            r@ == combine_state(self@, other@),
    {
        match (&self.0, &other.0) {
            (ValConstrState::Failed, _) => ValConstr(ValConstrState::Failed),
            (_, ValConstrState::Failed) => ValConstr(ValConstrState::Failed),
            (ValConstrState::Unconstrained, _) => ValConstr(ValConstrState::Unconstrained),
            (_, ValConstrState::Unconstrained) => ValConstr(ValConstrState::Unconstrained),
            (ValConstrState::Enumerated(x), ValConstrState::Enumerated(y)) => {
                let mut v: Vec<bool> = Vec::new();
                let mut i: usize = 0;
                while i < x.len()
                    invariant
                        i <= x@.len(),
                        v@ =~= x@.take(i as int),
                    decreases x@.len() - i,
                {
                    let e = x[i];
                    v.push(e);
                    i = i + 1;
                }
                let mut j: usize = 0;
                while j < y.len()
                    invariant
                        j <= y@.len(),
                        v@ =~= x@ + y@.take(j as int),
                    decreases y@.len() - j,
                {
                    let e = y[j];
                    v.push(e);
                    j = j + 1;
                }
                proof {
                    assert(v@ =~= x@ + y@);
                }
                ValConstr(ValConstrState::Enumerated(v))
            },
        }
    }

    /// Test this constraint for equality with one candidate value.
    pub fn when_eq_to(&self, other: &bool) -> (r: TestResponse)
        ensures
            r == bool_test_response(self@, *other),
    {
        match &self.0 {
            ValConstrState::Failed => TestResponse::Failed,
            ValConstrState::Unconstrained => TestResponse::Sometimes,
            ValConstrState::Enumerated(xs) => {
                let mut t = false;
                let mut f = false;
                let mut i: usize = 0;
                while i < xs.len()
                    invariant
                        i <= xs@.len(),
                        t == exists|k: int| 0 <= k < i && xs@[k] == *other,
                        f == exists|k: int| 0 <= k < i && xs@[k] != *other,
                    decreases xs@.len() - i,
                {
                    let x = xs[i];
                    if x == *other {
                        t = true;
                    } else {
                        f = true;
                    }
                    i = i + 1;
                }
                proof {
                    assert(self@->Enumerated_0 =~= xs@);
                }
                match (t, f) {
                    (false, false) => TestResponse::Failed,
                    (true, false) => TestResponse::Always,
                    (false, true) => TestResponse::Never,
                    (true, true) => TestResponse::Sometimes,
                }
            },
        }
    }

    /// Test this constraint against another with the given operator.
    pub fn op_bool(&self, other: &ValConstr, op: CmpOp) -> (r: TestResponse)
        ensures
            r == bool_op_response(op, self@, other@),
    {
        match (&self.0, &other.0) {
            (ValConstrState::Failed, _) => TestResponse::Failed,
            (_, ValConstrState::Failed) => TestResponse::Failed,
            (ValConstrState::Unconstrained, _) => TestResponse::Sometimes,
            (_, ValConstrState::Unconstrained) => TestResponse::Sometimes,
            (ValConstrState::Enumerated(xs), ValConstrState::Enumerated(ys)) => {
                let mut t = false;
                let mut f = false;
                let mut i: usize = 0;
                while i < xs.len()
                    invariant
                        i <= xs@.len(),
                        t == exists|a: int, b: int|
                            0 <= a < i && 0 <= b < ys@.len() && cmp_bool(op, xs@[a], ys@[b]),
                        f == exists|a: int, b: int|
                            0 <= a < i && 0 <= b < ys@.len() && cmp_bool(
                                neg_op(op),
                                xs@[a],
                                ys@[b],
                            ),
                    decreases xs@.len() - i,
                {
                    let x = xs[i];
                    let (rt, rf) = bool_row_flags(op, x, ys);
                    t = t || rt;
                    f = f || rf;
                    i = i + 1;
                }
                match (t, f) {
                    (false, false) => TestResponse::Failed,
                    (true, false) => TestResponse::Always,
                    (false, true) => TestResponse::Never,
                    (true, true) => TestResponse::Sometimes,
                }
            },
        }
    }

    /// Equality test against another boolean constraint.
    pub fn eq(&self, other: &ValConstr) -> (r: TestResponse)
        ensures
            r == bool_op_response(CmpOp::Eq, self@, other@),
    {
        self.op_bool(other, CmpOp::Eq)
    }

    /// Inequality test against another boolean constraint.
    pub fn ne(&self, other: &ValConstr) -> (r: TestResponse)
        ensures
            r == bool_op_response(CmpOp::Ne, self@, other@),
    {
        self.op_bool(other, CmpOp::Ne)
    }
}


// ---------------------------------------------------------------------
// Ordered constraints
// ---------------------------------------------------------------------

/// One inclusive value range of an ordered constraint: a single value,
/// or everything between two bounds.
pub enum ValConstrRange {
    Exact(Num),
    MinInMaxIn(Num, Num),
}

/// Mathematical image of a [`ValConstrRange`].
pub enum RangeS {
    Exact(NumS),
    MinInMaxIn(NumS, NumS),
}

impl View for ValConstrRange {
    type V = RangeS;

    open spec fn view(&self) -> RangeS {
        match self {
            ValConstrRange::Exact(v) => RangeS::Exact(v@),
            ValConstrRange::MinInMaxIn(a, b) => RangeS::MinInMaxIn(a@, b@),
        }
    }
}

impl Clone for ValConstrRange {
    fn clone(&self) -> (r: Self)
        ensures
            r@ == self@,
    {
        match self {
            ValConstrRange::Exact(v) => ValConstrRange::Exact(v.clone()),
            ValConstrRange::MinInMaxIn(a, b) => ValConstrRange::MinInMaxIn(a.clone(), b.clone()),
        }
    }
}

/// The lower end of a range.
pub open spec fn range_lo(r: RangeS) -> NumS {
    match r {
        RangeS::Exact(v) => v,
        RangeS::MinInMaxIn(a, _) => a,
    }
}

/// The upper end of a range.
pub open spec fn range_hi(r: RangeS) -> NumS {
    match r {
        RangeS::Exact(v) => v,
        RangeS::MinInMaxIn(_, b) => b,
    }
}

/// Shorthand: the comparison succeeds and holds.
pub open spec fn num_holds(op: CmpOp, a: NumS, b: NumS) -> bool {
    num_cmp_spec(op, a, b) == Ok::<bool, ErrorType>(true)
}

/// A range is well formed when its ends are well formed values of one
/// kind in order.
pub open spec fn wf_range(r: RangeS) -> bool {
    match r {
        RangeS::Exact(v) => wf_num(v),
        RangeS::MinInMaxIn(a, b) => wf_num(a) && wf_num(b) && same_num_kind(a, b) && num_holds(
            CmpOp::Le,
            a,
            b,
        ),
    }
}

/// The kind of the values a range spans.
pub open spec fn range_kind(r: RangeS) -> NumKind {
    kind_of(range_lo(r))
}

/// Whether some value of range `x` and some value of range `y` satisfy
/// the operator, read off the ends of the two ranges: two ranges share a
/// value exactly when each starts no later than the other ends, some
/// pair differs unless both are the same single value, and the order
/// tests compare the appropriate extremes.
pub open spec fn pair_true(op: CmpOp, x: RangeS, y: RangeS) -> bool {
    match op {
        CmpOp::Eq => num_holds(CmpOp::Le, range_lo(x), range_hi(y)) && num_holds(
            CmpOp::Le,
            range_lo(y),
            range_hi(x),
        ),
        CmpOp::Ne => !(num_holds(CmpOp::Eq, range_lo(x), range_hi(x)) && num_holds(
            CmpOp::Eq,
            range_lo(y),
            range_hi(y),
        ) && num_holds(CmpOp::Eq, range_lo(x), range_lo(y))),
        CmpOp::Gt => num_holds(CmpOp::Lt, range_lo(y), range_hi(x)),
        CmpOp::Ge => num_holds(CmpOp::Le, range_lo(y), range_hi(x)),
        CmpOp::Lt => num_holds(CmpOp::Lt, range_lo(x), range_hi(y)),
        CmpOp::Le => num_holds(CmpOp::Le, range_lo(x), range_hi(y)),
    }
}

/// Whether a value sits inside a range; a comparison that fails (for a
/// value of another kind) counts as outside, as the containment test is
/// a filter, not a type check.
pub open spec fn range_contains(r: RangeS, v: NumS) -> bool {
    match r {
        RangeS::Exact(w) => num_holds(CmpOp::Eq, v, w),
        RangeS::MinInMaxIn(lo, hi) => num_holds(CmpOp::Ge, v, lo) && num_holds(CmpOp::Le, v, hi),
    }
}

/// Whether some pair of ranges drawn from the two lists can satisfy the
/// operator.
pub open spec fn ord_pairs_true(op: CmpOp, xs: Seq<RangeS>, ys: Seq<RangeS>) -> bool {
    exists|i: int, j: int|
        0 <= i < xs.len() && 0 <= j < ys.len() && pair_true(op, xs[i], ys[j])
}

/// The response of testing two enumerated range lists against an
/// operator.
pub open spec fn ord_pairs_response(op: CmpOp, xs: Seq<RangeS>, ys: Seq<RangeS>) -> TestResponse {
    resp_of_flags(ord_pairs_true(op, xs, ys), ord_pairs_true(neg_op(op), xs, ys))
}

/// The response of testing two ordered constraints against an operator.
pub open spec fn ord_op_response(op: CmpOp, a: StateS<RangeS>, b: StateS<RangeS>) -> TestResponse {
    if a is Failed || b is Failed {
        TestResponse::Failed
    } else if a is Unconstrained || b is Unconstrained {
        TestResponse::Sometimes
    } else {
        ord_pairs_response(op, a->Enumerated_0, b->Enumerated_0)
    }
}

/// All ranges of the list are well formed.
pub open spec fn wf_ranges(xs: Seq<RangeS>) -> bool {
    forall|i: int| 0 <= i < xs.len() ==> wf_range(#[trigger] xs[i])
}

/// All ranges across the two lists span one kind.
pub open spec fn ranges_one_kind(xs: Seq<RangeS>, ys: Seq<RangeS>) -> bool {
    forall|i: int, j: int|
        0 <= i < xs.len() && 0 <= j < ys.len() ==> same_num_kind(
            range_lo(#[trigger] xs[i]),
            range_lo(#[trigger] ys[j]),
        )
}

/// A well-formed ordered constraint state: every listed range is well
/// formed, and they all span one kind.
pub open spec fn wf_ord_state(s: StateS<RangeS>) -> bool {
    s is Enumerated ==> wf_ranges(s->Enumerated_0) && ranges_one_kind(
        s->Enumerated_0,
        s->Enumerated_0,
    )
}

/// Two ordered constraint states over one kind.
pub open spec fn ord_states_one_kind(a: StateS<RangeS>, b: StateS<RangeS>) -> bool {
    a is Enumerated && b is Enumerated ==> ranges_one_kind(a->Enumerated_0, b->Enumerated_0)
}

fn neg_op_exec(op: CmpOp) -> (r: CmpOp)
    ensures
        r == neg_op(op),
{
    match op {
        CmpOp::Eq => CmpOp::Ne,
        CmpOp::Ne => CmpOp::Eq,
        CmpOp::Gt => CmpOp::Le,
        CmpOp::Le => CmpOp::Gt,
        CmpOp::Lt => CmpOp::Ge,
        CmpOp::Ge => CmpOp::Lt,
    }
}

impl ValConstrRange {
    fn lo(&self) -> (r: &Num)
        ensures
            r@ == range_lo(self@),
    {
        match self {
            ValConstrRange::Exact(v) => v,
            ValConstrRange::MinInMaxIn(a, _) => a,
        }
    }

    fn hi(&self) -> (r: &Num)
        ensures
            r@ == range_hi(self@),
    {
        match self {
            ValConstrRange::Exact(v) => v,
            ValConstrRange::MinInMaxIn(_, b) => b,
        }
    }

    /// Whether a candidate value sits inside this range.
    pub fn test(&self, other: &Num) -> (r: bool)
        requires
            wf_range(self@),
            wf_num(other@),
        ensures
            r == range_contains(self@, other@),
    {
        match self {
            ValConstrRange::Exact(v) => match other.try_cmp(CmpOp::Eq, v) {
                Ok(b) => b,
                Err(_) => false,
            },
            ValConstrRange::MinInMaxIn(lo, hi) => {
                let a = match other.try_cmp(CmpOp::Ge, lo) {
                    Ok(b) => b,
                    Err(_) => false,
                };
                if !a {
                    return false;
                }
                match other.try_cmp(CmpOp::Le, hi) {
                    Ok(b) => b,
                    Err(_) => false,
                }
            },
        }
    }

    /// Whether some values of the two ranges satisfy the operator; an
    /// invalid-type failure when the ranges span different kinds.
    pub fn op_true(&self, op: CmpOp, other: &ValConstrRange) -> (r: Result<bool, ErrorType>)
        requires
            wf_range(self@),
            wf_range(other@),
        ensures
            same_num_kind(range_lo(self@), range_lo(other@)) ==> r == Ok::<bool, ErrorType>(
                pair_true(op, self@, other@),
            ),
            !same_num_kind(range_lo(self@), range_lo(other@)) ==> r == Err::<bool, ErrorType>(
                ErrorType::InvalidTypeReceived,
            ),
    {
        match op {
            CmpOp::Eq => {
                let a = self.lo().try_cmp(CmpOp::Le, other.hi())?;
                let b = other.lo().try_cmp(CmpOp::Le, self.hi())?;
                Ok(a && b)
            },
            CmpOp::Ne => {
                let a = self.lo().try_cmp(CmpOp::Eq, self.hi())?;
                let b = other.lo().try_cmp(CmpOp::Eq, other.hi())?;
                let c = self.lo().try_cmp(CmpOp::Eq, other.lo())?;
                Ok(!(a && b && c))
            },
            CmpOp::Gt => {
                let a = other.lo().try_cmp(CmpOp::Lt, self.hi())?;
                Ok(a)
            },
            CmpOp::Ge => {
                let a = other.lo().try_cmp(CmpOp::Le, self.hi())?;
                Ok(a)
            },
            CmpOp::Lt => {
                let a = self.lo().try_cmp(CmpOp::Lt, other.hi())?;
                Ok(a)
            },
            CmpOp::Le => {
                let a = self.lo().try_cmp(CmpOp::Le, other.hi())?;
                Ok(a)
            },
        }
    }

    /// Classify equality between two ranges.
    pub fn try_eq(&self, other: &ValConstrRange) -> (r: Result<TestResponse, ErrorType>)
        requires
            wf_range(self@),
            wf_range(other@),
        ensures
            same_num_kind(range_lo(self@), range_lo(other@)) ==> r == Ok::<
                TestResponse,
                ErrorType,
            >(resp_of_flags(pair_true(CmpOp::Eq, self@, other@), pair_true(CmpOp::Ne, self@, other@))),
            !same_num_kind(range_lo(self@), range_lo(other@)) ==> r == Err::<
                TestResponse,
                ErrorType,
            >(ErrorType::InvalidTypeReceived),
    {
        let t = self.op_true(CmpOp::Eq, other)?;
        let f = self.op_true(CmpOp::Ne, other)?;
        Ok(
            match (t, f) {
                (false, false) => TestResponse::Failed,
                (true, false) => TestResponse::Always,
                (false, true) => TestResponse::Never,
                (true, true) => TestResponse::Sometimes,
            },
        )
    }

    /// Classify inequality between two ranges.
    pub fn try_ne(&self, other: &ValConstrRange) -> (r: Result<TestResponse, ErrorType>)
        requires
            wf_range(self@),
            wf_range(other@),
        ensures
            same_num_kind(range_lo(self@), range_lo(other@)) ==> r == Ok::<
                TestResponse,
                ErrorType,
            >(resp_of_flags(pair_true(CmpOp::Ne, self@, other@), pair_true(CmpOp::Eq, self@, other@))),
            !same_num_kind(range_lo(self@), range_lo(other@)) ==> r == Err::<
                TestResponse,
                ErrorType,
            >(ErrorType::InvalidTypeReceived),
    {
        let t = self.op_true(CmpOp::Ne, other)?;
        let f = self.op_true(CmpOp::Eq, other)?;
        Ok(
            match (t, f) {
                (false, false) => TestResponse::Failed,
                (true, false) => TestResponse::Always,
                (false, true) => TestResponse::Never,
                (true, true) => TestResponse::Sometimes,
            },
        )
    }
}

/// A constraint over an ordered numeric kind, as a set of value ranges.
pub struct ValConstrOrd(pub ValConstrState<ValConstrRange>);

impl View for ValConstrOrd {
    type V = StateS<RangeS>;

    open spec fn view(&self) -> StateS<RangeS> {
        match &self.0 {
            ValConstrState::Failed => StateS::Failed,
            ValConstrState::Enumerated(v) => StateS::Enumerated(
                Seq::new(v@.len(), |i: int| v@[i]@),
            ),
            ValConstrState::Unconstrained => StateS::Unconstrained,
        }
    }
}

fn ord_row_flags(op: CmpOp, x: &ValConstrRange, ys: &Vec<ValConstrRange>) -> (tf: (bool, bool))
    requires
        wf_range(x@),
        forall|j: int| 0 <= j < ys@.len() ==> wf_range(#[trigger] ys@[j]@),
        forall|j: int|
            0 <= j < ys@.len() ==> same_num_kind(range_lo(x@), range_lo(#[trigger] ys@[j]@)),
    ensures
        tf.0 == exists|j: int| 0 <= j < ys@.len() && pair_true(op, x@, ys@[j]@),
        tf.1 == exists|j: int| 0 <= j < ys@.len() && pair_true(neg_op(op), x@, ys@[j]@),
{
    let mut t = false;
    let mut f = false;
    let mut j: usize = 0;
    let nop = neg_op_exec(op);
    while j < ys.len()
        invariant
            j <= ys@.len(),
            nop == neg_op(op),
            wf_range(x@),
            forall|k: int| 0 <= k < ys@.len() ==> wf_range(#[trigger] ys@[k]@),
            forall|k: int|
                0 <= k < ys@.len() ==> same_num_kind(range_lo(x@), range_lo(#[trigger] ys@[k]@)),
            t == exists|k: int| 0 <= k < j && pair_true(op, x@, ys@[k]@),
            f == exists|k: int| 0 <= k < j && pair_true(neg_op(op), x@, ys@[k]@),
        decreases ys@.len() - j,
    {
        let y = &ys[j];
        // The kinds agree, so neither comparison can refuse its operands.
        let rt = match x.op_true(op, y) {
            Ok(b) => b,
            Err(_) => {
                proof {
                    assert(false);
                }
                false
            },
        };
        let rf = match x.op_true(nop, y) {
            Ok(b) => b,
            Err(_) => {
                proof {
                    assert(false);
                }
                false
            },
        };
        t = t || rt;
        f = f || rf;
        j = j + 1;
    }
    (t, f)
}

impl ValConstrOrd {
    /// A constraint that carries no information.
    pub fn failed() -> (r: ValConstrOrd)
        ensures
            r@ == StateS::<RangeS>::Failed,
    {
        ValConstrOrd(ValConstrState::Failed)
    }

    /// The lattice join of two ordered constraints.
    pub fn combine(&self, other: &ValConstrOrd) -> (r: ValConstrOrd)
        ensures
            r@ == combine_state(self@, other@),
    {
        match (&self.0, &other.0) {
            (ValConstrState::Failed, _) => ValConstrOrd(ValConstrState::Failed),
            (_, ValConstrState::Failed) => ValConstrOrd(ValConstrState::Failed),
            (ValConstrState::Unconstrained, _) => ValConstrOrd(ValConstrState::Unconstrained),
            (_, ValConstrState::Unconstrained) => ValConstrOrd(ValConstrState::Unconstrained),
            (ValConstrState::Enumerated(x), ValConstrState::Enumerated(y)) => {
                let mut v: Vec<ValConstrRange> = Vec::new();
                let mut i: usize = 0;
                while i < x.len()
                    invariant
                        i <= x@.len(),
                        v@.len() == i as int,
                        forall|k: int| 0 <= k < i ==> v@[k]@ == x@[k]@,
                    decreases x@.len() - i,
                {
                    let e = x[i].clone();
                    v.push(e);
                    i = i + 1;
                }
                let mut j: usize = 0;
                while j < y.len()
                    invariant
                        j <= y@.len(),
                        v@.len() == x@.len() + j as int,
                        forall|k: int| 0 <= k < x@.len() ==> v@[k]@ == x@[k]@,
                        forall|k: int| 0 <= k < j ==> v@[x@.len() + k]@ == y@[k]@,
                    decreases y@.len() - j,
                {
                    let e = y[j].clone();
                    v.push(e);
                    j = j + 1;
                }
                let r = ValConstrOrd(ValConstrState::Enumerated(v));
                proof {
                    assert(r@->Enumerated_0 =~= self@->Enumerated_0 + other@->Enumerated_0);
                }
                r
            },
        }
    }

    /// Test this constraint against a single candidate value: each range
    /// is tested as if it were compared with the one-point range of the
    /// candidate.
    pub fn op_bool(&self, value: &Num, op: CmpOp) -> (r: TestResponse)
        requires
            wf_ord_state(self@),
            wf_num(value@),
            self@ is Enumerated ==> forall|i: int|
                0 <= i < self@->Enumerated_0.len() ==> same_num_kind(
                    range_lo(#[trigger] self@->Enumerated_0[i]),
                    value@,
                ),
        ensures
            r == ord_op_response(op, self@, StateS::Enumerated(seq![RangeS::Exact(value@)])),
    {
        let one = ValConstrRange::Exact(value.clone());
        let mut ys: Vec<ValConstrRange> = Vec::new();
        ys.push(one);
        let other = ValConstrOrd(ValConstrState::Enumerated(ys));
        proof {
            assert(other@->Enumerated_0 =~= seq![RangeS::Exact(value@)]);
        }
        self.op_bool_other(&other, op)
    }

    /// Test this constraint against another with the given operator,
    /// range pair by range pair.
    pub fn op_bool_other(&self, other: &ValConstrOrd, op: CmpOp) -> (r: TestResponse)
        requires
            wf_ord_state(self@),
            wf_ord_state(other@),
            ord_states_one_kind(self@, other@),
        ensures
            r == ord_op_response(op, self@, other@),
    {
        match (&self.0, &other.0) {
            (ValConstrState::Failed, _) => TestResponse::Failed,
            (_, ValConstrState::Failed) => TestResponse::Failed,
            (ValConstrState::Unconstrained, _) => TestResponse::Sometimes,
            (_, ValConstrState::Unconstrained) => TestResponse::Sometimes,
            (ValConstrState::Enumerated(xs), ValConstrState::Enumerated(ys)) => {
                let ghost xv = self@->Enumerated_0;
                let ghost yv = other@->Enumerated_0;
                proof {
                    assert(xv =~= Seq::new(xs@.len(), |k: int| xs@[k]@));
                    assert(yv =~= Seq::new(ys@.len(), |k: int| ys@[k]@));
                    assert forall|k: int| 0 <= k < xs@.len() implies wf_range(
                        #[trigger] xs@[k]@,
                    ) by {
                        assert(xv[k] == xs@[k]@);
                    }
                    assert forall|k: int| 0 <= k < ys@.len() implies wf_range(
                        #[trigger] ys@[k]@,
                    ) by {
                        assert(yv[k] == ys@[k]@);
                    }
                    assert forall|a: int, b: int|
                        0 <= a < xs@.len() && 0 <= b < ys@.len() implies same_num_kind(
                        range_lo(#[trigger] xs@[a]@),
                        range_lo(#[trigger] ys@[b]@),
                    ) by {
                        assert(xv[a] == xs@[a]@);
                        assert(yv[b] == ys@[b]@);
                    }
                }
                let mut t = false;
                let mut f = false;
                let mut i: usize = 0;
                while i < xs.len()
                    invariant
                        i <= xs@.len(),
                        forall|k: int| 0 <= k < xs@.len() ==> wf_range(#[trigger] xs@[k]@),
                        forall|k: int| 0 <= k < ys@.len() ==> wf_range(#[trigger] ys@[k]@),
                        forall|a: int, b: int|
                            0 <= a < xs@.len() && 0 <= b < ys@.len() ==> same_num_kind(
                                range_lo(#[trigger] xs@[a]@),
                                range_lo(#[trigger] ys@[b]@),
                            ),
                        t == exists|a: int, b: int|
                            0 <= a < i && 0 <= b < ys@.len() && pair_true(op, xs@[a]@, ys@[b]@),
                        f == exists|a: int, b: int|
                            0 <= a < i && 0 <= b < ys@.len() && pair_true(
                                neg_op(op),
                                xs@[a]@,
                                ys@[b]@,
                            ),
                    decreases xs@.len() - i,
                {
                    let x = &xs[i];
                    let (rt, rf) = ord_row_flags(op, x, ys);
                    t = t || rt;
                    f = f || rf;
                    i = i + 1;
                }
                proof {
                    assert forall|a: int, b: int|
                        0 <= a < xs@.len() && 0 <= b < ys@.len() implies (pair_true(
                        op,
                        xv[a],
                        yv[b],
                    ) == pair_true(op, xs@[a]@, ys@[b]@) && pair_true(neg_op(op), xv[a], yv[b])
                        == pair_true(neg_op(op), xs@[a]@, ys@[b]@)) by {
                        assert(xv[a] == xs@[a]@);
                        assert(yv[b] == ys@[b]@);
                    }
                    if t {
                        let (a, b) = choose|a: int, b: int|
                            0 <= a < xs@.len() && 0 <= b < ys@.len() && pair_true(
                                op,
                                xs@[a]@,
                                ys@[b]@,
                            );
                        assert(pair_true(op, xv[a], yv[b]));
                        assert(ord_pairs_true(op, xv, yv));
                    } else {
                        assert forall|a: int, b: int|
                            0 <= a < xv.len() && 0 <= b < yv.len() implies !pair_true(
                            op,
                            xv[a],
                            yv[b],
                        ) by {
                            assert(!pair_true(op, xs@[a]@, ys@[b]@));
                        }
                    }
                    if f {
                        let (a, b) = choose|a: int, b: int|
                            0 <= a < xs@.len() && 0 <= b < ys@.len() && pair_true(
                                neg_op(op),
                                xs@[a]@,
                                ys@[b]@,
                            );
                        assert(pair_true(neg_op(op), xv[a], yv[b]));
                        assert(ord_pairs_true(neg_op(op), xv, yv));
                    } else {
                        assert forall|a: int, b: int|
                            0 <= a < xv.len() && 0 <= b < yv.len() implies !pair_true(
                            neg_op(op),
                            xv[a],
                            yv[b],
                        ) by {
                            assert(!pair_true(neg_op(op), xs@[a]@, ys@[b]@));
                        }
                    }
                    assert(t == ord_pairs_true(op, xv, yv));
                    assert(f == ord_pairs_true(neg_op(op), xv, yv));
                }
                match (t, f) {
                    (false, false) => TestResponse::Failed,
                    (true, false) => TestResponse::Always,
                    (false, true) => TestResponse::Never,
                    (true, true) => TestResponse::Sometimes,
                }
            },
        }
    }

    /// Equality test against another ordered constraint.
    pub fn eq(&self, other: &ValConstrOrd) -> (r: TestResponse)
        requires
            wf_ord_state(self@),
            wf_ord_state(other@),
            ord_states_one_kind(self@, other@),
        ensures
            r == ord_op_response(CmpOp::Eq, self@, other@),
    {
        self.op_bool_other(other, CmpOp::Eq)
    }

    /// Inequality test against another ordered constraint.
    pub fn ne(&self, other: &ValConstrOrd) -> (r: TestResponse)
        requires
            wf_ord_state(self@),
            wf_ord_state(other@),
            ord_states_one_kind(self@, other@),
        ensures
            r == ord_op_response(CmpOp::Ne, self@, other@),
    {
        self.op_bool_other(other, CmpOp::Ne)
    }
}


// ---------------------------------------------------------------------
// Arithmetic over ordered constraints
// ---------------------------------------------------------------------

/// How much of a pairwise arithmetic evaluation broke its bounds.
#[derive(Clone, Copy, PartialEq, Eq, Structural, Debug)]
pub enum BreakReport {
    /// No pair broke a bound.
    Unbroken,
    /// Some pairs broke a bound and others did not.
    PartlyBroken,
    /// Every pair broke a bound.
    FullyBroken,
}

/// Whether applying the operator to the single values of two exact
/// ranges fails.
pub open spec fn pair_broke(op: ArithOp, x: RangeS, y: RangeS) -> bool {
    num_arith_spec(op, range_lo(x), range_lo(y)) is Err
}

/// Whether a range list holds any bounded (non-exact) range.
pub open spec fn any_bounded(xs: Seq<RangeS>) -> bool {
    exists|i: int| 0 <= i < xs.len() && xs[i] is MinInMaxIn
}

/// The results of applying the operator between one exact range and each
/// of a list of exact ranges, in order.
pub open spec fn arith_row(op: ArithOp, x: RangeS, ys: Seq<RangeS>) -> Seq<RangeS>
    decreases ys,
{
    if ys.len() == 0 {
        Seq::empty()
    } else {
        arith_row(op, x, ys.drop_last()).push(
            RangeS::Exact(num_arith_spec(op, range_lo(x), range_lo(ys.last()))->Ok_0),
        )
    }
}

/// The results of applying the operator to every pair drawn from the
/// two lists, row by row.
pub open spec fn arith_rows(op: ArithOp, xs: Seq<RangeS>, ys: Seq<RangeS>) -> Seq<RangeS>
    decreases xs,
{
    if xs.len() == 0 {
        Seq::empty()
    } else {
        arith_rows(op, xs.drop_last(), ys) + arith_row(op, xs.last(), ys)
    }
}

pub proof fn lemma_arith_row(op: ArithOp, x: RangeS, ys: Seq<RangeS>)
    ensures
        arith_row(op, x, ys).len() == ys.len(),
        forall|j: int|
            0 <= j < ys.len() ==> arith_row(op, x, ys)[j] == RangeS::Exact(
                num_arith_spec(op, range_lo(x), range_lo(#[trigger] ys[j]))->Ok_0,
            ),
    decreases ys,
{
    if ys.len() > 0 {
        lemma_arith_row(op, x, ys.drop_last());
        assert forall|j: int|
            0 <= j < ys.len() implies arith_row(op, x, ys)[j] == RangeS::Exact(
            num_arith_spec(op, range_lo(x), range_lo(#[trigger] ys[j]))->Ok_0,
        ) by {
            if j < ys.len() - 1 {
                assert(ys.drop_last()[j] == ys[j]);
            }
        }
    }
}

/// When the kinds of two numeric values agree and their arithmetic
/// succeeds, the result is of that same kind.
pub proof fn lemma_arith_kind(op: ArithOp, a: NumS, b: NumS)
    requires
        same_num_kind(a, b),
        num_arith_spec(op, a, b) is Ok,
    ensures
        same_num_kind(num_arith_spec(op, a, b)->Ok_0, a),
        wf_num(num_arith_spec(op, a, b)->Ok_0),
{
}

/// Whether an arithmetic evaluation of two constraints loses its
/// information: a bounded range on either side, or some broken pair.
pub open spec fn ord_arith_state(op: ArithOp, a: StateS<RangeS>, b: StateS<RangeS>) -> StateS<
    RangeS,
> {
    if a is Failed || b is Failed {
        StateS::Failed
    } else if a is Unconstrained || b is Unconstrained {
        StateS::Unconstrained
    } else {
        let xs = a->Enumerated_0;
        let ys = b->Enumerated_0;
        if any_bounded(xs) || any_bounded(ys) {
            StateS::Failed
        } else if exists|i: int, j: int|
            0 <= i < xs.len() && 0 <= j < ys.len() && pair_broke(op, xs[i], ys[j]) {
            StateS::Failed
        } else {
            StateS::Enumerated(arith_rows(op, xs, ys))
        }
    }
}

/// How much of the evaluation broke a bound, for the diagnostic.
pub open spec fn ord_arith_break(op: ArithOp, a: StateS<RangeS>, b: StateS<RangeS>) -> BreakReport {
    if !(a is Enumerated) || !(b is Enumerated) {
        BreakReport::Unbroken
    } else {
        let xs = a->Enumerated_0;
        let ys = b->Enumerated_0;
        if any_bounded(xs) || any_bounded(ys) {
            BreakReport::Unbroken
        } else if xs.len() > 0 && ys.len() > 0 && (forall|i: int, j: int|
            0 <= i < xs.len() && 0 <= j < ys.len() ==> pair_broke(op, #[trigger] xs[i], #[trigger] ys[j])) {
            BreakReport::FullyBroken
        } else if exists|i: int, j: int|
            0 <= i < xs.len() && 0 <= j < ys.len() && pair_broke(op, xs[i], ys[j]) {
            BreakReport::PartlyBroken
        } else {
            BreakReport::Unbroken
        }
    }
}

fn any_bounded_exec(xs: &Vec<ValConstrRange>) -> (r: bool)
    ensures
        r == any_bounded(Seq::new(xs@.len(), |k: int| xs@[k]@)),
{
    let ghost xv = Seq::new(xs@.len(), |k: int| xs@[k]@);
    let mut i: usize = 0;
    let mut found = false;
    while i < xs.len()
        invariant
            i <= xs@.len(),
            xv =~= Seq::new(xs@.len(), |k: int| xs@[k]@),
            found == exists|k: int| 0 <= k < i && xv[k] is MinInMaxIn,
        decreases xs@.len() - i,
    {
        proof {
            assert(xv[i as int] == xs@[i as int]@);
        }
        if let ValConstrRange::MinInMaxIn(_, _) = &xs[i] {
            found = true;
        }
        i = i + 1;
    }
    found
}

fn arith_row_exec(op: ArithOp, x: &ValConstrRange, ys: &Vec<ValConstrRange>) -> (out: (
    Vec<ValConstrRange>,
    bool,
    bool,
))
    requires
        wf_range(x@),
        x@ is Exact,
        forall|j: int| 0 <= j < ys@.len() ==> wf_range(#[trigger] ys@[j]@),
        forall|j: int| 0 <= j < ys@.len() ==> (#[trigger] ys@[j]@) is Exact,
        forall|j: int|
            0 <= j < ys@.len() ==> same_num_kind(range_lo(x@), range_lo(#[trigger] ys@[j]@)),
    ensures
        out.1 == exists|j: int| 0 <= j < ys@.len() && pair_broke(op, x@, ys@[j]@),
        out.2 == exists|j: int| 0 <= j < ys@.len() && !pair_broke(op, x@, ys@[j]@),
        !out.1 ==> out.0@.len() == ys@.len() && forall|j: int|
            0 <= j < ys@.len() ==> (#[trigger] out.0@[j]@) == RangeS::Exact(
                num_arith_spec(op, range_lo(x@), range_lo(ys@[j]@))->Ok_0,
            ) && wf_range(out.0@[j]@) && out.0@[j]@ is Exact && same_num_kind(
                range_lo(out.0@[j]@),
                range_lo(x@),
            ),
{
    let mut out: Vec<ValConstrRange> = Vec::new();
    let mut broke = false;
    let mut ok = false;
    let mut j: usize = 0;
    let xval = x.lo();
    while j < ys.len()
        invariant
            j <= ys@.len(),
            wf_range(x@),
            x@ is Exact,
            xval@ == range_lo(x@),
            wf_num(xval@),
            forall|k: int| 0 <= k < ys@.len() ==> wf_range(#[trigger] ys@[k]@),
            forall|k: int| 0 <= k < ys@.len() ==> (#[trigger] ys@[k]@) is Exact,
            forall|k: int|
                0 <= k < ys@.len() ==> same_num_kind(range_lo(x@), range_lo(#[trigger] ys@[k]@)),
            broke == exists|k: int| 0 <= k < j && pair_broke(op, x@, ys@[k]@),
            ok == exists|k: int| 0 <= k < j && !pair_broke(op, x@, ys@[k]@),
            !broke ==> out@.len() == j as int && forall|k: int|
                0 <= k < j ==> (#[trigger] out@[k]@) == RangeS::Exact(
                    num_arith_spec(op, range_lo(x@), range_lo(ys@[k]@))->Ok_0,
                ) && wf_range(out@[k]@) && out@[k]@ is Exact && same_num_kind(
                    range_lo(out@[k]@),
                    range_lo(x@),
                ),
        decreases ys@.len() - j,
    {
        let y = &ys[j];
        let yval = y.lo();
        match xval.try_arith(op, yval) {
            Ok(v) => {
                proof {
                    lemma_arith_kind(op, xval@, yval@);
                }
                ok = true;
                out.push(ValConstrRange::Exact(v));
            },
            Err(_) => {
                broke = true;
            },
        }
        j = j + 1;
    }
    (out, broke, ok)
}

impl ValConstrOrd {
    /// Apply an arithmetic operator between two constraints, pair by
    /// pair. Returns the resulting constraint and how much of the
    /// evaluation broke its bounds: all information is lost when any
    /// bound broke (or a bounded range was involved), and the report
    /// lets the caller queue a diagnostic.
    pub fn arith(&self, op: ArithOp, other: &ValConstrOrd) -> (r: (ValConstrOrd, BreakReport))
        requires
            wf_ord_state(self@),
            wf_ord_state(other@),
            ord_states_one_kind(self@, other@),
        ensures
            r.0@ == ord_arith_state(op, self@, other@),
            r.1 == ord_arith_break(op, self@, other@),
            wf_ord_state(r.0@),
            ord_states_one_kind(self@, r.0@),
    {
        match (&self.0, &other.0) {
            (ValConstrState::Failed, _) => (ValConstrOrd(ValConstrState::Failed), BreakReport::Unbroken),
            (_, ValConstrState::Failed) => (ValConstrOrd(ValConstrState::Failed), BreakReport::Unbroken),
            (ValConstrState::Unconstrained, _) => (
                ValConstrOrd(ValConstrState::Unconstrained),
                BreakReport::Unbroken,
            ),
            (_, ValConstrState::Unconstrained) => (
                ValConstrOrd(ValConstrState::Unconstrained),
                BreakReport::Unbroken,
            ),
            (ValConstrState::Enumerated(xs), ValConstrState::Enumerated(ys)) => {
                let ghost xv = self@->Enumerated_0;
                let ghost yv = other@->Enumerated_0;
                proof {
                    assert(xv =~= Seq::new(xs@.len(), |k: int| xs@[k]@));
                    assert(yv =~= Seq::new(ys@.len(), |k: int| ys@[k]@));
                    assert forall|k: int| 0 <= k < xs@.len() implies wf_range(
                        #[trigger] xs@[k]@,
                    ) by {
                        assert(xv[k] == xs@[k]@);
                    }
                    assert forall|k: int| 0 <= k < ys@.len() implies wf_range(
                        #[trigger] ys@[k]@,
                    ) by {
                        assert(yv[k] == ys@[k]@);
                    }
                    assert forall|a: int, b: int|
                        0 <= a < xs@.len() && 0 <= b < ys@.len() implies same_num_kind(
                        range_lo(#[trigger] xs@[a]@),
                        range_lo(#[trigger] ys@[b]@),
                    ) by {
                        assert(xv[a] == xs@[a]@);
                        assert(yv[b] == ys@[b]@);
                    }
                    assert forall|a: int, b: int|
                        0 <= a < xs@.len() && 0 <= b < xs@.len() implies same_num_kind(
                        range_lo(#[trigger] xs@[a]@),
                        range_lo(#[trigger] xs@[b]@),
                    ) by {
                        assert(xv[a] == xs@[a]@);
                        assert(xv[b] == xs@[b]@);
                    }
                }
                if any_bounded_exec(xs) || any_bounded_exec(ys) {
                    proof {
                        assert(any_bounded(xv) || any_bounded(yv));
                    }
                    return (ValConstrOrd(ValConstrState::Failed), BreakReport::Unbroken);
                }
                proof {
                    assert(!any_bounded(xv) && !any_bounded(yv));
                    assert forall|k: int| 0 <= k < xs@.len() implies (#[trigger] xs@[k]@)
                        is Exact by {
                        assert(xv[k] == xs@[k]@);
                    }
                    assert forall|k: int| 0 <= k < ys@.len() implies (#[trigger] ys@[k]@)
                        is Exact by {
                        assert(yv[k] == ys@[k]@);
                    }
                }
                let mut acc: Vec<ValConstrRange> = Vec::new();
                let mut broke = false;
                let mut ok = false;
                let mut i: usize = 0;
                while i < xs.len()
                    invariant
                        i <= xs@.len(),
                        xv =~= Seq::new(xs@.len(), |k: int| xs@[k]@),
                        yv =~= Seq::new(ys@.len(), |k: int| ys@[k]@),
                        forall|k: int| 0 <= k < xs@.len() ==> wf_range(#[trigger] xs@[k]@),
                        forall|k: int| 0 <= k < ys@.len() ==> wf_range(#[trigger] ys@[k]@),
                        forall|k: int| 0 <= k < xs@.len() ==> (#[trigger] xs@[k]@) is Exact,
                        forall|k: int| 0 <= k < ys@.len() ==> (#[trigger] ys@[k]@) is Exact,
                        forall|a: int, b: int|
                            0 <= a < xs@.len() && 0 <= b < ys@.len() ==> same_num_kind(
                                range_lo(#[trigger] xs@[a]@),
                                range_lo(#[trigger] ys@[b]@),
                            ),
                        forall|a: int, b: int|
                            0 <= a < xs@.len() && 0 <= b < xs@.len() ==> same_num_kind(
                                range_lo(#[trigger] xs@[a]@),
                                range_lo(#[trigger] xs@[b]@),
                            ),
                        broke == exists|a: int, b: int|
                            0 <= a < i && 0 <= b < ys@.len() && pair_broke(op, xs@[a]@, ys@[b]@),
                        ok == exists|a: int, b: int|
                            0 <= a < i && 0 <= b < ys@.len() && !pair_broke(op, xs@[a]@, ys@[b]@),
                        !broke ==> Seq::new(acc@.len(), |k: int| acc@[k]@) =~= arith_rows(
                            op,
                            xv.take(i as int),
                            yv,
                        ),
                        forall|k: int|
                            0 <= k < acc@.len() ==> wf_range(#[trigger] acc@[k]@) && (acc@[k]@)
                                is Exact,
                        i > 0 ==> forall|k: int|
                            0 <= k < acc@.len() ==> same_num_kind(
                                range_lo(#[trigger] acc@[k]@),
                                range_lo(xs@[0]@),
                            ),
                        acc@.len() > 0 ==> i > 0,
                    decreases xs@.len() - i,
                {
                    let ghost i0 = i as int;
                    let ghost old_views = Seq::new(acc@.len(), |k: int| acc@[k]@);
                    let ghost old_acc = acc@;
                    proof {
                        assert(xv[i0] == xs@[i0]@);
                        assert(!broke ==> old_views =~= arith_rows(op, xv.take(i0), yv));
                    }
                    let x = &xs[i];
                    let (row, rbroke, rok) = arith_row_exec(op, x, ys);
                    let ghost old_broke = broke;
                    broke = broke || rbroke;
                    ok = ok || rok;
                    if !rbroke {
                        let mut m: usize = 0;
                        while m < row.len()
                            invariant
                                m <= row@.len(),
                                acc@.len() == old_acc.len() + m as int,
                                forall|k: int| 0 <= k < old_acc.len() ==> acc@[k] == old_acc[k],
                                forall|k: int|
                                    0 <= k < m ==> (#[trigger] acc@[old_acc.len() + k]@)
                                        == row@[k]@,
                            decreases row@.len() - m,
                        {
                            let e = row[m].clone();
                            acc.push(e);
                            m = m + 1;
                        }
                    }
                    i = i + 1;
                    proof {
                        lemma_arith_row(op, xv[i0], yv);
                        assert forall|b: int| 0 <= b < yv.len() implies #[trigger] yv[b]
                            == ys@[b]@ by {}
                        if rbroke {
                            let b = choose|j: int|
                                0 <= j < ys@.len() && pair_broke(op, xs@[i0]@, ys@[j]@);
                            assert(pair_broke(op, xs@[i0]@, ys@[b]@));
                        }
                        if rok {
                            let b = choose|j: int|
                                0 <= j < ys@.len() && !pair_broke(op, xs@[i0]@, ys@[j]@);
                            assert(!pair_broke(op, xs@[i0]@, ys@[b]@));
                        }
                        assert forall|k: int|
                            0 <= k < acc@.len() implies wf_range(#[trigger] acc@[k]@) && (
                        acc@[k]@) is Exact && same_num_kind(
                            range_lo(acc@[k]@),
                            range_lo(xs@[0]@),
                        ) by {
                            if k < old_acc.len() {
                                assert(acc@[k] == old_acc[k]);
                            } else {
                                let k2 = k - old_acc.len();
                                assert(acc@[old_acc.len() + k2]@ == row@[k2]@);
                                assert(acc@[k]@ == row@[k - old_acc.len()]@);
                                assert(same_num_kind(range_lo(row@[k - old_acc.len()]@), range_lo(xs@[i0]@)));
                                assert(same_num_kind(range_lo(xs@[i0]@), range_lo(xs@[0]@)));
                            }
                        }
                        if !broke {
                            assert(!rbroke && !old_broke);
                            let rowv = arith_row(op, xv[i0], yv);
                            let new_views = Seq::new(acc@.len(), |k: int| acc@[k]@);
                            assert(row@.len() == yv.len());
                            assert forall|k: int| 0 <= k < rowv.len() implies rowv[k]
                                == row@[k]@ by {
                                assert(yv[k] == ys@[k]@);
                                assert(xv[i0] == xs@[i0]@);
                            }
                            assert(xv.take(i as int).drop_last() =~= xv.take(i0));
                            assert(xv.take(i as int).last() == xv[i0]);
                            assert(arith_rows(op, xv.take(i as int), yv) == arith_rows(
                                op,
                                xv.take(i0),
                                yv,
                            ) + rowv);
                            assert forall|k: int|
                                0 <= k < acc@.len() implies new_views[k] == (old_views + rowv)[
                            k] by {
                                if k >= old_acc.len() {
                                    let k2 = k - old_acc.len();
                                    assert(acc@[old_acc.len() + k2]@ == row@[k2]@);
                                } else {
                                    assert(acc@[k] == old_acc[k]);
                                }
                            }
                            assert(new_views =~= old_views + rowv);
                            assert(new_views =~= arith_rows(op, xv.take(i as int), yv));
                        }
                    }
                }
                proof {
                    assert(xv.take(i as int) =~= xv);
                    assert forall|a: int, b: int|
                        0 <= a < xv.len() && 0 <= b < yv.len() implies (pair_broke(
                        op,
                        xv[a],
                        yv[b],
                    ) == pair_broke(op, xs@[a]@, ys@[b]@)) by {
                        assert(xv[a] == xs@[a]@);
                        assert(yv[b] == ys@[b]@);
                    }
                    if broke {
                        let (a, b) = choose|a: int, b: int|
                            0 <= a < xs@.len() && 0 <= b < ys@.len() && pair_broke(
                                op,
                                xs@[a]@,
                                ys@[b]@,
                            );
                        assert(pair_broke(op, xv[a], yv[b]));
                    } else {
                        assert forall|a: int, b: int|
                            0 <= a < xv.len() && 0 <= b < yv.len() implies !pair_broke(
                            op,
                            xv[a],
                            yv[b],
                        ) by {
                            assert(!pair_broke(op, xs@[a]@, ys@[b]@));
                        }
                    }
                    if ok {
                        let (a, b) = choose|a: int, b: int|
                            0 <= a < xs@.len() && 0 <= b < ys@.len() && !pair_broke(
                                op,
                                xs@[a]@,
                                ys@[b]@,
                            );
                        assert(!pair_broke(op, xv[a], yv[b]));
                    } else {
                        assert forall|a: int, b: int|
                            0 <= a < xv.len() && 0 <= b < yv.len() implies pair_broke(
                            op,
                            xv[a],
                            yv[b],
                        ) by {
                            assert(pair_broke(op, xs@[a]@, ys@[b]@));
                        }
                    }
                }
                if broke {
                    let report = if ok {
                        BreakReport::PartlyBroken
                    } else {
                        BreakReport::FullyBroken
                    };
                    (ValConstrOrd(ValConstrState::Failed), report)
                } else {
                    let r = ValConstrOrd(ValConstrState::Enumerated(acc));
                    proof {
                        assert(r@->Enumerated_0 =~= arith_rows(op, xv, yv));
                    }
                    (r, BreakReport::Unbroken)
                }
            },
        }
    }
}

} // verus!
