//! The verifier: a two-pass walk over a parsed module.
//!
//! The first pass registers every top-level declaration, binding names
//! before any body is checked so that forward and mutual references
//! resolve; it also resolves the program's single entry point, keeping
//! the first `#[entry]` header and reporting every later one. The second
//! pass checks each function body in a fresh child scope named after the
//! function. Every expression evaluates to a [`Value`]; conditional
//! expressions classify each condition (always, sometimes, or never
//! true), warn about branches that are statically dead, and unify the
//! types of the reachable branches under the constraint lattice.
//!
//! All state lives in an explicit [`VerificationContext`] constructed
//! once per compilation: the scope stack, the append-only note queue,
//! and the resolved entry point. Every operation of the walk is
//! specified against the interpretation functions in this file
//! (`verify_expr_s` and friends), which say exactly which notes are
//! queued, which symbols are defined, and which value results, for every
//! input.

use vstd::prelude::*;

use crate::ast::{
    Range, Program, Declaration, DeclarationHeader, DeclarationHeaderType, DeclarationType,
    Statement, StatementType, Expression, ExpressionType, Atom, AtomType, Literal, LiteralType,
    Block, wf_program, wf_declaration, wf_expression, wf_atom, wf_statement, wf_statements,
    wf_block, wf_literal, wf_if_clauses,
};
use crate::notes::{
    NoteOccurance, WarnType, ErrorType, NoteType, NoteDetail, NoteDetailS, NoteS, CompilationNote,
    note_one, note_two,
};
use crate::num::{NumS, DecS, big_from_digits, digits_be_value, Num};
use crate::num_fixed::{CmpOp, ArithOp};
use crate::constr::{
    TestResponse, StateS, RangeS, ValConstr, ValConstrOrd, ValConstrState, ValConstrRange,
    BreakReport, bool_test_response,
};
use crate::value::{
    Value, ValueType, ValueS, ValueTypeS, wf_value, matches_type_s, combine_value_s, value_cmp_s,
    value_arith_s, type_def_s, lemma_combine_value_wf,
};
use crate::scope::{
    Scope, ScopeS, ScopeArena, ScopeGuard, Symbol, sym_lookup_s, lookup_s, close_s, pop_closed_s,
    wf_arena, path_names_s, guard_valid,
};

verus! {

/// Information about the program gathered during registration: the
/// resolved entry point, as the range of its header and the qualified
/// path of the entry function.
pub struct ProgramInfo {
    pub entry: Option<(Range, Vec<String>)>,
}

/// Mathematical image of a [`VerificationContext`].
#[verifier::ext_equal]
pub struct CtxS {
    pub scopes: Seq<ScopeS>,
    pub notes: Seq<NoteS>,
    pub entry: Option<(Range, Seq<Seq<char>>)>,
}

/// The state of one compilation: the scope stack, the append-only note
/// queue, and what registration has resolved so far. Constructed once
/// per compilation and threaded through every call.
pub struct VerificationContext {
    pub scopes: ScopeArena,
    pub notes: Vec<CompilationNote>,
    pub info: ProgramInfo,
}

impl View for VerificationContext {
    type V = CtxS;

    open spec fn view(&self) -> CtxS {
        CtxS {
            scopes: self.scopes@,
            notes: Seq::new(self.notes@.len(), |i: int| self.notes@[i]@),
            entry: (match self.info.entry {
                Option::Some((r, p)) => Option::Some(
                    (r, Seq::new(p@.len(), |i: int| p@[i]@)),
                ),
                Option::None => Option::None,
            }),
        }
    }
}

/// The context invariant: the scope stack is well formed.
pub open spec fn wf_ctx(c: CtxS) -> bool {
    wf_arena(c.scopes)
}

/// A context with one more note queued.
pub open spec fn push_note_s(c: CtxS, n: NoteS) -> CtxS {
    CtxS { scopes: c.scopes, notes: c.notes.push(n), entry: c.entry }
}

/// A context whose innermost scope has one more symbol.
pub open spec fn define_s(c: CtxS, name: Seq<char>, v: ValueS) -> CtxS {
    CtxS {
        scopes: c.scopes.update(
            c.scopes.len() - 1,
            ScopeS {
                name: c.scopes.last().name,
                symbols: c.scopes.last().symbols.push((name, v)),
                open: true,
            },
        ),
        notes: c.notes,
        entry: c.entry,
    }
}

/// Defining a name, with the duplicate-definition report of the root
/// scope: a prior definition in the root is reported with both origins,
/// and the new definition still lands.
pub open spec fn define_reported_s(c: CtxS, name: Seq<char>, v: ValueS) -> CtxS {
    let c1 = (match sym_lookup_s(c.scopes.last().symbols, name) {
        Option::Some(prior) => if c.scopes.len() == 1 {
            push_note_s(
                c,
                note_two(
                    NoteOccurance::Always,
                    NoteType::Error(ErrorType::DuplicateSymbol),
                    Option::Some(prior.range),
                    NoteDetailS::SymbolDefinedHere,
                    Option::Some(v.range),
                    NoteDetailS::SymbolRedefinedHere,
                ),
            )
        } else {
            c
        },
        Option::None => c,
    });
    define_s(c1, name, v)
}

/// The boolean constraint a test response stands for.
pub open spec fn resp_state(resp: TestResponse) -> StateS<bool> {
    match resp {
        TestResponse::Always => StateS::Enumerated(seq![true]),
        TestResponse::Sometimes => StateS::Enumerated(seq![true, false]),
        TestResponse::Never => StateS::Enumerated(seq![false]),
        TestResponse::Failed => StateS::Failed,
    }
}

/// The fail-soft placeholder an ill-typed operation evaluates to.
pub open spec fn failed_bool_s(range: Range) -> ValueS {
    ValueS { value: ValueTypeS::Bool(StateS::Failed), range }
}

/// What evaluating a literal yields. A boolean literal is an exact
/// boolean constraint; integer literals are exact arbitrary-precision
/// integers; decimal literals are exact arbitrary-precision decimals;
/// an identifier resolves through the scopes, and an unresolved one
/// queues an unknown-symbol error and yields the `Unknown` wildcard.
pub open spec fn verify_literal_s(c: CtxS, lit: Literal) -> (CtxS, ValueS) {
    match lit.lit {
        LiteralType::Bool(b) => (
            c,
            ValueS { value: ValueTypeS::Bool(StateS::Enumerated(seq![b])), range: lit.range },
        ),
        LiteralType::Int(ds) => (
            c,
            ValueS {
                value: ValueTypeS::IntBig(
                    StateS::Enumerated(
                        seq![RangeS::Exact(NumS::IBig(digits_be_value(ds@) as int))],
                    ),
                ),
                range: lit.range,
            },
        ),
        LiteralType::Float(ip, fp) => (
            c,
            ValueS {
                value: ValueTypeS::FloatBig(
                    StateS::Enumerated(
                        seq![
                            RangeS::Exact(
                                NumS::FBig(DecS { int_digits: ip@, frac_digits: fp@ }),
                            ),
                        ],
                    ),
                ),
                range: lit.range,
            },
        ),
        LiteralType::Identifier(name) => (match lookup_s(c.scopes, name@) {
            Option::Some(v) => (c, v),
            Option::None => (
                push_note_s(
                    c,
                    note_one(
                        NoteOccurance::Always,
                        NoteType::Error(ErrorType::UnknownSymbol),
                        Option::Some(lit.range),
                        NoteDetailS::UnknownSymbolName(name@),
                    ),
                ),
                ValueS { value: ValueTypeS::Unknown, range: lit.range },
            ),
        }),
    }
}

/// The invalid-type note for two operands whose types disagree, naming
/// both operand ranges and the inferred type of the other side.
pub open spec fn operand_mismatch_note(lv: ValueS, rv: ValueS) -> NoteS {
    note_two(
        NoteOccurance::Always,
        NoteType::Error(ErrorType::InvalidTypeReceived),
        Option::Some(lv.range),
        NoteDetailS::DoesNotMatchType(type_def_s(rv.value)),
        Option::Some(rv.range),
        NoteDetailS::DoesNotMatchType(type_def_s(lv.value)),
    )
}

/// What a comparison yields once both operands are evaluated: a type
/// mismatch queues an invalid-type error and yields the fail-soft
/// placeholder; matching operands yield the boolean constraint of the
/// pairwise test.
pub open spec fn cmp_result_s(
    c: CtxS,
    op: CmpOp,
    lv: ValueS,
    rv: ValueS,
    range: Range,
) -> (CtxS, ValueS) {
    if matches_type_s(lv.value, rv.value) {
        (
            c,
            ValueS {
                value: ValueTypeS::Bool(resp_state(value_cmp_s(op, lv.value, rv.value))),
                range,
            },
        )
    } else {
        (push_note_s(c, operand_mismatch_note(lv, rv)), failed_bool_s(range))
    }
}

/// What arithmetic yields once both operands are evaluated: a type
/// mismatch or an unsupported kind queues an invalid-type error and
/// yields the fail-soft placeholder; checked evaluation that broke its
/// bounds queues a bound-broken error whose occurrence says whether
/// every pair broke.
pub open spec fn arith_result_s(
    c: CtxS,
    op: ArithOp,
    lv: ValueS,
    rv: ValueS,
    range: Range,
) -> (CtxS, ValueS) {
    if !matches_type_s(lv.value, rv.value) {
        (push_note_s(c, operand_mismatch_note(lv, rv)), failed_bool_s(range))
    } else {
        match value_arith_s(op, lv.value, rv.value) {
            Ok((t, report)) => {
                let v = ValueS {
                    value: t,
                    range: Range {
                        module: lv.range.module,
                        start: lv.range.start,
                        end: rv.range.end,
                    },
                };
                match report {
                    BreakReport::Unbroken => (c, v),
                    BreakReport::PartlyBroken => (
                        push_note_s(
                            c,
                            note_one(
                                NoteOccurance::Sometimes,
                                NoteType::Error(ErrorType::BoundBroken),
                                Option::Some(range),
                                NoteDetailS::ValueOutOfBounds,
                            ),
                        ),
                        v,
                    ),
                    BreakReport::FullyBroken => (
                        push_note_s(
                            c,
                            note_one(
                                NoteOccurance::Always,
                                NoteType::Error(ErrorType::BoundBroken),
                                Option::Some(range),
                                NoteDetailS::ValueOutOfBounds,
                            ),
                        ),
                        v,
                    ),
                }
            },
            Err(_) => (
                push_note_s(
                    c,
                    note_one(
                        NoteOccurance::Always,
                        NoteType::Error(ErrorType::InvalidTypeReceived),
                        Option::Some(range),
                        NoteDetailS::UnsupportedOperation(type_def_s(lv.value)),
                    ),
                ),
                failed_bool_s(range),
            ),
        }
    }
}

/// What evaluating an expression yields: binary operators evaluate both
/// operands left to right and dispatch to the comparison or arithmetic
/// machinery.
pub open spec fn verify_expr_s(c: CtxS, e: Expression) -> (CtxS, ValueS)
    decreases e,
{
    match e.expr {
        ExpressionType::EqualsOperation(l, r) => {
            let (c1, lv) = verify_expr_s(c, *l);
            let (c2, rv) = verify_expr_s(c1, *r);
            cmp_result_s(c2, CmpOp::Eq, lv, rv, e.range)
        },
        ExpressionType::NotEqualsOperation(l, r) => {
            let (c1, lv) = verify_expr_s(c, *l);
            let (c2, rv) = verify_expr_s(c1, *r);
            cmp_result_s(c2, CmpOp::Ne, lv, rv, e.range)
        },
        ExpressionType::GreaterOperation(l, r) => {
            let (c1, lv) = verify_expr_s(c, *l);
            let (c2, rv) = verify_expr_s(c1, *r);
            cmp_result_s(c2, CmpOp::Gt, lv, rv, e.range)
        },
        ExpressionType::GreaterEqualsOperation(l, r) => {
            let (c1, lv) = verify_expr_s(c, *l);
            let (c2, rv) = verify_expr_s(c1, *r);
            cmp_result_s(c2, CmpOp::Ge, lv, rv, e.range)
        },
        ExpressionType::LessOperation(l, r) => {
            let (c1, lv) = verify_expr_s(c, *l);
            let (c2, rv) = verify_expr_s(c1, *r);
            cmp_result_s(c2, CmpOp::Lt, lv, rv, e.range)
        },
        ExpressionType::LessEqualsOperation(l, r) => {
            let (c1, lv) = verify_expr_s(c, *l);
            let (c2, rv) = verify_expr_s(c1, *r);
            cmp_result_s(c2, CmpOp::Le, lv, rv, e.range)
        },
        ExpressionType::AdditionOperation(l, r) => {
            let (c1, lv) = verify_expr_s(c, *l);
            let (c2, rv) = verify_expr_s(c1, *r);
            arith_result_s(c2, ArithOp::Add, lv, rv, e.range)
        },
        ExpressionType::SubtractionOperation(l, r) => {
            let (c1, lv) = verify_expr_s(c, *l);
            let (c2, rv) = verify_expr_s(c1, *r);
            arith_result_s(c2, ArithOp::Sub, lv, rv, e.range)
        },
        ExpressionType::MultiplicationOperation(l, r) => {
            let (c1, lv) = verify_expr_s(c, *l);
            let (c2, rv) = verify_expr_s(c1, *r);
            arith_result_s(c2, ArithOp::Mul, lv, rv, e.range)
        },
        ExpressionType::DivisionOperation(l, r) => {
            let (c1, lv) = verify_expr_s(c, *l);
            let (c2, rv) = verify_expr_s(c1, *r);
            arith_result_s(c2, ArithOp::Div, lv, rv, e.range)
        },
        ExpressionType::Atom(a) => verify_atom_s(c, a),
    }
}

/// The advisory note for a clause whose condition always succeeds.
pub open spec fn always_succeeds_note(cond: Expression, blk: Block, first: bool) -> NoteS {
    note_two(
        NoteOccurance::Always,
        NoteType::Warn(WarnType::BlockContentsCalled),
        Option::Some(cond.range),
        NoteDetailS::CondAlwaysSucceeds,
        Option::Some(blk.range),
        if first {
            NoteDetailS::ConsiderRemovingIf
        } else {
            NoteDetailS::ConsiderReplacingWithElse
        },
    )
}

/// The advisory note for a clause whose condition always fails.
pub open spec fn always_fails_note(cond: Expression, blk: Block) -> NoteS {
    note_two(
        NoteOccurance::Never,
        NoteType::Warn(WarnType::BlockContentsCalled),
        Option::Some(cond.range),
        NoteDetailS::CondAlwaysFails,
        Option::Some(blk.range),
        NoteDetailS::ConsiderRemovingCase,
    )
}

/// The invalid-type note for a conditional's non-boolean condition.
pub open spec fn expected_bool_note(cond: Expression, cv: ValueS) -> NoteS {
    note_one(
        NoteOccurance::Always,
        NoteType::Error(ErrorType::InvalidTypeReceived),
        Option::Some(cond.range),
        NoteDetailS::ExpectedBool(type_def_s(cv.value)),
    )
}

/// Fold one evaluated branch into the accumulator. The first branch
/// seeds it; a matching later branch joins (or, for an always-true
/// clause, replaces) it; a mismatched branch queues an invalid-type
/// error and degrades the accumulator to the fail-soft placeholder.
pub open spec fn branch_accumulate_s(
    c: CtxS,
    bv: ValueS,
    acc: Option<ValueS>,
    definite: bool,
) -> (CtxS, Option<ValueS>, bool) {
    match acc {
        Option::None => (c, Option::Some(bv), definite),
        Option::Some(prior) => {
            if matches_type_s(prior.value, bv.value) {
                if definite {
                    (c, Option::Some(bv), true)
                } else {
                    (c, Option::Some(combine_value_s(prior, bv)), false)
                }
            } else {
                let c1 = push_note_s(
                    c,
                    note_two(
                        NoteOccurance::Always,
                        NoteType::Error(ErrorType::InvalidTypeReceived),
                        Option::Some(prior.range),
                        NoteDetailS::BranchTypeMismatch(
                            type_def_s(prior.value),
                            type_def_s(bv.value),
                        ),
                        Option::Some(bv.range),
                        NoteDetailS::BranchTypeMismatch(
                            type_def_s(bv.value),
                            type_def_s(prior.value),
                        ),
                    ),
                );
                (c1, Option::Some(failed_bool_s(bv.range)), definite)
            }
        },
    }
}

/// The branch-unification walk over a conditional's clauses, carrying
/// the accumulated value and whether an always-true clause has fixed the
/// result for good. For each clause in order: its condition is
/// evaluated; a non-boolean condition queues an invalid-type error and
/// contributes nothing, except the `Unknown` wildcard, which is treated
/// as a condition that may hold so the branch is still checked; a
/// boolean condition is classified, and the always-true case warns,
/// evaluates the block and fixes the result, the never-true case warns
/// and does not evaluate the block at all, the sometimes-true case
/// evaluates the block and joins it in, and an uninformative condition
/// is skipped silently.
pub open spec fn if_clauses_s(
    c: CtxS,
    cs: Seq<(Expression, Block, Range)>,
    acc: Option<ValueS>,
    first: bool,
    definite: bool,
) -> (CtxS, Option<ValueS>, bool)
    decreases cs,
{
    if cs.len() == 0 || definite {
        (c, acc, definite)
    } else {
        let cond = cs.first().0;
        let blk = cs.first().1;
        let (c1, cv) = verify_expr_s(c, cond);
        let (c2, acc2, definite2) = (match cv.value {
            ValueTypeS::Bool(state) => {
                let resp = bool_test_response(state, true);
                match resp {
                    TestResponse::Always => {
                        let ca = push_note_s(c1, always_succeeds_note(cond, blk, first));
                        let (cb, bv) = verify_block_s(ca, blk, Option::None);
                        branch_accumulate_s(cb, bv, acc, true)
                    },
                    TestResponse::Never => (
                        push_note_s(c1, always_fails_note(cond, blk)),
                        acc,
                        false,
                    ),
                    TestResponse::Sometimes => {
                        let (cb, bv) = verify_block_s(c1, blk, Option::None);
                        branch_accumulate_s(cb, bv, acc, false)
                    },
                    TestResponse::Failed => (c1, acc, false),
                }
            },
            ValueTypeS::Unknown => {
                let (cb, bv) = verify_block_s(c1, blk, Option::None);
                branch_accumulate_s(cb, bv, acc, false)
            },
            _ => (push_note_s(c1, expected_bool_note(cond, cv)), acc, false),
        });
        if_clauses_s(c2, cs.drop_first(), acc2, false, definite2)
    }
}

/// The closing step of a conditional, once the clauses and any `else`
/// branch are folded: no `else` with a non-`Void` result means a `Void`
/// path exists, which is an invalid-type error; the result is the
/// accumulator, or `Void`.
pub open spec fn if_finish_s(
    c: CtxS,
    acc: Option<ValueS>,
    definite: bool,
    has_else: bool,
    arange: Range,
) -> (CtxS, ValueS) {
    let c1 = (match acc {
        Option::Some(v) => if !has_else && !definite && !(v.value is Void) {
            push_note_s(
                c,
                note_one(
                    NoteOccurance::Always,
                    NoteType::Error(ErrorType::InvalidTypeReceived),
                    Option::Some(arange),
                    NoteDetailS::MissingElse(type_def_s(v.value)),
                ),
            )
        } else {
            c
        },
        Option::None => c,
    });
    (
        c1,
        (match acc {
            Option::Some(v) => v,
            Option::None => ValueS { value: ValueTypeS::Void, range: arange },
        }),
    )
}

/// What evaluating an atom yields; the conditional is the centerpiece:
/// the clauses in order, then the `else` branch joined unconditionally
/// unless an always-true clause fixed the result, then the
/// missing-`else` check.
pub open spec fn verify_atom_s(c: CtxS, a: Atom) -> (CtxS, ValueS)
    decreases a,
{
    match a.atom {
        AtomType::Literal(lit) => verify_literal_s(c, lit),
        AtomType::Expression(e) => verify_expr_s(c, *e),
        AtomType::If(clauses, els) => {
            let (c1, acc1, definite) = if_clauses_s(c, clauses@, Option::None, true, false);
            match els {
                Option::Some((eb, _)) => {
                    if definite {
                        if_finish_s(c1, acc1, definite, true, a.range)
                    } else {
                        let (ce, ev) = verify_block_s(c1, eb, Option::None);
                        let (cf, accf, _) = branch_accumulate_s(ce, ev, acc1, false);
                        if_finish_s(cf, accf, definite, true, a.range)
                    }
                },
                Option::None => if_finish_s(c1, acc1, definite, false, a.range),
            }
        },
    }
}

/// What a statement yields: an expression statement yields its value; a
/// `let` evaluates its initialiser, defines the symbol in the innermost
/// scope (shadowing permitted; a root-scope duplicate is reported), and
/// yields `Void`.
pub open spec fn verify_stmt_s(c: CtxS, s: Statement) -> (CtxS, ValueS)
    decreases s,
{
    match s.stmt {
        StatementType::Expression(e) => verify_expr_s(c, e),
        StatementType::InitVar(name, _, e) => {
            let (c1, v) = verify_expr_s(c, e);
            (define_reported_s(c1, name@, v), ValueS { value: ValueTypeS::Void, range: s.range })
        },
    }
}

/// A statement list in order, yielding the last statement's value.
pub open spec fn verify_stmts_s(c: CtxS, ss: Seq<Statement>, last: ValueS) -> (CtxS, ValueS)
    decreases ss,
{
    if ss.len() == 0 {
        (c, last)
    } else {
        let (c1, v) = verify_stmt_s(c, ss.first());
        verify_stmts_s(c1, ss.drop_first(), v)
    }
}

/// What a block yields: its statements run in order inside a fresh
/// child scope, which closes afterwards; the block's value is its last
/// statement's if it is marked value-returning, else `Void`.
pub open spec fn verify_block_s(c: CtxS, b: Block, name: Option<Seq<char>>) -> (CtxS, ValueS)
    decreases b,
{
    let opened = c.scopes.push(ScopeS { name, symbols: Seq::empty(), open: true });
    let gi = c.scopes.len() as int;
    let (c1, last) = verify_stmts_s(
        CtxS { scopes: opened, notes: c.notes, entry: c.entry },
        b.stmts@,
        ValueS { value: ValueTypeS::Void, range: b.range },
    );
    let c2 = CtxS { scopes: close_s(c1.scopes, gi), notes: c1.notes, entry: c1.entry };
    (
        c2,
        if b.retlast {
            last
        } else {
            ValueS { value: ValueTypeS::Void, range: b.range }
        },
    )
}

/// Registration of one `#[entry]` header: the first header seen
/// program-wide is retained with the entry function's qualified path;
/// every later one queues a duplicate-entry-point error citing both
/// headers, and registration goes on.
pub open spec fn register_headers_s(
    c: CtxS,
    hs: Seq<DeclarationHeader>,
    path: Seq<Seq<char>>,
) -> CtxS
    decreases hs,
{
    if hs.len() == 0 {
        c
    } else {
        let h = hs.first();
        let c1 = (match h.header {
            DeclarationHeaderType::Entry => (match c.entry {
                Option::Some((prange, _)) => push_note_s(
                    c,
                    note_two(
                        NoteOccurance::Always,
                        NoteType::Error(ErrorType::DuplicateEntryHeader),
                        Option::Some(prange),
                        NoteDetailS::EntryDefinedHere,
                        Option::Some(h.range),
                        NoteDetailS::EntryRedefinedHere,
                    ),
                ),
                Option::None => CtxS {
                    scopes: c.scopes,
                    notes: c.notes,
                    entry: Option::Some((h.range, path)),
                },
            }),
        });
        register_headers_s(c1, hs.drop_first(), path)
    }
}

/// Registration of one declaration. A module registers a placeholder
/// symbol for its name (resolution happens outside this core); a
/// function registers a `Function` symbol with its parameter and return
/// descriptors still raw and its body stored unevaluated, then its
/// headers are processed.
pub open spec fn register_decl_s(c: CtxS, d: Declaration, idx: int) -> CtxS {
    match d.decl {
        DeclarationType::Module(parts, _) => define_reported_s(
            c,
            parts@.last()@,
            ValueS { value: ValueTypeS::Unknown, range: d.range },
        ),
        DeclarationType::Function(name, _, _, _, _) => {
            let c1 = define_reported_s(
                c,
                name@,
                ValueS {
                    value: ValueTypeS::Function(Seq::empty(), Option::None, idx),
                    range: d.range,
                },
            );
            register_headers_s(c1, d.headers@, path_names_s(c1.scopes).push(name@))
        },
    }
}

pub open spec fn register_decls_s(c: CtxS, ds: Seq<Declaration>, idx: int) -> CtxS
    decreases ds,
{
    if ds.len() == 0 {
        c
    } else {
        register_decls_s(register_decl_s(c, ds.first(), idx), ds.drop_first(), idx + 1)
    }
}

/// The contents pass of one declaration: a function body is verified in
/// a fresh child scope named after the function; modules have no
/// contents here.
pub open spec fn contents_decl_s(c: CtxS, d: Declaration) -> CtxS
    decreases d,
{
    match d.decl {
        DeclarationType::Module(_, _) => c,
        DeclarationType::Function(name, _, _, _, body) => verify_block_s(
            c,
            body,
            Option::Some(name@),
        ).0,
    }
}

pub open spec fn contents_decls_s(c: CtxS, ds: Seq<Declaration>) -> CtxS
    decreases ds,
{
    if ds.len() == 0 {
        c
    } else {
        contents_decls_s(contents_decl_s(c, ds.first()), ds.drop_first())
    }
}

/// What verifying a whole program does: both registration passes over
/// every declaration complete before any body is checked, so forward
/// and mutual references resolve.
pub open spec fn verify_program_s(c: CtxS, p: Program) -> CtxS {
    contents_decls_s(register_decls_s(c, p.decls@, 0), p.decls@)
}

/// Each statement of a well-formed statement list is well formed.
pub proof fn lemma_wf_statements_index(ss: Seq<Statement>, i: int)
    requires
        wf_statements(ss),
        0 <= i < ss.len(),
    ensures
        wf_statement(ss[i]),
    decreases ss,
{
    if i < ss.len() - 1 {
        lemma_wf_statements_index(ss.drop_last(), i);
        assert(ss.drop_last()[i] == ss[i]);
    } else {
        assert(ss.last() == ss[i]);
    }
}

/// Each clause of a well-formed clause list is well formed.
pub proof fn lemma_wf_if_clauses_index(cs: Seq<(Expression, Block, Range)>, i: int)
    requires
        wf_if_clauses(cs),
        0 <= i < cs.len(),
    ensures
        wf_expression(cs[i].0),
        wf_block(cs[i].1),
    decreases cs,
{
    if i < cs.len() - 1 {
        lemma_wf_if_clauses_index(cs.drop_last(), i);
        assert(cs.drop_last()[i] == cs[i]);
    } else {
        assert(cs.last() == cs[i]);
    }
}


impl VerificationContext {
    /// A fresh context: no scopes, no notes, no entry point.
    pub fn new() -> (r: VerificationContext)
        ensures
            r@.scopes =~= Seq::<ScopeS>::empty(),
            r@.notes =~= Seq::<NoteS>::empty(),
            r@.entry is None,
            wf_ctx(r@),
    {
        VerificationContext {
            scopes: ScopeArena::new(),
            notes: Vec::new(),
            info: ProgramInfo { entry: Option::None },
        }
    }

    /// Clear everything, ready for another compilation.
    pub fn reset(&mut self)
        ensures
            final(self)@.scopes =~= Seq::<ScopeS>::empty(),
            final(self)@.notes =~= Seq::<NoteS>::empty(),
            final(self)@.entry is None,
            wf_ctx(final(self)@),
    {
        self.scopes.reset();
        self.notes = Vec::new();
        self.info = ProgramInfo { entry: Option::None };
    }

    /// Open the root scope of the compilation; done once by the caller
    /// before verification starts.
    pub fn open_root(&mut self, name: Option<String>) -> (g: ScopeGuard)
        requires
            old(self)@.scopes.len() == 0,
        ensures
            final(self)@.scopes =~= seq![
                ScopeS {
                    name: (match name {
                        Option::Some(n) => Option::Some(n@),
                        Option::None => Option::None,
                    }),
                    symbols: Seq::empty(),
                    open: true,
                },
            ],
            final(self)@.notes == old(self)@.notes,
            final(self)@.entry == old(self)@.entry,
            g.index == 0,
            guard_valid(final(self)@.scopes, g),
            wf_ctx(final(self)@),
    {
        self.scopes.open_root(name)
    }

    /// Close a scope through the context.
    pub fn exit_scope(&mut self, g: ScopeGuard)
        requires
            guard_valid(old(self)@.scopes, g),
            wf_ctx(old(self)@),
        ensures
            final(self)@.scopes =~= close_s(old(self)@.scopes, g.index as int),
            final(self)@.notes == old(self)@.notes,
            final(self)@.entry == old(self)@.entry,
            wf_ctx(final(self)@),
    {
        self.scopes.exit_subscope(g);
    }

    /// Append one note to the queue.
    fn push_note(&mut self, n: CompilationNote)
        ensures
            final(self)@ == push_note_s(old(self)@, n@),
    {
        self.notes.push(n);
        proof {
            assert(final(self)@.notes =~= old(self)@.notes.push(n@));
        }
    }
}

impl Literal {
    /// Evaluate a literal to a value, resolving identifiers through the
    /// scopes.
    fn verify(&self, ctx: &mut VerificationContext) -> (r: Value)
        requires
            wf_ctx(old(ctx)@),
            wf_literal(*self),
        ensures
            final(ctx)@ == verify_literal_s(old(ctx)@, *self).0,
            r@ == verify_literal_s(old(ctx)@, *self).1,
            final(ctx)@.scopes == old(ctx)@.scopes,
            wf_ctx(final(ctx)@),
            wf_value(r@),
    {
        match &self.lit {
            LiteralType::Bool(b) => {
                let mut v: Vec<bool> = Vec::new();
                v.push(*b);
                let r = Value {
                    value: ValueType::Bool(ValConstr(ValConstrState::Enumerated(v))),
                    range: self.range,
                };
                proof {
                    assert(r@.value->Bool_0->Enumerated_0 =~= seq![*b]);
                }
                r
            },
            LiteralType::Int(ds) => {
                let big = big_from_digits(ds);
                let mut ranges: Vec<ValConstrRange> = Vec::new();
                ranges.push(ValConstrRange::Exact(Num::IBig(big)));
                let r = Value {
                    value: ValueType::IntBig(ValConstrOrd(ValConstrState::Enumerated(ranges))),
                    range: self.range,
                };
                proof {
                    assert(r@.value->IntBig_0->Enumerated_0 =~= seq![
                        RangeS::Exact(NumS::IBig(digits_be_value(ds@) as int)),
                    ]);
                }
                r
            },
            LiteralType::Float(ip, fp) => {
                let ip2 = ip.clone();
                let fp2 = fp.clone();
                let lit = crate::num::DecLit { int_digits: ip2, frac_digits: fp2 };
                let mut ranges: Vec<ValConstrRange> = Vec::new();
                proof {
                    assert(lit@.int_digits =~= ip@);
                    assert(lit@.frac_digits =~= fp@);
                }
                ranges.push(ValConstrRange::Exact(Num::FBig(lit)));
                let r = Value {
                    value: ValueType::FloatBig(ValConstrOrd(ValConstrState::Enumerated(ranges))),
                    range: self.range,
                };
                proof {
                    assert(r@.value->FloatBig_0->Enumerated_0 =~= seq![
                        RangeS::Exact(NumS::FBig(DecS { int_digits: ip@, frac_digits: fp@ })),
                    ]);
                }
                r
            },
            LiteralType::Identifier(name) => match ctx.scopes.get_symbol(name) {
                Option::Some(v) => v,
                Option::None => {
                    let n2 = name.clone();
                    ctx.push_note(
                        CompilationNote::with_one(
                            NoteOccurance::Always,
                            NoteType::Error(ErrorType::UnknownSymbol),
                            Option::Some(self.range),
                            NoteDetail::UnknownSymbolName(n2),
                        ),
                    );
                    Value { value: ValueType::Unknown, range: self.range }
                },
            },
        }
    }
}

/// The comparison finish: type-check the operands, then classify the
/// pairwise test into a boolean constraint.
fn cmp_result_exec(
    ctx: &mut VerificationContext,
    op: CmpOp,
    lv: Value,
    rv: Value,
    range: Range,
) -> (r: Value)
    requires
        wf_ctx(old(ctx)@),
        wf_value(lv@),
        wf_value(rv@),
    ensures
        final(ctx)@ == cmp_result_s(old(ctx)@, op, lv@, rv@, range).0,
        r@ == cmp_result_s(old(ctx)@, op, lv@, rv@, range).1,
        final(ctx)@.scopes == old(ctx)@.scopes,
        wf_ctx(final(ctx)@),
        wf_value(r@),
{
    if lv.matches_type(&rv) {
        let resp = lv.test_cmp(op, &rv);
        Value::bool_from(resp, range)
    } else {
        let lt = lv.type_def();
        let rt = rv.type_def();
        ctx.push_note(
            CompilationNote::with_two(
                NoteOccurance::Always,
                NoteType::Error(ErrorType::InvalidTypeReceived),
                Option::Some(lv.range),
                NoteDetail::DoesNotMatchType(rt),
                Option::Some(rv.range),
                NoteDetail::DoesNotMatchType(lt),
            ),
        );
        Value { value: ValueType::Bool(ValConstr(ValConstrState::Failed)), range }
    }
}

/// The arithmetic finish: type-check the operands, evaluate pairwise,
/// and report broken bounds or an unsupported kind.
fn arith_result_exec(
    ctx: &mut VerificationContext,
    op: ArithOp,
    lv: Value,
    rv: Value,
    range: Range,
) -> (r: Value)
    requires
        wf_ctx(old(ctx)@),
        wf_value(lv@),
        wf_value(rv@),
    ensures
        final(ctx)@ == arith_result_s(old(ctx)@, op, lv@, rv@, range).0,
        r@ == arith_result_s(old(ctx)@, op, lv@, rv@, range).1,
        final(ctx)@.scopes == old(ctx)@.scopes,
        wf_ctx(final(ctx)@),
        wf_value(r@),
{
    if !lv.matches_type(&rv) {
        let lt = lv.type_def();
        let rt = rv.type_def();
        ctx.push_note(
            CompilationNote::with_two(
                NoteOccurance::Always,
                NoteType::Error(ErrorType::InvalidTypeReceived),
                Option::Some(lv.range),
                NoteDetail::DoesNotMatchType(rt),
                Option::Some(rv.range),
                NoteDetail::DoesNotMatchType(lt),
            ),
        );
        return Value { value: ValueType::Bool(ValConstr(ValConstrState::Failed)), range };
    }
    match lv.arith(op, &rv) {
        Ok((v, report)) => {
            match report {
                BreakReport::Unbroken => {},
                BreakReport::PartlyBroken => {
                    ctx.push_note(
                        CompilationNote::with_one(
                            NoteOccurance::Sometimes,
                            NoteType::Error(ErrorType::BoundBroken),
                            Option::Some(range),
                            NoteDetail::ValueOutOfBounds,
                        ),
                    );
                },
                BreakReport::FullyBroken => {
                    ctx.push_note(
                        CompilationNote::with_one(
                            NoteOccurance::Always,
                            NoteType::Error(ErrorType::BoundBroken),
                            Option::Some(range),
                            NoteDetail::ValueOutOfBounds,
                        ),
                    );
                },
            }
            v
        },
        Err(_) => {
            let lt = lv.type_def();
            ctx.push_note(
                CompilationNote::with_one(
                    NoteOccurance::Always,
                    NoteType::Error(ErrorType::InvalidTypeReceived),
                    Option::Some(range),
                    NoteDetail::UnsupportedOperation(lt),
                ),
            );
            Value { value: ValueType::Bool(ValConstr(ValConstrState::Failed)), range }
        },
    }
}

impl Expression {
    /// Evaluate an expression to a value.
    fn verify(&self, ctx: &mut VerificationContext) -> (r: Value)
        requires
            wf_ctx(old(ctx)@),
            old(ctx)@.scopes.len() > 0,
            wf_expression(*self),
        ensures
            final(ctx)@ == verify_expr_s(old(ctx)@, *self).0,
            r@ == verify_expr_s(old(ctx)@, *self).1,
            final(ctx)@.scopes == old(ctx)@.scopes,
            wf_ctx(final(ctx)@),
            wf_value(r@),
        decreases self,
    {
        match &self.expr {
            ExpressionType::EqualsOperation(l, r) => {
                let lv = l.verify(ctx);
                let rv = r.verify(ctx);
                cmp_result_exec(ctx, CmpOp::Eq, lv, rv, self.range)
            },
            ExpressionType::NotEqualsOperation(l, r) => {
                let lv = l.verify(ctx);
                let rv = r.verify(ctx);
                cmp_result_exec(ctx, CmpOp::Ne, lv, rv, self.range)
            },
            ExpressionType::GreaterOperation(l, r) => {
                let lv = l.verify(ctx);
                let rv = r.verify(ctx);
                cmp_result_exec(ctx, CmpOp::Gt, lv, rv, self.range)
            },
            ExpressionType::GreaterEqualsOperation(l, r) => {
                let lv = l.verify(ctx);
                let rv = r.verify(ctx);
                cmp_result_exec(ctx, CmpOp::Ge, lv, rv, self.range)
            },
            ExpressionType::LessOperation(l, r) => {
                let lv = l.verify(ctx);
                let rv = r.verify(ctx);
                cmp_result_exec(ctx, CmpOp::Lt, lv, rv, self.range)
            },
            ExpressionType::LessEqualsOperation(l, r) => {
                let lv = l.verify(ctx);
                let rv = r.verify(ctx);
                cmp_result_exec(ctx, CmpOp::Le, lv, rv, self.range)
            },
            ExpressionType::AdditionOperation(l, r) => {
                let lv = l.verify(ctx);
                let rv = r.verify(ctx);
                arith_result_exec(ctx, ArithOp::Add, lv, rv, self.range)
            },
            ExpressionType::SubtractionOperation(l, r) => {
                let lv = l.verify(ctx);
                let rv = r.verify(ctx);
                arith_result_exec(ctx, ArithOp::Sub, lv, rv, self.range)
            },
            ExpressionType::MultiplicationOperation(l, r) => {
                let lv = l.verify(ctx);
                let rv = r.verify(ctx);
                arith_result_exec(ctx, ArithOp::Mul, lv, rv, self.range)
            },
            ExpressionType::DivisionOperation(l, r) => {
                let lv = l.verify(ctx);
                let rv = r.verify(ctx);
                arith_result_exec(ctx, ArithOp::Div, lv, rv, self.range)
            },
            ExpressionType::Atom(a) => a.verify(ctx),
        }
    }
}

/// The branch-unification fold of one evaluated branch.
fn branch_accumulate_exec(
    ctx: &mut VerificationContext,
    bv: Value,
    acc: Option<Value>,
    definite: bool,
) -> (out: (Option<Value>, bool))
    requires
        wf_ctx(old(ctx)@),
        wf_value(bv@),
        acc matches Option::Some(a) ==> wf_value(a@),
    ensures
        final(ctx)@ == branch_accumulate_s(old(ctx)@, bv@, view_opt(acc), definite).0,
        view_opt(out.0) == branch_accumulate_s(old(ctx)@, bv@, view_opt(acc), definite).1,
        out.1 == branch_accumulate_s(old(ctx)@, bv@, view_opt(acc), definite).2,
        final(ctx)@.scopes == old(ctx)@.scopes,
        wf_ctx(final(ctx)@),
        out.0 matches Option::Some(a) ==> wf_value(a@),
{
    match acc {
        Option::None => (Option::Some(bv), definite),
        Option::Some(prior) => {
            if prior.matches_type(&bv) {
                if definite {
                    (Option::Some(bv), true)
                } else {
                    let joined = prior.combine(&bv);
                    proof {
                        lemma_combine_value_wf(prior@, bv@);
                    }
                    (Option::Some(joined), false)
                }
            } else {
                let pt = prior.type_def();
                let bt = bv.type_def();
                let pt2 = prior.type_def();
                let bt2 = bv.type_def();
                ctx.push_note(
                    CompilationNote::with_two(
                        NoteOccurance::Always,
                        NoteType::Error(ErrorType::InvalidTypeReceived),
                        Option::Some(prior.range),
                        NoteDetail::BranchTypeMismatch(pt, bt),
                        Option::Some(bv.range),
                        NoteDetail::BranchTypeMismatch(bt2, pt2),
                    ),
                );
                (
                    Option::Some(
                        Value { value: ValueType::Bool(ValConstr(ValConstrState::Failed)), range: bv.range },
                    ),
                    definite,
                )
            }
        },
    }
}

/// The mathematical image of an optional value.
pub open spec fn view_opt(v: Option<Value>) -> Option<ValueS> {
    match v {
        Option::Some(x) => Option::Some(x@),
        Option::None => Option::None,
    }
}

impl Atom {
    /// Evaluate an atom to a value.
    #[verifier::loop_isolation(false)]
    #[verifier::rlimit(100)]
    fn verify(&self, ctx: &mut VerificationContext) -> (r: Value)
        requires
            wf_ctx(old(ctx)@),
            old(ctx)@.scopes.len() > 0,
            wf_atom(*self),
        ensures
            final(ctx)@ == verify_atom_s(old(ctx)@, *self).0,
            r@ == verify_atom_s(old(ctx)@, *self).1,
            final(ctx)@.scopes == old(ctx)@.scopes,
            wf_ctx(final(ctx)@),
            wf_value(r@),
        decreases self,
    {
        match &self.atom {
            AtomType::Literal(lit) => lit.verify(ctx),
            AtomType::Expression(e) => e.verify(ctx),
            AtomType::If(clauses, els) => {
                let ghost c0 = ctx@;
                let ghost csv = clauses@;
                let mut acc: Option<Value> = Option::None;
                let mut definite = false;
                let mut i: usize = 0;
                proof {
                    assert(csv.skip(0) =~= csv);
                }
                while i < clauses.len() && !definite
                    invariant
                        i <= clauses@.len(),
                        if_clauses_s(c0, csv, Option::None, true, false) == if_clauses_s(
                            ctx@,
                            csv.skip(i as int),
                            view_opt(acc),
                            i == 0,
                            definite,
                        ),
                        wf_ctx(ctx@),
                        ctx@.scopes == c0.scopes,
                        acc matches Option::Some(a) ==> wf_value(a@),
                    decreases clauses@.len() - i,
                {
                    proof {
                        lemma_wf_if_clauses_index(csv, i as int);
                        assert(csv.skip(i as int).first() == csv[i as int]);
                        assert(csv.skip(i as int).drop_first() =~= csv.skip(i as int + 1));
                    }
                    let cond = &clauses[i].0;
                    let blk = &clauses[i].1;
                    let cv = cond.verify(ctx);
                    match &cv.value {
                        ValueType::Bool(state) => {
                            let resp = state.when_eq_to(&true);
                            match resp {
                                TestResponse::Always => {
                                    ctx.push_note(
                                        CompilationNote::with_two(
                                            NoteOccurance::Always,
                                            NoteType::Warn(WarnType::BlockContentsCalled),
                                            Option::Some(cond.range),
                                            NoteDetail::CondAlwaysSucceeds,
                                            Option::Some(blk.range),
                                            if i == 0 {
                                                NoteDetail::ConsiderRemovingIf
                                            } else {
                                                NoteDetail::ConsiderReplacingWithElse
                                            },
                                        ),
                                    );
                                    let bv = blk.verify(ctx, Option::None);
                                    let (acc2, def2) = branch_accumulate_exec(ctx, bv, acc, true);
                                    acc = acc2;
                                    definite = def2;
                                },
                                TestResponse::Never => {
                                    ctx.push_note(
                                        CompilationNote::with_two(
                                            NoteOccurance::Never,
                                            NoteType::Warn(WarnType::BlockContentsCalled),
                                            Option::Some(cond.range),
                                            NoteDetail::CondAlwaysFails,
                                            Option::Some(blk.range),
                                            NoteDetail::ConsiderRemovingCase,
                                        ),
                                    );
                                },
                                TestResponse::Sometimes => {
                                    let bv = blk.verify(ctx, Option::None);
                                    let (acc2, def2) = branch_accumulate_exec(ctx, bv, acc, false);
                                    acc = acc2;
                                    definite = def2;
                                },
                                TestResponse::Failed => {},
                            }
                        },
                        ValueType::Unknown => {
                            let bv = blk.verify(ctx, Option::None);
                            let (acc2, def2) = branch_accumulate_exec(ctx, bv, acc, false);
                            acc = acc2;
                            definite = def2;
                        },
                        _ => {
                            let ct = cv.type_def();
                            ctx.push_note(
                                CompilationNote::with_one(
                                    NoteOccurance::Always,
                                    NoteType::Error(ErrorType::InvalidTypeReceived),
                                    Option::Some(cond.range),
                                    NoteDetail::ExpectedBool(ct),
                                ),
                            );
                        },
                    }
                    i = i + 1;
                }
                proof {
                    if !(i < clauses@.len()) {
                        assert(csv.skip(i as int) =~= Seq::<(Expression, Block, Range)>::empty());
                    }
                    assert(if_clauses_s(ctx@, csv.skip(i as int), view_opt(acc), i == 0, definite)
                        == (ctx@, view_opt(acc), definite));
                }
                if !definite {
                    match els {
                        Option::Some((eb, _)) => {
                            let ev = eb.verify(ctx, Option::None);
                            let (acc2, _) = branch_accumulate_exec(ctx, ev, acc, false);
                            acc = acc2;
                        },
                        Option::None => {
                            match &acc {
                                Option::Some(v) => {
                                    if !(matches!(v.value, ValueType::Void)) {
                                        let vt = v.type_def();
                                        ctx.push_note(
                                            CompilationNote::with_one(
                                                NoteOccurance::Always,
                                                NoteType::Error(ErrorType::InvalidTypeReceived),
                                                Option::Some(self.range),
                                                NoteDetail::MissingElse(vt),
                                            ),
                                        );
                                    }
                                },
                                Option::None => {},
                            }
                        },
                    }
                }
                match acc {
                    Option::Some(v) => v,
                    Option::None => Value { value: ValueType::Void, range: self.range },
                }
            },
        }
    }
}

impl Statement {
    /// Evaluate one statement.
    fn verify(&self, ctx: &mut VerificationContext) -> (r: Value)
        requires
            wf_ctx(old(ctx)@),
            old(ctx)@.scopes.len() > 0,
            wf_statement(*self),
        ensures
            final(ctx)@ == verify_stmt_s(old(ctx)@, *self).0,
            r@ == verify_stmt_s(old(ctx)@, *self).1,
            scopes_extend_top(old(ctx)@.scopes, final(ctx)@.scopes),
            wf_ctx(final(ctx)@),
            wf_value(r@),
        decreases self,
    {
        match &self.stmt {
            StatementType::Expression(e) => {
                let r = e.verify(ctx);
                proof {
                    lemma_extend_top_refl(ctx@.scopes);
                }
                r
            },
            StatementType::InitVar(name, _, e) => {
                let v = e.verify(ctx);
                let ghost vv = v@;
                let vrange = v.range;
                let dup = ctx.scopes.add_symbol(name, Symbol::from(v));
                match dup {
                    Option::Some(prior_range) => {
                        ctx.push_note(
                            CompilationNote::with_two(
                                NoteOccurance::Always,
                                NoteType::Error(ErrorType::DuplicateSymbol),
                                Option::Some(prior_range),
                                NoteDetail::SymbolDefinedHere,
                                Option::Some(vrange),
                                NoteDetail::SymbolRedefinedHere,
                            ),
                        );
                    },
                    Option::None => {},
                }
                proof {
                    assert(ctx@ == verify_stmt_s(old(ctx)@, *self).0);
                }
                Value { value: ValueType::Void, range: self.range }
            },
        }
    }
}

/// The scope stack after some statements: same depth and same outer
/// scopes, with the innermost scope's symbols possibly extended.
pub open spec fn scopes_extend_top(a: Seq<ScopeS>, b: Seq<ScopeS>) -> bool {
    &&& b.len() == a.len()
    &&& a.len() > 0
    &&& b.last().open == a.last().open
    &&& b.last().name == a.last().name
    &&& a.last().symbols.is_prefix_of(b.last().symbols)
    &&& forall|i: int| 0 <= i < a.len() - 1 ==> a[i] == #[trigger] b[i]
}

pub proof fn lemma_extend_top_refl(a: Seq<ScopeS>)
    requires
        a.len() > 0,
    ensures
        scopes_extend_top(a, a),
{
    assert(a.last().symbols.is_prefix_of(a.last().symbols)) by {
        assert(a.last().symbols =~= a.last().symbols.take(a.last().symbols.len() as int));
    }
}

pub proof fn lemma_extend_top_trans(a: Seq<ScopeS>, b: Seq<ScopeS>, c: Seq<ScopeS>)
    requires
        scopes_extend_top(a, b),
        scopes_extend_top(b, c),
    ensures
        scopes_extend_top(a, c),
{
    assert(a.last().symbols.is_prefix_of(c.last().symbols)) by {
        assert(a.last().symbols =~= c.last().symbols.take(a.last().symbols.len() as int));
    }
}

impl Block {
    /// Evaluate a block: its statements in order inside a fresh child
    /// scope, which closes afterwards.
    #[verifier::loop_isolation(false)]
    pub fn verify(&self, ctx: &mut VerificationContext, name: Option<&String>) -> (r: Value)
        requires
            wf_ctx(old(ctx)@),
            old(ctx)@.scopes.len() > 0,
            wf_block(*self),
        ensures
            final(ctx)@ == verify_block_s(old(ctx)@, *self, view_name(name)).0,
            r@ == verify_block_s(old(ctx)@, *self, view_name(name)).1,
            final(ctx)@.scopes == old(ctx)@.scopes,
            wf_ctx(final(ctx)@),
            wf_value(r@),
        decreases self,
    {
        let owned_name: Option<String> = match name {
            Option::Some(n) => Option::Some(n.clone()),
            Option::None => Option::None,
        };
        let g = ctx.scopes.enter_subscope(owned_name);
        let ghost c_open = ctx@;
        let ghost ssv = self.stmts@;
        let mut last = Value { value: ValueType::Void, range: self.range };
        let ghost dflt = last@;
        let mut i: usize = 0;
        proof {
            assert(ssv.skip(0) =~= ssv);
        }
        while i < self.stmts.len()
            invariant
                i <= self.stmts@.len(),
                verify_stmts_s(c_open, ssv, dflt) == verify_stmts_s(
                    ctx@,
                    ssv.skip(i as int),
                    last@,
                ),
                wf_ctx(ctx@),
                scopes_extend_top(c_open.scopes, ctx@.scopes),
                wf_value(last@),
            decreases self.stmts@.len() - i,
        {
            proof {
                lemma_wf_statements_index(ssv, i as int);
                assert(ssv.skip(i as int).first() == ssv[i as int]);
                assert(ssv.skip(i as int).drop_first() =~= ssv.skip(i as int + 1));
            }
            let ghost before = ctx@.scopes;
            let v = self.stmts[i].verify(ctx);
            last = v;
            i = i + 1;
            proof {
                lemma_extend_top_trans(c_open.scopes, before, ctx@.scopes);
            }
        }
        proof {
            assert(ssv.skip(i as int) =~= Seq::<Statement>::empty());
        }
        proof {
            assert(guard_valid(ctx@.scopes, g));
        }
        let ghost pre_exit = ctx@.scopes;
        ctx.exit_scope(g);
        proof {
            let marked = pre_exit.update(
                g.index as int,
                ScopeS {
                    name: pre_exit[g.index as int].name,
                    symbols: pre_exit[g.index as int].symbols,
                    open: false,
                },
            );
            assert(marked.drop_last() =~= old(ctx)@.scopes);
            assert(pop_closed_s(marked) == pop_closed_s(marked.drop_last()));
            assert(pop_closed_s(old(ctx)@.scopes) == old(ctx)@.scopes);
            assert(ctx@.scopes =~= old(ctx)@.scopes);
            assert(ctx@ == verify_block_s(old(ctx)@, *self, view_name(name)).0);
        }
        if self.retlast {
            last
        } else {
            Value { value: ValueType::Void, range: self.range }
        }
    }
}

/// The mathematical image of an optional scope name.
pub open spec fn view_name(n: Option<&String>) -> Option<Seq<char>> {
    match n {
        Option::Some(s) => Option::Some(s@),
        Option::None => Option::None,
    }
}


impl Declaration {
    /// Pass one: register that the declaration exists, so that other
    /// declarations can reference it, and resolve `#[entry]` headers.
    #[verifier::loop_isolation(false)]
    #[verifier::rlimit(50)]
    fn verify_register(&self, ctx: &mut VerificationContext, idx: usize)
        requires
            wf_ctx(old(ctx)@),
            old(ctx)@.scopes.len() > 0,
            wf_declaration(*self),
        ensures
            final(ctx)@ == register_decl_s(old(ctx)@, *self, idx as int),
            scopes_extend_top(old(ctx)@.scopes, final(ctx)@.scopes),
            wf_ctx(final(ctx)@),
        decreases self,
    {
        match &self.decl {
            DeclarationType::Module(parts, _) => {
                let name = &parts[parts.len() - 1];
                proof {
                    assert(parts@.last() == parts@[parts@.len() - 1]);
                }
                let v = Value { value: ValueType::Unknown, range: self.range };
                let vrange = v.range;
                let dup = ctx.scopes.add_symbol(name, Symbol::from(v));
                match dup {
                    Option::Some(prior_range) => {
                        ctx.push_note(
                            CompilationNote::with_two(
                                NoteOccurance::Always,
                                NoteType::Error(ErrorType::DuplicateSymbol),
                                Option::Some(prior_range),
                                NoteDetail::SymbolDefinedHere,
                                Option::Some(vrange),
                                NoteDetail::SymbolRedefinedHere,
                            ),
                        );
                    },
                    Option::None => {},
                }
            },
            DeclarationType::Function(name, _, _, _, _) => {
                let params: Vec<(String, Value)> = Vec::new();
                proof {
                    assert(crate::value::params_view(params@)
                        =~= Seq::<(Seq<char>, ValueS)>::empty());
                    assert(crate::value::wf_params(Seq::<(Seq<char>, ValueS)>::empty()));
                }
                let v = Value {
                    value: ValueType::Function(Box::new(params), Box::new(Option::None), idx),
                    range: self.range,
                };
                proof {
                    assert(v@.value->Function_0 =~= Seq::<(Seq<char>, ValueS)>::empty());
                    assert(wf_value(v@));
                }
                let vrange = v.range;
                let dup = ctx.scopes.add_symbol(name, Symbol::from(v));
                match dup {
                    Option::Some(prior_range) => {
                        ctx.push_note(
                            CompilationNote::with_two(
                                NoteOccurance::Always,
                                NoteType::Error(ErrorType::DuplicateSymbol),
                                Option::Some(prior_range),
                                NoteDetail::SymbolDefinedHere,
                                Option::Some(vrange),
                                NoteDetail::SymbolRedefinedHere,
                            ),
                        );
                    },
                    Option::None => {},
                }
                let ghost c1 = ctx@;
                let ghost path = path_names_s(c1.scopes).push(name@);
                let ghost hsv = self.headers@;
                let mut j: usize = 0;
                proof {
                    assert(hsv.skip(0) =~= hsv);
                }
                while j < self.headers.len()
                    invariant
                        j <= self.headers@.len(),
                        register_headers_s(c1, hsv, path) == register_headers_s(
                            ctx@,
                            hsv.skip(j as int),
                            path,
                        ),
                        ctx@.scopes == c1.scopes,
                        wf_ctx(ctx@),
                    decreases self.headers@.len() - j,
                {
                    proof {
                        assert(hsv.skip(j as int).first() == hsv[j as int]);
                        assert(hsv.skip(j as int).drop_first() =~= hsv.skip(j as int + 1));
                    }
                    let ghost cur = ctx@;
                    let header = &self.headers[j];
                    match &header.header {
                        DeclarationHeaderType::Entry => {
                            let prior: Option<Range> = match &ctx.info.entry {
                                Option::Some((prange, _)) => Option::Some(*prange),
                                Option::None => Option::None,
                            };
                            match prior {
                                Option::Some(prange) => {
                                    ctx.push_note(
                                        CompilationNote::with_two(
                                            NoteOccurance::Always,
                                            NoteType::Error(ErrorType::DuplicateEntryHeader),
                                            Option::Some(prange),
                                            NoteDetail::EntryDefinedHere,
                                            Option::Some(header.range),
                                            NoteDetail::EntryRedefinedHere,
                                        ),
                                    );
                                },
                                Option::None => {
                                    let p = ctx.scopes.module_with_sub(name);
                                    ctx.info.entry = Option::Some((header.range, p));
                                    proof {
                                        assert(ctx@ =~= (CtxS {
                                            scopes: cur.scopes,
                                            notes: cur.notes,
                                            entry: Option::Some((header.range, path)),
                                        }));
                                    }
                                },
                            }
                        },
                    }
                    j = j + 1;
                }
                proof {
                    assert(hsv.skip(j as int) =~= Seq::<DeclarationHeader>::empty());
                }
            },
        }
    }

    /// Pass two: verify the contents of the declaration. A function
    /// body runs in a fresh child scope named after the function.
    fn verify_contents(&self, ctx: &mut VerificationContext)
        requires
            wf_ctx(old(ctx)@),
            old(ctx)@.scopes.len() > 0,
            wf_declaration(*self),
        ensures
            final(ctx)@ == contents_decl_s(old(ctx)@, *self),
            final(ctx)@.scopes == old(ctx)@.scopes,
            wf_ctx(final(ctx)@),
        decreases self,
    {
        match &self.decl {
            DeclarationType::Module(_, _) => {},
            DeclarationType::Function(name, _, _, _, block) => {
                let _ = block.verify(ctx, Option::Some(name));
            },
        }
    }
}

impl Program {
    /// Verify a whole module: register every top-level declaration, then
    /// check every body, so forward and mutual references resolve. The
    /// caller opens the root scope beforehand.
    #[verifier::loop_isolation(false)]
    #[verifier::rlimit(50)]
    pub fn verify(&self, ctx: &mut VerificationContext)
        requires
            wf_ctx(old(ctx)@),
            old(ctx)@.scopes.len() > 0,
            wf_program(*self),
        ensures
            final(ctx)@ == verify_program_s(old(ctx)@, *self),
            wf_ctx(final(ctx)@),
        decreases self,
    {
        let ghost c0 = ctx@;
        let ghost dsv = self.decls@;
        let mut i: usize = 0;
        proof {
            assert(dsv.skip(0) =~= dsv);
        }
        while i < self.decls.len()
            invariant
                i <= self.decls@.len(),
                register_decls_s(c0, dsv, 0) == register_decls_s(
                    ctx@,
                    dsv.skip(i as int),
                    i as int,
                ),
                scopes_extend_top(c0.scopes, ctx@.scopes),
                wf_ctx(ctx@),
            decreases self.decls@.len() - i,
        {
            proof {
                assert(wf_declaration(dsv[i as int]));
                assert(dsv.skip(i as int).first() == dsv[i as int]);
                assert(dsv.skip(i as int).drop_first() =~= dsv.skip(i as int + 1));
            }
            let ghost before = ctx@.scopes;
            self.decls[i].verify_register(ctx, i);
            i = i + 1;
            proof {
                lemma_extend_top_trans(c0.scopes, before, ctx@.scopes);
            }
        }
        proof {
            assert(dsv.skip(i as int) =~= Seq::<Declaration>::empty());
        }
        let ghost c_reg = ctx@;
        let mut k: usize = 0;
        proof {
            assert(dsv.skip(0) =~= dsv);
        }
        while k < self.decls.len()
            invariant
                k <= self.decls@.len(),
                contents_decls_s(c_reg, dsv) == contents_decls_s(ctx@, dsv.skip(k as int)),
                ctx@.scopes == c_reg.scopes,
                wf_ctx(ctx@),
            decreases self.decls@.len() - k,
        {
            proof {
                assert(wf_declaration(dsv[k as int]));
                assert(dsv.skip(k as int).first() == dsv[k as int]);
                assert(dsv.skip(k as int).drop_first() =~= dsv.skip(k as int + 1));
            }
            self.decls[k].verify_contents(ctx);
            k = k + 1;
        }
        proof {
            assert(dsv.skip(k as int) =~= Seq::<Declaration>::empty());
        }
    }
}

} // verus!
