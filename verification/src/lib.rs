//! Semantic verification core for the Vesuvius language front end.
//!
//! Given a parsed module, this library resolves identifiers through nested
//! lexical scopes, checks the type of every expression, and narrows
//! expressions to their possible value sets in order to prove whether
//! conditional branches always, sometimes, or never execute. Ill-typed
//! programs are rejected through an append-only queue of structured
//! notes; every failing evaluation still produces a best-effort value, so
//! one run surfaces as many findings as possible.

use vstd::prelude::*;

mod ast;
mod constr;
mod notes;
mod num;
mod num_fixed;
mod scope;
mod value;
mod verify;

pub use ast::{
    Range, Program, Declaration, DeclarationHeader, DeclarationHeaderType, DeclarationVisibility,
    DeclarationVisibilityType, DeclarationType, TypeDescriptor, TypeDescriptorParts, Statement,
    StatementType, Expression, ExpressionType, Atom, AtomType, Literal, LiteralType, Block,
    wf_digits, wf_literal, wf_expression, wf_atom, wf_if_clauses, wf_statement, wf_statements,
    wf_block, wf_declaration, wf_program,
};
pub use notes::{
    NoteOccurance, WarnType, ErrorType, NoteType, NoteDetail, NoteDetailS, NoteS, CompilationNote,
    note_one, note_two,
};
pub use num::{
    BigNum, DecLit, DecS, Num, NumS, NumKind, bytes_le_value, big_value, digits_be_value,
    dec_scaled, dec_common_scale, wf_dec, wf_num, kind_of, same_num_kind, num_cmp_spec,
    num_arith_spec,
};
pub use num_fixed::{CmpOp, ArithOp, cmp_int_spec, trunc_div, int_arith, fixed_arith};
pub use constr::{
    TestResponse, ValConstrState, ValConstr, ValConstrOrd, ValConstrRange, StateS, RangeS,
    combine_state, state_equiv, lemma_combine_failed, lemma_combine_unconstrained,
    lemma_combine_commutative, lemma_combine_associative, resp_of_flags, neg_op, bool_int,
    cmp_bool, bool_pairs_true, bool_pairs_response, bool_op_response, bool_test_response,
    range_lo, range_hi, num_holds, wf_range, range_kind, pair_true, range_contains,
    ord_pairs_true, ord_pairs_response, ord_op_response, wf_ranges, ranges_one_kind,
    wf_ord_state, ord_states_one_kind, BreakReport, pair_broke, any_bounded, arith_row,
    arith_rows, ord_arith_state, ord_arith_break, lemma_arith_row, lemma_arith_kind,
};
pub use value::{
    Value, ValueType, ValueS, ValueTypeS, value_view, value_type_view, params_view,
    lemma_params_view, ord_state_of_kind, wf_value, wf_value_type, wf_params, matches_type_s,
    params_match_s, combine_value_s, value_cmp_s, value_arith_s, type_def_s, params_def_s,
    lemma_combine_value_wf, lemma_combine_of_kind, lemma_of_kind_pair, lemma_arith_kind_preserved,
    lemma_kind_eq_same, lemma_same_kind_eq,
};
pub use scope::{
    Symbol, Scope, ScopeS, ScopeGuard, ScopeArena, sym_lookup_s, lookup_s, pop_closed_s, close_s,
    wf_scopes, wf_arena, guard_valid, path_names_s, lemma_lookup_none,
    lemma_closed_scope_unreachable, close_target,
};
pub use verify::{
    ProgramInfo, CtxS, VerificationContext, wf_ctx, push_note_s, define_s, define_reported_s,
    resp_state, failed_bool_s, verify_literal_s, operand_mismatch_note, cmp_result_s,
    arith_result_s, verify_expr_s, always_succeeds_note, always_fails_note, expected_bool_note,
    branch_accumulate_s, if_clauses_s, if_finish_s, verify_atom_s, verify_stmt_s, verify_stmts_s,
    verify_block_s, register_headers_s, register_decl_s, register_decls_s, contents_decl_s,
    contents_decls_s, verify_program_s, view_opt, view_name, scopes_extend_top,
    lemma_wf_statements_index, lemma_wf_if_clauses_index, lemma_extend_top_refl,
    lemma_extend_top_trans,
};
