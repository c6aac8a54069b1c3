//! Tests of the two-pass verifier: branch classification, type
//! unification, symbol resolution, and entry-point handling.

use vesuvius::{
    Atom, AtomType, Block, CompilationNote, Declaration, DeclarationHeader, DeclarationHeaderType,
    DeclarationType, DeclarationVisibility, DeclarationVisibilityType, ErrorType, Expression,
    ExpressionType, Literal, LiteralType, NoteDetail, NoteOccurance, NoteType, Program, Range,
    ScopeArena, Statement, StatementType, Symbol, Value, ValueType, VerificationContext, WarnType,
};

fn rng(start: usize, end: usize) -> Range {
    Range { module: 0, start, end }
}

fn lit(l: LiteralType, at: usize) -> Expression {
    Expression {
        expr: ExpressionType::Atom(Atom {
            atom: AtomType::Literal(Literal { lit: l, range: rng(at, at + 1) }),
            range: rng(at, at + 1),
        }),
        range: rng(at, at + 1),
    }
}

fn num(digits: Vec<u8>, at: usize) -> Expression {
    lit(LiteralType::Int(digits), at)
}

fn dec(ip: Vec<u8>, fp: Vec<u8>, at: usize) -> Expression {
    lit(LiteralType::Float(ip, fp), at)
}

fn truth(b: bool, at: usize) -> Expression {
    lit(LiteralType::Bool(b), at)
}

fn ident(name: &str, at: usize) -> Expression {
    lit(LiteralType::Identifier(String::from(name)), at)
}

fn binop(
    f: fn(Box<Expression>, Box<Expression>) -> ExpressionType,
    l: Expression,
    r: Expression,
    at: usize,
) -> Expression {
    Expression { expr: f(Box::new(l), Box::new(r)), range: rng(at, at + 2) }
}

fn expr_stmt(e: Expression) -> Statement {
    let range = e.range;
    Statement { stmt: StatementType::Expression(e), range }
}

fn let_stmt(name: &str, e: Expression, at: usize) -> Statement {
    Statement {
        stmt: StatementType::InitVar(String::from(name), rng(at, at + 1), e),
        range: rng(at, at + 3),
    }
}

fn block(stmts: Vec<Statement>, retlast: bool, at: usize) -> Block {
    Block { stmts, retlast, range: rng(at, at + 5) }
}

fn value_block(e: Expression, at: usize) -> Block {
    block(vec![expr_stmt(e)], true, at)
}

fn if_expr(
    clauses: Vec<(Expression, Block)>,
    els: Option<Block>,
    at: usize,
) -> Expression {
    let cs = clauses
        .into_iter()
        .map(|(c, b)| {
            let r = rng(c.range.start, b.range.end);
            (c, b, r)
        })
        .collect();
    let e = els.map(|b| {
        let r = b.range;
        (b, r)
    });
    Expression {
        expr: ExpressionType::Atom(Atom { atom: AtomType::If(cs, e), range: rng(at, at + 9) }),
        range: rng(at, at + 9),
    }
}

fn func(name: &str, entry: bool, body: Block, at: usize) -> Declaration {
    let headers = if entry {
        vec![DeclarationHeader { header: DeclarationHeaderType::Entry, range: rng(at, at + 1) }]
    } else {
        Vec::new()
    };
    Declaration {
        headers,
        vis: DeclarationVisibility {
            vis: DeclarationVisibilityType::Private,
            range: rng(at, at),
        },
        decl: DeclarationType::Function(
            String::from(name),
            rng(at + 1, at + 2),
            Vec::new(),
            None,
            body,
        ),
        range: rng(at, at + 20),
    }
}

fn run(p: &Program) -> VerificationContext {
    let mut ctx = VerificationContext::new();
    let _root = ctx.open_root(None);
    p.verify(&mut ctx);
    ctx
}

fn run_block(b: &Block) -> (VerificationContext, Value) {
    let mut ctx = VerificationContext::new();
    let _root = ctx.open_root(None);
    let v = b.verify(&mut ctx, None);
    (ctx, v)
}

fn errors_of(ctx: &VerificationContext, kind: ErrorType) -> Vec<&CompilationNote> {
    ctx.notes
        .iter()
        .filter(|n| matches!(n.note, NoteType::Error(k) if k == kind))
        .collect()
}

fn warns_of(ctx: &VerificationContext, kind: WarnType) -> Vec<&CompilationNote> {
    ctx.notes
        .iter()
        .filter(|n| matches!(n.note, NoteType::Warn(k) if k == kind))
        .collect()
}

#[test]
fn if_true_yields_integer_and_one_warning() {
    // if (true) {1} else {2}
    let e = if_expr(
        vec![(truth(true, 0), value_block(num(vec![1], 2), 2))],
        Some(value_block(num(vec![2], 8), 8)),
        0,
    );
    let b = value_block(e, 0);
    let (ctx, v) = run_block(&b);
    assert!(matches!(v.value, ValueType::IntBig(_)));
    let warns = warns_of(&ctx, WarnType::BlockContentsCalled);
    assert_eq!(warns.len(), 1);
    assert_eq!(warns[0].occurance, NoteOccurance::Always);
    assert!(errors_of(&ctx, ErrorType::InvalidTypeReceived).is_empty());
    assert_eq!(ctx.notes.len(), 1);
}

#[test]
fn if_one_equals_two_branch_proven_dead() {
    // if (1 == 2) { y } else {2}: the first block is never evaluated, so
    // the unknown symbol inside it is never reported.
    let cond = binop(ExpressionType::EqualsOperation, num(vec![1], 0), num(vec![2], 2), 0);
    let e = if_expr(
        vec![(cond, value_block(ident("y", 5), 5))],
        Some(value_block(num(vec![2], 8), 8)),
        0,
    );
    let b = value_block(e, 0);
    let (ctx, _) = run_block(&b);
    let warns = warns_of(&ctx, WarnType::BlockContentsCalled);
    assert_eq!(warns.len(), 1);
    assert_eq!(warns[0].occurance, NoteOccurance::Never);
    assert!(errors_of(&ctx, ErrorType::UnknownSymbol).is_empty());
    assert_eq!(ctx.notes.len(), 1);
}

#[test]
fn if_branch_types_must_agree() {
    // if (cond) {1} else {1.0} with an unresolved condition: exactly one
    // invalid-type diagnostic, and the overall result is the fail-soft
    // placeholder.
    let e = if_expr(
        vec![(ident("cond", 0), value_block(num(vec![1], 3), 3))],
        Some(value_block(dec(vec![1], vec![0], 7), 7)),
        0,
    );
    let b = value_block(e, 0);
    let (ctx, v) = run_block(&b);
    assert_eq!(errors_of(&ctx, ErrorType::InvalidTypeReceived).len(), 1);
    match v.value {
        ValueType::Bool(c) => {
            assert!(matches!(c.0, vesuvius::ValConstrState::Failed));
        },
        _ => panic!("expected the fail-soft placeholder"),
    }
}

#[test]
fn let_shadowing_in_function_body_is_allowed() {
    // let x = 1; let x = 2; inside one function body: no diagnostic.
    let body = block(
        vec![
            let_stmt("x", num(vec![1], 1), 0),
            let_stmt("x", num(vec![2], 5), 4),
        ],
        false,
        0,
    );
    let p = Program { decls: vec![func("f", false, body, 0)] };
    let ctx = run(&p);
    assert_eq!(ctx.notes.len(), 0);
}

#[test]
fn duplicate_top_level_function_is_reported_once() {
    let p = Program {
        decls: vec![
            func("f", false, block(vec![], false, 3), 0),
            func("f", false, block(vec![], false, 23), 20),
        ],
    };
    let ctx = run(&p);
    let dups = errors_of(&ctx, ErrorType::DuplicateSymbol);
    assert_eq!(dups.len(), 1);
    // Both origins are cited.
    assert_eq!(dups[0].details.len(), 2);
    assert_eq!(dups[0].details[0].0, Some(rng(0, 20)));
    assert_eq!(dups[0].details[1].0, Some(rng(20, 40)));
}

#[test]
fn duplicate_entry_header_first_wins() {
    let p = Program {
        decls: vec![
            func("main", true, block(vec![], false, 3), 0),
            func("other", true, block(vec![], false, 23), 20),
        ],
    };
    let ctx = run(&p);
    let dups = errors_of(&ctx, ErrorType::DuplicateEntryHeader);
    assert_eq!(dups.len(), 1);
    assert_eq!(dups[0].details.len(), 2);
    let (entry_range, path) = ctx.info.entry.expect("an entry point should be resolved");
    assert_eq!(entry_range, rng(0, 1));
    assert_eq!(path, vec![String::from("main")]);
}

#[test]
fn unknown_symbol_does_not_stop_later_declarations() {
    // f references an undefined name; g still gets checked, and its own
    // defect is found.
    let f_body = block(vec![expr_stmt(ident("missing", 3))], false, 2);
    let bad = binop(
        ExpressionType::EqualsOperation,
        num(vec![1], 23),
        truth(true, 25),
        23,
    );
    let g_body = block(vec![expr_stmt(bad)], false, 22);
    let p = Program {
        decls: vec![func("f", false, f_body, 0), func("g", false, g_body, 20)],
    };
    let ctx = run(&p);
    assert_eq!(errors_of(&ctx, ErrorType::UnknownSymbol).len(), 1);
    assert_eq!(errors_of(&ctx, ErrorType::InvalidTypeReceived).len(), 1);
}

#[test]
fn child_scope_symbol_unreachable_after_close() {
    let mut arena = ScopeArena::new();
    let _root = arena.open_root(None);
    let g = arena.enter_subscope(Some(String::from("inner")));
    let v = Value { value: ValueType::Void, range: rng(0, 1) };
    let dup = arena.add_symbol(&String::from("v"), Symbol::from(v));
    assert!(dup.is_none());
    assert!(arena.get_symbol(&String::from("v")).is_some());
    arena.exit_subscope(g);
    assert!(arena.get_symbol(&String::from("v")).is_none());
}

#[test]
fn lookup_finds_nearest_definition() {
    let mut arena = ScopeArena::new();
    let _root = arena.open_root(None);
    let outer = Value { value: ValueType::Void, range: rng(0, 1) };
    arena.add_symbol(&String::from("x"), Symbol::from(outer));
    let _inner = arena.enter_subscope(None);
    let inner = Value { value: ValueType::Unknown, range: rng(5, 6) };
    arena.add_symbol(&String::from("x"), Symbol::from(inner));
    let found = arena.get_symbol(&String::from("x")).expect("x is defined");
    assert!(matches!(found.value, ValueType::Unknown));
    assert_eq!(found.range, rng(5, 6));
}

#[test]
fn let_binds_value_for_later_use() {
    // let x = 1; if (x == 1) {2} else {2}: the condition is provably
    // always true, through the symbol table.
    let cond = binop(ExpressionType::EqualsOperation, ident("x", 8), num(vec![1], 10), 8);
    let e = if_expr(
        vec![(cond, value_block(num(vec![2], 14), 14))],
        Some(value_block(num(vec![2], 18), 18)),
        8,
    );
    let b = block(vec![let_stmt("x", num(vec![1], 4), 0), expr_stmt(e)], true, 0);
    let (ctx, _) = run_block(&b);
    let warns = warns_of(&ctx, WarnType::BlockContentsCalled);
    assert_eq!(warns.len(), 1);
    assert_eq!(warns[0].occurance, NoteOccurance::Always);
}

#[test]
fn big_arithmetic_reaches_the_backend() {
    // if (200 + 100 == 300) {1} else {1}: addition crosses a byte
    // boundary, so a backend that handed digits back unchanged would
    // fail this.
    let sum = binop(
        ExpressionType::AdditionOperation,
        num(vec![2, 0, 0], 0),
        num(vec![1, 0, 0], 4),
        0,
    );
    let cond = binop(ExpressionType::EqualsOperation, sum, num(vec![3, 0, 0], 9), 0);
    let e = if_expr(
        vec![(cond, value_block(num(vec![1], 14), 14))],
        Some(value_block(num(vec![1], 18), 18)),
        0,
    );
    let (ctx, _) = run_block(&value_block(e, 0));
    let warns = warns_of(&ctx, WarnType::BlockContentsCalled);
    assert_eq!(warns.len(), 1);
    assert_eq!(warns[0].occurance, NoteOccurance::Always);
    assert!(errors_of(&ctx, ErrorType::BoundBroken).is_empty());
}

#[test]
fn big_division_truncates() {
    // if (10 / 3 == 3) {1} else {1}
    let q = binop(
        ExpressionType::DivisionOperation,
        num(vec![1, 0], 0),
        num(vec![3], 3),
        0,
    );
    let cond = binop(ExpressionType::EqualsOperation, q, num(vec![3], 6), 0);
    let e = if_expr(
        vec![(cond, value_block(num(vec![1], 10), 10))],
        Some(value_block(num(vec![1], 14), 14)),
        0,
    );
    let (ctx, _) = run_block(&value_block(e, 0));
    let warns = warns_of(&ctx, WarnType::BlockContentsCalled);
    assert_eq!(warns.len(), 1);
    assert_eq!(warns[0].occurance, NoteOccurance::Always);
}

#[test]
fn division_by_zero_is_reported() {
    let q = binop(
        ExpressionType::DivisionOperation,
        num(vec![1], 0),
        num(vec![0], 2),
        0,
    );
    let (ctx, _) = run_block(&block(vec![expr_stmt(q)], false, 0));
    let broke = errors_of(&ctx, ErrorType::BoundBroken);
    assert_eq!(broke.len(), 1);
    assert_eq!(broke[0].occurance, NoteOccurance::Always);
}

#[test]
fn decimal_literals_compare_exactly() {
    // if (1.5 == 1.50) {1} else {1}
    let cond = binop(
        ExpressionType::EqualsOperation,
        dec(vec![1], vec![5], 0),
        dec(vec![1], vec![5, 0], 4),
        0,
    );
    let e = if_expr(
        vec![(cond, value_block(num(vec![1], 10), 10))],
        Some(value_block(num(vec![1], 14), 14)),
        0,
    );
    let (ctx, _) = run_block(&value_block(e, 0));
    let warns = warns_of(&ctx, WarnType::BlockContentsCalled);
    assert_eq!(warns.len(), 1);
    assert_eq!(warns[0].occurance, NoteOccurance::Always);
}

#[test]
fn decimal_arithmetic_is_an_invalid_operation() {
    let s = binop(
        ExpressionType::AdditionOperation,
        dec(vec![1], vec![5], 0),
        dec(vec![1], vec![5], 4),
        0,
    );
    let (ctx, _) = run_block(&block(vec![expr_stmt(s)], false, 0));
    let errs = errors_of(&ctx, ErrorType::InvalidTypeReceived);
    assert_eq!(errs.len(), 1);
    assert!(matches!(errs[0].details[0].1, NoteDetail::UnsupportedOperation(_)));
}

#[test]
fn mixed_operand_types_are_reported_with_both_sides() {
    // 1 == 1.0 names both operand ranges and the other side's type.
    let cmp = binop(
        ExpressionType::EqualsOperation,
        num(vec![1], 0),
        dec(vec![1], vec![0], 2),
        0,
    );
    let (ctx, _) = run_block(&block(vec![expr_stmt(cmp)], false, 0));
    let errs = errors_of(&ctx, ErrorType::InvalidTypeReceived);
    assert_eq!(errs.len(), 1);
    assert_eq!(errs[0].details.len(), 2);
    match (&errs[0].details[0].1, &errs[0].details[1].1) {
        (NoteDetail::DoesNotMatchType(a), NoteDetail::DoesNotMatchType(b)) => {
            assert_eq!(a, "floatbig");
            assert_eq!(b, "intbig");
        },
        _ => panic!("expected both operand remarks"),
    }
}

#[test]
fn missing_else_with_value_result_is_reported() {
    // if (c) {1} with no else: a void path exists while the branch has a
    // value, which is an invalid type.
    let e = if_expr(vec![(ident("c", 0), value_block(num(vec![1], 3), 3))], None, 0);
    let (ctx, _) = run_block(&value_block(e, 0));
    let errs = errors_of(&ctx, ErrorType::InvalidTypeReceived);
    assert_eq!(errs.len(), 1);
    assert!(matches!(errs[0].details[0].1, NoteDetail::MissingElse(_)));
}

#[test]
fn non_boolean_condition_is_reported() {
    let e = if_expr(
        vec![(num(vec![1], 0), value_block(num(vec![1], 3), 3))],
        Some(value_block(num(vec![1], 8), 8)),
        0,
    );
    let (ctx, _) = run_block(&value_block(e, 0));
    let errs = errors_of(&ctx, ErrorType::InvalidTypeReceived);
    assert_eq!(errs.len(), 1);
    assert!(matches!(errs[0].details[0].1, NoteDetail::ExpectedBool(_)));
}

#[test]
fn type_names_render() {
    let one = value_block(num(vec![1], 0), 0);
    let (_, v) = run_block(&one);
    assert_eq!(v.type_def(), "intbig");
    let t = value_block(truth(true, 0), 0);
    let (_, v) = run_block(&t);
    assert_eq!(v.type_def(), "bool");
    let empty = block(vec![], false, 0);
    let (_, v) = run_block(&empty);
    assert_eq!(v.type_def(), "void");
}

#[test]
fn elif_chain_orders_warnings() {
    // if (1 == 2) {1} elif (true) {2} else {3}: first clause never, second
    // always.
    let c1 = binop(ExpressionType::EqualsOperation, num(vec![1], 0), num(vec![2], 2), 0);
    let e = if_expr(
        vec![
            (c1, value_block(num(vec![1], 5), 5)),
            (truth(true, 8), value_block(num(vec![2], 10), 10)),
        ],
        Some(value_block(num(vec![3], 14), 14)),
        0,
    );
    let (ctx, v) = run_block(&value_block(e, 0));
    let warns = warns_of(&ctx, WarnType::BlockContentsCalled);
    assert_eq!(warns.len(), 2);
    assert_eq!(warns[0].occurance, NoteOccurance::Never);
    assert_eq!(warns[1].occurance, NoteOccurance::Always);
    assert!(matches!(warns[1].details[1].1, NoteDetail::ConsiderReplacingWithElse));
    assert!(matches!(v.value, ValueType::IntBig(_)));
}

#[test]
fn failed_condition_is_skipped_silently() {
    // The condition `1 == true` is itself ill-typed; its clause carries no
    // information, so the conditional reports the operand mismatch and
    // nothing about dead branches.
    let cond = binop(
        ExpressionType::EqualsOperation,
        num(vec![1], 0),
        truth(true, 2),
        0,
    );
    let e = if_expr(
        vec![(cond, value_block(num(vec![1], 5), 5))],
        Some(value_block(num(vec![1], 8), 8)),
        0,
    );
    let (ctx, _) = run_block(&value_block(e, 0));
    assert!(warns_of(&ctx, WarnType::BlockContentsCalled).is_empty());
    assert_eq!(errors_of(&ctx, ErrorType::InvalidTypeReceived).len(), 1);
}

#[test]
fn empty_program_verifies_clean() {
    let p = Program { decls: Vec::new() };
    let ctx = run(&p);
    assert!(ctx.notes.is_empty());
    assert!(ctx.info.entry.is_none());
}

#[test]
fn module_placeholder_registers_name() {
    // `mod sub;` registers a placeholder for `sub`; a function referring
    // to it does not raise unknown-symbol.
    let m = Declaration {
        headers: Vec::new(),
        vis: DeclarationVisibility {
            vis: DeclarationVisibilityType::Private,
            range: rng(0, 0),
        },
        decl: DeclarationType::Module(vec![String::from("sub")], rng(4, 7)),
        range: rng(0, 8),
    };
    let body = block(vec![expr_stmt(ident("sub", 23))], false, 22);
    let p = Program { decls: vec![m, func("f", false, body, 20)] };
    let ctx = run(&p);
    assert!(errors_of(&ctx, ErrorType::UnknownSymbol).is_empty());
}

#[test]
fn forward_reference_resolves() {
    // f's body refers to g, declared after f: registration happens for
    // every declaration before any body is checked.
    let f_body = block(vec![expr_stmt(ident("g", 3))], false, 2);
    let p = Program {
        decls: vec![
            func("f", false, f_body, 0),
            func("g", false, block(vec![], false, 23), 20),
        ],
    };
    let ctx = run(&p);
    assert!(errors_of(&ctx, ErrorType::UnknownSymbol).is_empty());
}
