//! Syntax tree consumed by the verifier, as produced by the parser upstream.
//!
//! Every node carries a [`Range`] locating it in its source module, so that
//! diagnostics can point at the text that caused them. Source modules are
//! identified by a plain numeric id assigned by the host; numeric literals
//! carry their decimal digits as byte values (`0` through `9`), one digit
//! per element, most significant first.

use vstd::prelude::*;

verus! {

/// A region of source text: which module it is in, and the byte offsets
/// where it starts and ends.
#[derive(Clone, Copy, PartialEq, Eq, Structural, Debug)]
pub struct Range {
    pub module: u32,
    pub start: usize,
    pub end: usize,
}

impl Range {
    pub fn new(module: u32, start: usize, end: usize) -> (r: Range)
        ensures
            r.module == module,
            r.start == start,
            r.end == end,
    {
        Range { module, start, end }
    }
}

/// An ordered list of top-level declarations: one parsed module.
pub struct Program {
    pub decls: Vec<Declaration>,
}

pub struct Declaration {
    pub headers: Vec<DeclarationHeader>,
    pub vis: DeclarationVisibility,
    pub decl: DeclarationType,
    pub range: Range,
}

pub struct DeclarationHeader {
    pub header: DeclarationHeaderType,
    pub range: Range,
}

pub enum DeclarationHeaderType {
    Entry,
}

pub struct DeclarationVisibility {
    pub vis: DeclarationVisibilityType,
    pub range: Range,
}

pub enum DeclarationVisibilityType {
    Public,
    Private,
}

pub enum DeclarationType {
    /// A reference to a child module, by path parts. Resolved outside this
    /// library; registration records a placeholder symbol for the name.
    Module(Vec<String>, Range),
    /// A function: name, range of the name, parameters, optional return
    /// descriptor, and the body.
    Function(String, Range, Vec<(String, TypeDescriptor)>, Option<TypeDescriptor>, Block),
}

pub struct TypeDescriptor {
    pub parts: TypeDescriptorParts,
    pub constr: Vec<(String, Literal)>,
}

pub enum TypeDescriptorParts {
    BuiltIn(String),
    Custom(Vec<String>),
}

pub struct Statement {
    pub stmt: StatementType,
    pub range: Range,
}

pub enum StatementType {
    /// `let name = value`: name, range of the name, initialiser.
    InitVar(String, Range, Expression),
    Expression(Expression),
}

pub struct Expression {
    pub expr: ExpressionType,
    pub range: Range,
}

pub enum ExpressionType {
    EqualsOperation(Box<Expression>, Box<Expression>),
    NotEqualsOperation(Box<Expression>, Box<Expression>),
    GreaterOperation(Box<Expression>, Box<Expression>),
    GreaterEqualsOperation(Box<Expression>, Box<Expression>),
    LessOperation(Box<Expression>, Box<Expression>),
    LessEqualsOperation(Box<Expression>, Box<Expression>),
    AdditionOperation(Box<Expression>, Box<Expression>),
    SubtractionOperation(Box<Expression>, Box<Expression>),
    MultiplicationOperation(Box<Expression>, Box<Expression>),
    DivisionOperation(Box<Expression>, Box<Expression>),
    Atom(Atom),
}

pub struct Atom {
    pub atom: AtomType,
    pub range: Range,
}

pub enum AtomType {
    Literal(Literal),
    Expression(Box<Expression>),
    /// The `if`/`elif` clauses in order (condition, block, clause range),
    /// and the optional `else` block with its range.
    If(Vec<(Expression, Block, Range)>, Option<(Block, Range)>),
}

pub struct Literal {
    pub lit: LiteralType,
    pub range: Range,
}

pub enum LiteralType {
    Bool(bool),
    /// An integer literal: its decimal digits, most significant first.
    Int(Vec<u8>),
    /// A decimal literal: the digits before and after the point.
    Float(Vec<u8>, Vec<u8>),
    Identifier(String),
}

pub struct Block {
    pub stmts: Vec<Statement>,
    /// Whether the block yields the value of its last statement (no trailing
    /// separator after it) rather than `Void`.
    pub retlast: bool,
    pub range: Range,
}

/// A sequence of decimal digit bytes is well formed when it is nonempty and
/// every element is an actual digit.
pub open spec fn wf_digits(ds: Seq<u8>) -> bool {
    ds.len() > 0 && forall|i: int| 0 <= i < ds.len() ==> ds[i] < 10
}

pub open spec fn wf_literal(l: Literal) -> bool {
    match l.lit {
        LiteralType::Bool(_) => true,
        LiteralType::Int(ds) => wf_digits(ds@),
        LiteralType::Float(ip, fp) => wf_digits(ip@) && wf_digits(fp@) && ip@.len() + fp@.len()
            <= usize::MAX as int / 2,
        LiteralType::Identifier(_) => true,
    }
}

pub open spec fn wf_expression(e: Expression) -> bool
    decreases e,
{
    match e.expr {
        ExpressionType::EqualsOperation(l, r) => wf_expression(*l) && wf_expression(*r),
        ExpressionType::NotEqualsOperation(l, r) => wf_expression(*l) && wf_expression(*r),
        ExpressionType::GreaterOperation(l, r) => wf_expression(*l) && wf_expression(*r),
        ExpressionType::GreaterEqualsOperation(l, r) => wf_expression(*l) && wf_expression(*r),
        ExpressionType::LessOperation(l, r) => wf_expression(*l) && wf_expression(*r),
        ExpressionType::LessEqualsOperation(l, r) => wf_expression(*l) && wf_expression(*r),
        ExpressionType::AdditionOperation(l, r) => wf_expression(*l) && wf_expression(*r),
        ExpressionType::SubtractionOperation(l, r) => wf_expression(*l) && wf_expression(*r),
        ExpressionType::MultiplicationOperation(l, r) => wf_expression(*l) && wf_expression(*r),
        ExpressionType::DivisionOperation(l, r) => wf_expression(*l) && wf_expression(*r),
        ExpressionType::Atom(a) => wf_atom(a),
    }
}

pub open spec fn wf_atom(a: Atom) -> bool
    decreases a,
{
    match a.atom {
        AtomType::Literal(l) => wf_literal(l),
        AtomType::Expression(e) => wf_expression(*e),
        AtomType::If(clauses, els) => {
            &&& wf_if_clauses(clauses@)
            &&& match els {
                Option::Some((b, _)) => wf_block(b),
                Option::None => true,
            }
        },
    }
}

pub open spec fn wf_if_clauses(cs: Seq<(Expression, Block, Range)>) -> bool
    decreases cs,
{
    if cs.len() == 0 {
        true
    } else {
        wf_if_clauses(cs.drop_last()) && wf_expression(cs.last().0) && wf_block(cs.last().1)
    }
}

pub open spec fn wf_statement(s: Statement) -> bool
    decreases s,
{
    match s.stmt {
        StatementType::InitVar(_, _, e) => wf_expression(e),
        StatementType::Expression(e) => wf_expression(e),
    }
}

pub open spec fn wf_block(b: Block) -> bool
    decreases b,
{
    wf_statements(b.stmts@)
}

pub open spec fn wf_statements(ss: Seq<Statement>) -> bool
    decreases ss,
{
    if ss.len() == 0 {
        true
    } else {
        wf_statements(ss.drop_last()) && wf_statement(ss.last())
    }
}

pub open spec fn wf_declaration(d: Declaration) -> bool {
    match d.decl {
        DeclarationType::Module(parts, _) => parts@.len() > 0,
        DeclarationType::Function(_, _, _, _, body) => wf_block(body),
    }
}

pub open spec fn wf_program(p: Program) -> bool {
    forall|i: int| 0 <= i < p.decls@.len() ==> wf_declaration(#[trigger] p.decls@[i])
}

} // verus!
