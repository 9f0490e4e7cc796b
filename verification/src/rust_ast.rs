//! The source-side syntax tree: the input of the translator.
//!
//! The upstream parser is an external collaborator; whatever parser is
//! used, its output is converted into these plain values before
//! translation starts.  Every enum carries an `Other` variant standing
//! for a source construct outside the supported shape: translating one
//! is a hard failure, never a silent approximation.
//!
//! The `...V` types are the mathematical models used by the contracts.

use vstd::prelude::*;

verus! {

// ---------------------------------------------------------------------------
// Mathematical model
// ---------------------------------------------------------------------------

/// Model of a literal expression.
pub enum LitV {
    /// Canonical base-10 digits of an integer literal.
    Int { digits: Seq<char> },
    Bool { value: bool },
    Str { text: Seq<char> },
    Other,
}

/// Model of a binding pattern.
pub enum PatV {
    Ident { name: Seq<char> },
    Other,
}

/// Model of a source type annotation.
pub enum TyV {
    /// A (possibly qualified) path type; the segments are in source order.
    Path { segments: Seq<Seq<char>> },
    Reference { mutable: bool, elem: Box<TyV> },
    Array { elem: Box<TyV> },
    Other,
}

/// Model of a function argument.
pub enum ArgV {
    Typed { pat: PatV, typ: TyV },
    Receiver,
}

/// Model of a source expression.
pub enum ExprV {
    Lit { lit: LitV },
    Array { elems: Seq<ExprV> },
    Call { func: Box<ExprV>, args: Seq<ExprV> },
    Return { value: Option<Box<ExprV>> },
    Binary { op: BinOp, left: Box<ExprV>, right: Box<ExprV> },
    /// A (possibly qualified) path expression; the segments are in source order.
    Path { segments: Seq<Seq<char>> },
    Reference { mutable: bool, expr: Box<ExprV> },
    Unary { op: UnOp, expr: Box<ExprV> },
    Block { block: BlockV },
    If { cond: Box<ExprV>, then_branch: BlockV, else_branch: Option<Box<ExprV>> },
    ForLoop { pat: PatV, iter: Box<ExprV>, body: BlockV },
    Range { start: Option<Box<ExprV>>, end: Option<Box<ExprV>> },
    While { cond: Box<ExprV>, body: BlockV },
    Loop { body: BlockV },
    Other,
}

/// Model of a statement.
pub enum StmtV {
    Local { pat: PatV, init: Option<ExprV> },
    Item { item: Box<ItemV> },
    /// An expression statement; `semi` records a trailing separator.
    Expr { expr: ExprV, semi: bool },
    Other,
}

/// Model of a block of statements.
pub struct BlockV {
    pub stmts: Seq<StmtV>,
}

/// Model of a function item.
pub struct FnV {
    pub name: Seq<char>,
    pub inputs: Seq<ArgV>,
    pub output: Option<TyV>,
    pub body: BlockV,
}

/// Model of a top-level item.
pub enum ItemV {
    Fn { func: FnV },
    Other,
}

/// Model of a whole source file.
pub struct FileV {
    pub items: Seq<ItemV>,
}

// ---------------------------------------------------------------------------
// Executable syntax tree
// ---------------------------------------------------------------------------

/// A binary operator of the source language's closed operator set.
#[derive(Debug, PartialEq, Eq, Structural, Clone, Copy)]
pub enum BinOp {
    Add,
    Sub,
    Mul,
    Div,
    Rem,
    And,
    Or,
    BitXor,
    BitAnd,
    BitOr,
    Shl,
    Shr,
    Eq,
    Lt,
    Le,
    Ne,
    Ge,
    Gt,
    Other,
}

/// A unary operator.
#[derive(Debug, PartialEq, Eq, Structural, Clone, Copy)]
pub enum UnOp {
    Deref,
    Other,
}

#[derive(Debug, PartialEq)]
pub enum RustLit {
    Int(String),
    Bool(bool),
    Str(String),
    Other,
}

#[derive(Debug, PartialEq)]
pub enum RustPat {
    Ident(String),
    Other,
}

#[derive(Debug, PartialEq)]
pub enum RustType {
    Path(Vec<String>),
    Reference { mutable: bool, elem: Box<RustType> },
    Array(Box<RustType>),
    Other,
}

#[derive(Debug, PartialEq)]
pub enum RustArg {
    Typed { pat: RustPat, typ: RustType },
    Receiver,
}

#[derive(Debug, PartialEq)]
pub enum RustExpr {
    Lit(RustLit),
    Array(Vec<RustExpr>),
    Call { func: Box<RustExpr>, args: Vec<RustExpr> },
    Return(Option<Box<RustExpr>>),
    Binary { op: BinOp, left: Box<RustExpr>, right: Box<RustExpr> },
    Path(Vec<String>),
    Reference { mutable: bool, expr: Box<RustExpr> },
    Unary { op: UnOp, expr: Box<RustExpr> },
    Block(RustBlock),
    If { cond: Box<RustExpr>, then_branch: RustBlock, else_branch: Option<Box<RustExpr>> },
    ForLoop { pat: RustPat, iter: Box<RustExpr>, body: RustBlock },
    Range { start: Option<Box<RustExpr>>, end: Option<Box<RustExpr>> },
    While { cond: Box<RustExpr>, body: RustBlock },
    Loop { body: RustBlock },
    Other,
}

#[derive(Debug, PartialEq)]
pub enum RustStmt {
    Local { pat: RustPat, init: Option<RustExpr> },
    Item(Box<RustItem>),
    Expr { expr: RustExpr, semi: bool },
    Other,
}

#[derive(Debug, PartialEq)]
pub struct RustBlock {
    pub stmts: Vec<RustStmt>,
}

#[derive(Debug, PartialEq)]
pub struct RustFn {
    pub name: String,
    pub inputs: Vec<RustArg>,
    pub output: Option<RustType>,
    pub body: RustBlock,
}

#[derive(Debug, PartialEq)]
pub enum RustItem {
    Fn(RustFn),
    Other,
}

#[derive(Debug, PartialEq)]
pub struct RustFile {
    pub items: Vec<RustItem>,
}

// ---------------------------------------------------------------------------
// Views
// ---------------------------------------------------------------------------

/// Model of a list of path segments.
pub open spec fn segments_view(s: Seq<String>) -> Seq<Seq<char>> {
    Seq::new(s.len(), |i: int| s[i]@)
}

/// Model of a literal.
pub open spec fn lit_view(l: RustLit) -> LitV {
    match l {
        RustLit::Int(s) => LitV::Int { digits: s@ },
        RustLit::Bool(b) => LitV::Bool { value: b },
        RustLit::Str(s) => LitV::Str { text: s@ },
        RustLit::Other => LitV::Other,
    }
}

/// Model of a pattern.
pub open spec fn pat_view(p: RustPat) -> PatV {
    match p {
        RustPat::Ident(s) => PatV::Ident { name: s@ },
        RustPat::Other => PatV::Other,
    }
}

/// Model of a type annotation.
pub open spec fn ty_view(t: RustType) -> TyV
    decreases t,
{
    match t {
        RustType::Path(segs) => TyV::Path { segments: segments_view(segs@) },
        RustType::Reference { mutable, elem } => TyV::Reference {
            mutable,
            elem: Box::new(ty_view(*elem)),
        },
        RustType::Array(elem) => TyV::Array { elem: Box::new(ty_view(*elem)) },
        RustType::Other => TyV::Other,
    }
}

/// Model of a function argument.
pub open spec fn arg_view(a: RustArg) -> ArgV {
    match a {
        RustArg::Typed { pat, typ } => ArgV::Typed { pat: pat_view(pat), typ: ty_view(typ) },
        RustArg::Receiver => ArgV::Receiver,
    }
}

/// Model of an argument list, element-wise.
pub open spec fn args_view(s: Seq<RustArg>) -> Seq<ArgV> {
    Seq::new(s.len(), |i: int| arg_view(s[i]))
}

/// Model of an expression.
pub open spec fn expr_view(e: RustExpr) -> ExprV
    decreases e,
{
    match e {
        RustExpr::Lit(l) => ExprV::Lit { lit: lit_view(l) },
        RustExpr::Array(elems) => ExprV::Array { elems: exprs_view(elems@) },
        RustExpr::Call { func, args } => ExprV::Call {
            func: Box::new(expr_view(*func)),
            args: exprs_view(args@),
        },
        RustExpr::Return(value) => ExprV::Return { value: opt_expr_view(value) },
        RustExpr::Binary { op, left, right } => ExprV::Binary {
            op,
            left: Box::new(expr_view(*left)),
            right: Box::new(expr_view(*right)),
        },
        RustExpr::Path(segs) => ExprV::Path { segments: segments_view(segs@) },
        RustExpr::Reference { mutable, expr } => ExprV::Reference {
            mutable,
            expr: Box::new(expr_view(*expr)),
        },
        RustExpr::Unary { op, expr } => ExprV::Unary { op, expr: Box::new(expr_view(*expr)) },
        RustExpr::Block(b) => ExprV::Block { block: block_view(b) },
        RustExpr::If { cond, then_branch, else_branch } => ExprV::If {
            cond: Box::new(expr_view(*cond)),
            then_branch: block_view(then_branch),
            else_branch: opt_expr_view(else_branch),
        },
        RustExpr::ForLoop { pat, iter, body } => ExprV::ForLoop {
            pat: pat_view(pat),
            iter: Box::new(expr_view(*iter)),
            body: block_view(body),
        },
        RustExpr::Range { start, end } => ExprV::Range {
            start: opt_expr_view(start),
            end: opt_expr_view(end),
        },
        RustExpr::While { cond, body } => ExprV::While {
            cond: Box::new(expr_view(*cond)),
            body: block_view(body),
        },
        RustExpr::Loop { body } => ExprV::Loop { body: block_view(body) },
        RustExpr::Other => ExprV::Other,
    }
}

/// Model of a sequence of expressions, element-wise.
pub open spec fn exprs_view(s: Seq<RustExpr>) -> Seq<ExprV>
    decreases s,
{
    if s.len() == 0 {
        Seq::<ExprV>::empty()
    } else {
        exprs_view(s.drop_last()).push(expr_view(s.last()))
    }
}

/// Model of an optional child expression.
pub open spec fn opt_expr_view(o: Option<Box<RustExpr>>) -> Option<Box<ExprV>>
    decreases o,
{
    match o {
        Option::None => Option::<Box<ExprV>>::None,
        Option::Some(b) => Option::Some(Box::new(expr_view(*b))),
    }
}

/// Model of an optional initializer expression.
pub open spec fn init_view(o: Option<RustExpr>) -> Option<ExprV>
    decreases o,
{
    match o {
        Option::None => Option::<ExprV>::None,
        Option::Some(e) => Option::Some(expr_view(e)),
    }
}

/// Model of a statement.
pub open spec fn stmt_view(s: RustStmt) -> StmtV
    decreases s,
{
    match s {
        RustStmt::Local { pat, init } => StmtV::Local {
            pat: pat_view(pat),
            init: init_view(init),
        },
        RustStmt::Item(i) => StmtV::Item { item: Box::new(item_view(*i)) },
        RustStmt::Expr { expr, semi } => StmtV::Expr { expr: expr_view(expr), semi },
        RustStmt::Other => StmtV::Other,
    }
}

/// Model of a sequence of statements, element-wise.
pub open spec fn stmts_view(s: Seq<RustStmt>) -> Seq<StmtV>
    decreases s,
{
    if s.len() == 0 {
        Seq::<StmtV>::empty()
    } else {
        stmts_view(s.drop_last()).push(stmt_view(s.last()))
    }
}

/// Model of a block.
pub open spec fn block_view(b: RustBlock) -> BlockV
    decreases b,
{
    BlockV { stmts: stmts_view(b.stmts@) }
}

/// Model of a function item.
pub open spec fn fn_view(f: RustFn) -> FnV
    decreases f,
{
    FnV {
        name: f.name@,
        inputs: args_view(f.inputs@),
        output: match f.output {
            Option::None => Option::<TyV>::None,
            Option::Some(t) => Option::Some(ty_view(t)),
        },
        body: block_view(f.body),
    }
}

/// Model of a top-level item.
pub open spec fn item_view(i: RustItem) -> ItemV
    decreases i,
{
    match i {
        RustItem::Fn(f) => ItemV::Fn { func: fn_view(f) },
        RustItem::Other => ItemV::Other,
    }
}

/// Model of a sequence of items, element-wise.
pub open spec fn items_view(s: Seq<RustItem>) -> Seq<ItemV>
    decreases s,
{
    if s.len() == 0 {
        Seq::<ItemV>::empty()
    } else {
        items_view(s.drop_last()).push(item_view(s.last()))
    }
}

impl View for RustLit {
    type V = LitV;

    open spec fn view(&self) -> LitV {
        lit_view(*self)
    }
}

impl View for RustPat {
    type V = PatV;

    open spec fn view(&self) -> PatV {
        pat_view(*self)
    }
}

impl View for RustType {
    type V = TyV;

    open spec fn view(&self) -> TyV {
        ty_view(*self)
    }
}

impl View for RustArg {
    type V = ArgV;

    open spec fn view(&self) -> ArgV {
        arg_view(*self)
    }
}

impl View for RustExpr {
    type V = ExprV;

    open spec fn view(&self) -> ExprV {
        expr_view(*self)
    }
}

impl View for RustStmt {
    type V = StmtV;

    open spec fn view(&self) -> StmtV {
        stmt_view(*self)
    }
}

impl View for RustBlock {
    type V = BlockV;

    open spec fn view(&self) -> BlockV {
        block_view(*self)
    }
}

impl View for RustFn {
    type V = FnV;

    open spec fn view(&self) -> FnV {
        fn_view(*self)
    }
}

impl View for RustItem {
    type V = ItemV;

    open spec fn view(&self) -> ItemV {
        item_view(*self)
    }
}

impl View for RustFile {
    type V = FileV;

    open spec fn view(&self) -> FileV {
        FileV { items: items_view(self.items@) }
    }
}

/// An expression and its model always agree on the shape of the
/// top-level construct.
pub proof fn lemma_expr_view_variants(e: RustExpr)
    ensures
        (e matches RustExpr::Lit(..)) == (expr_view(e) matches ExprV::Lit { .. }),
        (e matches RustExpr::Array(..)) == (expr_view(e) matches ExprV::Array { .. }),
        (e matches RustExpr::Call { .. }) == (expr_view(e) matches ExprV::Call { .. }),
        (e matches RustExpr::Return(..)) == (expr_view(e) matches ExprV::Return { .. }),
        (e matches RustExpr::Binary { .. }) == (expr_view(e) matches ExprV::Binary { .. }),
        (e matches RustExpr::Path(..)) == (expr_view(e) matches ExprV::Path { .. }),
        (e matches RustExpr::Reference { .. }) == (expr_view(e) matches ExprV::Reference { .. }),
        (e matches RustExpr::Unary { .. }) == (expr_view(e) matches ExprV::Unary { .. }),
        (e matches RustExpr::Block(..)) == (expr_view(e) matches ExprV::Block { .. }),
        (e matches RustExpr::If { .. }) == (expr_view(e) matches ExprV::If { .. }),
        (e matches RustExpr::ForLoop { .. }) == (expr_view(e) matches ExprV::ForLoop { .. }),
        (e matches RustExpr::Range { .. }) == (expr_view(e) matches ExprV::Range { .. }),
        (e matches RustExpr::While { .. }) == (expr_view(e) matches ExprV::While { .. }),
        (e matches RustExpr::Loop { .. }) == (expr_view(e) matches ExprV::Loop { .. }),
        (e matches RustExpr::Other) == (expr_view(e) matches ExprV::Other),
{
}

/// A literal and its model always agree on the literal's kind.
pub proof fn lemma_lit_view_variants(l: RustLit)
    ensures
        (l matches RustLit::Int(..)) == (lit_view(l) matches LitV::Int { .. }),
        (l matches RustLit::Bool(..)) == (lit_view(l) matches LitV::Bool { .. }),
        (l matches RustLit::Str(..)) == (lit_view(l) matches LitV::Str { .. }),
        (l matches RustLit::Other) == (lit_view(l) matches LitV::Other),
{
}

/// A statement and its model always agree on the statement's kind.
pub proof fn lemma_stmt_view_variants(s: RustStmt)
    ensures
        (s matches RustStmt::Local { .. }) == (stmt_view(s) matches StmtV::Local { .. }),
        (s matches RustStmt::Item(..)) == (stmt_view(s) matches StmtV::Item { .. }),
        (s matches RustStmt::Expr { .. }) == (stmt_view(s) matches StmtV::Expr { .. }),
        (s matches RustStmt::Other) == (stmt_view(s) matches StmtV::Other),
{
}

/// `exprs_view` maps a sequence element-wise and keeps its length.
pub proof fn lemma_exprs_view(s: Seq<RustExpr>)
    ensures
        exprs_view(s).len() == s.len(),
        forall|i: int| 0 <= i < s.len() ==> #[trigger] exprs_view(s)[i] == expr_view(s[i]),
    decreases s,
{
    if s.len() > 0 {
        lemma_exprs_view(s.drop_last());
    }
}

/// `stmts_view` maps a sequence element-wise and keeps its length.
pub proof fn lemma_stmts_view(s: Seq<RustStmt>)
    ensures
        stmts_view(s).len() == s.len(),
        forall|i: int| 0 <= i < s.len() ==> #[trigger] stmts_view(s)[i] == stmt_view(s[i]),
    decreases s,
{
    if s.len() > 0 {
        lemma_stmts_view(s.drop_last());
    }
}

/// `items_view` maps a sequence element-wise and keeps its length.
pub proof fn lemma_items_view(s: Seq<RustItem>)
    ensures
        items_view(s).len() == s.len(),
        forall|i: int| 0 <= i < s.len() ==> #[trigger] items_view(s)[i] == item_view(s[i]),
    decreases s,
{
    if s.len() > 0 {
        lemma_items_view(s.drop_last());
    }
}

} // verus!
