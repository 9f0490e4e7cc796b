//! The mathematical model of the translation: one pure function per
//! source construct, from the source-tree model to the Luau-tree model.
//!
//! Every executable function of the engine promises that its result is
//! exactly the value of the corresponding function here; every law of
//! the translator is stated and proved over these functions.
//!
//! Translation is all-or-nothing: any unsupported construct, or an
//! unsupported shape of a supported one, yields an error for the whole
//! unit; there is no partial output.

use vstd::prelude::*;

use crate::luau::{NodeV, ParamV, TypeV};
use crate::rust_ast::{ArgV, BinOp, BlockV, ExprV, FileV, FnV, ItemV, LitV, PatV, StmtV, TyV, UnOp};

verus! {

/// Why a translation was aborted.
#[derive(Debug, PartialEq, Eq, Structural, Clone, Copy)]
pub enum TransformError {
    /// A source node kind, or an unsupported shape of a supported kind,
    /// has no translation rule.
    UnsupportedConstruct,
    /// The source tree violates an assumed structural invariant.
    MalformedInput,
}

/// The model of a binding context: a map from name to type.
pub type CtxV = Map<Seq<char>, TypeV>;

// ---------------------------------------------------------------------------
// Names and small tables
// ---------------------------------------------------------------------------

/// The deterministic type-name table: fixed-width numeric types map to
/// `number`, booleans to `boolean`, the owned string type to `string`;
/// an unrecognized name passes through unchanged.
pub open spec fn map_name(name: Seq<char>) -> Seq<char> {
    if name == "i8"@ || name == "u8"@ || name == "i16"@ || name == "u16"@ || name == "i32"@
        || name == "i64"@ || name == "u32"@ || name == "u64"@ || name == "f32"@ || name
        == "f64"@ {
        "number"@
    } else if name == "bool"@ {
        "boolean"@
    } else if name == "String"@ {
        "string"@
    } else {
        name
    }
}

/// The destination name of a source type: paths map their last segment
/// through the table, references unwrap, arrays append `[]`.
pub open spec fn map_ty(t: TyV) -> Result<Seq<char>, TransformError>
    decreases t,
{
    match t {
        TyV::Path { segments } => if segments.len() == 0 {
            Result::Err(TransformError::MalformedInput)
        } else {
            Result::Ok(map_name(segments.last()))
        },
        TyV::Reference { mutable: _, elem } => map_ty(*elem),
        TyV::Array { elem } => match map_ty(*elem) {
            Result::Ok(n) => Result::Ok(n + "[]"@),
            Result::Err(e) => Result::Err(e),
        },
        TyV::Other => Result::Err(TransformError::UnsupportedConstruct),
    }
}

/// The full translation of a type annotation: the mapped name plus a
/// structural reference flag (reference-ness is never encoded into the
/// name string).
pub open spec fn tr_type(t: TyV) -> Result<TypeV, TransformError> {
    match map_ty(t) {
        Result::Ok(n) => Result::Ok(
            TypeV { name: n, is_mut: false, is_ref: t matches TyV::Reference { .. } },
        ),
        Result::Err(e) => Result::Err(e),
    }
}

/// Binary operators are carried through as literal tokens identical to
/// the source spelling; the translator does not remap spellings.
pub open spec fn op_text(op: BinOp) -> Result<Seq<char>, TransformError> {
    match op {
        BinOp::Add => Result::Ok("+"@),
        BinOp::Sub => Result::Ok("-"@),
        BinOp::Mul => Result::Ok("*"@),
        BinOp::Div => Result::Ok("/"@),
        BinOp::Rem => Result::Ok("%"@),
        BinOp::And => Result::Ok("&&"@),
        BinOp::Or => Result::Ok("||"@),
        BinOp::BitXor => Result::Ok("^"@),
        BinOp::BitAnd => Result::Ok("&"@),
        BinOp::BitOr => Result::Ok("|"@),
        BinOp::Shl => Result::Ok("<<"@),
        BinOp::Shr => Result::Ok(">>"@),
        BinOp::Eq => Result::Ok("=="@),
        BinOp::Lt => Result::Ok("<"@),
        BinOp::Le => Result::Ok("<="@),
        BinOp::Ne => Result::Ok("!="@),
        BinOp::Ge => Result::Ok(">="@),
        BinOp::Gt => Result::Ok(">"@),
        BinOp::Other => Result::Err(TransformError::UnsupportedConstruct),
    }
}

/// The name bound by a pattern; only plain identifier patterns are
/// supported.
pub open spec fn pat_name(p: PatV) -> Result<Seq<char>, TransformError> {
    match p {
        PatV::Ident { name } => Result::Ok(name),
        PatV::Other => Result::Err(TransformError::UnsupportedConstruct),
    }
}

/// The textual form of a literal.
pub open spec fn lit_text(l: LitV) -> Result<Seq<char>, TransformError> {
    match l {
        LitV::Int { digits } => Result::Ok(digits),
        LitV::Bool { value } => Result::Ok(if value {
            "true"@
        } else {
            "false"@
        }),
        LitV::Str { text } => Result::Ok(text),
        LitV::Other => Result::Err(TransformError::UnsupportedConstruct),
    }
}

/// Path segments joined with `::`.
pub open spec fn join_segments(segs: Seq<Seq<char>>) -> Seq<char>
    decreases segs,
{
    if segs.len() == 0 {
        Seq::<char>::empty()
    } else if segs.len() == 1 {
        segs[0]
    } else {
        join_segments(segs.drop_last()) + "::"@ + segs.last()
    }
}

/// Whether a bare trailing expression is wrapped in an explicit
/// `Return`: control-flow shapes (conditionals, loops) are not.
pub open spec fn spec_should_be_returned(e: ExprV) -> bool {
    !(e matches ExprV::If { .. } || e matches ExprV::Loop { .. } || e matches ExprV::ForLoop {
        .. } || e matches ExprV::While { .. })
}

/// The type registered for a `let` binding: read off a literal
/// initializer when that is trivially possible, a placeholder otherwise.
pub open spec fn let_binding_ty(init: Option<ExprV>) -> TypeV {
    match init {
        Option::Some(ExprV::Lit { lit: LitV::Int { .. } }) => TypeV {
            name: "number"@,
            is_mut: false,
            is_ref: false,
        },
        Option::Some(ExprV::Lit { lit: LitV::Bool { .. } }) => TypeV {
            name: "boolean"@,
            is_mut: false,
            is_ref: false,
        },
        Option::Some(ExprV::Lit { lit: LitV::Str { .. } }) => TypeV {
            name: "string"@,
            is_mut: false,
            is_ref: false,
        },
        _ => TypeV { name: "unknown"@, is_mut: false, is_ref: false },
    }
}

// ---------------------------------------------------------------------------
// Expression and statement translation
// ---------------------------------------------------------------------------

/// Statement-position expression translation inside a function body:
/// a path expression renders as its last segment alone; every other
/// expression translates as `tr_expr`.
pub open spec fn tr_expr_top(e: ExprV) -> Result<NodeV, TransformError>
    decreases e, 1nat,
{
    match e {
        ExprV::Path { segments } => if segments.len() == 0 {
            Result::Err(TransformError::MalformedInput)
        } else {
            Result::Ok(NodeV::Value { value: segments.last() })
        },
        _ => tr_expr(e),
    }
}

/// The translation of one expression.
#[verifier::opaque]
pub open spec fn tr_expr(e: ExprV) -> Result<NodeV, TransformError>
    decreases e, 0nat,
{
    match e {
        ExprV::Lit { lit } => match lit_text(lit) {
            Result::Ok(s) => Result::Ok(NodeV::Value { value: s }),
            Result::Err(er) => Result::Err(er),
        },
        ExprV::Array { elems } => match tr_exprs(elems) {
            Result::Ok(ns) => Result::Ok(NodeV::Array { elements: ns }),
            Result::Err(er) => Result::Err(er),
        },
        ExprV::Call { func, args } => match *func {
            ExprV::Path { segments } => if segments.len() == 1 {
                match tr_exprs(args) {
                    Result::Ok(ns) => Result::Ok(NodeV::Call { func: segments[0], args: ns }),
                    Result::Err(er) => Result::Err(er),
                }
            } else {
                Result::Err(TransformError::UnsupportedConstruct)
            },
            _ => Result::Err(TransformError::UnsupportedConstruct),
        },
        ExprV::Return { value } => match tr_opt_expr(value) {
            Result::Ok(v) => Result::Ok(NodeV::Return { value: v }),
            Result::Err(er) => Result::Err(er),
        },
        ExprV::Binary { op, left, right } => match tr_expr(*left) {
            Result::Ok(l) => match tr_expr(*right) {
                Result::Ok(r) => match op_text(op) {
                    Result::Ok(o) => Result::Ok(
                        NodeV::BinaryOp { op: o, left: Box::new(l), right: Box::new(r) },
                    ),
                    Result::Err(er) => Result::Err(er),
                },
                Result::Err(er) => Result::Err(er),
            },
            Result::Err(er) => Result::Err(er),
        },
        ExprV::Path { segments } => if segments.len() == 0 {
            Result::Err(TransformError::MalformedInput)
        } else {
            Result::Ok(NodeV::Value { value: join_segments(segments) })
        },
        ExprV::Reference { mutable, expr } => match *expr {
            ExprV::Path { segments } => if segments.len() == 0 {
                Result::Err(TransformError::MalformedInput)
            } else {
                Result::Ok(NodeV::Ref { name: segments.last(), mutable })
            },
            _ => Result::Err(TransformError::UnsupportedConstruct),
        },
        ExprV::Unary { op, expr } => match op {
            UnOp::Deref => match tr_expr(*expr) {
                Result::Ok(n) => Result::Ok(NodeV::Deref { expr: Box::new(n) }),
                Result::Err(er) => Result::Err(er),
            },
            UnOp::Other => Result::Err(TransformError::UnsupportedConstruct),
        },
        ExprV::Block { block } => tr_block(block),
        ExprV::If { cond, then_branch, else_branch } => match tr_expr(*cond) {
            Result::Ok(c) => match tr_block(then_branch) {
                Result::Ok(t) => match tr_else(else_branch) {
                    Result::Ok(els) => Result::Ok(
                        NodeV::If {
                            condition: Box::new(c),
                            then_branch: Box::new(t),
                            else_branch: els,
                        },
                    ),
                    Result::Err(er) => Result::Err(er),
                },
                Result::Err(er) => Result::Err(er),
            },
            Result::Err(er) => Result::Err(er),
        },
        ExprV::ForLoop { pat, iter, body } => match pat_name(pat) {
            Result::Ok(v) => match tr_expr(*iter) {
                Result::Ok(it) => match tr_block(body) {
                    Result::Ok(b) => Result::Ok(
                        NodeV::For {
                            vars: Seq::<Seq<char>>::empty().push(v),
                            iter: Box::new(it),
                            body: Box::new(b),
                        },
                    ),
                    Result::Err(er) => Result::Err(er),
                },
                Result::Err(er) => Result::Err(er),
            },
            Result::Err(er) => Result::Err(er),
        },
        ExprV::Range { start, end } => match tr_opt_expr(start) {
            Result::Ok(s) => match tr_opt_expr(end) {
                Result::Ok(en) => Result::Ok(NodeV::Range { start: s, end: en }),
                Result::Err(er) => Result::Err(er),
            },
            Result::Err(er) => Result::Err(er),
        },
        ExprV::While { .. } => Result::Err(TransformError::UnsupportedConstruct),
        ExprV::Loop { .. } => Result::Err(TransformError::UnsupportedConstruct),
        ExprV::Other => Result::Err(TransformError::UnsupportedConstruct),
    }
}

/// Element-wise translation of an expression list; the first failure
/// aborts.
pub open spec fn tr_exprs(s: Seq<ExprV>) -> Result<Seq<NodeV>, TransformError>
    decreases s, 0nat,
{
    if s.len() == 0 {
        Result::Ok(Seq::<NodeV>::empty())
    } else {
        match tr_exprs(s.drop_last()) {
            Result::Ok(ns) => match tr_expr(s.last()) {
                Result::Ok(n) => Result::Ok(ns.push(n)),
                Result::Err(er) => Result::Err(er),
            },
            Result::Err(er) => Result::Err(er),
        }
    }
}

/// Translation of an optional child expression.
pub open spec fn tr_opt_expr(o: Option<Box<ExprV>>) -> Result<
    Option<Box<NodeV>>,
    TransformError,
>
    decreases o, 0nat,
{
    match o {
        Option::None => Result::Ok(Option::<Box<NodeV>>::None),
        Option::Some(e) => match tr_expr(*e) {
            Result::Ok(n) => Result::Ok(Option::Some(Box::new(n))),
            Result::Err(er) => Result::Err(er),
        },
    }
}

/// Translation of an else branch: another `If` chains, a plain else
/// becomes a `Block`, anything else is left absent as the engine does.
pub open spec fn tr_else(o: Option<Box<ExprV>>) -> Result<Option<Box<NodeV>>, TransformError>
    decreases o, 1nat,
{
    match o {
        Option::None => Result::Ok(Option::<Box<NodeV>>::None),
        Option::Some(e) => match *e {
            ExprV::If { .. } => match tr_expr(*e) {
                Result::Ok(n) => Result::Ok(Option::Some(Box::new(n))),
                Result::Err(er) => Result::Err(er),
            },
            ExprV::Block { block } => match tr_block(block) {
                Result::Ok(n) => Result::Ok(Option::Some(Box::new(n))),
                Result::Err(er) => Result::Err(er),
            },
            _ => Result::Ok(Option::<Box<NodeV>>::None),
        },
    }
}

/// The translation of one nested-position statement.
pub open spec fn tr_stmt(s: StmtV) -> Result<NodeV, TransformError>
    decreases s, 2nat,
{
    match s {
        StmtV::Local { pat, init } => match pat_name(pat) {
            Result::Ok(name) => match init {
                Option::None => Result::Ok(
                    NodeV::Let { name, expr: Box::new(NodeV::Value { value: Seq::<char>::empty() }) },
                ),
                Option::Some(e) => match tr_expr(e) {
                    Result::Ok(n) => Result::Ok(NodeV::Let { name, expr: Box::new(n) }),
                    Result::Err(er) => Result::Err(er),
                },
            },
            Result::Err(er) => Result::Err(er),
        },
        StmtV::Item { item } => tr_item(*item),
        StmtV::Expr { expr, semi: _ } => tr_expr(expr),
        StmtV::Other => Result::Err(TransformError::UnsupportedConstruct),
    }
}

/// A nested-position statement as a block member: a bare trailing-style
/// expression that is not a control-flow shape is wrapped in `Return`.
pub open spec fn tr_block_member(s: StmtV) -> Result<NodeV, TransformError>
    decreases s, 3nat,
{
    match s {
        StmtV::Expr { expr, semi: false } => if spec_should_be_returned(expr) {
            match tr_expr(expr) {
                Result::Ok(n) => Result::Ok(NodeV::Return { value: Option::Some(Box::new(n)) }),
                Result::Err(er) => Result::Err(er),
            }
        } else {
            tr_expr(expr)
        },
        _ => tr_stmt(s),
    }
}

/// Element-wise translation of a nested block's statements.
pub open spec fn tr_stmts(s: Seq<StmtV>) -> Result<Seq<NodeV>, TransformError>
    decreases s, 0nat,
{
    if s.len() == 0 {
        Result::Ok(Seq::<NodeV>::empty())
    } else {
        match tr_stmts(s.drop_last()) {
            Result::Ok(ns) => match tr_block_member(s.last()) {
                Result::Ok(n) => Result::Ok(ns.push(n)),
                Result::Err(er) => Result::Err(er),
            },
            Result::Err(er) => Result::Err(er),
        }
    }
}

/// The translation of a nested block.
pub open spec fn tr_block(b: BlockV) -> Result<NodeV, TransformError>
    decreases b, 0nat,
{
    match tr_stmts(b.stmts) {
        Result::Ok(ns) => Result::Ok(NodeV::Block { statements: ns }),
        Result::Err(er) => Result::Err(er),
    }
}

// ---------------------------------------------------------------------------
// Function-body translation (statement-position path rendering)
// ---------------------------------------------------------------------------

/// The translation of one function-body statement.
pub open spec fn tr_fn_stmt(s: StmtV) -> Result<NodeV, TransformError>
    decreases s, 2nat,
{
    match s {
        StmtV::Local { pat, init } => match pat_name(pat) {
            Result::Ok(name) => match init {
                Option::None => Result::Ok(
                    NodeV::Let { name, expr: Box::new(NodeV::Value { value: Seq::<char>::empty() }) },
                ),
                Option::Some(e) => match tr_expr_top(e) {
                    Result::Ok(n) => Result::Ok(NodeV::Let { name, expr: Box::new(n) }),
                    Result::Err(er) => Result::Err(er),
                },
            },
            Result::Err(er) => Result::Err(er),
        },
        StmtV::Item { item } => tr_item(*item),
        StmtV::Expr { expr, semi: _ } => tr_expr_top(expr),
        StmtV::Other => Result::Err(TransformError::UnsupportedConstruct),
    }
}

/// A function-body statement as a block member, with implicit-return
/// synthesis.
pub open spec fn tr_fn_block_member(s: StmtV) -> Result<NodeV, TransformError>
    decreases s, 3nat,
{
    match s {
        StmtV::Expr { expr, semi: false } => if spec_should_be_returned(expr) {
            match tr_expr_top(expr) {
                Result::Ok(n) => Result::Ok(NodeV::Return { value: Option::Some(Box::new(n)) }),
                Result::Err(er) => Result::Err(er),
            }
        } else {
            tr_expr_top(expr)
        },
        _ => tr_fn_stmt(s),
    }
}

/// Element-wise translation of a function body's statements.
pub open spec fn tr_fn_stmts(s: Seq<StmtV>) -> Result<Seq<NodeV>, TransformError>
    decreases s, 0nat,
{
    if s.len() == 0 {
        Result::Ok(Seq::<NodeV>::empty())
    } else {
        match tr_fn_stmts(s.drop_last()) {
            Result::Ok(ns) => match tr_fn_block_member(s.last()) {
                Result::Ok(n) => Result::Ok(ns.push(n)),
                Result::Err(er) => Result::Err(er),
            },
            Result::Err(er) => Result::Err(er),
        }
    }
}

/// The translation of a function body.
pub open spec fn tr_fn_block(b: BlockV) -> Result<NodeV, TransformError>
    decreases b, 0nat,
{
    match tr_fn_stmts(b.stmts) {
        Result::Ok(ns) => Result::Ok(NodeV::Block { statements: ns }),
        Result::Err(er) => Result::Err(er),
    }
}

// ---------------------------------------------------------------------------
// Items
// ---------------------------------------------------------------------------

/// The translation of one function argument: name and mapped type.
pub open spec fn tr_param(a: ArgV) -> Result<ParamV, TransformError> {
    match a {
        ArgV::Typed { pat, typ } => match pat_name(pat) {
            Result::Ok(name) => match tr_type(typ) {
                Result::Ok(t) => Result::Ok(ParamV { name, typ: t }),
                Result::Err(er) => Result::Err(er),
            },
            Result::Err(er) => Result::Err(er),
        },
        ArgV::Receiver => Result::Err(TransformError::UnsupportedConstruct),
    }
}

/// Element-wise translation of an argument list.
pub open spec fn tr_params(s: Seq<ArgV>) -> Result<Seq<ParamV>, TransformError>
    decreases s,
{
    if s.len() == 0 {
        Result::Ok(Seq::<ParamV>::empty())
    } else {
        match tr_params(s.drop_last()) {
            Result::Ok(ps) => match tr_param(s.last()) {
                Result::Ok(p) => Result::Ok(ps.push(p)),
                Result::Err(er) => Result::Err(er),
            },
            Result::Err(er) => Result::Err(er),
        }
    }
}

/// The translation of an optional return type.
pub open spec fn tr_ret(o: Option<TyV>) -> Result<Option<TypeV>, TransformError> {
    match o {
        Option::None => Result::Ok(Option::<TypeV>::None),
        Option::Some(t) => match tr_type(t) {
            Result::Ok(tt) => Result::Ok(Option::Some(tt)),
            Result::Err(er) => Result::Err(er),
        },
    }
}

/// The translation of a function item.
pub open spec fn tr_fn(f: FnV) -> Result<NodeV, TransformError>
    decreases f, 0nat,
{
    match tr_params(f.inputs) {
        Result::Ok(ps) => match tr_ret(f.output) {
            Result::Ok(rt) => match tr_fn_block(f.body) {
                Result::Ok(b) => Result::Ok(
                    NodeV::Function { name: f.name, params: ps, ret_type: rt, body: Box::new(b) },
                ),
                Result::Err(er) => Result::Err(er),
            },
            Result::Err(er) => Result::Err(er),
        },
        Result::Err(er) => Result::Err(er),
    }
}

/// The translation of a top-level item.
pub open spec fn tr_item(i: ItemV) -> Result<NodeV, TransformError>
    decreases i, 0nat,
{
    match i {
        ItemV::Fn { func } => tr_fn(func),
        ItemV::Other => Result::Err(TransformError::UnsupportedConstruct),
    }
}

/// Element-wise translation of a file's items.
pub open spec fn tr_items(s: Seq<ItemV>) -> Result<Seq<NodeV>, TransformError>
    decreases s, 0nat,
{
    if s.len() == 0 {
        Result::Ok(Seq::<NodeV>::empty())
    } else {
        match tr_items(s.drop_last()) {
            Result::Ok(ns) => match tr_item(s.last()) {
                Result::Ok(n) => Result::Ok(ns.push(n)),
                Result::Err(er) => Result::Err(er),
            },
            Result::Err(er) => Result::Err(er),
        }
    }
}

/// The translation of a whole file: a block of its translated items.
pub open spec fn tr_file(f: FileV) -> Result<NodeV, TransformError>
    decreases f, 0nat,
{
    match tr_items(f.items) {
        Result::Ok(ns) => Result::Ok(NodeV::Block { statements: ns }),
        Result::Err(er) => Result::Err(er),
    }
}

// ---------------------------------------------------------------------------
// Context evolution on success
// ---------------------------------------------------------------------------
//
// A failed translation abandons the whole unit, so the context's state
// after a failure is never relied on; these functions describe the
// context after a translation that succeeded.

/// Context after translating one expression.
#[verifier::opaque]
pub open spec fn ctx_after_expr(e: ExprV, m: CtxV) -> CtxV
    decreases e, 1nat,
{
    match e {
        ExprV::Array { elems } => ctx_after_exprs(elems, m),
        ExprV::Call { func: _, args } => ctx_after_exprs(args, m),
        ExprV::Return { value } => ctx_after_opt_expr(value, m),
        ExprV::Binary { op: _, left, right } => ctx_after_expr(
            *right,
            ctx_after_expr(*left, m),
        ),
        ExprV::Unary { op: _, expr } => ctx_after_expr(*expr, m),
        ExprV::Block { block } => ctx_after_stmts(block.stmts, m),
        ExprV::If { cond, then_branch, else_branch } => ctx_after_else(
            else_branch,
            ctx_after_stmts(then_branch.stmts, ctx_after_expr(*cond, m)),
        ),
        ExprV::Range { start, end } => ctx_after_opt_expr(end, ctx_after_opt_expr(start, m)),
        ExprV::ForLoop { pat: _, iter, body: _ } => ctx_after_expr(*iter, m),
        _ => m,
    }
}

/// Context after translating an expression list, left to right.
pub open spec fn ctx_after_exprs(s: Seq<ExprV>, m: CtxV) -> CtxV
    decreases s, 0nat,
{
    if s.len() == 0 {
        m
    } else {
        ctx_after_expr(s.last(), ctx_after_exprs(s.drop_last(), m))
    }
}

/// Context after translating an optional child expression.
pub open spec fn ctx_after_opt_expr(o: Option<Box<ExprV>>, m: CtxV) -> CtxV
    decreases o, 0nat,
{
    match o {
        Option::None => m,
        Option::Some(e) => ctx_after_expr(*e, m),
    }
}

/// Context after translating an else branch.
pub open spec fn ctx_after_else(o: Option<Box<ExprV>>, m: CtxV) -> CtxV
    decreases o, 2nat,
{
    match o {
        Option::None => m,
        Option::Some(e) => match *e {
            ExprV::If { .. } => ctx_after_expr(*e, m),
            ExprV::Block { block } => ctx_after_stmts(block.stmts, m),
            _ => m,
        },
    }
}

/// Context after translating one statement: a `let` registers its
/// binding, everything else only carries nested effects.
pub open spec fn ctx_after_stmt(s: StmtV, m: CtxV) -> CtxV
    decreases s, 2nat,
{
    match s {
        StmtV::Local { pat, init } => match pat_name(pat) {
            Result::Ok(name) => match init {
                Option::None => m.insert(name, let_binding_ty(init)),
                Option::Some(e) => ctx_after_expr(e, m).insert(name, let_binding_ty(init)),
            },
            Result::Err(_) => m,
        },
        StmtV::Item { .. } => m,
        StmtV::Expr { expr, semi: _ } => ctx_after_expr(expr, m),
        StmtV::Other => m,
    }
}

/// Context after translating a statement sequence, left to right.
pub open spec fn ctx_after_stmts(s: Seq<StmtV>, m: CtxV) -> CtxV
    decreases s, 0nat,
{
    if s.len() == 0 {
        m
    } else {
        ctx_after_stmt(s.last(), ctx_after_stmts(s.drop_last(), m))
    }
}

// ---------------------------------------------------------------------------
// A failure at one element fails the whole sequence
// ---------------------------------------------------------------------------

/// If the elements before `i` translate and element `i` fails, the
/// whole expression list fails with that error.
pub proof fn lemma_tr_exprs_err(s: Seq<ExprV>, i: int, e: TransformError)
    requires
        0 <= i < s.len(),
        tr_exprs(s.subrange(0, i)) matches Result::Ok(_),
        tr_expr(s[i]) == Result::<NodeV, TransformError>::Err(e),
    ensures
        tr_exprs(s) == Result::<Seq<NodeV>, TransformError>::Err(e),
    decreases s.len(),
{
    reveal(tr_expr);
    if i + 1 == s.len() {
        assert(s.drop_last() =~= s.subrange(0, i));
    } else {
        assert(s.drop_last().subrange(0, i) =~= s.subrange(0, i));
        lemma_tr_exprs_err(s.drop_last(), i, e);
    }
}

/// If the members before `i` translate and member `i` fails, the whole
/// nested block fails with that error.
#[verifier::rlimit(50)]
pub proof fn lemma_tr_stmts_err(s: Seq<StmtV>, i: int, e: TransformError)
    requires
        0 <= i < s.len(),
        tr_stmts(s.subrange(0, i)) matches Result::Ok(_),
        tr_block_member(s[i]) == Result::<NodeV, TransformError>::Err(e),
    ensures
        tr_stmts(s) == Result::<Seq<NodeV>, TransformError>::Err(e),
    decreases s.len(),
{
    reveal(tr_expr);
    if i + 1 == s.len() {
        assert(s.drop_last() =~= s.subrange(0, i));
    } else {
        assert(s.drop_last().subrange(0, i) =~= s.subrange(0, i));
        lemma_tr_stmts_err(s.drop_last(), i, e);
    }
}

/// If the members before `i` translate and member `i` fails, the whole
/// function body fails with that error.
#[verifier::rlimit(50)]
pub proof fn lemma_tr_fn_stmts_err(s: Seq<StmtV>, i: int, e: TransformError)
    requires
        0 <= i < s.len(),
        tr_fn_stmts(s.subrange(0, i)) matches Result::Ok(_),
        tr_fn_block_member(s[i]) == Result::<NodeV, TransformError>::Err(e),
    ensures
        tr_fn_stmts(s) == Result::<Seq<NodeV>, TransformError>::Err(e),
    decreases s.len(),
{
    reveal(tr_expr);
    if i + 1 == s.len() {
        assert(s.drop_last() =~= s.subrange(0, i));
    } else {
        assert(s.drop_last().subrange(0, i) =~= s.subrange(0, i));
        lemma_tr_fn_stmts_err(s.drop_last(), i, e);
    }
}

/// If the arguments before `i` translate and argument `i` fails, the
/// whole parameter list fails with that error.
pub proof fn lemma_tr_params_err(s: Seq<ArgV>, i: int, e: TransformError)
    requires
        0 <= i < s.len(),
        tr_params(s.subrange(0, i)) matches Result::Ok(_),
        tr_param(s[i]) == Result::<ParamV, TransformError>::Err(e),
    ensures
        tr_params(s) == Result::<Seq<ParamV>, TransformError>::Err(e),
    decreases s.len(),
{
    reveal(tr_expr);
    if i + 1 == s.len() {
        assert(s.drop_last() =~= s.subrange(0, i));
    } else {
        assert(s.drop_last().subrange(0, i) =~= s.subrange(0, i));
        lemma_tr_params_err(s.drop_last(), i, e);
    }
}

/// If the items before `i` translate and item `i` fails, the whole
/// file fails with that error.
pub proof fn lemma_tr_items_err(s: Seq<ItemV>, i: int, e: TransformError)
    requires
        0 <= i < s.len(),
        tr_items(s.subrange(0, i)) matches Result::Ok(_),
        tr_item(s[i]) == Result::<NodeV, TransformError>::Err(e),
    ensures
        tr_items(s) == Result::<Seq<NodeV>, TransformError>::Err(e),
    decreases s.len(),
{
    reveal(tr_expr);
    if i + 1 == s.len() {
        assert(s.drop_last() =~= s.subrange(0, i));
    } else {
        assert(s.drop_last().subrange(0, i) =~= s.subrange(0, i));
        lemma_tr_items_err(s.drop_last(), i, e);
    }
}

/// Context holding a function's own parameters, in order.
pub open spec fn ctx_with_params(ps: Seq<ParamV>, m: CtxV) -> CtxV
    decreases ps,
{
    if ps.len() == 0 {
        m
    } else {
        ctx_with_params(ps.drop_last(), m).insert(ps.last().name, ps.last().typ)
    }
}

} // verus!
