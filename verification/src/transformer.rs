//! The translation engine: a recursive walk of the source tree that
//! consults and extends the binding context and builds Luau nodes.
//!
//! Every function's result is pinned to the corresponding function of
//! the mathematical model (`crate::translation`); on success, the
//! context's new state is pinned too.  A failure abandons the whole
//! unit, so nothing is promised of the context after an error unless a
//! scope boundary makes it trivially unchanged.

use vstd::prelude::*;
use vstd::string::StringExecFns;

use crate::context::{str_eq, Context};
use crate::luau::{
    node_view, nodes_view, params_view, strings_view, Array, BinaryOp, Block, Call, Deref, For,
    Function, If, Let, LuauNode, LuauType, NodeV, Param, ParamV, Range, Ref, Return, TypeV, Value,
};
use crate::rust_ast::{
    args_view, block_view, expr_view, exprs_view, init_view, item_view, items_view,
    lemma_expr_view_variants, lemma_exprs_view, lemma_items_view, lemma_lit_view_variants,
    lemma_stmt_view_variants, lemma_stmts_view, pat_view, segments_view, stmt_view, stmts_view,
    ty_view, ArgV, BinOp, ExprV, LitV, PatV, RustArg, RustBlock, RustExpr, RustFile, RustFn,
    RustItem, RustLit, RustPat, RustStmt, RustType, StmtV, TyV, UnOp,
};
use crate::translation::{
    ctx_after_else, ctx_after_expr, ctx_after_exprs, ctx_after_opt_expr, ctx_after_stmt,
    ctx_after_stmts, ctx_with_params, join_segments, lemma_tr_exprs_err, lemma_tr_fn_stmts_err,
    lemma_tr_items_err, lemma_tr_params_err, lemma_tr_stmts_err, let_binding_ty, lit_text,
    map_name, map_ty, op_text, pat_name, spec_should_be_returned, tr_block, tr_block_member,
    tr_else, tr_expr, tr_expr_top, tr_exprs, tr_file, tr_fn, tr_fn_block, tr_fn_block_member,
    tr_fn_stmt, tr_fn_stmts, tr_item, tr_items, tr_opt_expr, tr_param, tr_params, tr_ret, tr_stmt,
    tr_stmts, tr_type, TransformError,
};

verus! {

// ---------------------------------------------------------------------------
// Result models
// ---------------------------------------------------------------------------

/// Model of a node-translation result.
pub open spec fn res_view(r: Result<LuauNode, TransformError>) -> Result<NodeV, TransformError> {
    match r {
        Result::Ok(n) => Result::Ok(node_view(n)),
        Result::Err(e) => Result::Err(e),
    }
}

/// Model of a name-translation result.
pub open spec fn name_res_view(r: Result<String, TransformError>) -> Result<
    Seq<char>,
    TransformError,
> {
    match r {
        Result::Ok(s) => Result::Ok(s@),
        Result::Err(e) => Result::Err(e),
    }
}

/// Model of a type-translation result.
pub open spec fn type_res_view(r: Result<LuauType, TransformError>) -> Result<
    TypeV,
    TransformError,
> {
    match r {
        Result::Ok(t) => Result::Ok(t@),
        Result::Err(e) => Result::Err(e),
    }
}

/// Model of a parameter-translation result.
pub open spec fn param_res_view(r: Result<Param, TransformError>) -> Result<
    ParamV,
    TransformError,
> {
    match r {
        Result::Ok(p) => Result::Ok(p@),
        Result::Err(e) => Result::Err(e),
    }
}

/// Model of a node-list translation result.
pub open spec fn nodes_res_view(r: Result<Vec<LuauNode>, TransformError>) -> Result<
    Seq<NodeV>,
    TransformError,
> {
    match r {
        Result::Ok(ns) => Result::Ok(nodes_view(ns@)),
        Result::Err(e) => Result::Err(e),
    }
}

/// Model of an optional-node translation result.
pub open spec fn opt_res_view(r: Result<Option<Box<LuauNode>>, TransformError>) -> Result<
    Option<Box<NodeV>>,
    TransformError,
> {
    match r {
        Result::Ok(o) => Result::Ok(crate::luau::opt_node_view(o)),
        Result::Err(e) => Result::Err(e),
    }
}

// ---------------------------------------------------------------------------
// Leaves
// ---------------------------------------------------------------------------

/// The name bound by a pattern; only identifier patterns have one.
pub fn extract_pat_ident_name(pat: &RustPat) -> (r: Result<String, TransformError>)
    ensures
        name_res_view(r) == pat_name(pat@),
{
    match pat {
        RustPat::Ident(s) => Result::Ok(s.clone()),
        RustPat::Other => Result::Err(TransformError::UnsupportedConstruct),
    }
}

/// Whether a bare trailing expression is wrapped in an explicit
/// `Return`: conditionals and loops are not, everything else is.
pub fn should_be_returned(expr: &RustExpr) -> (r: bool)
    ensures
        r == spec_should_be_returned(expr@),
{
    proof {
        lemma_expr_view_variants(*expr);
    }
    match expr {
        RustExpr::If { .. } => false,
        RustExpr::Loop { .. } => false,
        RustExpr::ForLoop { .. } => false,
        RustExpr::While { .. } => false,
        _ => true,
    }
}

/// The destination spelling of one type name.
fn map_base_name(name: &str) -> (r: String)
    ensures
        r@ == map_name(name@),
{
    if str_eq(name, "i8") || str_eq(name, "u8") || str_eq(name, "i16") || str_eq(name, "u16")
        || str_eq(name, "i32") || str_eq(name, "i64") || str_eq(name, "u32") || str_eq(
        name,
        "u64",
    ) || str_eq(name, "f32") || str_eq(name, "f64") {
        String::from_str("number")
    } else if str_eq(name, "bool") {
        String::from_str("boolean")
    } else if str_eq(name, "String") {
        String::from_str("string")
    } else {
        name.to_owned()
    }
}

/// The destination name of a source type: the table for path types,
/// unwrapping for references, `[]` suffixing for arrays.
pub fn map_rust_type_to_luau(ty: &RustType) -> (r: Result<String, TransformError>)
    ensures
        name_res_view(r) == map_ty(ty@),
    decreases *ty,
{
    match ty {
        RustType::Path(segs) => {
            if segs.len() == 0 {
                Result::Err(TransformError::MalformedInput)
            } else {
                let last = &segs[segs.len() - 1];
                Result::Ok(map_base_name(last.as_str()))
            }
        },
        RustType::Reference { mutable: _, elem } => map_rust_type_to_luau(&**elem),
        RustType::Array(elem) => {
            match map_rust_type_to_luau(&**elem) {
                Result::Ok(n) => Result::Ok(n.concat("[]")),
                Result::Err(e) => Result::Err(e),
            }
        },
        RustType::Other => Result::Err(TransformError::UnsupportedConstruct),
    }
}

/// The full translation of a type annotation: mapped name plus the
/// structural reference flag.
pub fn transform_type_to_luau(ty: &RustType) -> (r: Result<LuauType, TransformError>)
    ensures
        type_res_view(r) == tr_type(ty@),
{
    let is_ref = match ty {
        RustType::Path(..) => false,
        RustType::Reference { .. } => true,
        RustType::Array(..) => false,
        RustType::Other => false,
    };
    match map_rust_type_to_luau(ty) {
        Result::Ok(name) => Result::Ok(LuauType { name, is_mut: false, is_ref }),
        Result::Err(e) => Result::Err(e),
    }
}

/// The literal token of a binary operator, spelled as in the source.
fn binop_token(op: BinOp) -> (r: Result<String, TransformError>)
    ensures
        name_res_view(r) == op_text(op),
{
    match op {
        BinOp::Add => Result::Ok(String::from_str("+")),
        BinOp::Sub => Result::Ok(String::from_str("-")),
        BinOp::Mul => Result::Ok(String::from_str("*")),
        BinOp::Div => Result::Ok(String::from_str("/")),
        BinOp::Rem => Result::Ok(String::from_str("%")),
        BinOp::And => Result::Ok(String::from_str("&&")),
        BinOp::Or => Result::Ok(String::from_str("||")),
        BinOp::BitXor => Result::Ok(String::from_str("^")),
        BinOp::BitAnd => Result::Ok(String::from_str("&")),
        BinOp::BitOr => Result::Ok(String::from_str("|")),
        BinOp::Shl => Result::Ok(String::from_str("<<")),
        BinOp::Shr => Result::Ok(String::from_str(">>")),
        BinOp::Eq => Result::Ok(String::from_str("==")),
        BinOp::Lt => Result::Ok(String::from_str("<")),
        BinOp::Le => Result::Ok(String::from_str("<=")),
        BinOp::Ne => Result::Ok(String::from_str("!=")),
        BinOp::Ge => Result::Ok(String::from_str(">=")),
        BinOp::Gt => Result::Ok(String::from_str(">")),
        BinOp::Other => Result::Err(TransformError::UnsupportedConstruct),
    }
}

/// The textual form of a literal.
fn lit_token(l: &RustLit) -> (r: Result<String, TransformError>)
    ensures
        name_res_view(r) == lit_text(l@),
{
    match l {
        RustLit::Int(s) => Result::Ok(s.clone()),
        RustLit::Bool(b) => Result::Ok(
            if *b {
                String::from_str("true")
            } else {
                String::from_str("false")
            },
        ),
        RustLit::Str(s) => Result::Ok(s.clone()),
        RustLit::Other => Result::Err(TransformError::UnsupportedConstruct),
    }
}

/// `join_segments` over a sequence extended by one more segment.
proof fn lemma_join_push(p: Seq<Seq<char>>, x: Seq<char>)
    ensures
        join_segments(p.push(x)) == if p.len() == 0 {
            x
        } else {
            join_segments(p) + "::"@ + x
        },
{
    let q = p.push(x);
    assert(q.drop_last() =~= p);
    if p.len() == 0 {
        assert(q[0] == x);
    }
}

/// Path segments joined with `::`.
fn join_path(segs: &Vec<String>) -> (r: String)
    ensures
        r@ == join_segments(segments_view(segs@)),
{
    let ghost target = segments_view(segs@);
    if segs.len() == 0 {
        let out = String::new();
        proof {
            assert(target =~= Seq::<Seq<char>>::empty());
        }
        out
    } else {
        let mut out = segs[0].clone();
        let mut i: usize = 1;
        proof {
            assert(target.subrange(0, 1) =~= Seq::<Seq<char>>::empty().push(target[0]));
            lemma_join_push(Seq::<Seq<char>>::empty(), target[0]);
        }
        while i < segs.len()
            invariant
                1 <= i <= segs.len(),
                target == segments_view(segs@),
                target.len() == segs@.len(),
                out@ == join_segments(target.subrange(0, i as int)),
            decreases segs.len() - i,
        {
            out.append("::");
            out.append(segs[i].as_str());
            proof {
                assert(target.subrange(0, i + 1) =~= target.subrange(0, i as int).push(
                    target[i as int],
                ));
                lemma_join_push(target.subrange(0, i as int), target[i as int]);
            }
            i = i + 1;
        }
        proof {
            assert(target.subrange(0, segs@.len() as int) =~= target);
        }
        out
    }
}

/// The type registered for a `let` binding: read off a literal
/// initializer when that is trivially possible, a placeholder otherwise.
fn let_binding_type(init: &Option<RustExpr>) -> (t: LuauType)
    ensures
        t@ == let_binding_ty(init_view(*init)),
{
    match init {
        Option::Some(RustExpr::Lit(l)) => {
            proof {
                lemma_lit_view_variants(*l);
            }
            match l {
                RustLit::Int(..) => LuauType {
                    name: String::from_str("number"),
                    is_mut: false,
                    is_ref: false,
                },
                RustLit::Bool(..) => LuauType {
                    name: String::from_str("boolean"),
                    is_mut: false,
                    is_ref: false,
                },
                RustLit::Str(..) => LuauType {
                    name: String::from_str("string"),
                    is_mut: false,
                    is_ref: false,
                },
                RustLit::Other => LuauType {
                    name: String::from_str("unknown"),
                    is_mut: false,
                    is_ref: false,
                },
            }
        },
        Option::Some(e) => {
            proof {
                lemma_expr_view_variants(*e);
            }
            LuauType { name: String::from_str("unknown"), is_mut: false, is_ref: false }
        },
        Option::None => LuauType { name: String::from_str("unknown"), is_mut: false, is_ref: false },
    }
}

// ---------------------------------------------------------------------------
// Expressions
// ---------------------------------------------------------------------------

/// Element-wise translation of an expression list; the first failure
/// aborts.
#[verifier::rlimit(40)]
#[verifier::spinoff_prover]
fn transform_exprs(exprs: &Vec<RustExpr>, context: &mut Context) -> (r: Result<
    Vec<LuauNode>,
    TransformError,
>)
    ensures
        nodes_res_view(r) == tr_exprs(exprs_view(exprs@)),
        r matches Result::Ok(_) ==> final(context)@ == ctx_after_exprs(
            exprs_view(exprs@),
            old(context)@,
        ),
    decreases exprs@, 2nat,
{
    let ghost evs = exprs_view(exprs@);
    proof {
        lemma_exprs_view(exprs@);
    }
    let mut out: Vec<LuauNode> = Vec::new();
    let mut i: usize = 0;
    while i < exprs.len()
        invariant
            i <= exprs.len(),
            evs == exprs_view(exprs@),
            evs.len() == exprs@.len(),
            forall|j: int| 0 <= j < exprs@.len() ==> #[trigger] evs[j] == expr_view(exprs@[j]),
            tr_exprs(evs.subrange(0, i as int)) == Result::<Seq<NodeV>, TransformError>::Ok(
                nodes_view(out@),
            ),
            context@ == ctx_after_exprs(evs.subrange(0, i as int), old(context)@),
        decreases exprs.len() - i,
    {
        let ghost pre = evs.subrange(0, i as int);
        match transform_expr_to_luau(&exprs[i], context) {
            Result::Ok(n) => {
                proof {
                    assert(evs.subrange(0, i + 1).drop_last() =~= pre);
                    assert(evs.subrange(0, i + 1).last() == evs[i as int]);
                    assert(out@.push(n).drop_last() =~= out@);
                }
                out.push(n);
            },
            Result::Err(e) => {
                proof {
                    lemma_tr_exprs_err(evs, i as int, e);
                }
                return Result::Err(e);
            },
        }
        i = i + 1;
    }
    proof {
        assert(evs.subrange(0, exprs@.len() as int) =~= evs);
    }
    Result::Ok(out)
}

/// Translation of an optional child expression.
#[verifier::rlimit(40)]
#[verifier::spinoff_prover]
fn transform_opt_expr(o: &Option<Box<RustExpr>>, context: &mut Context) -> (r: Result<
    Option<Box<LuauNode>>,
    TransformError,
>)
    ensures
        opt_res_view(r) == tr_opt_expr(crate::rust_ast::opt_expr_view(*o)),
        r matches Result::Ok(_) ==> final(context)@ == ctx_after_opt_expr(
            crate::rust_ast::opt_expr_view(*o),
            old(context)@,
        ),
    decreases *o, 2nat,
{
    match o {
        Option::None => Result::Ok(Option::<Box<LuauNode>>::None),
        Option::Some(b) => {
            match transform_expr_to_luau(&**b, context) {
                Result::Ok(n) => Result::Ok(Option::Some(Box::new(n))),
                Result::Err(e) => Result::Err(e),
            }
        },
    }
}

/// Translation of an explicit `return` expression.
#[verifier::rlimit(40)]
#[verifier::spinoff_prover]
pub fn transform_return_to_luau(value: &Option<Box<RustExpr>>, context: &mut Context) -> (r:
    Result<LuauNode, TransformError>)
    ensures
        res_view(r) == tr_expr(ExprV::Return { value: crate::rust_ast::opt_expr_view(*value) }),
        r matches Result::Ok(_) ==> final(context)@ == ctx_after_expr(
            ExprV::Return { value: crate::rust_ast::opt_expr_view(*value) },
            old(context)@,
        ),
    decreases *value, 3nat,
{
    proof {
        reveal(crate::translation::tr_expr);
        reveal(crate::translation::ctx_after_expr);
    }
    match transform_opt_expr(value, context) {
        Result::Ok(v) => Result::Ok(LuauNode::Return(Return { value: v })),
        Result::Err(e) => Result::Err(e),
    }
}

/// Translation of a call: the callee must be a simple, unqualified
/// name; any other call shape is a hard failure.
#[verifier::rlimit(40)]
#[verifier::spinoff_prover]
fn transform_call_expr(expr: &RustExpr, context: &mut Context) -> (r: Result<
    LuauNode,
    TransformError,
>)
    requires
        *expr matches RustExpr::Call { .. },
    ensures
        res_view(r) == tr_expr(expr@),
        r matches Result::Ok(_) ==> final(context)@ == ctx_after_expr(expr@, old(context)@),
    decreases *expr, 0nat,
{
    proof {
        reveal(crate::translation::tr_expr);
        reveal(crate::translation::ctx_after_expr);
    }
    match expr {
        RustExpr::Call { func, args } => {
            match &**func {
                RustExpr::Path(segs) => {
                    if segs.len() == 1 {
                        let fname = segs[0].clone();
                        match transform_exprs(args, context) {
                            Result::Ok(ns) => Result::Ok(
                                LuauNode::Call(Call { func: fname, args: ns }),
                            ),
                            Result::Err(e) => Result::Err(e),
                        }
                    } else {
                        Result::Err(TransformError::UnsupportedConstruct)
                    }
                },
                _ => {
                    proof {
                        lemma_expr_view_variants(**func);
                    }
                    Result::Err(TransformError::UnsupportedConstruct)
                },
            }
        },
        _ => {
            proof {
                assert(false);
            }
            Result::Err(TransformError::UnsupportedConstruct)
        },
    }
}

/// Translation of a binary operation; the operator token is carried
/// through with its source spelling.
#[verifier::rlimit(40)]
#[verifier::spinoff_prover]
fn transform_binary_expr(expr: &RustExpr, context: &mut Context) -> (r: Result<
    LuauNode,
    TransformError,
>)
    requires
        *expr matches RustExpr::Binary { .. },
    ensures
        res_view(r) == tr_expr(expr@),
        r matches Result::Ok(_) ==> final(context)@ == ctx_after_expr(expr@, old(context)@),
    decreases *expr, 0nat,
{
    proof {
        reveal(crate::translation::tr_expr);
        reveal(crate::translation::ctx_after_expr);
    }
    match expr {
        RustExpr::Binary { op, left, right } => {
            let l = match transform_expr_to_luau(&**left, context) {
                Result::Ok(n) => n,
                Result::Err(e) => {
                    return Result::Err(e);
                },
            };
            let rn = match transform_expr_to_luau(&**right, context) {
                Result::Ok(n) => n,
                Result::Err(e) => {
                    return Result::Err(e);
                },
            };
            match binop_token(*op) {
                Result::Ok(o) => Result::Ok(
                    LuauNode::BinaryOp(BinaryOp { op: o, left: Box::new(l), right: Box::new(rn) }),
                ),
                Result::Err(e) => Result::Err(e),
            }
        },
        _ => {
            proof {
                assert(false);
            }
            Result::Err(TransformError::UnsupportedConstruct)
        },
    }
}

/// Translation of a borrow: it yields a distinct `Ref` node naming
/// the borrowed place, keeping the mutability flag.
#[verifier::rlimit(40)]
#[verifier::spinoff_prover]
fn transform_reference_expr(expr: &RustExpr, context: &mut Context) -> (r: Result<
    LuauNode,
    TransformError,
>)
    requires
        *expr matches RustExpr::Reference { .. },
    ensures
        res_view(r) == tr_expr(expr@),
        r matches Result::Ok(_) ==> final(context)@ == ctx_after_expr(expr@, old(context)@),
{
    proof {
        reveal(crate::translation::tr_expr);
        reveal(crate::translation::ctx_after_expr);
    }
    match expr {
        RustExpr::Reference { mutable, expr: inner } => {
            match &**inner {
                RustExpr::Path(segs) => {
                    if segs.len() == 0 {
                        Result::Err(TransformError::MalformedInput)
                    } else {
                        Result::Ok(
                            LuauNode::Ref(
                                Ref { name: segs[segs.len() - 1].clone(), mutable: *mutable },
                            ),
                        )
                    }
                },
                _ => {
                    proof {
                        lemma_expr_view_variants(**inner);
                    }
                    Result::Err(TransformError::UnsupportedConstruct)
                },
            }
        },
        _ => {
            proof {
                assert(false);
            }
            Result::Err(TransformError::UnsupportedConstruct)
        },
    }
}

/// Translation of a range; both endpoints are independently optional.
#[verifier::rlimit(40)]
#[verifier::spinoff_prover]
fn transform_range_expr(expr: &RustExpr, context: &mut Context) -> (r: Result<
    LuauNode,
    TransformError,
>)
    requires
        *expr matches RustExpr::Range { .. },
    ensures
        res_view(r) == tr_expr(expr@),
        r matches Result::Ok(_) ==> final(context)@ == ctx_after_expr(expr@, old(context)@),
    decreases *expr, 0nat,
{
    proof {
        reveal(crate::translation::tr_expr);
        reveal(crate::translation::ctx_after_expr);
    }
    match expr {
        RustExpr::Range { start, end } => {
            let s = match transform_opt_expr(start, context) {
                Result::Ok(v) => v,
                Result::Err(e) => {
                    return Result::Err(e);
                },
            };
            let en = match transform_opt_expr(end, context) {
                Result::Ok(v) => v,
                Result::Err(e) => {
                    return Result::Err(e);
                },
            };
            Result::Ok(LuauNode::Range(Range { start: s, end: en }))
        },
        _ => {
            proof {
                assert(false);
            }
            Result::Err(TransformError::UnsupportedConstruct)
        },
    }
}

/// The translation of one expression, dispatching on its kind; any
/// kind without a rule is a hard failure.
#[verifier::rlimit(40)]
#[verifier::spinoff_prover]
pub fn transform_expr_to_luau(expr: &RustExpr, context: &mut Context) -> (r: Result<
    LuauNode,
    TransformError,
>)
    ensures
        res_view(r) == tr_expr(expr@),
        r matches Result::Ok(_) ==> final(context)@ == ctx_after_expr(expr@, old(context)@),
    decreases *expr, 1nat,
{
    proof {
        reveal(crate::translation::tr_expr);
        reveal(crate::translation::ctx_after_expr);
    }
    match expr {
        RustExpr::Lit(l) => {
            match lit_token(l) {
                Result::Ok(s) => Result::Ok(LuauNode::Value(Value { value: s })),
                Result::Err(e) => Result::Err(e),
            }
        },
        RustExpr::Array(elems) => {
            match transform_exprs(elems, context) {
                Result::Ok(ns) => Result::Ok(LuauNode::Array(Array { elements: ns })),
                Result::Err(e) => Result::Err(e),
            }
        },
        RustExpr::Call { .. } => transform_call_expr(expr, context),
        RustExpr::Return(value) => transform_return_to_luau(value, context),
        RustExpr::Binary { .. } => transform_binary_expr(expr, context),
        RustExpr::Path(segs) => {
            if segs.len() == 0 {
                Result::Err(TransformError::MalformedInput)
            } else {
                Result::Ok(LuauNode::Value(Value { value: join_path(segs) }))
            }
        },
        RustExpr::Reference { .. } => transform_reference_expr(expr, context),
        RustExpr::Unary { op, expr: inner } => {
            match op {
                UnOp::Deref => {
                    match transform_expr_to_luau(&**inner, context) {
                        Result::Ok(n) => Result::Ok(LuauNode::Deref(Deref { expr: Box::new(n) })),
                        Result::Err(e) => Result::Err(e),
                    }
                },
                UnOp::Other => Result::Err(TransformError::UnsupportedConstruct),
            }
        },
        RustExpr::Block(b) => transform_block_to_luau(b, context),
        RustExpr::If { .. } => transform_if_expr(expr, context),
        RustExpr::ForLoop { .. } => transform_for_loop(expr, context),
        RustExpr::Range { .. } => transform_range_expr(expr, context),
        RustExpr::While { .. } => Result::Err(TransformError::UnsupportedConstruct),
        RustExpr::Loop { .. } => Result::Err(TransformError::UnsupportedConstruct),
        RustExpr::Other => Result::Err(TransformError::UnsupportedConstruct),
    }
}

/// Translation of an else branch: another conditional chains, a
/// plain else becomes a block, a missing else stays absent.
#[verifier::rlimit(40)]
#[verifier::spinoff_prover]
fn transform_else_branch(else_branch: &Option<Box<RustExpr>>, context: &mut Context) -> (r: Result<
    Option<Box<LuauNode>>,
    TransformError,
>)
    ensures
        opt_res_view(r) == tr_else(crate::rust_ast::opt_expr_view(*else_branch)),
        r matches Result::Ok(_) ==> final(context)@ == ctx_after_else(
            crate::rust_ast::opt_expr_view(*else_branch),
            old(context)@,
        ),
    decreases *else_branch, 1nat,
{
    match else_branch {
        Option::None => Result::Ok(Option::<Box<LuauNode>>::None),
        Option::Some(else_expr) => {
            match &**else_expr {
                RustExpr::If { .. } => {
                    match transform_if_expr(&**else_expr, context) {
                        Result::Ok(n) => Result::Ok(Option::Some(Box::new(n))),
                        Result::Err(e) => Result::Err(e),
                    }
                },
                RustExpr::Block(b) => {
                    match transform_block_to_luau(b, context) {
                        Result::Ok(n) => Result::Ok(Option::Some(Box::new(n))),
                        Result::Err(e) => Result::Err(e),
                    }
                },
                _ => {
                    proof {
                        lemma_expr_view_variants(**else_expr);
                    }
                    Result::Ok(Option::<Box<LuauNode>>::None)
                },
            }
        },
    }
}

/// Translation of a conditional: an `else if` nests another `If` as
/// the else branch, a terminal plain else becomes a `Block`, a missing
/// else leaves the branch absent.
#[verifier::rlimit(40)]
#[verifier::spinoff_prover]
pub fn transform_if_expr(expr: &RustExpr, context: &mut Context) -> (r: Result<
    LuauNode,
    TransformError,
>)
    requires
        *expr matches RustExpr::If { .. },
    ensures
        res_view(r) == tr_expr(expr@),
        r matches Result::Ok(_) ==> final(context)@ == ctx_after_expr(expr@, old(context)@),
    decreases *expr, 0nat,
{
    proof {
        reveal(crate::translation::tr_expr);
        reveal(crate::translation::ctx_after_expr);
    }
    match expr {
        RustExpr::If { cond, then_branch, else_branch } => {
            let c = match transform_expr_to_luau(&**cond, context) {
                Result::Ok(n) => n,
                Result::Err(e) => {
                    return Result::Err(e);
                },
            };
            let t = match transform_block_to_luau(then_branch, context) {
                Result::Ok(n) => n,
                Result::Err(e) => {
                    return Result::Err(e);
                },
            };
            let els = match transform_else_branch(else_branch, context) {
                Result::Ok(v) => v,
                Result::Err(e) => {
                    return Result::Err(e);
                },
            };
            Result::Ok(
                LuauNode::If(
                    If { condition: Box::new(c), then_branch: Box::new(t), else_branch: els },
                ),
            )
        },
        _ => {
            proof {
                assert(false);
            }
            Result::Err(TransformError::UnsupportedConstruct)
        },
    }
}

/// Translation of a single-binder `for` loop; the loop variable lives
/// only in a context forked for the loop body.
#[verifier::rlimit(40)]
#[verifier::spinoff_prover]
pub fn transform_for_loop(expr: &RustExpr, context: &mut Context) -> (r: Result<
    LuauNode,
    TransformError,
>)
    requires
        *expr matches RustExpr::ForLoop { .. },
    ensures
        res_view(r) == tr_expr(expr@),
        r matches Result::Ok(_) ==> final(context)@ == ctx_after_expr(expr@, old(context)@),
    decreases *expr, 0nat,
{
    proof {
        reveal(crate::translation::tr_expr);
        reveal(crate::translation::ctx_after_expr);
    }
    match expr {
        RustExpr::ForLoop { pat, iter, body } => {
            let var = match extract_pat_ident_name(pat) {
                Result::Ok(s) => s,
                Result::Err(e) => {
                    return Result::Err(e);
                },
            };
            let it = match transform_expr_to_luau(&**iter, context) {
                Result::Ok(n) => n,
                Result::Err(e) => {
                    return Result::Err(e);
                },
            };
            let mut loop_context = context.fork();
            loop_context.add_binding(
                var.as_str(),
                LuauType { name: String::from_str("unknown"), is_mut: false, is_ref: false },
            );
            let body_n = match transform_block_to_luau(body, &mut loop_context) {
                Result::Ok(n) => n,
                Result::Err(e) => {
                    return Result::Err(e);
                },
            };
            let mut vars: Vec<String> = Vec::new();
            vars.push(var);
            proof {
                assert(strings_view(vars@) =~= Seq::<Seq<char>>::empty().push(vars@[0]@));
            }
            Result::Ok(LuauNode::For(For { vars, iter: Box::new(it), body: Box::new(body_n) }))
        },
        _ => {
            proof {
                assert(false);
            }
            Result::Err(TransformError::UnsupportedConstruct)
        },
    }
}

// ---------------------------------------------------------------------------
// Statements and blocks
// ---------------------------------------------------------------------------

/// Translation of a local `let` binding: the bound name is registered
/// in the active context, typed off a literal initializer when that is
/// trivially possible.
#[verifier::rlimit(40)]
#[verifier::spinoff_prover]
fn transform_local(pat: &RustPat, init: &Option<RustExpr>, context: &mut Context) -> (r: Result<
    LuauNode,
    TransformError,
>)
    ensures
        res_view(r) == tr_stmt(StmtV::Local { pat: pat_view(*pat), init: init_view(*init) }),
        r matches Result::Ok(_) ==> final(context)@ == ctx_after_stmt(
            StmtV::Local { pat: pat_view(*pat), init: init_view(*init) },
            old(context)@,
        ),
    decreases *init, 0nat,
{
    let ghost sv = StmtV::Local { pat: pat_view(*pat), init: init_view(*init) };
    let name = match extract_pat_ident_name(pat) {
        Result::Ok(s) => s,
        Result::Err(e) => {
            proof {
                assert(tr_stmt(sv) == Result::<NodeV, TransformError>::Err(e));
            }
            return Result::Err(e);
        },
    };
    proof {
        assert(pat_name(pat_view(*pat)) == Result::<Seq<char>, TransformError>::Ok(name@));
    }
    let expr_node = match init {
        Option::None => LuauNode::Value(Value { value: String::new() }),
        Option::Some(e) => {
            match transform_expr_to_luau(e, context) {
                Result::Ok(n) => n,
                Result::Err(er) => {
                    proof {
                        assert(tr_stmt(sv) == Result::<NodeV, TransformError>::Err(er));
                    }
                    return Result::Err(er);
                },
            }
        },
    };
    proof {
        assert(tr_stmt(sv) == Result::<NodeV, TransformError>::Ok(
            NodeV::Let { name: name@, expr: Box::new(node_view(expr_node)) },
        ));
        assert(ctx_after_stmt(sv, old(context)@) == context@.insert(
            name@,
            let_binding_ty(init_view(*init)),
        ));
    }
    let bty = let_binding_type(init);
    context.add_binding(name.as_str(), bty);
    Result::Ok(LuauNode::Let(Let { name, expr: Box::new(expr_node) }))
}

/// Translation of a local `let` binding in function-body position,
/// where a path initializer renders as its last segment.
#[verifier::rlimit(40)]
#[verifier::spinoff_prover]
fn transform_local_top(pat: &RustPat, init: &Option<RustExpr>, context: &mut Context) -> (r:
    Result<LuauNode, TransformError>)
    ensures
        res_view(r) == tr_fn_stmt(StmtV::Local { pat: pat_view(*pat), init: init_view(*init) }),
        r matches Result::Ok(_) ==> final(context)@ == ctx_after_stmt(
            StmtV::Local { pat: pat_view(*pat), init: init_view(*init) },
            old(context)@,
        ),
    decreases *init, 5nat,
{
    let ghost sv = StmtV::Local { pat: pat_view(*pat), init: init_view(*init) };
    let name = match extract_pat_ident_name(pat) {
        Result::Ok(s) => s,
        Result::Err(e) => {
            proof {
                assert(tr_fn_stmt(sv) == Result::<NodeV, TransformError>::Err(e));
            }
            return Result::Err(e);
        },
    };
    proof {
        assert(pat_name(pat_view(*pat)) == Result::<Seq<char>, TransformError>::Ok(name@));
    }
    let expr_node = match init {
        Option::None => LuauNode::Value(Value { value: String::new() }),
        Option::Some(e) => {
            match transform_expr_to_luau_with_context(e, context) {
                Result::Ok(n) => n,
                Result::Err(er) => {
                    proof {
                        assert(tr_fn_stmt(sv) == Result::<NodeV, TransformError>::Err(er));
                    }
                    return Result::Err(er);
                },
            }
        },
    };
    proof {
        assert(tr_fn_stmt(sv) == Result::<NodeV, TransformError>::Ok(
            NodeV::Let { name: name@, expr: Box::new(node_view(expr_node)) },
        ));
        assert(ctx_after_stmt(sv, old(context)@) == context@.insert(
            name@,
            let_binding_ty(init_view(*init)),
        ));
    }
    let bty = let_binding_type(init);
    context.add_binding(name.as_str(), bty);
    Result::Ok(LuauNode::Let(Let { name, expr: Box::new(expr_node) }))
}

/// Translation of one nested-position statement; a `let` registers its
/// binding in the active context.
#[verifier::rlimit(100)]
#[verifier::spinoff_prover]
pub fn transform_stmt_to_luau(stmt: &RustStmt, context: &mut Context) -> (r: Result<
    LuauNode,
    TransformError,
>)
    ensures
        res_view(r) == tr_stmt(stmt@),
        r matches Result::Ok(_) ==> final(context)@ == ctx_after_stmt(stmt@, old(context)@),
    decreases *stmt, 2nat,
{
    match stmt {
        RustStmt::Local { pat, init } => {
            let r0 = transform_local(pat, init, context);
            proof {
                assert(stmt@ == StmtV::Local { pat: pat_view(*pat), init: init_view(*init) });
            }
            r0
        },
        RustStmt::Item(item) => {
            let r0 = transform_item_to_luau(&**item, context);
            proof {
                assert(tr_stmt(stmt@) == tr_item(item_view(**item)));
                assert(ctx_after_stmt(stmt@, old(context)@) == old(context)@);
            }
            r0
        },
        RustStmt::Expr { expr, semi: _ } => {
            let r0 = transform_expr_to_luau(expr, context);
            proof {
                assert(tr_stmt(stmt@) == tr_expr(expr@));
                assert(ctx_after_stmt(stmt@, old(context)@) == ctx_after_expr(
                    expr@,
                    old(context)@,
                ));
            }
            r0
        },
        RustStmt::Other => Result::Err(TransformError::UnsupportedConstruct),
    }
}

/// One nested-block member: a bare non-control trailing-style
/// expression is wrapped in an explicit `Return`.
#[verifier::rlimit(40)]
#[verifier::spinoff_prover]
fn transform_block_member(stmt: &RustStmt, context: &mut Context) -> (r: Result<
    LuauNode,
    TransformError,
>)
    ensures
        res_view(r) == tr_block_member(stmt@),
        r matches Result::Ok(_) ==> final(context)@ == ctx_after_stmt(stmt@, old(context)@),
    decreases *stmt, 3nat,
{
    proof {
        lemma_stmt_view_variants(*stmt);
    }
    match stmt {
        RustStmt::Expr { expr, semi } => {
            if *semi {
                let r0 = transform_expr_to_luau(expr, context);
                proof {
                    assert(tr_block_member(stmt@) == tr_stmt(stmt@));
                    assert(tr_stmt(stmt@) == tr_expr(expr@));
                }
                return r0;
            }
            if should_be_returned(expr) {
                match transform_expr_to_luau(expr, context) {
                    Result::Ok(n) => {
                        let ghost nv = node_view(n);
                        let b = Box::new(n);
                        proof {
                            assert(node_view(*b) == nv);
                        }
                        let v = Option::Some(b);
                        proof {
                            assert(crate::luau::opt_node_view(v) == Option::Some(Box::new(nv)));
                        }
                        let out = LuauNode::Return(Return { value: v });
                        proof {
                            assert(node_view(out) == NodeV::Return {
                                value: Option::Some(Box::new(nv)),
                            });
                            assert(tr_block_member(stmt@) == Result::<NodeV, TransformError>::Ok(
                                node_view(out),
                            ));
                        }
                        return Result::Ok(out);
                    },
                    Result::Err(e) => {
                        proof {
                            assert(tr_block_member(stmt@) == Result::<NodeV, TransformError>::Err(
                                e,
                            ));
                        }
                        return Result::Err(e);
                    },
                }
            }
            let r0 = transform_expr_to_luau(expr, context);
            proof {
                assert(tr_block_member(stmt@) == tr_expr(expr@));
            }
            r0
        },
        _ => {
            let r0 = transform_stmt_to_luau(stmt, context);
            proof {
                assert(tr_block_member(stmt@) == tr_stmt(stmt@));
            }
            r0
        },
    }
}

/// Translation of a nested block: every member translates in order.
#[verifier::rlimit(40)]
#[verifier::spinoff_prover]
pub fn transform_block_to_luau(block: &RustBlock, context: &mut Context) -> (r: Result<
    LuauNode,
    TransformError,
>)
    ensures
        res_view(r) == tr_block(block@),
        r matches Result::Ok(_) ==> final(context)@ == ctx_after_stmts(
            block@.stmts,
            old(context)@,
        ),
    decreases *block, 4nat,
{
    let ghost svs = stmts_view(block.stmts@);
    proof {
        lemma_stmts_view(block.stmts@);
    }
    let mut nodes: Vec<LuauNode> = Vec::new();
    let mut i: usize = 0;
    while i < block.stmts.len()
        invariant
            i <= block.stmts.len(),
            svs == stmts_view(block.stmts@),
            svs.len() == block.stmts@.len(),
            forall|j: int| 0 <= j < block.stmts@.len() ==> #[trigger] svs[j] == stmt_view(
                block.stmts@[j],
            ),
            tr_stmts(svs.subrange(0, i as int)) == Result::<Seq<NodeV>, TransformError>::Ok(
                nodes_view(nodes@),
            ),
            context@ == ctx_after_stmts(svs.subrange(0, i as int), old(context)@),
        decreases block.stmts.len() - i,
    {
        let ghost pre = svs.subrange(0, i as int);
        let node = match transform_block_member(&block.stmts[i], context) {
            Result::Ok(n) => n,
            Result::Err(e) => {
                proof {
                    lemma_tr_stmts_err(svs, i as int, e);
                }
                return Result::Err(e);
            },
        };
        proof {
            assert(svs.subrange(0, i + 1).drop_last() =~= pre);
            assert(svs.subrange(0, i + 1).last() == svs[i as int]);
            assert(nodes@.push(node).drop_last() =~= nodes@);
        }
        nodes.push(node);
        i = i + 1;
    }
    proof {
        assert(svs.subrange(0, block.stmts@.len() as int) =~= svs);
    }
    Result::Ok(LuauNode::Block(Block { statements: nodes }))
}

// ---------------------------------------------------------------------------
// Function bodies (statement-position path rendering)
// ---------------------------------------------------------------------------

/// Statement-position expression translation: a path renders as its
/// last segment alone, everything else as `transform_expr_to_luau`.
#[verifier::rlimit(40)]
#[verifier::spinoff_prover]
pub fn transform_expr_to_luau_with_context(expr: &RustExpr, context: &mut Context) -> (r: Result<
    LuauNode,
    TransformError,
>)
    ensures
        res_view(r) == tr_expr_top(expr@),
        r matches Result::Ok(_) ==> final(context)@ == ctx_after_expr(expr@, old(context)@),
    decreases *expr, 4nat,
{
    proof {
        reveal(crate::translation::ctx_after_expr);
        lemma_expr_view_variants(*expr);
    }
    match expr {
        RustExpr::Path(segs) => {
            if segs.len() == 0 {
                Result::Err(TransformError::MalformedInput)
            } else {
                Result::Ok(LuauNode::Value(Value { value: segs[segs.len() - 1].clone() }))
            }
        },
        _ => transform_expr_to_luau(expr, context),
    }
}

/// Translation of one function-body statement.
#[verifier::rlimit(100)]
#[verifier::spinoff_prover]
pub fn transform_stmt_to_luau_with_context(stmt: &RustStmt, context: &mut Context) -> (r: Result<
    LuauNode,
    TransformError,
>)
    ensures
        res_view(r) == tr_fn_stmt(stmt@),
        r matches Result::Ok(_) ==> final(context)@ == ctx_after_stmt(stmt@, old(context)@),
    decreases *stmt, 5nat,
{
    match stmt {
        RustStmt::Local { pat, init } => {
            let r0 = transform_local_top(pat, init, context);
            proof {
                assert(stmt@ == StmtV::Local { pat: pat_view(*pat), init: init_view(*init) });
            }
            r0
        },
        RustStmt::Item(item) => {
            let r0 = transform_item_to_luau(&**item, context);
            proof {
                assert(tr_fn_stmt(stmt@) == tr_item(item_view(**item)));
                assert(ctx_after_stmt(stmt@, old(context)@) == old(context)@);
            }
            r0
        },
        RustStmt::Expr { expr, semi: _ } => {
            let r0 = transform_expr_to_luau_with_context(expr, context);
            proof {
                assert(tr_fn_stmt(stmt@) == tr_expr_top(expr@));
                assert(ctx_after_stmt(stmt@, old(context)@) == ctx_after_expr(
                    expr@,
                    old(context)@,
                ));
            }
            r0
        },
        RustStmt::Other => Result::Err(TransformError::UnsupportedConstruct),
    }
}

/// One function-body member, with implicit-return synthesis and
/// statement-position path rendering.
#[verifier::rlimit(40)]
#[verifier::spinoff_prover]
fn transform_fn_block_member(stmt: &RustStmt, context: &mut Context) -> (r: Result<
    LuauNode,
    TransformError,
>)
    ensures
        res_view(r) == tr_fn_block_member(stmt@),
        r matches Result::Ok(_) ==> final(context)@ == ctx_after_stmt(stmt@, old(context)@),
    decreases *stmt, 6nat,
{
    proof {
        lemma_stmt_view_variants(*stmt);
    }
    match stmt {
        RustStmt::Expr { expr, semi } => {
            if *semi {
                let r0 = transform_expr_to_luau_with_context(expr, context);
                proof {
                    assert(tr_fn_block_member(stmt@) == tr_fn_stmt(stmt@));
                    assert(tr_fn_stmt(stmt@) == tr_expr_top(expr@));
                }
                return r0;
            }
            if should_be_returned(expr) {
                match transform_expr_to_luau_with_context(expr, context) {
                    Result::Ok(n) => {
                        let ghost nv = node_view(n);
                        let b = Box::new(n);
                        proof {
                            assert(node_view(*b) == nv);
                        }
                        let v = Option::Some(b);
                        proof {
                            assert(crate::luau::opt_node_view(v) == Option::Some(Box::new(nv)));
                        }
                        let out = LuauNode::Return(Return { value: v });
                        proof {
                            assert(node_view(out) == NodeV::Return {
                                value: Option::Some(Box::new(nv)),
                            });
                            assert(tr_fn_block_member(stmt@) == Result::<
                                NodeV,
                                TransformError,
                            >::Ok(node_view(out)));
                        }
                        return Result::Ok(out);
                    },
                    Result::Err(e) => {
                        proof {
                            assert(tr_fn_block_member(stmt@) == Result::<
                                NodeV,
                                TransformError,
                            >::Err(e));
                        }
                        return Result::Err(e);
                    },
                }
            }
            let r0 = transform_expr_to_luau_with_context(expr, context);
            proof {
                assert(tr_fn_block_member(stmt@) == tr_expr_top(expr@));
            }
            r0
        },
        _ => {
            let r0 = transform_stmt_to_luau_with_context(stmt, context);
            proof {
                assert(tr_fn_block_member(stmt@) == tr_fn_stmt(stmt@));
            }
            r0
        },
    }
}

/// Translation of a function body: the parameters are bound in the
/// function's context first, then the members translate in order with
/// implicit-return synthesis.
#[verifier::rlimit(40)]
#[verifier::spinoff_prover]
pub fn transform_block_to_luau_with_params(
    block: &RustBlock,
    params: &Vec<Param>,
    context: &mut Context,
) -> (r: Result<LuauNode, TransformError>)
    ensures
        res_view(r) == tr_fn_block(block@),
        r matches Result::Ok(_) ==> final(context)@ == ctx_after_stmts(
            block@.stmts,
            ctx_with_params(params_view(params@), old(context)@),
        ),
    decreases *block, 4nat,
{
    let ghost m0 = old(context)@;
    let mut pi: usize = 0;
    proof {
        assert(params_view(params@).subrange(0, 0) =~= Seq::<ParamV>::empty());
    }
    while pi < params.len()
        invariant
            pi <= params.len(),
            context@ == ctx_with_params(params_view(params@).subrange(0, pi as int), m0),
        decreases params.len() - pi,
    {
        let ghost ppre = params_view(params@).subrange(0, pi as int);
        let p = &params[pi];
        context.add_binding(p.name.as_str(), p.typ.dup());
        proof {
            assert(params_view(params@).subrange(0, pi + 1).drop_last() =~= ppre);
            assert(params_view(params@).subrange(0, pi + 1).last() == params@[pi as int]@);
        }
        pi = pi + 1;
    }
    proof {
        assert(params_view(params@).subrange(0, params@.len() as int) =~= params_view(params@));
    }
    let ghost m1 = context@;

    let ghost svs = stmts_view(block.stmts@);
    proof {
        lemma_stmts_view(block.stmts@);
    }
    let mut nodes: Vec<LuauNode> = Vec::new();
    let mut i: usize = 0;
    while i < block.stmts.len()
        invariant
            i <= block.stmts.len(),
            m1 == ctx_with_params(params_view(params@), m0),
            m0 == old(context)@,
            svs == stmts_view(block.stmts@),
            svs.len() == block.stmts@.len(),
            forall|j: int| 0 <= j < block.stmts@.len() ==> #[trigger] svs[j] == stmt_view(
                block.stmts@[j],
            ),
            tr_fn_stmts(svs.subrange(0, i as int)) == Result::<Seq<NodeV>, TransformError>::Ok(
                nodes_view(nodes@),
            ),
            context@ == ctx_after_stmts(svs.subrange(0, i as int), m1),
        decreases block.stmts.len() - i,
    {
        let ghost pre = svs.subrange(0, i as int);
        let node = match transform_fn_block_member(&block.stmts[i], context) {
            Result::Ok(n) => n,
            Result::Err(e) => {
                proof {
                    lemma_tr_fn_stmts_err(svs, i as int, e);
                }
                return Result::Err(e);
            },
        };
        proof {
            assert(svs.subrange(0, i + 1).drop_last() =~= pre);
            assert(svs.subrange(0, i + 1).last() == svs[i as int]);
            assert(nodes@.push(node).drop_last() =~= nodes@);
        }
        nodes.push(node);
        i = i + 1;
    }
    proof {
        assert(svs.subrange(0, block.stmts@.len() as int) =~= svs);
    }
    Result::Ok(LuauNode::Block(Block { statements: nodes }))
}

// ---------------------------------------------------------------------------
// Items
// ---------------------------------------------------------------------------

/// Translation of one function argument: its name and mapped type,
/// which is also registered in the given context.
#[verifier::rlimit(40)]
#[verifier::spinoff_prover]
pub fn transform_param_to_luau(arg: &RustArg, context: &mut Context) -> (r: Result<
    Param,
    TransformError,
>)
    ensures
        param_res_view(r) == tr_param(arg@),
        r matches Result::Ok(p) ==> final(context)@ == old(context)@.insert(p@.name, p@.typ),
        r matches Result::Err(_) ==> final(context)@ == old(context)@,
{
    match arg {
        RustArg::Typed { pat, typ } => {
            let name = match extract_pat_ident_name(pat) {
                Result::Ok(s) => s,
                Result::Err(e) => {
                    return Result::Err(e);
                },
            };
            let t = match transform_type_to_luau(typ) {
                Result::Ok(t) => t,
                Result::Err(e) => {
                    return Result::Err(e);
                },
            };
            context.add_binding(name.as_str(), t.dup());
            Result::Ok(Param { name, typ: t })
        },
        RustArg::Receiver => Result::Err(TransformError::UnsupportedConstruct),
    }
}

/// Translation of a function item: parameters, return type, then the
/// body in a context forked from the caller's.
#[verifier::rlimit(40)]
#[verifier::spinoff_prover]
pub fn transform_fn_to_luau(item_fn: &RustFn, context: &mut Context) -> (r: Result<
    LuauNode,
    TransformError,
>)
    ensures
        res_view(r) == tr_fn(item_fn@),
        final(context)@ == old(context)@,
    decreases *item_fn, 7nat,
{
    let name = item_fn.name.clone();
    let mut fn_context = context.fork();

    let ghost avs = args_view(item_fn.inputs@);
    let mut params: Vec<Param> = Vec::new();
    let mut i: usize = 0;
    proof {
        assert(avs.subrange(0, 0) =~= Seq::<ArgV>::empty());
        assert(params_view(params@) =~= Seq::<ParamV>::empty());
    }
    while i < item_fn.inputs.len()
        invariant
            i <= item_fn.inputs.len(),
            avs == args_view(item_fn.inputs@),
            avs.len() == item_fn.inputs@.len(),
            tr_params(avs.subrange(0, i as int)) == Result::<Seq<ParamV>, TransformError>::Ok(
                params_view(params@),
            ),
        decreases item_fn.inputs.len() - i,
    {
        let ghost pre = avs.subrange(0, i as int);
        match transform_param_to_luau(&item_fn.inputs[i], &mut fn_context) {
            Result::Ok(p) => {
                proof {
                    assert(avs.subrange(0, i + 1).drop_last() =~= pre);
                    assert(avs.subrange(0, i + 1).last() == avs[i as int]);
                    assert(params_view(params@.push(p)) =~= params_view(params@).push(p@));
                }
                params.push(p);
            },
            Result::Err(e) => {
                proof {
                    lemma_tr_params_err(avs, i as int, e);
                }
                return Result::Err(e);
            },
        }
        i = i + 1;
    }
    proof {
        assert(avs.subrange(0, item_fn.inputs@.len() as int) =~= avs);
    }

    let ret_type: Option<LuauType> = match &item_fn.output {
        Option::None => Option::None,
        Option::Some(t) => {
            match transform_type_to_luau(t) {
                Result::Ok(tt) => Option::Some(tt),
                Result::Err(e) => {
                    return Result::Err(e);
                },
            }
        },
    };

    let body = match transform_block_to_luau_with_params(&item_fn.body, &params, &mut fn_context) {
        Result::Ok(b) => b,
        Result::Err(e) => {
            return Result::Err(e);
        },
    };

    Result::Ok(LuauNode::Function(Function { name, params, ret_type, body: Box::new(body) }))
}

/// Translation of a top-level item; only function items have a rule.
#[verifier::rlimit(40)]
#[verifier::spinoff_prover]
pub fn transform_item_to_luau(item: &RustItem, context: &mut Context) -> (r: Result<
    LuauNode,
    TransformError,
>)
    ensures
        res_view(r) == tr_item(item@),
        final(context)@ == old(context)@,
    decreases *item, 8nat,
{
    match item {
        RustItem::Fn(f) => transform_fn_to_luau(f, context),
        RustItem::Other => Result::Err(TransformError::UnsupportedConstruct),
    }
}

/// Translation of a whole source file: a block holding its translated
/// items, built with a fresh context.
#[verifier::rlimit(40)]
#[verifier::spinoff_prover]
pub fn transform_file_to_luau(file: &RustFile) -> (r: Result<LuauNode, TransformError>)
    ensures
        res_view(r) == tr_file(file@),
{
    let mut context = Context::new();
    let ghost ivs = items_view(file.items@);
    proof {
        lemma_items_view(file.items@);
    }
    let mut nodes: Vec<LuauNode> = Vec::new();
    let mut i: usize = 0;
    while i < file.items.len()
        invariant
            i <= file.items.len(),
            ivs == items_view(file.items@),
            ivs.len() == file.items@.len(),
            forall|j: int| 0 <= j < file.items@.len() ==> #[trigger] ivs[j] == item_view(
                file.items@[j],
            ),
            tr_items(ivs.subrange(0, i as int)) == Result::<Seq<NodeV>, TransformError>::Ok(
                nodes_view(nodes@),
            ),
        decreases file.items.len() - i,
    {
        let ghost pre = ivs.subrange(0, i as int);
        match transform_item_to_luau(&file.items[i], &mut context) {
            Result::Ok(n) => {
                proof {
                    assert(ivs.subrange(0, i + 1).drop_last() =~= pre);
                    assert(ivs.subrange(0, i + 1).last() == ivs[i as int]);
                    assert(nodes@.push(n).drop_last() =~= nodes@);
                }
                nodes.push(n);
            },
            Result::Err(e) => {
                proof {
                    lemma_tr_items_err(ivs, i as int, e);
                }
                return Result::Err(e);
            },
        }
        i = i + 1;
    }
    proof {
        assert(ivs.subrange(0, file.items@.len() as int) =~= ivs);
    }
    Result::Ok(LuauNode::Block(Block { statements: nodes }))
}



} // verus!
