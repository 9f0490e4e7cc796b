//! The translator's general laws, stated and proved over the
//! mathematical model of `crate::translation`.

use vstd::prelude::*;

use crate::luau::{NodeV, ParamV};
use crate::rust_ast::{ArgV, BlockV, ExprV, FnV, PatV, StmtV, TyV};
use crate::translation::{
    ctx_after_expr, map_ty, spec_should_be_returned, tr_else, tr_expr, tr_fn, tr_fn_block,
    tr_fn_block_member, tr_fn_stmts, tr_param, tr_params, CtxV, TransformError,
};

verus! {

/// Type mapping is a pure function: mapping the same source type twice
/// yields the same destination name.
pub proof fn lemma_type_mapping_pure(t1: TyV, t2: TyV)
    requires
        t1 == t2,
    ensures
        map_ty(t1) == map_ty(t2),
{
}

/// A translated parameter list has one entry per source argument, in
/// the same order.
pub proof fn lemma_params_elementwise(args: Seq<ArgV>, ps: Seq<ParamV>)
    requires
        tr_params(args) == Result::<Seq<ParamV>, TransformError>::Ok(ps),
    ensures
        ps.len() == args.len(),
        forall|i: int|
            0 <= i < args.len() ==> tr_param(args[i]) == Result::<ParamV, TransformError>::Ok(
                #[trigger] ps[i],
            ),
    decreases args.len(),
{
    if args.len() > 0 {
        match tr_params(args.drop_last()) {
            Result::Ok(ps0) => {
                lemma_params_elementwise(args.drop_last(), ps0);
                assert(ps == ps0.push(ps.last()));
            },
            Result::Err(_) => {
                assert(false);
            },
        }
    }
}

/// For every translated `Function`, the parameter count equals the
/// source signature's typed-argument count, in the same order, and the
/// name is carried over.
pub proof fn lemma_function_params(f: FnV)
    requires
        tr_fn(f) matches Result::Ok(_),
    ensures
        tr_fn(f) matches Result::Ok(nv) && nv matches NodeV::Function {
            name,
            params,
            ret_type: _,
            body: _,
        } && name == f.name && params.len() == f.inputs.len() && (forall|i: int|
            0 <= i < f.inputs.len() ==> tr_param(f.inputs[i]) == Result::<
                ParamV,
                TransformError,
            >::Ok(#[trigger] params[i])),
{
    match tr_params(f.inputs) {
        Result::Ok(ps) => {
            lemma_params_elementwise(f.inputs, ps);
        },
        Result::Err(_) => {
            assert(false);
        },
    }
}

/// A translated function body has one node per source statement, each
/// the translation of its member.
pub proof fn lemma_fn_stmts_elementwise(ss: Seq<StmtV>, ns: Seq<NodeV>)
    requires
        tr_fn_stmts(ss) == Result::<Seq<NodeV>, TransformError>::Ok(ns),
    ensures
        ns.len() == ss.len(),
        forall|i: int|
            0 <= i < ss.len() ==> tr_fn_block_member(ss[i]) == Result::<
                NodeV,
                TransformError,
            >::Ok(#[trigger] ns[i]),
    decreases ss.len(),
{
    if ss.len() > 0 {
        match tr_fn_stmts(ss.drop_last()) {
            Result::Ok(ns0) => {
                lemma_fn_stmts_elementwise(ss.drop_last(), ns0);
                assert(ns == ns0.push(ns.last()));
            },
            Result::Err(_) => {
                assert(false);
            },
        }
    }
}

/// Implicit-return law.  In a translated function body whose last
/// statement is a bare expression with no trailing separator: if that
/// expression is not a control-flow shape, the body's last node is a
/// `Return` wrapping its translation; if it is a conditional or loop,
/// no `Return` is synthesized.
#[verifier::rlimit(40)]
pub proof fn lemma_implicit_return(b: BlockV, n: NodeV)
    requires
        tr_fn_block(b) == Result::<NodeV, TransformError>::Ok(n),
        b.stmts.len() > 0,
    ensures
        n matches NodeV::Block { statements } && statements.len() == b.stmts.len() && (b.stmts.last()
            matches StmtV::Expr { expr, semi: false } ==> (spec_should_be_returned(expr)
            ==> statements.last() matches NodeV::Return { .. }) && (!spec_should_be_returned(expr)
            ==> !(statements.last() matches NodeV::Return { .. }))),
{
    match tr_fn_stmts(b.stmts) {
        Result::Ok(ns) => {
            lemma_fn_stmts_elementwise(b.stmts, ns);
            if b.stmts.last() matches StmtV::Expr { expr, semi: false } {
                let e = b.stmts.last()->Expr_expr;
                if !spec_should_be_returned(e) {
                    reveal(tr_expr);
                    assert(tr_fn_block_member(b.stmts.last()) == tr_expr(e));
                    match e {
                        ExprV::If { .. } => {
                            assert(!(ns.last() matches NodeV::Return { .. }));
                        },
                        ExprV::ForLoop { .. } => {
                            assert(!(ns.last() matches NodeV::Return { .. }));
                        },
                        ExprV::While { .. } => {
                            assert(false);
                        },
                        ExprV::Loop { .. } => {
                            assert(false);
                        },
                        _ => {
                            assert(false);
                        },
                    }
                }
            }
        },
        Result::Err(_) => {
            assert(false);
        },
    }
}

/// Scope isolation: the context after translating a `for` loop is the
/// context after its iterable alone; a binding made inside the loop
/// body never reaches the enclosing context.
pub proof fn lemma_loop_scope_isolation(p: PatV, it: ExprV, body1: BlockV, body2: BlockV, m: CtxV)
    ensures
        ctx_after_expr(ExprV::ForLoop { pat: p, iter: Box::new(it), body: body1 }, m)
            == ctx_after_expr(it, m),
        ctx_after_expr(ExprV::ForLoop { pat: p, iter: Box::new(it), body: body1 }, m)
            == ctx_after_expr(ExprV::ForLoop { pat: p, iter: Box::new(it), body: body2 }, m),
{
    reveal(ctx_after_expr);
}

/// Else-if chaining: a conditional whose else branch is another
/// conditional with a terminal plain else translates to an `If` whose
/// else branch is another `If` whose else branch is a `Block`, never a
/// deeper nested `If` for the final plain else.
#[verifier::rlimit(100)]
#[verifier::spinoff_prover]
pub proof fn lemma_else_if_chain(e: ExprV, n: NodeV)
    requires
        e matches ExprV::If { else_branch: Option::Some(els1), .. } && *els1 matches ExprV::If {
            else_branch: Option::Some(els2),
            ..
        } && *els2 matches ExprV::Block { .. },
        tr_expr(e) == Result::<NodeV, TransformError>::Ok(n),
    ensures
        n matches NodeV::If { else_branch: Option::Some(inner), .. } && *inner matches NodeV::If {
            else_branch: Option::Some(inner2),
            ..
        } && *inner2 matches NodeV::Block { .. },
{
    reveal_with_fuel(tr_expr, 2);
    reveal(crate::translation::tr_else);
    let els1x = e->If_else_branch->0;
    assert(n matches NodeV::If { .. });
    let ebo = n->If_else_branch;
    assert(crate::translation::tr_else(Option::Some(els1x)) == Result::<
        Option<Box<NodeV>>,
        TransformError,
    >::Ok(ebo));
    match tr_expr(*els1x) {
        Result::Ok(n1) => {
            assert(ebo == Option::Some(Box::new(n1)));
            assert(n1 matches NodeV::If { .. });
            let ebo2 = n1->If_else_branch;
            let els2x = (*els1x)->If_else_branch->0;
            assert(crate::translation::tr_else(Option::Some(els2x)) == Result::<
                Option<Box<NodeV>>,
                TransformError,
            >::Ok(ebo2));
            match crate::translation::tr_block((*els2x)->Block_block) {
                Result::Ok(n2) => {
                    assert(ebo2 == Option::Some(Box::new(n2)));
                    assert(n2 matches NodeV::Block { .. });
                },
                Result::Err(_) => {
                    assert(false);
                },
            }
        },
        Result::Err(_) => {
            assert(false);
        },
    }
}

} // verus!
