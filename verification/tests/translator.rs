use rust_to_luau::context::Context;
use rust_to_luau::luau::{LuauNode, LuauType};
use rust_to_luau::rust_ast::{RustBlock, RustExpr, RustLit, RustPat};
use rust_to_luau::transformer::{
    map_rust_type_to_luau, transform_expr_to_luau, transform_for_loop, should_be_returned,
};
use rust_to_luau::translation::TransformError;
use rust_to_luau::rust_ast::RustType;

#[test]
fn type_mapping_is_pure() {
    let t1 = RustType::Path(vec!["i32".to_string()]);
    let t2 = RustType::Path(vec!["i32".to_string()]);
    let a = map_rust_type_to_luau(&t1).unwrap();
    let b = map_rust_type_to_luau(&t2).unwrap();
    assert_eq!(a, "number".to_string());
    assert_eq!(a, b);
}

#[test]
fn unknown_type_passes_through() {
    let t = RustType::Path(vec!["MyThing".to_string()]);
    assert_eq!(map_rust_type_to_luau(&t).unwrap(), "MyThing".to_string());
}

#[test]
fn for_loop_over_range() {
    let expr = RustExpr::ForLoop {
        pat: RustPat::Ident("x".to_string()),
        iter: Box::new(RustExpr::Range {
            start: Some(Box::new(RustExpr::Lit(RustLit::Int("1".to_string())))),
            end: Some(Box::new(RustExpr::Lit(RustLit::Int("12".to_string())))),
        }),
        body: RustBlock { stmts: vec![] },
    };
    let mut ctx = Context::new();
    let out = transform_for_loop(&expr, &mut ctx).unwrap();
    match out {
        LuauNode::For(f) => {
            assert_eq!(f.vars, vec!["x".to_string()]);
            match *f.iter {
                LuauNode::Range(r) => {
                    match (*r.start.unwrap(), *r.end.unwrap()) {
                        (LuauNode::Value(s), LuauNode::Value(e)) => {
                            assert_eq!(s.value, "1");
                            assert_eq!(e.value, "12");
                        },
                        _ => panic!("range endpoints"),
                    }
                },
                _ => panic!("iter"),
            }
            match *f.body {
                LuauNode::Block(b) => assert_eq!(b.statements.len(), 0),
                _ => panic!("body"),
            }
        },
        _ => panic!("not a for"),
    }
    // scope isolation: the loop variable never reaches the outer context
    assert!(ctx.get_binding("x").is_none());
}

#[test]
fn qualified_callee_is_unsupported() {
    let call = RustExpr::Call {
        func: Box::new(RustExpr::Path(vec!["module".to_string(), "func".to_string()])),
        args: vec![],
    };
    let mut ctx = Context::new();
    assert_eq!(
        transform_expr_to_luau(&call, &mut ctx),
        Err(TransformError::UnsupportedConstruct)
    );
}

#[test]
fn control_flow_is_not_returned() {
    let e = RustExpr::ForLoop {
        pat: RustPat::Ident("i".to_string()),
        iter: Box::new(RustExpr::Path(vec!["xs".to_string()])),
        body: RustBlock { stmts: vec![] },
    };
    assert!(!should_be_returned(&e));
    assert!(should_be_returned(&RustExpr::Lit(RustLit::Bool(true))));
}

#[test]
fn context_last_write_wins() {
    let mut ctx = Context::new();
    ctx.add_binding("a", LuauType { name: "number".to_string(), is_mut: false, is_ref: false });
    ctx.add_binding("a", LuauType { name: "string".to_string(), is_mut: false, is_ref: false });
    assert_eq!(ctx.get_binding("a").unwrap().name, "string");
    assert!(ctx.get_binding("b").is_none());
}
