//! An intermediate tree kept alongside the Luau model: a reduced set
//! of constructs for lowering experiments.  No translation rule
//! produces it today; it is part of the library's public surface.

use vstd::prelude::*;

verus! {

#[derive(Debug, PartialEq)]
pub enum IRNode {
    Function { name: String, params: Vec<IRParam>, ret_type: Option<IRType>, body: Vec<IRNode> },
    Return { value: Option<Box<IRNode>> },
    Let { name: String, expr: Box<IRNode> },
    Call { func: String, args: Vec<IRNode> },
    BinaryOp { op: String, left: Box<IRNode>, right: Box<IRNode> },
    Value(String),
}

#[derive(Debug, PartialEq)]
pub struct IRParam {
    pub name: String,
    pub typ: String,
}

#[derive(Debug, PartialEq)]
pub struct IRField {
    pub name: String,
    pub typ: String,
}

#[derive(Debug, PartialEq)]
pub struct IRType {
    pub name: String,
}

} // verus!
