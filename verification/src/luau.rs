//! The Luau-side syntax tree: the output of the translator.
//!
//! The executable types mirror the constructs a downstream emitter needs;
//! the `...V` types are their mathematical models (`Seq<char>` for strings,
//! `Seq` for vectors), used by all contracts.

use vstd::prelude::*;

verus! {

// ---------------------------------------------------------------------------
// Mathematical model
// ---------------------------------------------------------------------------

/// Model of a Luau type annotation: a type name with structural
/// reference/mutability flags (never encoded into the name string).
pub struct TypeV {
    pub name: Seq<char>,
    pub is_mut: bool,
    pub is_ref: bool,
}

/// Model of a function parameter.
pub struct ParamV {
    pub name: Seq<char>,
    pub typ: TypeV,
}

/// Model of a named, typed field.
pub struct FieldV {
    pub name: Seq<char>,
    pub typ: Seq<char>,
}

/// Model of a Luau syntax-tree node.
pub enum NodeV {
    Array { elements: Seq<NodeV> },
    BinaryOp { op: Seq<char>, left: Box<NodeV>, right: Box<NodeV> },
    Block { statements: Seq<NodeV> },
    Call { func: Seq<char>, args: Seq<NodeV> },
    Deref { expr: Box<NodeV> },
    Range { start: Option<Box<NodeV>>, end: Option<Box<NodeV>> },
    For { vars: Seq<Seq<char>>, iter: Box<NodeV>, body: Box<NodeV> },
    Function { name: Seq<char>, params: Seq<ParamV>, ret_type: Option<TypeV>, body: Box<NodeV> },
    If { condition: Box<NodeV>, then_branch: Box<NodeV>, else_branch: Option<Box<NodeV>> },
    Let { name: Seq<char>, expr: Box<NodeV> },
    Ref { name: Seq<char>, mutable: bool },
    Return { value: Option<Box<NodeV>> },
    While { condition: Box<NodeV>, body: Box<NodeV> },
    Param { param: ParamV },
    Value { value: Seq<char> },
}

// ---------------------------------------------------------------------------
// Executable syntax tree
// ---------------------------------------------------------------------------

#[derive(Debug, PartialEq)]
pub struct Array {
    pub elements: Vec<LuauNode>,
}

#[derive(Debug, PartialEq)]
pub struct BinaryOp {
    pub op: String,
    pub left: Box<LuauNode>,
    pub right: Box<LuauNode>,
}

#[derive(Debug, PartialEq)]
pub struct Block {
    pub statements: Vec<LuauNode>,
}

#[derive(Debug, PartialEq)]
pub struct Call {
    pub func: String,
    pub args: Vec<LuauNode>,
}

#[derive(Debug, PartialEq)]
pub struct Deref {
    pub expr: Box<LuauNode>,
}

#[derive(Debug, PartialEq)]
pub struct Range {
    pub start: Option<Box<LuauNode>>,
    pub end: Option<Box<LuauNode>>,
}

#[derive(Debug, PartialEq)]
pub struct For {
    pub vars: Vec<String>,
    pub iter: Box<LuauNode>,
    pub body: Box<LuauNode>,
}

#[derive(Debug, PartialEq)]
pub struct Function {
    pub name: String,
    pub params: Vec<Param>,
    pub ret_type: Option<LuauType>,
    pub body: Box<LuauNode>,
}

#[derive(Debug, PartialEq)]
pub struct If {
    pub condition: Box<LuauNode>,
    pub then_branch: Box<LuauNode>,
    pub else_branch: Option<Box<LuauNode>>,
}

#[derive(Debug, PartialEq)]
pub struct Let {
    pub name: String,
    pub expr: Box<LuauNode>,
}

#[derive(Debug, PartialEq)]
pub struct Ref {
    pub name: String,
    pub mutable: bool,
}

#[derive(Debug, PartialEq)]
pub struct Return {
    pub value: Option<Box<LuauNode>>,
}

#[derive(Debug, PartialEq)]
pub struct While {
    pub condition: Box<LuauNode>,
    pub body: Box<LuauNode>,
}

#[derive(Debug, PartialEq)]
pub struct Value {
    pub value: String,
}

#[derive(Debug, PartialEq, Clone)]
pub struct Param {
    pub name: String,
    pub typ: LuauType,
}

/// Enum encapsulating every Luau node.
#[derive(Debug, PartialEq)]
pub enum LuauNode {
    Array(Array),
    BinaryOp(BinaryOp),
    Block(Block),
    Call(Call),
    Deref(Deref),
    Range(Range),
    For(For),
    Function(Function),
    If(If),
    Let(Let),
    Ref(Ref),
    Return(Return),
    While(While),
    Param(Param),
    Value(Value),
}

#[derive(Debug, PartialEq)]
pub struct LuauField {
    pub name: String,
    pub typ: String,
}

#[derive(Debug, PartialEq, Clone)]
pub struct LuauType {
    pub name: String,
    pub is_mut: bool,
    pub is_ref: bool,
}

// ---------------------------------------------------------------------------
// Views
// ---------------------------------------------------------------------------

impl View for LuauType {
    type V = TypeV;

    open spec fn view(&self) -> TypeV {
        TypeV { name: self.name@, is_mut: self.is_mut, is_ref: self.is_ref }
    }
}

impl View for Param {
    type V = ParamV;

    open spec fn view(&self) -> ParamV {
        ParamV { name: self.name@, typ: self.typ@ }
    }
}

impl View for LuauField {
    type V = FieldV;

    open spec fn view(&self) -> FieldV {
        FieldV { name: self.name@, typ: self.typ@ }
    }
}

impl LuauType {
    /// A copy equal to `self`.
    pub fn dup(&self) -> (r: LuauType)
        ensures
            r == *self,
    {
        LuauType { name: self.name.clone(), is_mut: self.is_mut, is_ref: self.is_ref }
    }
}

/// Model of a parameter list.
pub open spec fn params_view(s: Seq<Param>) -> Seq<ParamV> {
    Seq::new(s.len(), |i: int| s[i]@)
}

/// Model of an optional type annotation.
pub open spec fn opt_type_view(o: Option<LuauType>) -> Option<TypeV> {
    match o {
        Option::None => Option::<TypeV>::None,
        Option::Some(t) => Option::Some(t@),
    }
}

/// Model of a single Luau node.
pub open spec fn node_view(n: LuauNode) -> NodeV
    decreases n,
{
    match n {
        LuauNode::Array(a) => NodeV::Array { elements: nodes_view(a.elements@) },
        LuauNode::BinaryOp(b) => NodeV::BinaryOp {
            op: b.op@,
            left: Box::new(node_view(*b.left)),
            right: Box::new(node_view(*b.right)),
        },
        LuauNode::Block(b) => NodeV::Block { statements: nodes_view(b.statements@) },
        LuauNode::Call(c) => NodeV::Call { func: c.func@, args: nodes_view(c.args@) },
        LuauNode::Deref(d) => NodeV::Deref { expr: Box::new(node_view(*d.expr)) },
        LuauNode::Range(r) => NodeV::Range {
            start: opt_node_view(r.start),
            end: opt_node_view(r.end),
        },
        LuauNode::For(f) => NodeV::For {
            vars: strings_view(f.vars@),
            iter: Box::new(node_view(*f.iter)),
            body: Box::new(node_view(*f.body)),
        },
        LuauNode::Function(f) => NodeV::Function {
            name: f.name@,
            params: params_view(f.params@),
            ret_type: opt_type_view(f.ret_type),
            body: Box::new(node_view(*f.body)),
        },
        LuauNode::If(i) => NodeV::If {
            condition: Box::new(node_view(*i.condition)),
            then_branch: Box::new(node_view(*i.then_branch)),
            else_branch: opt_node_view(i.else_branch),
        },
        LuauNode::Let(l) => NodeV::Let { name: l.name@, expr: Box::new(node_view(*l.expr)) },
        LuauNode::Ref(r) => NodeV::Ref { name: r.name@, mutable: r.mutable },
        LuauNode::Return(r) => NodeV::Return { value: opt_node_view(r.value) },
        LuauNode::While(w) => NodeV::While {
            condition: Box::new(node_view(*w.condition)),
            body: Box::new(node_view(*w.body)),
        },
        LuauNode::Param(p) => NodeV::Param { param: p@ },
        LuauNode::Value(v) => NodeV::Value { value: v.value@ },
    }
}

/// Model of a sequence of Luau nodes, element-wise.
pub open spec fn nodes_view(s: Seq<LuauNode>) -> Seq<NodeV>
    decreases s,
{
    if s.len() == 0 {
        Seq::<NodeV>::empty()
    } else {
        nodes_view(s.drop_last()).push(node_view(s.last()))
    }
}

/// Model of an optional child node.
pub open spec fn opt_node_view(o: Option<Box<LuauNode>>) -> Option<Box<NodeV>>
    decreases o,
{
    match o {
        Option::None => Option::<Box<NodeV>>::None,
        Option::Some(b) => Option::Some(Box::new(node_view(*b))),
    }
}

/// Model of a list of names.
pub open spec fn strings_view(s: Seq<String>) -> Seq<Seq<char>> {
    Seq::new(s.len(), |i: int| s[i]@)
}

impl View for LuauNode {
    type V = NodeV;

    open spec fn view(&self) -> NodeV {
        node_view(*self)
    }
}

/// `nodes_view` maps a sequence element-wise and keeps its length.
pub proof fn lemma_nodes_view(s: Seq<LuauNode>)
    ensures
        nodes_view(s).len() == s.len(),
        forall|i: int| 0 <= i < s.len() ==> #[trigger] nodes_view(s)[i] == node_view(s[i]),
    decreases s,
{
    if s.len() > 0 {
        lemma_nodes_view(s.drop_last());
    }
}

} // verus!
