use vstd::prelude::*;
use crate::token::Token;

verus! {

/// A declaration target: a plain name or a bracketed, nested list of targets.
#[derive(Debug, PartialEq)]
pub enum Var {
    Single(String),
    Multi(Vec<Var>),
}

/// An assignment target: any expression (valid only if a name or an index),
/// or a bracketed, nested list of targets.
#[derive(Debug, PartialEq)]
pub enum Place {
    Single(Box<Node>),
    Multi(Vec<Place>),
}

/// A node of the program tree.
#[derive(Debug, PartialEq)]
pub enum Node {
    Block(Vec<Node>),
    Stmt(Box<Node>),
    Catch(Vec<Node>),
    Assn { lhs: Place, rhs: Box<Node> },
    If { cond: Box<Node>, body: Vec<Node>, els: Option<Box<Node>> },
    ElseIf { cond: Box<Node>, body: Vec<Node> },
    Else { body: Vec<Node> },
    For { decl: Var, expr: Box<Node>, body: Vec<Node> },
    While { expr: Box<Node>, body: Vec<Node> },
    Loop { body: Vec<Node> },
    Return(Option<Box<Node>>),
    Break,
    Continue,
    Expr,
    Pass,
    Index { lhs: Box<Node>, rhs: Box<Node> },
    Method { owner: Box<Node>, method: Box<Node>, args: Vec<Node> },
    Func { params: Vec<String>, body: Vec<Node> },
    Lambda { params: Vec<String>, expr: Box<Node> },
    Call { func: Box<Node>, args: Vec<Node> },
    BinExpr { lhs: Box<Node>, op: Token, rhs: Box<Node> },
    UnExpr { val: Box<Node>, op: Token },
    Null,
    Bool(bool),
    /// The bit pattern of an IEEE-754 double.
    Float(u64),
    Int(i64),
    Str(String),
    Name(String),
    Table,
}

/// The mathematical value of a `Var`.
pub ghost enum SVar {
    Single(String),
    Multi(Seq<SVar>),
}

/// The mathematical value of a `Place`.
pub ghost enum SPlace {
    Single(Box<SNode>),
    Multi(Seq<SPlace>),
}

/// The mathematical value of a `Node`: the same tree, with sequences for lists.
pub ghost enum SNode {
    Block(Seq<SNode>),
    Stmt(Box<SNode>),
    Catch(Seq<SNode>),
    Assn { lhs: SPlace, rhs: Box<SNode> },
    If { cond: Box<SNode>, body: Seq<SNode>, els: Option<Box<SNode>> },
    ElseIf { cond: Box<SNode>, body: Seq<SNode> },
    Else { body: Seq<SNode> },
    For { decl: SVar, expr: Box<SNode>, body: Seq<SNode> },
    While { expr: Box<SNode>, body: Seq<SNode> },
    Loop { body: Seq<SNode> },
    Return(Option<Box<SNode>>),
    Break,
    Continue,
    Expr,
    Pass,
    Index { lhs: Box<SNode>, rhs: Box<SNode> },
    Method { owner: Box<SNode>, method: Box<SNode>, args: Seq<SNode> },
    Func { params: Seq<String>, body: Seq<SNode> },
    Lambda { params: Seq<String>, expr: Box<SNode> },
    Call { func: Box<SNode>, args: Seq<SNode> },
    BinExpr { lhs: Box<SNode>, op: Token, rhs: Box<SNode> },
    UnExpr { val: Box<SNode>, op: Token },
    Null,
    Bool(bool),
    Float(u64),
    Int(i64),
    Str(String),
    Name(String),
    Table,
}

pub open spec fn var_view(v: Var) -> SVar
    decreases v,
{
    match v {
        Var::Single(s) => SVar::Single(s),
        Var::Multi(vs) => SVar::Multi(vars_view(vs@)),
    }
}

pub open spec fn vars_view(vs: Seq<Var>) -> Seq<SVar>
    decreases vs,
{
    if vs.len() == 0 {
        Seq::empty()
    } else {
        vars_view(vs.drop_last()).push(var_view(vs.last()))
    }
}

pub open spec fn place_view(p: Place) -> SPlace
    decreases p,
{
    match p {
        Place::Single(b) => SPlace::Single(Box::new(node_view(*b))),
        Place::Multi(ps) => SPlace::Multi(places_view(ps@)),
    }
}

pub open spec fn places_view(ps: Seq<Place>) -> Seq<SPlace>
    decreases ps,
{
    if ps.len() == 0 {
        Seq::empty()
    } else {
        places_view(ps.drop_last()).push(place_view(ps.last()))
    }
}

pub open spec fn nodes_view(ns: Seq<Node>) -> Seq<SNode>
    decreases ns,
{
    if ns.len() == 0 {
        Seq::empty()
    } else {
        nodes_view(ns.drop_last()).push(node_view(ns.last()))
    }
}

pub open spec fn node_view(n: Node) -> SNode
    decreases n,
{
    match n {
        Node::Block(v) => SNode::Block(nodes_view(v@)),
        Node::Stmt(b) => SNode::Stmt(Box::new(node_view(*b))),
        Node::Catch(v) => SNode::Catch(nodes_view(v@)),
        Node::Assn { lhs, rhs } => SNode::Assn { lhs: place_view(lhs), rhs: Box::new(node_view(*rhs)) },
        Node::If { cond, body, els } => SNode::If { cond: Box::new(node_view(*cond)), body: nodes_view(body@), els: match els {
            Option::Some(b) => Option::Some(Box::new(node_view(*b))),
            Option::None => Option::None,
        } },
        Node::ElseIf { cond, body } => SNode::ElseIf { cond: Box::new(node_view(*cond)), body: nodes_view(body@) },
        Node::Else { body } => SNode::Else { body: nodes_view(body@) },
        Node::For { decl, expr, body } => SNode::For { decl: var_view(decl), expr: Box::new(node_view(*expr)), body: nodes_view(body@) },
        Node::While { expr, body } => SNode::While { expr: Box::new(node_view(*expr)), body: nodes_view(body@) },
        Node::Loop { body } => SNode::Loop { body: nodes_view(body@) },
        Node::Return(o) => SNode::Return(match o {
            Option::Some(b) => Option::Some(Box::new(node_view(*b))),
            Option::None => Option::None,
        }),
        Node::Break => SNode::Break,
        Node::Continue => SNode::Continue,
        Node::Expr => SNode::Expr,
        Node::Pass => SNode::Pass,
        Node::Index { lhs, rhs } => SNode::Index { lhs: Box::new(node_view(*lhs)), rhs: Box::new(node_view(*rhs)) },
        Node::Method { owner, method, args } => SNode::Method { owner: Box::new(node_view(*owner)), method: Box::new(node_view(*method)), args: nodes_view(args@) },
        Node::Func { params, body } => SNode::Func { params: params@, body: nodes_view(body@) },
        Node::Lambda { params, expr } => SNode::Lambda { params: params@, expr: Box::new(node_view(*expr)) },
        Node::Call { func, args } => SNode::Call { func: Box::new(node_view(*func)), args: nodes_view(args@) },
        Node::BinExpr { lhs, op, rhs } => SNode::BinExpr { lhs: Box::new(node_view(*lhs)), op, rhs: Box::new(node_view(*rhs)) },
        Node::UnExpr { val, op } => SNode::UnExpr { val: Box::new(node_view(*val)), op },
        Node::Null => SNode::Null,
        Node::Bool(b) => SNode::Bool(b),
        Node::Float(f) => SNode::Float(f),
        Node::Int(i) => SNode::Int(i),
        Node::Str(s) => SNode::Str(s),
        Node::Name(s) => SNode::Name(s),
        Node::Table => SNode::Table,
    }
}

impl View for Node {
    type V = SNode;

    open spec fn view(&self) -> SNode {
        node_view(*self)
    }
}

impl View for Place {
    type V = SPlace;

    open spec fn view(&self) -> SPlace {
        place_view(*self)
    }
}

impl View for Var {
    type V = SVar;

    open spec fn view(&self) -> SVar {
        var_view(*self)
    }
}

pub proof fn lemma_nodes_view_push(ns: Seq<Node>, n: Node)
    ensures
        nodes_view(ns.push(n)) == nodes_view(ns).push(node_view(n)),
{
    assert(ns.push(n).drop_last() =~= ns);
}

pub proof fn lemma_places_view_push(ps: Seq<Place>, p: Place)
    ensures
        places_view(ps.push(p)) == places_view(ps).push(place_view(p)),
{
    assert(ps.push(p).drop_last() =~= ps);
}

pub proof fn lemma_vars_view_push(vs: Seq<Var>, v: Var)
    ensures
        vars_view(vs.push(v)) == vars_view(vs).push(var_view(v)),
{
    assert(vs.push(v).drop_last() =~= vs);
}

pub proof fn lemma_nodes_view_index(ns: Seq<Node>)
    ensures
        nodes_view(ns).len() == ns.len(),
        forall|i: int| 0 <= i < ns.len() ==> #[trigger] nodes_view(ns)[i] == node_view(ns[i]),
    decreases ns.len(),
{
    if ns.len() > 0 {
        lemma_nodes_view_index(ns.drop_last());
    }
}

pub proof fn lemma_places_view_index(ps: Seq<Place>)
    ensures
        places_view(ps).len() == ps.len(),
        forall|i: int| 0 <= i < ps.len() ==> #[trigger] places_view(ps)[i] == place_view(ps[i]),
    decreases ps.len(),
{
    if ps.len() > 0 {
        lemma_places_view_index(ps.drop_last());
    }
}

} // verus!
