//! The abstract syntax tree the parser produces, together with its ghost
//! mirror.
//!
//! The executable tree (`Expr` and friends) holds run-time data: `String`,
//! `Vec`, boxed children.  The ghost mirror (`ExprS` and friends) states the
//! same shapes over `Seq<char>`, `Seq`, and mathematical integers; the
//! parser's contracts speak of the mirror, and the deep view functions below
//! connect the two.

use vstd::prelude::*;

verus! {

broadcast use vstd::std_specs::vec::group_vec_axioms;

/// An identifier: a letter or underscore followed by letters, digits and
/// underscores.
#[derive(Debug, Clone, PartialEq, Eq)]
pub struct Ident(pub String);

/// A brace-delimited sequence of statements.
#[derive(Debug, PartialEq)]
pub struct Block(pub Vec<Expr>);

/// A floating-point literal, kept exactly as written: a sign, the digits
/// before the dot, and the digits after it.
#[derive(Debug, Clone, PartialEq, Eq)]
pub struct Float {
    pub neg: bool,
    pub int_part: String,
    pub frac_part: String,
}

/// A literal value.
#[derive(Debug, PartialEq)]
pub enum Literal {
    Null,
    Bool(bool),
    Int(i64),
    Float(Float),
    String(String),
    List(Vec<Expr>),
}

/// The else-arm of an if-statement: a chained if, a block, or nothing.
#[derive(Debug, PartialEq)]
pub enum OrElse {
    IfState(Box<IfState>),
    Block(Block),
    Nothing,
}

/// An if-statement: condition, body, and optional else-arm.
#[derive(Debug, PartialEq)]
pub struct IfState {
    pub condition: Box<Expr>,
    pub body: Block,
    pub or_else: OrElse,
}

/// A node of the syntax tree.
#[derive(Debug, PartialEq)]
pub enum Expr {
    Add(Box<(Expr, Expr)>),
    Sub(Box<(Expr, Expr)>),
    Mul(Box<(Expr, Expr)>),
    Div(Box<(Expr, Expr)>),
    EqEq(Box<(Expr, Expr)>),
    And(Box<(Expr, Expr)>),
    Or(Box<(Expr, Expr)>),
    Literal(Literal),
    Ident(Ident),
    Block(Block),
    While { condition: Box<Expr>, block: Block },
    For { ident: Ident, iter: Box<Expr>, block: Block },
    IfState(IfState),
    Function { name: Ident, params: Vec<Ident>, body: Block },
    FuncCall(Ident, Vec<Expr>),
    GetItem(Box<Expr>, Ident),
    MethodCall(Box<Expr>, Ident, Vec<Expr>),
    SetEq(Ident, Box<Expr>),
}

/// The ghost mirror of `Float`.
pub struct FloatS {
    pub neg: bool,
    pub int_part: Seq<char>,
    pub frac_part: Seq<char>,
}

/// The ghost mirror of `Literal`.
pub enum LiteralS {
    Null,
    Bool(bool),
    Int(i64),
    Float(FloatS),
    String(Seq<char>),
    List(Seq<ExprS>),
}

/// The ghost mirror of `OrElse`.
pub enum OrElseS {
    IfState(Box<IfStateS>),
    Block(Seq<ExprS>),
    Nothing,
}

/// The ghost mirror of `IfState`.
pub struct IfStateS {
    pub condition: Box<ExprS>,
    pub body: Seq<ExprS>,
    pub or_else: OrElseS,
}

/// The ghost mirror of `Expr`.
pub enum ExprS {
    Add(Box<ExprS>, Box<ExprS>),
    Sub(Box<ExprS>, Box<ExprS>),
    Mul(Box<ExprS>, Box<ExprS>),
    Div(Box<ExprS>, Box<ExprS>),
    EqEq(Box<ExprS>, Box<ExprS>),
    And(Box<ExprS>, Box<ExprS>),
    Or(Box<ExprS>, Box<ExprS>),
    Literal(LiteralS),
    Ident(Seq<char>),
    Block(Seq<ExprS>),
    While { condition: Box<ExprS>, block: Seq<ExprS> },
    For { ident: Seq<char>, iter: Box<ExprS>, block: Seq<ExprS> },
    IfState(IfStateS),
    Function { name: Seq<char>, params: Seq<Seq<char>>, body: Seq<ExprS> },
    FuncCall(Seq<char>, Seq<ExprS>),
    GetItem(Box<ExprS>, Seq<char>),
    MethodCall(Box<ExprS>, Seq<char>, Seq<ExprS>),
    SetEq(Seq<char>, Box<ExprS>),
}

/// The deep view of a syntax-tree node.
pub open spec fn view_expr(e: Expr) -> ExprS
    decreases e,
{
    match e {
        Expr::Add(b) => ExprS::Add(Box::new(view_expr(b.0)), Box::new(view_expr(b.1))),
        Expr::Sub(b) => ExprS::Sub(Box::new(view_expr(b.0)), Box::new(view_expr(b.1))),
        Expr::Mul(b) => ExprS::Mul(Box::new(view_expr(b.0)), Box::new(view_expr(b.1))),
        Expr::Div(b) => ExprS::Div(Box::new(view_expr(b.0)), Box::new(view_expr(b.1))),
        Expr::EqEq(b) => ExprS::EqEq(Box::new(view_expr(b.0)), Box::new(view_expr(b.1))),
        Expr::And(b) => ExprS::And(Box::new(view_expr(b.0)), Box::new(view_expr(b.1))),
        Expr::Or(b) => ExprS::Or(Box::new(view_expr(b.0)), Box::new(view_expr(b.1))),
        Expr::Literal(l) => ExprS::Literal(view_literal(l)),
        Expr::Ident(id) => ExprS::Ident(id.0@),
        Expr::Block(b) => ExprS::Block(view_exprs(b.0@)),
        Expr::While { condition, block } => ExprS::While {
            condition: Box::new(view_expr(*condition)),
            block: view_exprs(block.0@),
        },
        Expr::For { ident, iter, block } => ExprS::For {
            ident: ident.0@,
            iter: Box::new(view_expr(*iter)),
            block: view_exprs(block.0@),
        },
        Expr::IfState(f) => ExprS::IfState(view_ifstate(f)),
        Expr::Function { name, params, body } => ExprS::Function {
            name: name.0@,
            params: view_idents(params@),
            body: view_exprs(body.0@),
        },
        Expr::FuncCall(name, args) => ExprS::FuncCall(name.0@, view_exprs(args@)),
        Expr::GetItem(b, id) => ExprS::GetItem(Box::new(view_expr(*b)), id.0@),
        Expr::MethodCall(b, id, args) => ExprS::MethodCall(
            Box::new(view_expr(*b)),
            id.0@,
            view_exprs(args@),
        ),
        Expr::SetEq(id, b) => ExprS::SetEq(id.0@, Box::new(view_expr(*b))),
    }
}

/// The deep view of a sequence of nodes.
pub open spec fn view_exprs(s: Seq<Expr>) -> Seq<ExprS>
    decreases s,
{
    if s.len() == 0 {
        Seq::empty()
    } else {
        seq![view_expr(s[0])] + view_exprs(s.subrange(1, s.len() as int))
    }
}

/// The deep view of a literal.
pub open spec fn view_literal(l: Literal) -> LiteralS
    decreases l,
{
    match l {
        Literal::Null => LiteralS::Null,
        Literal::Bool(b) => LiteralS::Bool(b),
        Literal::Int(i) => LiteralS::Int(i),
        Literal::Float(f) => LiteralS::Float(
            FloatS { neg: f.neg, int_part: f.int_part@, frac_part: f.frac_part@ },
        ),
        Literal::String(s) => LiteralS::String(s@),
        Literal::List(v) => LiteralS::List(view_exprs(v@)),
    }
}

/// The deep view of an if-statement.
pub open spec fn view_ifstate(f: IfState) -> IfStateS
    decreases f,
{
    IfStateS {
        condition: Box::new(view_expr(*f.condition)),
        body: view_exprs(f.body.0@),
        or_else: view_orelse(f.or_else),
    }
}

/// The deep view of an else-arm.
pub open spec fn view_orelse(o: OrElse) -> OrElseS
    decreases o,
{
    match o {
        OrElse::IfState(b) => OrElseS::IfState(Box::new(view_ifstate(*b))),
        OrElse::Block(b) => OrElseS::Block(view_exprs(b.0@)),
        OrElse::Nothing => OrElseS::Nothing,
    }
}

/// The deep view of a parameter list.
pub open spec fn view_idents(s: Seq<Ident>) -> Seq<Seq<char>> {
    s.map_values(|id: Ident| id.0@)
}

/// Putting a node in front of a sequence puts its view in front of the
/// sequence's view.
pub proof fn lemma_view_exprs_cons(e: Expr, rest: Seq<Expr>)
    ensures
        view_exprs(seq![e] + rest) == seq![view_expr(e)] + view_exprs(rest),
{
    let s = seq![e] + rest;
    assert(s[0] == e);
    assert(s.subrange(1, s.len() as int) =~= rest);
    assert(view_exprs(s) == seq![view_expr(s[0])] + view_exprs(s.subrange(1, s.len() as int)));
}


/// Putting a name in front of a parameter list puts its view in front of
/// the list's view.
pub proof fn lemma_view_idents_cons(id: Ident, rest: Seq<Ident>)
    ensures
        view_idents(seq![id] + rest) == seq![id.0@] + view_idents(rest),
{
    assert(view_idents(seq![id] + rest) =~= seq![id.0@] + view_idents(rest));
}

} // verus!
