//! The abstract syntax tree the parser produces and the evaluator consumes,
//! together with its mathematical model.

use vstd::prelude::*;

verus! {

/// One parsed form.
///
/// Multi-argument calls are left-nested `Call` chains; multi-parameter
/// lambdas are right-nested `Lambda` chains (currying). An `Enum` keeps the
/// variant names and, in parallel, how many fields each variant declares;
/// the field names themselves are discarded by design. A float literal is
/// carried as the raw bit pattern of an IEEE 754 single.
#[derive(Debug, PartialEq)]
pub enum Expr {
    Var(String),
    Call(Box<Expr>, Box<Expr>),
    Lambda(String, Box<Expr>),
    Integer(i32),
    Single(u32),
    Boolean(bool),
    Def(String, Box<Expr>),
    Enum(String, Vec<String>, Vec<u8>),
    Unit,
    String(String),
}

/// The mathematical shape of an expression: `Expr` with every text viewed as
/// a sequence of characters. Contracts and the grammar speak in this type.
#[verifier::ext_equal]
pub enum SpecExpr {
    Var(Seq<char>),
    Call(Box<SpecExpr>, Box<SpecExpr>),
    Lambda(Seq<char>, Box<SpecExpr>),
    Integer(i32),
    Single(u32),
    Boolean(bool),
    Def(Seq<char>, Box<SpecExpr>),
    Enum(Seq<char>, Seq<Seq<char>>, Seq<u8>),
    Unit,
    String(Seq<char>),
}

/// Views of a sequence of names.
pub open spec fn strs_view(ss: Seq<String>) -> Seq<Seq<char>> {
    ss.map_values(|s: String| s@)
}

/// The shape of an expression.
pub open spec fn expr_view(e: Expr) -> SpecExpr
    decreases e,
{
    match e {
        Expr::Var(s) => SpecExpr::Var(s@),
        Expr::Call(f, a) => SpecExpr::Call(Box::new(expr_view(*f)), Box::new(expr_view(*a))),
        Expr::Lambda(p, b) => SpecExpr::Lambda(p@, Box::new(expr_view(*b))),
        Expr::Integer(n) => SpecExpr::Integer(n),
        Expr::Single(bits) => SpecExpr::Single(bits),
        Expr::Boolean(b) => SpecExpr::Boolean(b),
        Expr::Def(n, v) => SpecExpr::Def(n@, Box::new(expr_view(*v))),
        Expr::Enum(n, vs, cs) => SpecExpr::Enum(n@, strs_view(vs@), cs@),
        Expr::Unit => SpecExpr::Unit,
        Expr::String(s) => SpecExpr::String(s@),
    }
}

impl View for Expr {
    type V = SpecExpr;

    open spec fn view(&self) -> SpecExpr {
        expr_view(*self)
    }
}

/// The shapes of a sequence of expressions.
pub open spec fn exprs_view(es: Seq<Expr>) -> Seq<SpecExpr> {
    es.map_values(|e: Expr| expr_view(e))
}

/// An exact copy of an expression (the derived clone is opaque to the
/// verifier, so the copy is spelled out).
pub fn clone_expr(e: &Expr) -> (r: Expr)
    ensures
        r@ == e@,
    decreases *e,
{
    match e {
        Expr::Var(s) => Expr::Var(s.clone()),
        Expr::Call(f, a) => Expr::Call(Box::new(clone_expr(f)), Box::new(clone_expr(a))),
        Expr::Lambda(p, b) => Expr::Lambda(p.clone(), Box::new(clone_expr(b))),
        Expr::Integer(n) => Expr::Integer(*n),
        Expr::Single(bits) => Expr::Single(*bits),
        Expr::Boolean(b) => Expr::Boolean(*b),
        Expr::Def(n, v) => Expr::Def(n.clone(), Box::new(clone_expr(v))),
        Expr::Enum(n, vs, cs) => Expr::Enum(n.clone(), clone_strings(vs), clone_bytes(cs)),
        Expr::Unit => Expr::Unit,
        Expr::String(s) => Expr::String(s.clone()),
    }
}

/// An exact copy of a list of names.
pub fn clone_strings(v: &Vec<String>) -> (r: Vec<String>)
    ensures
        strs_view(r@) == strs_view(v@),
{
    let mut r: Vec<String> = Vec::new();
    let mut i: usize = 0;
    while i < v.len()
        invariant
            i <= v.len(),
            r@.len() == i,
            forall|k: int| 0 <= k < i ==> r@[k] == v@[k],
        decreases v.len() - i,
    {
        r.push(v[i].clone());
        i = i + 1;
    }
    proof {
        assert(strs_view(r@) =~= strs_view(v@));
    }
    r
}

/// An exact copy of a list of arities.
pub fn clone_bytes(v: &Vec<u8>) -> (r: Vec<u8>)
    ensures
        r@ == v@,
{
    let mut r: Vec<u8> = Vec::new();
    let mut i: usize = 0;
    while i < v.len()
        invariant
            i <= v.len(),
            r@.len() == i,
            forall|k: int| 0 <= k < i ==> r@[k] == v@[k],
        decreases v.len() - i,
    {
        r.push(v[i]);
        i = i + 1;
    }
    proof {
        assert(r@ =~= v@);
    }
    r
}

/// An exact copy of a sequence of expressions.
pub fn clone_exprs(v: &Vec<Expr>) -> (r: Vec<Expr>)
    ensures
        exprs_view(r@) == exprs_view(v@),
{
    let mut r: Vec<Expr> = Vec::new();
    let mut i: usize = 0;
    while i < v.len()
        invariant
            i <= v.len(),
            r@.len() == i,
            forall|k: int| 0 <= k < i ==> r@[k]@ == v@[k]@,
        decreases v.len() - i,
    {
        r.push(clone_expr(&v[i]));
        i = i + 1;
    }
    proof {
        assert(exprs_view(r@) =~= exprs_view(v@));
    }
    r
}

} // verus!
