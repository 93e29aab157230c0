//! The grammar, written down once as total spec functions over the token
//! sequence. The executable parser is proved to return exactly what these
//! functions describe, so they are the single place where the language's
//! surface syntax is defined.
//!
//! Every function takes the token sequence and a cursor; a successful parse
//! yields the recognized shape together with the cursor after it. The
//! sentinel convention is built in: a cursor one before the physical end is
//! the logical end of input.

use vstd::prelude::*;
use crate::ast::SpecExpr;
use crate::token::TKind;
use crate::token::TType;
use crate::token::Token;
use crate::token::spec_kind;

verus! {

/// A diagnostic, as structured data: which rule failed and the 1-based
/// source position of the offending token (for premature end of input, of
/// the token just before the missing one).
///
/// `Internal` stands for an internal invariant violation. It appears only in
/// branches of the grammar that are proved unreachable: the parser's
/// contracts state that it is never returned.
#[derive(Debug, Clone, Copy, PartialEq, Eq, Structural)]
pub enum ParseError {
    /// The input ended in the middle of a form.
    Unfinished { line: u32, col: u32 },
    /// A token of one kind was required and another was found.
    Expected { expected: TKind, found: TKind, line: u32, col: u32 },
    /// A bare `)` where an expression was expected.
    UnexpectedClosing { line: u32, col: u32 },
    /// A bare keyword where an expression was expected.
    UnexpectedKeyword { line: u32, col: u32 },
    /// After `(`, a token that can open no form: not `)`, `(`, a keyword or
    /// an identifier.
    BadForm { found: TKind, line: u32, col: u32 },
    /// An enum type name that does not start with a capital letter.
    EnumNotCapitalized { line: u32, col: u32 },
    /// An enum variant name that does not start with a capital letter.
    VariantNotCapitalized { line: u32, col: u32 },
    /// An internal invariant violation; proved never to occur.
    Internal,
}

/// The cursor is at logical end when only the sentinel token remains.
pub open spec fn at_end(toks: Seq<Token>, i: int) -> bool {
    i + 1 >= toks.len()
}

/// Popping one token: the token and the new cursor, or the "unfinished
/// expression" diagnostic at the current token's position.
pub open spec fn pop_at(toks: Seq<Token>, i: int) -> Result<(Token, int), ParseError> {
    if i + 1 >= toks.len() {
        Err(ParseError::Unfinished { line: toks[i].line, col: toks[i].col })
    } else {
        Ok((toks[i], i + 1))
    }
}

/// Popping one token that must be of the expected kind (payload is a
/// don't-care).
pub open spec fn advance_at(toks: Seq<Token>, i: int, expected: TKind) -> Result<
    (Token, int),
    ParseError,
> {
    match pop_at(toks, i) {
        Err(e) => Err(e),
        Ok((t, j)) => if spec_kind(t.ttype) != expected {
            Err(
                ParseError::Expected {
                    expected,
                    found: spec_kind(t.ttype),
                    line: t.line,
                    col: t.col,
                },
            )
        } else {
            Ok((t, j))
        },
    }
}

/// The names of a maximal run of identifier tokens starting at the cursor.
/// The run never reaches the sentinel, and never fails: it simply stops at
/// the first token of another kind.
pub open spec fn ident_run(toks: Seq<Token>, i: int) -> Seq<Seq<char>>
    decreases toks.len() - i,
{
    if i + 1 >= toks.len() || !(toks[i].ttype is Ident) {
        Seq::empty()
    } else {
        seq![toks[i].ttype->Ident_0@] + ident_run(toks, i + 1)
    }
}

/// Whether a name starts with a capital ASCII letter. Only the low byte of
/// the first character is inspected; wider characters are out of scope for
/// this validation.
pub open spec fn starts_capital(s: Seq<char>) -> bool {
    65 <= (s[0] as u32) % 256 < 91
}

/// Consuming the closing `)` of a form — unless the cursor is already at the
/// logical end, in which case the form is implicitly closed by end of input.
pub open spec fn close_at(toks: Seq<Token>, j: int) -> Result<int, ParseError> {
    if at_end(toks, j) {
        Ok(j)
    } else {
        match advance_at(toks, j, TKind::RParen) {
            Err(e) => Err(e),
            Ok((_t, j1)) => Ok(j1),
        }
    }
}

/// The variant list of an enum declaration: a run of `(Name field ...)`
/// groups, ending at `)` or at end of input. Yields the variant names, the
/// parallel field counts (an arity lives in a byte, so it is counted modulo
/// 256), and the cursor after the run.
pub open spec fn parse_variants(toks: Seq<Token>, i: int) -> Result<
    (Seq<Seq<char>>, Seq<u8>, int),
    ParseError,
>
    decreases toks.len() - i,
{
    if i + 1 >= toks.len() || toks[i].ttype is RParen {
        Ok((Seq::empty(), Seq::empty(), i))
    } else {
        match advance_at(toks, i, TKind::LParen) {
            Err(e) => Err(e),
            Ok((_o, i1)) => match advance_at(toks, i1, TKind::Ident) {
                Err(e) => Err(e),
                Ok((vt, i2)) => {
                    let vname = vt.ttype->Ident_0@;
                    if !starts_capital(vname) {
                        Err(ParseError::VariantNotCapitalized { line: vt.line, col: vt.col })
                    } else {
                        let fields = ident_run(toks, i2);
                        let j = i2 + fields.len();
                        match advance_at(toks, j, TKind::RParen) {
                            Err(e) => Err(e),
                            Ok((_c, j1)) => match parse_variants(toks, j1) {
                                Err(e) => Err(e),
                                Ok((names, counts, end)) => Ok(
                                    (
                                        seq![vname] + names,
                                        seq![(fields.len() % 256) as u8] + counts,
                                        end,
                                    ),
                                ),
                            },
                        }
                    }
                },
            },
        }
    }
}

/// A multi-parameter lambda desugars to right-nested single-parameter
/// lambdas: the rightmost parameter is the innermost.
pub open spec fn fold_lambda(params: Seq<Seq<char>>, body: SpecExpr) -> SpecExpr
    decreases params.len(),
{
    if params.len() == 0 {
        body
    } else {
        SpecExpr::Lambda(params[0], Box::new(fold_lambda(params.drop_first(), body)))
    }
}

/// One expression starting at the cursor.
///
/// A literal or identifier token is an expression by itself; a bare `)` or a
/// bare keyword is an error; `(` opens a compound form read by
/// `parse_form_at`.
pub open spec fn parse_expr_at(toks: Seq<Token>, i: int) -> Result<(SpecExpr, int), ParseError>
    decreases toks.len() - i, 0int,
{
    match pop_at(toks, i) {
        Err(e) => Err(e),
        Ok((root, i1)) => match root.ttype {
            TType::Str(s) => Ok((SpecExpr::String(s@), i1)),
            TType::Float(f) => Ok((SpecExpr::Single(f), i1)),
            TType::Number(n) => Ok((SpecExpr::Integer(n), i1)),
            TType::Ident(v) => Ok((SpecExpr::Var(v@), i1)),
            TType::LParen => parse_form_at(toks, i1),
            TType::RParen => Err(ParseError::UnexpectedClosing { line: root.line, col: root.col }),
            _ => Err(ParseError::UnexpectedKeyword { line: root.line, col: root.col }),
        },
    }
}

/// A compound form, the opening `(` already consumed.
///
/// The cases, told apart by one token of lookahead: a second `(` makes the
/// inner expression the applied function (one extra layer of grouping is
/// transparent); `def` binds a name; `enum` declares an algebraic type;
/// the lambda keyword abstracts; an identifier is a function applied to the
/// following arguments; `)` at once is the empty form `Unit`; anything else
/// can open no form.
pub open spec fn parse_form_at(toks: Seq<Token>, i: int) -> Result<(SpecExpr, int), ParseError>
    decreases toks.len() - i, 2int,
{
    match pop_at(toks, i) {
        Err(e) => Err(e),
        Ok((sub, i1)) => match sub.ttype {
            TType::LParen => match parse_expr_at(toks, i) {
                Err(e) => Err(e),
                Ok((func, j)) => if i < j <= toks.len() {
                    parse_args_at(toks, j, func)
                } else {
                    Err(ParseError::Internal)
                },
            },
            TType::Def => match advance_at(toks, i1, TKind::Ident) {
                Err(e) => Err(e),
                Ok((nt, i2)) => {
                    let name = nt.ttype->Ident_0@;
                    match parse_expr_at(toks, i2) {
                        Err(e) => Err(e),
                        Ok((value, j)) => match close_at(toks, j) {
                            Err(e) => Err(e),
                            Ok(j1) => Ok((SpecExpr::Def(name, Box::new(value)), j1)),
                        },
                    }
                },
            },
            TType::Enum => match advance_at(toks, i1, TKind::Ident) {
                Err(e) => Err(e),
                Ok((nt, i2)) => {
                    let name = nt.ttype->Ident_0@;
                    if !starts_capital(name) {
                        Err(ParseError::EnumNotCapitalized { line: nt.line, col: nt.col })
                    } else {
                        match parse_variants(toks, i2) {
                            Err(e) => Err(e),
                            Ok((names, counts, j)) => match close_at(toks, j) {
                                Err(e) => Err(e),
                                Ok(j1) => Ok((SpecExpr::Enum(name, names, counts), j1)),
                            },
                        }
                    }
                },
            },
            TType::Lambda => match advance_at(toks, i1, TKind::LParen) {
                Err(e) => Err(e),
                Ok((_o, i2)) => {
                    let params = ident_run(toks, i2);
                    let j = i2 + params.len();
                    match advance_at(toks, j, TKind::RParen) {
                        Err(e) => Err(e),
                        Ok((_c, j1)) => match parse_expr_at(toks, j1) {
                            Err(e) => Err(e),
                            Ok((body, k)) => match close_at(toks, k) {
                                Err(e) => Err(e),
                                Ok(k1) => Ok((fold_lambda(params, body), k1)),
                            },
                        },
                    }
                },
            },
            TType::Ident(x) => parse_args_at(toks, i1, SpecExpr::Var(x@)),
            TType::RParen => Ok((SpecExpr::Unit, i1)),
            _ => Err(
                ParseError::BadForm { found: spec_kind(sub.ttype), line: sub.line, col: sub.col },
            ),
        },
    }
}

/// The argument list of an application: expressions up to `)` or end of
/// input, folded left to right into nested `Call` nodes around `func`, then
/// the closing `)` (consumed only when not at end of input).
pub open spec fn parse_args_at(toks: Seq<Token>, i: int, func: SpecExpr) -> Result<
    (SpecExpr, int),
    ParseError,
>
    decreases toks.len() - i, 1int,
{
    if i + 1 >= toks.len() {
        Ok((func, i))
    } else if toks[i].ttype is RParen {
        Ok((func, i + 1))
    } else {
        match parse_expr_at(toks, i) {
            Err(e) => Err(e),
            Ok((arg, j)) => if i < j <= toks.len() {
                parse_args_at(toks, j, SpecExpr::Call(Box::new(func), Box::new(arg)))
            } else {
                Err(ParseError::Internal)
            },
        }
    }
}

/// The whole input: top-level expressions in source order until the logical
/// end, or the first error.
pub open spec fn parse_at(toks: Seq<Token>, i: int) -> Result<Seq<SpecExpr>, ParseError>
    decreases toks.len() - i,
{
    if i + 1 >= toks.len() {
        Ok(Seq::empty())
    } else {
        match parse_expr_at(toks, i) {
            Err(e) => Err(e),
            Ok((e, j)) => if i < j <= toks.len() {
                match parse_at(toks, j) {
                    Err(e2) => Err(e2),
                    Ok(rest) => Ok(seq![e] + rest),
                }
            } else {
                Err(ParseError::Internal)
            },
        }
    }
}

/// The top-level expressions recognized before the first error — all of
/// them, when there is no error. This is exactly what one parsing pass
/// appends to the parser's accumulator, whether it succeeds or stops.
pub open spec fn parse_prefix(toks: Seq<Token>, i: int) -> Seq<SpecExpr>
    decreases toks.len() - i,
{
    if i + 1 >= toks.len() {
        Seq::empty()
    } else {
        match parse_expr_at(toks, i) {
            Err(e) => Seq::empty(),
            Ok((e, j)) => if i < j <= toks.len() {
                seq![e] + parse_prefix(toks, j)
            } else {
                Seq::empty()
            },
        }
    }
}

/// The expression a single literal or identifier token denotes on its own.
pub open spec fn literal_expr(t: TType) -> SpecExpr {
    match t {
        TType::Str(s) => SpecExpr::String(s@),
        TType::Float(f) => SpecExpr::Single(f),
        TType::Number(n) => SpecExpr::Integer(n),
        TType::Ident(v) => SpecExpr::Var(v@),
        _ => SpecExpr::Unit,
    }
}

/// Law: a literal token (string, float or integer — and likewise an
/// identifier) standing at the cursor, with input left after it, parses to
/// exactly the corresponding literal expression, its payload unchanged, and
/// consumes exactly that one token — wherever in the input it stands.
pub proof fn lemma_literal_at_cursor(toks: Seq<Token>, i: int)
    requires
        0 <= i,
        i + 1 < toks.len(),
        toks[i].ttype is Str || toks[i].ttype is Float || toks[i].ttype is Number || toks[i].ttype
            is Ident,
    ensures
        parse_expr_at(toks, i) == Ok::<(SpecExpr, int), ParseError>(
            (literal_expr(toks[i].ttype), i + 1),
        ),
{
}

/// Law: parsing a single literal token (string, float or integer — and
/// likewise a single identifier), followed by the sentinel, succeeds and
/// yields exactly the corresponding literal expression, its value
/// unchanged.
pub proof fn lemma_literal_token(t: Token, sentinel: Token)
    requires
        t.ttype is Str || t.ttype is Float || t.ttype is Number || t.ttype is Ident,
    ensures
        parse_at(seq![t, sentinel], 0) == Ok::<Seq<SpecExpr>, ParseError>(
            seq![literal_expr(t.ttype)],
        ),
{
    let toks = seq![t, sentinel];
    reveal_with_fuel(parse_at, 3);
    assert(toks.len() == 2);
    assert(toks[0] == t);
    assert(parse_expr_at(toks, 0) == Ok::<(SpecExpr, int), ParseError>((literal_expr(t.ttype), 1)));
    assert(parse_at(toks, 1) == Ok::<Seq<SpecExpr>, ParseError>(Seq::empty()));
    assert(seq![literal_expr(t.ttype)] + Seq::<SpecExpr>::empty() =~= seq![literal_expr(t.ttype)]);
}

/// Law: parsing is deterministic — the outcome is a function of the token
/// sequence alone, so re-parsing an identical sequence yields a
/// structurally identical result. (That it is also total is Verus's
/// termination check on `parse_at` itself.)
pub proof fn lemma_parse_deterministic(toks1: Seq<Token>, toks2: Seq<Token>)
    requires
        toks1 == toks2,
    ensures
        parse_at(toks1, 0) == parse_at(toks2, 0),
{
}

/// A recognized expression consumes at least one token and never runs past
/// the physical end; and no outcome is the internal-invariant marker.
pub proof fn lemma_expr_progress(toks: Seq<Token>, i: int)
    ensures
        parse_expr_at(toks, i) matches Ok((e, j)) ==> i < j <= toks.len(),
        parse_expr_at(toks, i) != Err::<(SpecExpr, int), ParseError>(ParseError::Internal),
    decreases toks.len() - i, 0int,
{
    if pop_at(toks, i) is Ok {
        let (root, i1) = pop_at(toks, i)->Ok_0;
        if root.ttype is LParen {
            lemma_form_progress(toks, i1);
        }
    }
}

/// A recognized compound form consumes at least one token past its opening
/// `(` and never runs past the physical end; and no outcome is the
/// internal-invariant marker.
pub proof fn lemma_form_progress(toks: Seq<Token>, i: int)
    ensures
        parse_form_at(toks, i) matches Ok((e, j)) ==> i < j <= toks.len(),
        parse_form_at(toks, i) != Err::<(SpecExpr, int), ParseError>(ParseError::Internal),
    decreases toks.len() - i, 2int,
{
    if pop_at(toks, i) is Ok {
        let (sub, i1) = pop_at(toks, i)->Ok_0;
        match sub.ttype {
            TType::LParen => {
                lemma_expr_progress(toks, i);
                if parse_expr_at(toks, i) is Ok {
                    let (func, j) = parse_expr_at(toks, i)->Ok_0;
                    lemma_args_progress(toks, j, func);
                }
            },
            TType::Def => {
                if advance_at(toks, i1, TKind::Ident) is Ok {
                    let (_nt, i2) = advance_at(toks, i1, TKind::Ident)->Ok_0;
                    lemma_expr_progress(toks, i2);
                }
            },
            TType::Enum => {
                if advance_at(toks, i1, TKind::Ident) is Ok {
                    let (_nt, i2) = advance_at(toks, i1, TKind::Ident)->Ok_0;
                    lemma_variants_progress(toks, i2);
                }
            },
            TType::Lambda => {
                if advance_at(toks, i1, TKind::LParen) is Ok {
                    let (_o, i2) = advance_at(toks, i1, TKind::LParen)->Ok_0;
                    let j = i2 + ident_run(toks, i2).len();
                    if advance_at(toks, j, TKind::RParen) is Ok {
                        let (_c, j1) = advance_at(toks, j, TKind::RParen)->Ok_0;
                        lemma_expr_progress(toks, j1);
                    }
                }
            },
            TType::Ident(x) => {
                lemma_args_progress(toks, i1, SpecExpr::Var(x@));
            },
            _ => {},
        }
    }
}

/// A recognized argument list never moves the cursor backwards nor past the
/// physical end; and no outcome is the internal-invariant marker.
pub proof fn lemma_args_progress(toks: Seq<Token>, i: int, func: SpecExpr)
    requires
        i <= toks.len(),
    ensures
        parse_args_at(toks, i, func) matches Ok((e, j)) ==> i <= j <= toks.len(),
        parse_args_at(toks, i, func) != Err::<(SpecExpr, int), ParseError>(ParseError::Internal),
    decreases toks.len() - i, 1int,
{
    if !(i + 1 >= toks.len() || toks[i].ttype is RParen) {
        lemma_expr_progress(toks, i);
        if parse_expr_at(toks, i) is Ok {
            let (arg, j) = parse_expr_at(toks, i)->Ok_0;
            lemma_args_progress(toks, j, SpecExpr::Call(Box::new(func), Box::new(arg)));
        }
    }
}

/// A recognized variant list never moves the cursor backwards nor past the
/// physical end; and no outcome is the internal-invariant marker.
pub proof fn lemma_variants_progress(toks: Seq<Token>, i: int)
    requires
        i <= toks.len(),
    ensures
        parse_variants(toks, i) matches Ok((ns, cs, end)) ==> i <= end <= toks.len(),
        parse_variants(toks, i) != Err::<(Seq<Seq<char>>, Seq<u8>, int), ParseError>(
            ParseError::Internal,
        ),
    decreases toks.len() - i,
{
    if !(i + 1 >= toks.len() || toks[i].ttype is RParen) {
        if advance_at(toks, i, TKind::LParen) is Ok {
            if advance_at(toks, i + 1, TKind::Ident) is Ok {
                let (_vt, i2) = advance_at(toks, i + 1, TKind::Ident)->Ok_0;
                let j = i2 + ident_run(toks, i2).len();
                if advance_at(toks, j, TKind::RParen) is Ok {
                    let (_c, j1) = advance_at(toks, j, TKind::RParen)->Ok_0;
                    lemma_variants_progress(toks, j1);
                }
            }
        }
    }
}

/// Law: the grammar never reports an internal invariant violation — every
/// outcome of `parse_at` is either a parsed sequence or one of the
/// user-facing diagnostics. (The executable parser's contract states the
/// same of its own result.)
pub proof fn lemma_parse_never_internal(toks: Seq<Token>, i: int)
    ensures
        parse_at(toks, i) != Err::<Seq<SpecExpr>, ParseError>(ParseError::Internal),
    decreases toks.len() - i,
{
    if !(i + 1 >= toks.len()) {
        lemma_expr_progress(toks, i);
        if parse_expr_at(toks, i) is Ok {
            let (e, j) = parse_expr_at(toks, i)->Ok_0;
            lemma_parse_never_internal(toks, j);
        }
    }
}

/// Prepending already-parsed expressions to the outcome of the rest of the
/// input.
pub open spec fn prepend_ok(pre: Seq<SpecExpr>, r: Result<Seq<SpecExpr>, ParseError>) -> Result<
    Seq<SpecExpr>,
    ParseError,
> {
    match r {
        Ok(s) => Ok(pre + s),
        Err(e) => Err(e),
    }
}

} // verus!

