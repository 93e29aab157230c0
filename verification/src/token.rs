//! Lexical tokens, as the external lexer hands them to the parser.
//!
//! The parser consumes a finished token sequence terminated by a sentinel
//! token (conventionally `TType::Eof`) that is never interpreted as content:
//! the cursor treats "one token before the end" as the logical end of input.

use vstd::prelude::*;

verus! {

/// The kind of a token, with the payload the lexer attaches to literal kinds.
///
/// A float literal is carried as the raw bit pattern of an IEEE 754 single;
/// the parser only moves the payload into the tree, it never computes with it.
#[derive(Debug, PartialEq)]
pub enum TType {
    Str(String),
    Float(u32),
    Number(i32),
    Ident(String),
    LParen,
    RParen,
    Def,
    Enum,
    Lambda,
    Eof,
}

/// A token kind with the payload stripped: what `advance` expects and what
/// diagnostics report.
#[derive(Debug, Clone, Copy, PartialEq, Eq, Structural)]
pub enum TKind {
    Str,
    Float,
    Number,
    Ident,
    LParen,
    RParen,
    Def,
    Enum,
    Lambda,
    Eof,
}

/// One lexical unit: a kind plus the 1-based source position used in
/// diagnostics.
#[derive(Debug, PartialEq)]
pub struct Token {
    pub ttype: TType,
    pub line: u32,
    pub col: u32,
}

/// The kind of a token type, payload ignored.
pub open spec fn spec_kind(t: TType) -> TKind {
    match t {
        TType::Str(_) => TKind::Str,
        TType::Float(_) => TKind::Float,
        TType::Number(_) => TKind::Number,
        TType::Ident(_) => TKind::Ident,
        TType::LParen => TKind::LParen,
        TType::RParen => TKind::RParen,
        TType::Def => TKind::Def,
        TType::Enum => TKind::Enum,
        TType::Lambda => TKind::Lambda,
        TType::Eof => TKind::Eof,
    }
}

/// Computes the kind of a token type, payload ignored.
pub fn kind_of(t: &TType) -> (k: TKind)
    ensures
        k == spec_kind(*t),
{
    match t {
        TType::Str(_) => TKind::Str,
        TType::Float(_) => TKind::Float,
        TType::Number(_) => TKind::Number,
        TType::Ident(_) => TKind::Ident,
        TType::LParen => TKind::LParen,
        TType::RParen => TKind::RParen,
        TType::Def => TKind::Def,
        TType::Enum => TKind::Enum,
        TType::Lambda => TKind::Lambda,
        TType::Eof => TKind::Eof,
    }
}

/// The identifier payload of a token type, if it has one.
pub fn into_ident(t: TType) -> (r: Option<String>)
    ensures
        match r {
            Some(s) => t is Ident && s == t->Ident_0,
            None => !(t is Ident),
        },
{
    match t {
        TType::Ident(s) => Some(s),
        _ => None,
    }
}

/// A borrowed view of the identifier payload of a token type, if it has one.
pub fn ident_payload<'a>(t: &'a TType) -> (r: Option<&'a String>)
    ensures
        match r {
            Some(s) => *t is Ident && *s == t->Ident_0,
            None => !(*t is Ident),
        },
{
    match t {
        TType::Ident(s) => Some(s),
        _ => None,
    }
}

/// An exact copy of a token type (the derived clone is opaque to the
/// verifier, so the copy is spelled out).
pub fn clone_ttype(t: &TType) -> (r: TType)
    ensures
        r == *t,
{
    match t {
        TType::Str(s) => TType::Str(s.clone()),
        TType::Float(f) => TType::Float(*f),
        TType::Number(n) => TType::Number(*n),
        TType::Ident(s) => TType::Ident(s.clone()),
        TType::LParen => TType::LParen,
        TType::RParen => TType::RParen,
        TType::Def => TType::Def,
        TType::Enum => TType::Enum,
        TType::Lambda => TType::Lambda,
        TType::Eof => TType::Eof,
    }
}

/// An exact copy of a token.
pub fn clone_token(t: &Token) -> (r: Token)
    ensures
        r == *t,
{
    Token { ttype: clone_ttype(&t.ttype), line: t.line, col: t.col }
}

/// The lexer never emits an identifier token with an empty name; the
/// capitalization check on enum names reads the first character.
pub open spec fn ident_token_wf(t: Token) -> bool {
    t.ttype is Ident ==> t.ttype->Ident_0@.len() > 0
}

/// Well-formedness of a token stream as the lexer guarantees it.
pub open spec fn tokens_wf(toks: Seq<Token>) -> bool {
    forall|i: int| 0 <= i < toks.len() ==> ident_token_wf(#[trigger] toks[i])
}

} // verus!
