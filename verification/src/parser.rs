//! The executable parser: a cursor over an owned token sequence, proved to
//! return exactly what the grammar's spec functions describe.

use vstd::prelude::*;
use crate::ast::Expr;
use crate::ast::SpecExpr;
use crate::ast::clone_exprs;
use crate::ast::exprs_view;
use crate::ast::strs_view;
use crate::grammar::ParseError;
use crate::grammar::advance_at;
use crate::grammar::at_end;
use crate::grammar::fold_lambda;
use crate::grammar::ident_run;
use crate::grammar::parse_args_at;
use crate::grammar::parse_expr_at;
use crate::grammar::parse_form_at;
use crate::grammar::parse_variants;
use crate::grammar::parse_at;
use crate::grammar::parse_prefix;
use crate::grammar::pop_at;
use crate::grammar::prepend_ok;
use crate::grammar::starts_capital;
use crate::token::TKind;
use crate::token::TType;
use crate::token::Token;
use crate::token::clone_token;
use crate::token::ident_payload;
use crate::token::into_ident;
use crate::token::kind_of;
use crate::token::spec_kind;
use crate::token::tokens_wf;

verus! {

/// The parser: the input token sequence (read-only after construction), a
/// zero-based cursor, and the accumulated top-level expressions.
pub struct Parser {
    input: Vec<Token>,
    output: Vec<Expr>,
    current: usize,
}

impl Parser {
    /// The token sequence being parsed.
    pub closed spec fn tokens(&self) -> Seq<Token> {
        self.input@
    }

    /// The cursor: how many tokens have been consumed.
    pub closed spec fn cursor(&self) -> int {
        self.current as int
    }

    /// The shapes of the top-level expressions accumulated so far.
    pub closed spec fn parsed(&self) -> Seq<SpecExpr> {
        exprs_view(self.output@)
    }

    /// The cursor stays strictly inside the token sequence (at worst on the
    /// sentinel); it can equal the length only for an empty input.
    pub closed spec fn wf(&self) -> bool {
        self.current < self.input.len() || self.current == 0
    }

    /// Constructs a parser positioned at the first token. No validation is
    /// performed at construction time.
    pub fn new(input: Vec<Token>) -> (p: Self)
        ensures
            p.wf(),
            p.tokens() == input@,
            p.cursor() == 0,
            p.parsed() == Seq::<SpecExpr>::empty(),
    {
        let p = Parser { input, output: vec![], current: 0usize };
        proof {
            assert(p.parsed() =~= Seq::<SpecExpr>::empty());
        }
        p
    }

    /// True once the cursor is at the sentinel position, one before the
    /// physical end.
    fn is_at_end(&self) -> (b: bool)
        requires
            self.wf(),
        ensures
            b == at_end(self.tokens(), self.cursor()),
    {
        self.current + 1 >= self.input.len()
    }

    /// The token at the cursor, unconsumed; nothing once the cursor is at
    /// or past the sentinel, which is never handed out as content.
    fn peek(&self) -> (r: Option<&Token>)
        requires
            self.wf(),
        ensures
            match r {
                Some(t) => !at_end(self.tokens(), self.cursor()) && *t == self.tokens()[self.cursor()],
                None => at_end(self.tokens(), self.cursor()),
            },
    {
        if self.current + 1 < self.input.len() {
            Some(&self.input[self.current])
        } else {
            None
        }
    }

    /// Returns the current token and advances the cursor; at the logical end
    /// it reports an unfinished expression at the position of the token
    /// before the missing one.
    fn pop(&mut self) -> (r: Result<Token, ParseError>)
        requires
            old(self).wf(),
            old(self).tokens().len() > 0,
        ensures
            final(self).wf(),
            final(self).tokens() == old(self).tokens(),
            final(self).parsed() == old(self).parsed(),
            match r {
                Ok(t) => pop_at(old(self).tokens(), old(self).cursor()) == Ok::<
                    (Token, int),
                    ParseError,
                >((t, final(self).cursor())) && final(self).cursor() == old(self).cursor() + 1,
                Err(e) => pop_at(old(self).tokens(), old(self).cursor()) == Err::<
                    (Token, int),
                    ParseError,
                >(e) && final(self).cursor() == old(self).cursor(),
            },
    {
        if self.current + 1 >= self.input.len() {
            let previous = &self.input[self.current];
            Err(ParseError::Unfinished { line: previous.line, col: previous.col })
        } else {
            let t = clone_token(&self.input[self.current]);
            self.current = self.current + 1;
            Ok(t)
        }
    }

    /// Pops one token and requires it to be of the expected kind; on a
    /// mismatch, reports what was expected and what was found, at the popped
    /// token's position. The payload of `expected` plays no part.
    fn advance(&mut self, expected: TKind) -> (r: Result<Token, ParseError>)
        requires
            old(self).wf(),
            old(self).tokens().len() > 0,
        ensures
            final(self).wf(),
            final(self).tokens() == old(self).tokens(),
            final(self).parsed() == old(self).parsed(),
            match r {
                Ok(t) => advance_at(old(self).tokens(), old(self).cursor(), expected) == Ok::<
                    (Token, int),
                    ParseError,
                >((t, final(self).cursor())) && final(self).cursor() == old(self).cursor() + 1,
                Err(e) => advance_at(old(self).tokens(), old(self).cursor(), expected) == Err::<
                    (Token, int),
                    ParseError,
                >(e) && final(self).cursor() == (if pop_at(
                    old(self).tokens(),
                    old(self).cursor(),
                ) is Ok {
                    // a token of the wrong kind has still been consumed
                    old(self).cursor() + 1
                } else {
                    old(self).cursor()
                }),
            },
    {
        let popped = match self.pop() {
            Ok(t) => t,
            Err(e) => {
                return Err(e);
            },
        };
        let found = kind_of(&popped.ttype);
        if found != expected {
            Err(ParseError::Expected { expected, found, line: popped.line, col: popped.col })
        } else {
            Ok(popped)
        }
    }

    /// True when the next token exists and has the given kind.
    fn next_is(&self, k: TKind) -> (b: bool)
        requires
            self.wf(),
        ensures
            b == (!at_end(self.tokens(), self.cursor()) && spec_kind(
                self.tokens()[self.cursor()].ttype,
            ) == k),
    {
        if self.current + 1 >= self.input.len() {
            false
        } else {
            match self.peek() {
                Some(t) => kind_of(&t.ttype) == k,
                None => false,
            }
        }
    }

    /// True when the cursor stands at the end of an argument or variant
    /// list: at the logical end of input, or on a `)`.
    fn list_done(&self) -> (b: bool)
        requires
            self.wf(),
        ensures
            b == (at_end(self.tokens(), self.cursor()) || self.tokens()[self.cursor()].ttype
                is RParen),
    {
        if self.current + 1 >= self.input.len() {
            true
        } else {
            match self.peek() {
                Some(t) => kind_of(&t.ttype) == TKind::RParen,
                None => true,
            }
        }
    }

    /// Greedily consumes a maximal run of identifier tokens and returns
    /// their names in order. Never fails: it stops at the first token of
    /// another kind or at the logical end.
    fn advance_idents(&mut self) -> (r: Vec<String>)
        requires
            old(self).wf(),
            old(self).tokens().len() > 0,
        ensures
            final(self).wf(),
            final(self).tokens() == old(self).tokens(),
            final(self).parsed() == old(self).parsed(),
            strs_view(r@) == ident_run(old(self).tokens(), old(self).cursor()),
            final(self).cursor() == old(self).cursor() + r@.len(),
    {
        let ghost toks = self.tokens();
        let ghost c0 = self.cursor();
        let mut out: Vec<String> = Vec::new();
        proof {
            assert(strs_view(out@) + ident_run(toks, c0) =~= ident_run(toks, c0));
        }
        while self.next_is(TKind::Ident)
            invariant
                self.wf(),
                self.tokens() == toks,
                self.parsed() == old(self).parsed(),
                toks.len() > 0,
                self.cursor() == c0 + out@.len(),
                strs_view(out@) + ident_run(toks, self.cursor()) == ident_run(toks, c0),
            decreases toks.len() - self.cursor(),
        {
            let ghost c = self.cursor();
            let ghost out_pre = out@;
            let name = match ident_payload(&self.input[self.current].ttype) {
                Some(s) => s.clone(),
                None => {
                    return out;  // unreachable: the next token is an identifier
                },
            };
            self.current = self.current + 1;
            out.push(name);
            proof {
                assert(ident_run(toks, c) == seq![toks[c].ttype->Ident_0@] + ident_run(toks, c + 1));
                assert(strs_view(out@) =~= strs_view(out_pre).push(name@));
                assert(strs_view(out@) + ident_run(toks, self.cursor()) =~= strs_view(out_pre)
                    + ident_run(toks, c));
            }
        }
        out
    }

    /// Parses the argument list of an application, folding the arguments
    /// left to right into nested `Call` nodes around `func`, and consumes
    /// the closing `)` unless the input ends first.
    #[verifier::loop_isolation(false)]
    fn parse_args(&mut self, func: Expr) -> (r: Result<Expr, ParseError>)
        requires
            old(self).wf(),
            old(self).tokens().len() > 0,
            tokens_wf(old(self).tokens()),
        ensures
            final(self).wf(),
            final(self).tokens() == old(self).tokens(),
            final(self).parsed() == old(self).parsed(),
            match r {
                Ok(e) => parse_args_at(old(self).tokens(), old(self).cursor(), func@) == Ok::<
                    (SpecExpr, int),
                    ParseError,
                >((e@, final(self).cursor())) && old(self).cursor() <= final(self).cursor() <= old(self).tokens().len(),
                Err(er) => parse_args_at(old(self).tokens(), old(self).cursor(), func@) == Err::<
                    (SpecExpr, int),
                    ParseError,
                >(er) && !(er is Internal),
            },
        decreases self.tokens().len() - self.cursor(), 1int,
    {
        let ghost toks = self.tokens();
        let ghost c0 = self.cursor();
        let ghost f0 = func@;
        let mut acc = func;
        while !self.list_done()
            invariant
                self.wf(),
                self.tokens() == toks,
                self.parsed() == old(self).parsed(),
                toks.len() > 0,
                tokens_wf(toks),
                c0 <= self.cursor() <= toks.len(),
                parse_args_at(toks, self.cursor(), acc@) == parse_args_at(toks, c0, f0),
            decreases toks.len() - self.cursor(),
        {
            let ghost c = self.cursor();
            let ghost a_pre = acc@;
            let arg = match self.parse_expr() {
                Ok(a) => a,
                Err(e) => {
                    return Err(e);
                },
            };
            acc = Expr::Call(Box::new(acc), Box::new(arg));
            proof {
                assert(acc@ == SpecExpr::Call(Box::new(a_pre), Box::new(arg@)));
                assert(parse_args_at(toks, c, a_pre) == parse_args_at(toks, self.cursor(), acc@));
            }
        }
        if !self.is_at_end() {
            match self.advance(TKind::RParen) {
                Ok(_) => (),
                Err(e) => {
                    return Err(e);  // unreachable: the next token is `)`
                },
            };
        }
        Ok(acc)
    }

    /// Parses the variant list of an enum declaration: `(Name field ...)`
    /// groups up to `)` or end of input, returning the variant names and the
    /// parallel field counts.
    #[verifier::loop_isolation(false)]
    fn parse_enum_variants(&mut self) -> (r: Result<(Vec<String>, Vec<u8>), ParseError>)
        requires
            old(self).wf(),
            old(self).tokens().len() > 0,
            tokens_wf(old(self).tokens()),
        ensures
            final(self).wf(),
            final(self).tokens() == old(self).tokens(),
            final(self).parsed() == old(self).parsed(),
            match r {
                Ok(p) => parse_variants(old(self).tokens(), old(self).cursor()) == Ok::<
                    (Seq<Seq<char>>, Seq<u8>, int),
                    ParseError,
                >((strs_view(p.0@), p.1@, final(self).cursor())) && old(self).cursor() <= final(self).cursor() <= old(self).tokens().len(),
                Err(er) => parse_variants(old(self).tokens(), old(self).cursor()) == Err::<
                    (Seq<Seq<char>>, Seq<u8>, int),
                    ParseError,
                >(er) && !(er is Internal),
            },
    {
        let ghost toks = self.tokens();
        let ghost v0 = self.cursor();
        let mut variants: Vec<String> = Vec::new();
        let mut containing: Vec<u8> = Vec::new();
        proof {
            assert(strs_view(variants@) =~= Seq::<Seq<char>>::empty());
        }
        while !self.list_done()
            invariant
                self.wf(),
                self.tokens() == toks,
                self.parsed() == old(self).parsed(),
                toks.len() > 0,
                tokens_wf(toks),
                v0 <= self.cursor() <= toks.len(),
                match parse_variants(toks, self.cursor()) {
                    Ok((ns, cs, end)) => parse_variants(toks, v0) == Ok::<
                        (Seq<Seq<char>>, Seq<u8>, int),
                        ParseError,
                    >((strs_view(variants@) + ns, containing@ + cs, end)),
                    Err(e) => parse_variants(toks, v0) == Err::<
                        (Seq<Seq<char>>, Seq<u8>, int),
                        ParseError,
                    >(e),
                },
            decreases toks.len() - self.cursor(),
        {
            let ghost c = self.cursor();
            let ghost vpre = variants@;
            let ghost cpre = containing@;
            match self.advance(TKind::LParen) {
                Ok(_) => (),
                Err(e) => {
                    return Err(e);
                },
            };
            let raw = match self.advance(TKind::Ident) {
                Ok(t) => t,
                Err(e) => {
                    return Err(e);
                },
            };
            let vline = raw.line;
            let vcol = raw.col;
            let vname = into_ident(raw.ttype).unwrap();
            proof {
                assert(toks[c + 1].ttype->Ident_0@.len() > 0);
            }
            if !name_starts_capital(&vname) {
                return Err(ParseError::VariantNotCapitalized { line: vline, col: vcol });
            }
            let fields = self.advance_idents();
            let length: u8 = (fields.len() % 256) as u8;
            variants.push(vname);
            containing.push(length);
            match self.advance(TKind::RParen) {
                Ok(_) => (),
                Err(e) => {
                    return Err(e);
                },
            };
            proof {
                assert(strs_view(variants@) =~= strs_view(vpre).push(vname@));
                if parse_variants(toks, self.cursor()) is Ok {
                    let (ns, cs, end) = parse_variants(toks, self.cursor())->Ok_0;
                    assert(strs_view(vpre) + (seq![vname@] + ns) =~= strs_view(variants@) + ns);
                    assert(cpre + (seq![length] + cs) =~= containing@ + cs);
                }
            }
        }
        Ok((variants, containing))
    }

    /// Parses a compound form, the opening `(` already consumed.
    #[verifier::loop_isolation(false)]
    fn parse_form(&mut self) -> (r: Result<Expr, ParseError>)
        requires
            old(self).wf(),
            old(self).tokens().len() > 0,
            tokens_wf(old(self).tokens()),
        ensures
            final(self).wf(),
            final(self).tokens() == old(self).tokens(),
            final(self).parsed() == old(self).parsed(),
            match r {
                Ok(e) => parse_form_at(old(self).tokens(), old(self).cursor()) == Ok::<
                    (SpecExpr, int),
                    ParseError,
                >((e@, final(self).cursor())) && old(self).cursor() < final(self).cursor() <= old(self).tokens().len(),
                Err(er) => parse_form_at(old(self).tokens(), old(self).cursor()) == Err::<
                    (SpecExpr, int),
                    ParseError,
                >(er) && !(er is Internal),
            },
        decreases self.tokens().len() - self.cursor(), 2int,
    {
        let ghost toks = self.tokens();
        let ghost c0 = self.cursor();
        let sub = match self.pop() {
            Ok(t) => t,
            Err(e) => {
                return Err(e);
            },
        };
        let sline = sub.line;
        let scol = sub.col;
        let skind = kind_of(&sub.ttype);
        match sub.ttype {
            TType::LParen => {
                // grouping is transparent: re-read the inner `(` as the head
                // of the applied function
                self.current = self.current - 1;
                let func = match self.parse_expr() {
                    Ok(f) => f,
                    Err(e) => {
                        return Err(e);
                    },
                };
                self.parse_args(func)
            },
            TType::Def => {
                let raw = match self.advance(TKind::Ident) {
                    Ok(t) => t,
                    Err(e) => {
                        return Err(e);
                    },
                };
                let name = into_ident(raw.ttype).unwrap();
                let value = match self.parse_expr() {
                    Ok(v) => v,
                    Err(e) => {
                        return Err(e);
                    },
                };
                if !self.is_at_end() {
                    match self.advance(TKind::RParen) {
                        Ok(_) => (),
                        Err(e) => {
                            return Err(e);
                        },
                    };
                }
                Ok(Expr::Def(name, Box::new(value)))
            },
            TType::Enum => {
                let raw = match self.advance(TKind::Ident) {
                    Ok(t) => t,
                    Err(e) => {
                        return Err(e);
                    },
                };
                let nline = raw.line;
                let ncol = raw.col;
                let name = into_ident(raw.ttype).unwrap();
                proof {
                    assert(toks[c0 + 1].ttype->Ident_0@.len() > 0);
                }
                if !name_starts_capital(&name) {
                    return Err(ParseError::EnumNotCapitalized { line: nline, col: ncol });
                }
                let (variants, containing) = match self.parse_enum_variants() {
                    Ok(p) => p,
                    Err(e) => {
                        return Err(e);
                    },
                };
                if !self.is_at_end() {
                    match self.advance(TKind::RParen) {
                        Ok(_) => (),
                        Err(e) => {
                            return Err(e);
                        },
                    };
                }
                Ok(Expr::Enum(name, variants, containing))
            },
            TType::Lambda => {
                match self.advance(TKind::LParen) {
                    Ok(_) => (),
                    Err(e) => {
                        return Err(e);
                    },
                };
                let params = self.advance_idents();
                match self.advance(TKind::RParen) {
                    Ok(_) => (),
                    Err(e) => {
                        return Err(e);
                    },
                };
                let mut body = match self.parse_expr() {
                    Ok(b) => b,
                    Err(e) => {
                        return Err(e);
                    },
                };
                let ghost pview = strs_view(params@);
                let ghost body0 = body@;
                let mut k: usize = params.len();
                proof {
                    assert(pview.skip(k as int) =~= Seq::<Seq<char>>::empty());
                }
                while k > 0
                    invariant
                        k <= params.len(),
                        pview == strs_view(params@),
                        body@ == fold_lambda(pview.skip(k as int), body0),
                    decreases k,
                {
                    k = k - 1;
                    let p = params[k].clone();
                    body = Expr::Lambda(p, Box::new(body));
                    proof {
                        assert(pview.skip(k as int).drop_first() =~= pview.skip(k as int + 1));
                        assert(pview.skip(k as int)[0] == pview[k as int]);
                    }
                }
                proof {
                    assert(pview.skip(0) =~= pview);
                }
                if !self.is_at_end() {
                    match self.advance(TKind::RParen) {
                        Ok(_) => (),
                        Err(e) => {
                            return Err(e);
                        },
                    };
                }
                Ok(body)
            },
            TType::Ident(x) => {
                let func = Expr::Var(x);
                self.parse_args(func)
            },
            TType::RParen => Ok(Expr::Unit),
            _ => Err(ParseError::BadForm { found: skind, line: sline, col: scol }),
        }
    }

    /// Parses one expression starting at the cursor: the heart of the
    /// grammar dispatch.
    fn parse_expr(&mut self) -> (r: Result<Expr, ParseError>)
        requires
            old(self).wf(),
            old(self).tokens().len() > 0,
            tokens_wf(old(self).tokens()),
        ensures
            final(self).wf(),
            final(self).tokens() == old(self).tokens(),
            final(self).parsed() == old(self).parsed(),
            match r {
                Ok(e) => parse_expr_at(old(self).tokens(), old(self).cursor()) == Ok::<
                    (SpecExpr, int),
                    ParseError,
                >((e@, final(self).cursor())) && old(self).cursor() < final(self).cursor() <= old(self).tokens().len(),
                Err(er) => parse_expr_at(old(self).tokens(), old(self).cursor()) == Err::<
                    (SpecExpr, int),
                    ParseError,
                >(er) && !(er is Internal),
            },
        decreases self.tokens().len() - self.cursor(), 0int,
    {
        let root = match self.pop() {
            Ok(t) => t,
            Err(e) => {
                return Err(e);
            },
        };
        let rline = root.line;
        let rcol = root.col;
        match root.ttype {
            TType::Str(s) => Ok(Expr::String(s)),
            TType::Float(f) => Ok(Expr::Single(f)),
            TType::Number(n) => Ok(Expr::Integer(n)),
            TType::Ident(v) => Ok(Expr::Var(v)),
            TType::LParen => self.parse_form(),
            TType::RParen => Err(ParseError::UnexpectedClosing { line: rline, col: rcol }),
            _ => Err(ParseError::UnexpectedKeyword { line: rline, col: rcol }),
        }
    }

    /// Parses one top-level expression after another until the cursor
    /// reaches the sentinel, appending each to the accumulator, and returns
    /// the accumulated sequence in source order — or the first error
    /// encountered, in which case no partial tree is returned and the rest
    /// of the input is left unparsed.
    ///
    /// The result is exactly `parse_at` applied to the token sequence: the
    /// parser is deterministic and total, and it never reports an internal
    /// invariant violation.
    #[verifier::loop_isolation(false)]
    pub fn parse(&mut self) -> (r: Result<Vec<Expr>, ParseError>)
        requires
            old(self).wf(),
            tokens_wf(old(self).tokens()),
        ensures
            final(self).wf(),
            final(self).tokens() == old(self).tokens(),
            match r {
                Ok(v) => parse_at(old(self).tokens(), old(self).cursor()) is Ok && exprs_view(v@)
                    == old(self).parsed() + parse_at(
                    old(self).tokens(),
                    old(self).cursor(),
                )->Ok_0 && final(self).parsed() == exprs_view(v@) && at_end(
                    final(self).tokens(),
                    final(self).cursor(),
                ),
                Err(er) => parse_at(old(self).tokens(), old(self).cursor()) == Err::<
                    Seq<SpecExpr>,
                    ParseError,
                >(er) && !(er is Internal) && final(self).parsed() == old(self).parsed()
                    + parse_prefix(old(self).tokens(), old(self).cursor()),
            },
    {
        let ghost toks = self.tokens();
        let ghost c0 = self.cursor();
        let ghost out0 = self.parsed();
        let ghost mut done: Seq<SpecExpr> = Seq::empty();
        proof {
            assert(out0 + done =~= out0);
            assert(done + parse_prefix(toks, c0) =~= parse_prefix(toks, c0));
        }
        while !self.is_at_end()
            invariant
                self.wf(),
                self.tokens() == toks,
                tokens_wf(toks),
                self.parsed() == out0 + done,
                prepend_ok(done, parse_at(toks, self.cursor())) == parse_at(toks, c0),
                done + parse_prefix(toks, self.cursor()) == parse_prefix(toks, c0),
            decreases toks.len() - self.cursor(),
        {
            let ghost c = self.cursor();
            let ghost done_pre = done;
            let ghost out_pre = self.output@;
            let to_push = match self.parse_expr() {
                Ok(e) => e,
                Err(er) => {
                    proof {
                        assert(done + Seq::<SpecExpr>::empty() =~= done);
                    }
                    return Err(er);
                },
            };
            self.output.push(to_push);
            proof {
                done = done + seq![to_push@];
                assert(exprs_view(self.output@) =~= exprs_view(out_pre).push(to_push@));
                assert(exprs_view(out_pre).push(to_push@) =~= out0 + done);
                match parse_at(toks, self.cursor()) {
                    Ok(rest) => {
                        assert(done_pre + (seq![to_push@] + rest) =~= done + rest);
                    },
                    Err(_e2) => {},
                }
                assert(done_pre + (seq![to_push@] + parse_prefix(toks, self.cursor())) =~= done
                    + parse_prefix(toks, self.cursor()));
            }
        }
        proof {
            assert(done + Seq::<SpecExpr>::empty() =~= done);
        }
        let result = clone_exprs(&self.output);
        Ok(result)
    }
}

/// Whether a name starts with a capital ASCII letter: the byte value of its
/// first character must fall in the inclusive range of `A` to `Z`. Only the
/// low byte of the character is inspected.
fn name_starts_capital(s: &String) -> (b: bool)
    requires
        s@.len() > 0,
    ensures
        b == starts_capital(s@),
{
    let c = s.as_str().get_char(0);
    let v: u32 = (c as u32) % 256;
    65 <= v && v < 91
}

} // verus!
