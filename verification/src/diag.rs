//! Rendering diagnostics as text: `<line>:<col> | <message>`, the exact
//! shape the front end reports to a user.

use vstd::prelude::*;
use vstd::string::StringExecFns;
use crate::grammar::ParseError;
use crate::token::TKind;

verus! {

/// The decimal digit character for a value below ten.
pub open spec fn digit_char(d: nat) -> char {
    if d == 0 {
        '0'
    } else if d == 1 {
        '1'
    } else if d == 2 {
        '2'
    } else if d == 3 {
        '3'
    } else if d == 4 {
        '4'
    } else if d == 5 {
        '5'
    } else if d == 6 {
        '6'
    } else if d == 7 {
        '7'
    } else if d == 8 {
        '8'
    } else {
        '9'
    }
}

/// The decimal rendering of a number: most significant digit first, no
/// leading zeroes (a single `0` for zero).
pub open spec fn dec_str(n: nat) -> Seq<char>
    decreases n,
{
    if n < 10 {
        seq![digit_char(n)]
    } else {
        dec_str(n / 10) + seq![digit_char(n % 10)]
    }
}

/// A single decimal digit as text.
fn digit_str(d: u32) -> (s: &'static str)
    requires
        d < 10,
    ensures
        s@ == seq![digit_char(d as nat)],
{
    if d == 0 {
        proof {
            reveal_strlit("0");
            assert("0"@ =~= seq![digit_char(0)]);
        }
        "0"
    } else if d == 1 {
        proof {
            reveal_strlit("1");
            assert("1"@ =~= seq![digit_char(1)]);
        }
        "1"
    } else if d == 2 {
        proof {
            reveal_strlit("2");
            assert("2"@ =~= seq![digit_char(2)]);
        }
        "2"
    } else if d == 3 {
        proof {
            reveal_strlit("3");
            assert("3"@ =~= seq![digit_char(3)]);
        }
        "3"
    } else if d == 4 {
        proof {
            reveal_strlit("4");
            assert("4"@ =~= seq![digit_char(4)]);
        }
        "4"
    } else if d == 5 {
        proof {
            reveal_strlit("5");
            assert("5"@ =~= seq![digit_char(5)]);
        }
        "5"
    } else if d == 6 {
        proof {
            reveal_strlit("6");
            assert("6"@ =~= seq![digit_char(6)]);
        }
        "6"
    } else if d == 7 {
        proof {
            reveal_strlit("7");
            assert("7"@ =~= seq![digit_char(7)]);
        }
        "7"
    } else if d == 8 {
        proof {
            reveal_strlit("8");
            assert("8"@ =~= seq![digit_char(8)]);
        }
        "8"
    } else {
        proof {
            reveal_strlit("9");
            assert("9"@ =~= seq![digit_char(9)]);
        }
        "9"
    }
}

/// Renders a number in decimal.
pub fn u32_dec(n: u32) -> (s: String)
    ensures
        s@ == dec_str(n as nat),
    decreases n,
{
    if n < 10 {
        digit_str(n).to_owned()
    } else {
        let mut s = u32_dec(n / 10);
        s.append(digit_str(n % 10));
        s
    }
}

/// The display name of a token kind, as diagnostics spell it.
pub open spec fn kind_name_of(k: TKind) -> Seq<char> {
    match k {
        TKind::Str => "String"@,
        TKind::Float => "Float"@,
        TKind::Number => "Number"@,
        TKind::Ident => "Identifier"@,
        TKind::LParen => "Opening Parenthese"@,
        TKind::RParen => "Closing Parenthese"@,
        TKind::Def => "Def"@,
        TKind::Enum => "Enum"@,
        TKind::Lambda => "Lambda"@,
        TKind::Eof => "EOF"@,
    }
}

impl TKind {
    /// The display name of this token kind.
    pub fn name(&self) -> (s: &'static str)
        ensures
            s@ == kind_name_of(*self),
    {
        match self {
            TKind::Str => "String",
            TKind::Float => "Float",
            TKind::Number => "Number",
            TKind::Ident => "Identifier",
            TKind::LParen => "Opening Parenthese",
            TKind::RParen => "Closing Parenthese",
            TKind::Def => "Def",
            TKind::Enum => "Enum",
            TKind::Lambda => "Lambda",
            TKind::Eof => "EOF",
        }
    }
}

/// The message of a diagnostic, without the position prefix.
pub open spec fn message_of(e: ParseError) -> Seq<char> {
    match e {
        ParseError::Unfinished { .. } => "Unfinished expression."@,
        ParseError::Expected { expected, found, .. } => "Expected "@ + kind_name_of(expected)
            + ", found "@ + kind_name_of(found) + "."@,
        ParseError::UnexpectedClosing { .. } => "Unexpected Closing Parenthese."@,
        ParseError::UnexpectedKeyword { .. } => "Unexpected Keyword."@,
        ParseError::BadForm { found, .. } => "Expected Closing Parenthese, Opening Parenthese or Identifier, found "@
            + kind_name_of(found) + "."@,
        ParseError::EnumNotCapitalized { .. } => "Enum names have to start with a capital letter."@,
        ParseError::VariantNotCapitalized { .. } => "Enum variant names have to start with a capital letter."@,
        ParseError::Internal => "UNEXPECTED_NON_IDENTIFIER"@,
    }
}

/// The source position a diagnostic points at.
pub open spec fn position_of(e: ParseError) -> (u32, u32) {
    match e {
        ParseError::Unfinished { line, col } => (line, col),
        ParseError::Expected { line, col, .. } => (line, col),
        ParseError::UnexpectedClosing { line, col } => (line, col),
        ParseError::UnexpectedKeyword { line, col } => (line, col),
        ParseError::BadForm { line, col, .. } => (line, col),
        ParseError::EnumNotCapitalized { line, col } => (line, col),
        ParseError::VariantNotCapitalized { line, col } => (line, col),
        ParseError::Internal => (0, 0),
    }
}

/// The full rendering of a diagnostic: `<line>:<col> | <message>`. An
/// internal invariant violation carries no position, only its marker.
pub open spec fn rendered(e: ParseError) -> Seq<char> {
    if e is Internal {
        message_of(e)
    } else {
        dec_str(position_of(e).0 as nat) + ":"@ + dec_str(position_of(e).1 as nat) + " | "@
            + message_of(e)
    }
}

impl ParseError {
    /// The message of this diagnostic, without the position prefix.
    pub fn message(&self) -> (s: String)
        ensures
            s@ == message_of(*self),
    {
        match self {
            ParseError::Unfinished { .. } => "Unfinished expression.".to_owned(),
            ParseError::Expected { expected, found, .. } => {
                let mut m = "Expected ".to_owned();
                m.append(expected.name());
                m.append(", found ");
                m.append(found.name());
                m.append(".");
                m
            },
            ParseError::UnexpectedClosing { .. } => "Unexpected Closing Parenthese.".to_owned(),
            ParseError::UnexpectedKeyword { .. } => "Unexpected Keyword.".to_owned(),
            ParseError::BadForm { found, .. } => {
                let mut m =
                    "Expected Closing Parenthese, Opening Parenthese or Identifier, found ".to_owned();
                m.append(found.name());
                m.append(".");
                m
            },
            ParseError::EnumNotCapitalized { .. } => "Enum names have to start with a capital letter.".to_owned(),
            ParseError::VariantNotCapitalized { .. } => "Enum variant names have to start with a capital letter.".to_owned(),
            ParseError::Internal => "UNEXPECTED_NON_IDENTIFIER".to_owned(),
        }
    }

    /// Renders this diagnostic as `<line>:<col> | <message>`.
    pub fn render(&self) -> (s: String)
        ensures
            s@ == rendered(*self),
    {
        let (line, col) = match self {
            ParseError::Unfinished { line, col } => (*line, *col),
            ParseError::Expected { line, col, .. } => (*line, *col),
            ParseError::UnexpectedClosing { line, col } => (*line, *col),
            ParseError::UnexpectedKeyword { line, col } => (*line, *col),
            ParseError::BadForm { line, col, .. } => (*line, *col),
            ParseError::EnumNotCapitalized { line, col } => (*line, *col),
            ParseError::VariantNotCapitalized { line, col } => (*line, *col),
            ParseError::Internal => {
                return self.message();
            },
        };
        let mut s = u32_dec(line);
        s.append(":");
        let c = u32_dec(col);
        s.append(c.as_str());
        s.append(" | ");
        let m = self.message();
        s.append(m.as_str());
        s
    }
}

} // verus!
