use vstd::prelude::*;

use crate::literal::{LitV, Literal};

verus! {

/// The kind of a token.
#[derive(Debug, PartialEq, Eq, Clone, Copy, Hash, Structural)]
pub enum Type {
    // Single-character tokens.
    LeftParen,
    RightParen,
    LeftBrace,
    RightBrace,
    Comma,
    Dot,
    Minus,
    Plus,
    Semicolon,
    Slash,
    Star,
    // One or two character tokens.
    Bang,
    BangEqual,
    Equal,
    EqualEqual,
    Greater,
    GreaterEqual,
    Less,
    LessEqual,
    // Literals.
    Identifier,
    Str,
    Number,
    // Keywords.
    And,
    Class,
    Else,
    False,
    Fun,
    For,
    If,
    Null,
    Or,
    Print,
    Return,
    Break,
    Super,
    This,
    True,
    Var,
    While,
    EOF,
}

/// A position in the source text.
#[derive(Debug, PartialEq, Eq, Copy, Clone, Hash, Structural)]
pub struct Location {
    pub line: usize,
    pub column: usize,
}

impl Location {
    /// Creates a new location.
    pub fn new(line: usize, column: usize) -> (r: Self)
        ensures
            r.line == line,
            r.column == column,
    {
        Location { line, column }
    }
}

/// Ghost model of a token: the lexeme is abstracted to its characters.
pub ghost struct TokenV {
    pub kind: Type,
    pub lexeme: Seq<char>,
    pub literal: Option<LitV>,
    pub location: Location,
}

/// A lexical unit of the language.
#[derive(Debug, Hash)]
pub struct Token {
    /// Kind of the token.
    pub kind: Type,
    /// Text of the token as it stood in the source.
    pub lexeme: String,
    /// Literal value carried by the token, if any.
    pub literal: Option<Literal>,
    /// Position of the token in the source.
    pub location: Location,
}

impl View for Token {
    type V = TokenV;

    open spec fn view(&self) -> TokenV {
        TokenV {
            kind: self.kind,
            lexeme: self.lexeme@,
            literal: match self.literal {
                Option::Some(l) => Option::Some(l@),
                Option::None => Option::None,
            },
            location: self.location,
        }
    }
}

impl Token {
    /// Creates a new token.
    pub fn new(kind: Type, lexeme: String, literal: Option<Literal>, location: Location) -> (r:
        Token)
        ensures
            r.kind == kind,
            r.lexeme@ == lexeme@,
            r.literal == literal,
            r.location == location,
    {
        Token { kind, lexeme, literal, location }
    }

    /// Creates a dummy identifier token carrying only a name.
    pub fn from_name(name: &str) -> (r: Token)
        ensures
            r.kind == Type::Identifier,
            r.lexeme@ == name@,
            r.literal is None,
            r.location == (Location { line: 0, column: 0 }),
    {
        Token::new(Type::Identifier, name.to_owned(), Option::None, Location::new(0, 0))
    }
}

impl Clone for Token {
    /// Cloning a token preserves its value.
    fn clone(&self) -> (res: Token)
        ensures
            res == *self,
    {
        Token {
            kind: self.kind,
            lexeme: self.lexeme.clone(),
            literal: match &self.literal {
                Option::Some(l) => Option::Some(l.clone()),
                Option::None => Option::None,
            },
            location: self.location,
        }
    }
}

} // verus!
