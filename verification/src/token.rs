//! The token vocabulary of the language, and the errors the tokenizer can
//! report.

use vstd::prelude::*;

verus! {

/// Source position attached to tokens that carry data. `line` is the 1-based
/// line of the token's first character; the columns are the cursor positions
/// just after the first and last consumed character of the token.
#[derive(Debug, Clone, PartialEq, Eq)]
pub struct TokenPosition {
    pub line: usize,
    pub start_column: usize,
    pub end_column: usize,
}

/// One lexical token. Runs of spaces and of newlines collapse into a single
/// `Space(n)` / `NewLine(n)`; an operator holds up to 4 characters padded
/// with `'\0'`.
#[derive(Debug, Clone, PartialEq, Eq)]
pub enum Token {
    Arrow,
    Assign,
    Attribute(TokenPosition, String),
    Binary,
    Class,
    Comma,
    Const(TokenPosition, String),
    Def,
    DefE,
    Dot,
    End,
    Ident(TokenPosition, String),
    Illegal(TokenPosition, String),
    Impl,
    LCurlyBrace,
    Loop,
    LParen,
    LSquareBrace,
    NewLine(usize),
    Number(TokenPosition, u64),
    Op([char; 4]),
    RCurlyBrace,
    Ret,
    RParen,
    RSquareBrace,
    SelfRef,
    Space(usize),
    StringLiteral(TokenPosition, String),
    Comment(TokenPosition, String),
    Trait,
    Unary,
    Struct,
}

/// A fatal lexical error; tokenization aborts at the first one.
#[derive(Debug, Clone, PartialEq, Eq)]
pub enum LexError {
    /// A character no tokenization rule covers, at the given cursor position.
    UnsupportedCharacter { line: usize, column: usize, character: char },
    /// A numeric literal wider than an unsigned 64-bit integer, positioned at
    /// its first digit.
    NumericLiteralOverflow { line: usize, column: usize },
}

/// Mathematical counterpart of `TokenPosition`.
pub ghost struct GPos {
    pub line: nat,
    pub start_column: nat,
    pub end_column: nat,
}

/// Mathematical counterpart of `Token`: strings become character sequences
/// and counts become naturals, so that specifications can build token values.
pub ghost enum GToken {
    Arrow,
    Assign,
    Attribute(GPos, Seq<char>),
    Binary,
    Class,
    Comma,
    Const(GPos, Seq<char>),
    Def,
    DefE,
    Dot,
    End,
    Ident(GPos, Seq<char>),
    Illegal(GPos, Seq<char>),
    Impl,
    LCurlyBrace,
    Loop,
    LParen,
    LSquareBrace,
    NewLine(nat),
    Number(GPos, u64),
    Op(Seq<char>),
    RCurlyBrace,
    Ret,
    RParen,
    RSquareBrace,
    SelfRef,
    Space(nat),
    StringLiteral(GPos, Seq<char>),
    Comment(GPos, Seq<char>),
    Trait,
    Unary,
    Struct,
}

impl View for TokenPosition {
    type V = GPos;

    open spec fn view(&self) -> GPos {
        GPos { line: self.line as nat, start_column: self.start_column as nat, end_column: self.end_column as nat }
    }
}

impl View for Token {
    type V = GToken;

    open spec fn view(&self) -> GToken {
        match self {
            Token::Arrow => GToken::Arrow,
            Token::Assign => GToken::Assign,
            Token::Attribute(p, s) => GToken::Attribute(p@, s@),
            Token::Binary => GToken::Binary,
            Token::Class => GToken::Class,
            Token::Comma => GToken::Comma,
            Token::Const(p, s) => GToken::Const(p@, s@),
            Token::Def => GToken::Def,
            Token::DefE => GToken::DefE,
            Token::Dot => GToken::Dot,
            Token::End => GToken::End,
            Token::Ident(p, s) => GToken::Ident(p@, s@),
            Token::Illegal(p, s) => GToken::Illegal(p@, s@),
            Token::Impl => GToken::Impl,
            Token::LCurlyBrace => GToken::LCurlyBrace,
            Token::Loop => GToken::Loop,
            Token::LParen => GToken::LParen,
            Token::LSquareBrace => GToken::LSquareBrace,
            Token::NewLine(n) => GToken::NewLine(*n as nat),
            Token::Number(p, v) => GToken::Number(p@, *v),
            Token::Op(cs) => GToken::Op(cs@),
            Token::RCurlyBrace => GToken::RCurlyBrace,
            Token::Ret => GToken::Ret,
            Token::RParen => GToken::RParen,
            Token::RSquareBrace => GToken::RSquareBrace,
            Token::SelfRef => GToken::SelfRef,
            Token::Space(n) => GToken::Space(*n as nat),
            Token::StringLiteral(p, s) => GToken::StringLiteral(p@, s@),
            Token::Comment(p, s) => GToken::Comment(p@, s@),
            Token::Trait => GToken::Trait,
            Token::Unary => GToken::Unary,
            Token::Struct => GToken::Struct,
        }
    }
}

} // verus!
