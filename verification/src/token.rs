//! Tokens: the classified lexemes that the scanner hands to the parser.

use vstd::prelude::*;

verus! {

/// The kind of a token without the literal value that string and number
/// tokens carry.
#[derive(Clone, Copy, Debug, PartialEq, Eq, Structural)]
pub enum TokenKind {
    LeftParen,
    RightParen,
    LeftBrace,
    RightBrace,
    Comma,
    Dot,
    Minus,
    Plus,
    Semicolon,
    Slash,
    Star,
    Bang,
    BangEqual,
    Equal,
    EqualEqual,
    Greater,
    GreaterEqual,
    Less,
    LessEqual,
    Identifier,
    String,
    Number,
    And,
    Class,
    Else,
    False,
    Fun,
    For,
    If,
    Nil,
    Or,
    Print,
    Return,
    Super,
    This,
    True,
    Var,
    While,
    EOF,
}

/// The type of a token. A string token carries its text without the quotes;
/// a number token carries the bit pattern of its IEEE-754 double.
#[derive(Debug, PartialEq)]
pub enum TokenType {
    LeftParen,
    RightParen,
    LeftBrace,
    RightBrace,
    Comma,
    Dot,
    Minus,
    Plus,
    Semicolon,
    Slash,
    Star,
    Bang,
    BangEqual,
    Equal,
    EqualEqual,
    Greater,
    GreaterEqual,
    Less,
    LessEqual,
    Identifier,
    String(String),
    Number(u64),
    And,
    Class,
    Else,
    False,
    Fun,
    For,
    If,
    Nil,
    Or,
    Print,
    Return,
    Super,
    This,
    True,
    Var,
    While,
    EOF,
}

/// A classified lexeme with the line on which it began.
#[derive(Debug, PartialEq)]
pub struct Token {
    pub type_: TokenType,
    pub lexeme: String,
    pub line: usize,
}

/// What a token is, with its strings as sequences of characters.
pub struct TokenView {
    pub kind: TokenKind,
    /// The text of a string token; empty for every other kind.
    pub text: Seq<char>,
    /// The bit pattern of a number token; zero for every other kind.
    pub bits: u64,
    pub lexeme: Seq<char>,
    pub line: nat,
}

impl TokenType {
    pub open spec fn spec_kind(&self) -> TokenKind {
        match self {
            TokenType::LeftParen => TokenKind::LeftParen,
            TokenType::RightParen => TokenKind::RightParen,
            TokenType::LeftBrace => TokenKind::LeftBrace,
            TokenType::RightBrace => TokenKind::RightBrace,
            TokenType::Comma => TokenKind::Comma,
            TokenType::Dot => TokenKind::Dot,
            TokenType::Minus => TokenKind::Minus,
            TokenType::Plus => TokenKind::Plus,
            TokenType::Semicolon => TokenKind::Semicolon,
            TokenType::Slash => TokenKind::Slash,
            TokenType::Star => TokenKind::Star,
            TokenType::Bang => TokenKind::Bang,
            TokenType::BangEqual => TokenKind::BangEqual,
            TokenType::Equal => TokenKind::Equal,
            TokenType::EqualEqual => TokenKind::EqualEqual,
            TokenType::Greater => TokenKind::Greater,
            TokenType::GreaterEqual => TokenKind::GreaterEqual,
            TokenType::Less => TokenKind::Less,
            TokenType::LessEqual => TokenKind::LessEqual,
            TokenType::Identifier => TokenKind::Identifier,
            TokenType::String(_) => TokenKind::String,
            TokenType::Number(_) => TokenKind::Number,
            TokenType::And => TokenKind::And,
            TokenType::Class => TokenKind::Class,
            TokenType::Else => TokenKind::Else,
            TokenType::False => TokenKind::False,
            TokenType::Fun => TokenKind::Fun,
            TokenType::For => TokenKind::For,
            TokenType::If => TokenKind::If,
            TokenType::Nil => TokenKind::Nil,
            TokenType::Or => TokenKind::Or,
            TokenType::Print => TokenKind::Print,
            TokenType::Return => TokenKind::Return,
            TokenType::Super => TokenKind::Super,
            TokenType::This => TokenKind::This,
            TokenType::True => TokenKind::True,
            TokenType::Var => TokenKind::Var,
            TokenType::While => TokenKind::While,
            TokenType::EOF => TokenKind::EOF,
        }
    }

    /// The text that a string token carries.
    pub open spec fn spec_text(&self) -> Seq<char> {
        match self {
            TokenType::String(s) => s@,
            _ => Seq::empty(),
        }
    }

    /// The bit pattern that a number token carries.
    pub open spec fn spec_bits(&self) -> u64 {
        match self {
            TokenType::Number(b) => *b,
            _ => 0,
        }
    }

    /// The kind of this type, without its literal value.
    pub fn kind(&self) -> (k: TokenKind)
        ensures
            k == self.spec_kind(),
    {
        match self {
            TokenType::LeftParen => TokenKind::LeftParen,
            TokenType::RightParen => TokenKind::RightParen,
            TokenType::LeftBrace => TokenKind::LeftBrace,
            TokenType::RightBrace => TokenKind::RightBrace,
            TokenType::Comma => TokenKind::Comma,
            TokenType::Dot => TokenKind::Dot,
            TokenType::Minus => TokenKind::Minus,
            TokenType::Plus => TokenKind::Plus,
            TokenType::Semicolon => TokenKind::Semicolon,
            TokenType::Slash => TokenKind::Slash,
            TokenType::Star => TokenKind::Star,
            TokenType::Bang => TokenKind::Bang,
            TokenType::BangEqual => TokenKind::BangEqual,
            TokenType::Equal => TokenKind::Equal,
            TokenType::EqualEqual => TokenKind::EqualEqual,
            TokenType::Greater => TokenKind::Greater,
            TokenType::GreaterEqual => TokenKind::GreaterEqual,
            TokenType::Less => TokenKind::Less,
            TokenType::LessEqual => TokenKind::LessEqual,
            TokenType::Identifier => TokenKind::Identifier,
            TokenType::String(_) => TokenKind::String,
            TokenType::Number(_) => TokenKind::Number,
            TokenType::And => TokenKind::And,
            TokenType::Class => TokenKind::Class,
            TokenType::Else => TokenKind::Else,
            TokenType::False => TokenKind::False,
            TokenType::Fun => TokenKind::Fun,
            TokenType::For => TokenKind::For,
            TokenType::If => TokenKind::If,
            TokenType::Nil => TokenKind::Nil,
            TokenType::Or => TokenKind::Or,
            TokenType::Print => TokenKind::Print,
            TokenType::Return => TokenKind::Return,
            TokenType::Super => TokenKind::Super,
            TokenType::This => TokenKind::This,
            TokenType::True => TokenKind::True,
            TokenType::Var => TokenKind::Var,
            TokenType::While => TokenKind::While,
            TokenType::EOF => TokenKind::EOF,
        }
    }

    /// The type of kind `kind` for a token that carries no literal value;
    /// for the two literal kinds, the type with an empty text or a zero
    /// pattern.
    pub fn plain(kind: TokenKind) -> (t: TokenType)
        ensures
            t.spec_kind() == kind,
            t.spec_text() == Seq::<char>::empty(),
            t.spec_bits() == 0,
    {
        match kind {
            TokenKind::LeftParen => TokenType::LeftParen,
            TokenKind::RightParen => TokenType::RightParen,
            TokenKind::LeftBrace => TokenType::LeftBrace,
            TokenKind::RightBrace => TokenType::RightBrace,
            TokenKind::Comma => TokenType::Comma,
            TokenKind::Dot => TokenType::Dot,
            TokenKind::Minus => TokenType::Minus,
            TokenKind::Plus => TokenType::Plus,
            TokenKind::Semicolon => TokenType::Semicolon,
            TokenKind::Slash => TokenType::Slash,
            TokenKind::Star => TokenType::Star,
            TokenKind::Bang => TokenType::Bang,
            TokenKind::BangEqual => TokenType::BangEqual,
            TokenKind::Equal => TokenType::Equal,
            TokenKind::EqualEqual => TokenType::EqualEqual,
            TokenKind::Greater => TokenType::Greater,
            TokenKind::GreaterEqual => TokenType::GreaterEqual,
            TokenKind::Less => TokenType::Less,
            TokenKind::LessEqual => TokenType::LessEqual,
            TokenKind::Identifier => TokenType::Identifier,
            TokenKind::String => TokenType::String(String::new()),
            TokenKind::Number => TokenType::Number(0),
            TokenKind::And => TokenType::And,
            TokenKind::Class => TokenType::Class,
            TokenKind::Else => TokenType::Else,
            TokenKind::False => TokenType::False,
            TokenKind::Fun => TokenType::Fun,
            TokenKind::For => TokenType::For,
            TokenKind::If => TokenType::If,
            TokenKind::Nil => TokenType::Nil,
            TokenKind::Or => TokenType::Or,
            TokenKind::Print => TokenType::Print,
            TokenKind::Return => TokenType::Return,
            TokenKind::Super => TokenType::Super,
            TokenKind::This => TokenType::This,
            TokenKind::True => TokenType::True,
            TokenKind::Var => TokenType::Var,
            TokenKind::While => TokenType::While,
            TokenKind::EOF => TokenType::EOF,
        }
    }
}

impl Clone for TokenType {
    fn clone(&self) -> (t: Self)
        ensures
            t == *self,
    {
        match self {
            TokenType::String(s) => TokenType::String(s.clone()),
            TokenType::Number(b) => TokenType::Number(*b),
            other => {
                let t = TokenType::plain(other.kind());
                assert(t == *other);
                t
            },
        }
    }
}

impl View for Token {
    type V = TokenView;

    open spec fn view(&self) -> TokenView {
        TokenView {
            kind: self.type_.spec_kind(),
            text: self.type_.spec_text(),
            bits: self.type_.spec_bits(),
            lexeme: self.lexeme@,
            line: self.line as nat,
        }
    }
}

impl Clone for Token {
    fn clone(&self) -> (t: Self)
        ensures
            t == *self,
    {
        Token { type_: self.type_.clone(), lexeme: self.lexeme.clone(), line: self.line }
    }
}

impl Token {
    pub fn new(token_type: TokenType, lexeme: String, line: usize) -> (t: Self)
        ensures
            t.type_ == token_type,
            t.lexeme == lexeme,
            t.line == line,
    {
        Token { type_: token_type, lexeme, line }
    }

    pub fn get_type(&self) -> (t: &TokenType)
        ensures
            *t == self.type_,
    {
        &self.type_
    }

    pub fn get_lexeme(&self) -> (s: String)
        ensures
            s == self.lexeme,
    {
        self.lexeme.clone()
    }

    pub fn get_line(&self) -> (line: usize)
        ensures
            line == self.line,
    {
        self.line
    }

    /// The kind of this token.
    pub fn kind(&self) -> (k: TokenKind)
        ensures
            k == self@.kind,
    {
        self.type_.kind()
    }
}

/// The views of a vector of tokens, in order.
pub open spec fn token_views(tokens: Seq<Token>) -> Seq<TokenView> {
    tokens.map_values(|t: Token| t@)
}

} // verus!
