//! Tokens as the parser consumes them.  A lexer (outside this crate) turns
//! source text into a sequence of `Token` values; the parser never looks at
//! source text itself.

use vstd::prelude::*;

verus! {

/// The tag of a token.  `Error` marks a lexing failure (such a stream is
/// never handed to the parser); `Eof` marks the end of the input.
#[derive(Clone, Copy, Debug, PartialEq, Eq, Structural)]
pub enum TokenType {
    // bookkeeping
    Eof,
    Error,
    // literals and names
    Identifier,
    IntLit,
    FloatLit,
    StringLit,
    CharLit,
    BoolLit,
    // type keywords
    Int,
    Float,
    Double,
    Char,
    Bool,
    Void,
    String,
    // other keywords
    Main,
    Include,
    Enum,
    Print,
    If,
    Else,
    While,
    Do,
    For,
    Switch,
    Case,
    Default,
    Return,
    Break,
    // operators
    AssignOp,
    Or,
    And,
    Not,
    EqualOp,
    Ne,
    Lt,
    Gt,
    Le,
    Ge,
    BitAnd,
    BitOr,
    BitXor,
    BitLShift,
    BitRShift,
    Plus,
    Minus,
    Multiply,
    Divide,
    Modulo,
    Increment,
    Decrement,
    // punctuation
    LParen,
    RParen,
    LBrace,
    RBrace,
    Semicolon,
    Comma,
    Colon,
}

/// One token: its tag, its raw text, and its 1-based source position.
#[derive(Debug)]
pub struct Token {
    pub token_type: TokenType,
    pub value: std::string::String,
    pub line: usize,
    pub column: usize,
}

impl Token {
    /// Builds a token from its parts.
    pub fn new(token_type: TokenType, value: std::string::String, line: usize, column: usize) -> (t: Token)
        ensures
            t.token_type == token_type,
            t.value == value,
            t.line == line,
            t.column == column,
    {
        Token { token_type, value, line, column }
    }
}

impl Clone for Token {
    /// A clone is equal to the original, field by field.
    fn clone(&self) -> (t: Token)
        ensures
            t == *self,
    {
        Token {
            token_type: self.token_type,
            value: self.value.clone(),
            line: self.line,
            column: self.column,
        }
    }
}

/// Ghost mirror of `Token`, with the raw text as a character sequence.
pub struct TokenV {
    pub token_type: TokenType,
    pub value: Seq<char>,
    pub line: usize,
    pub column: usize,
}

impl View for Token {
    type V = TokenV;

    open spec fn view(&self) -> TokenV {
        TokenV {
            token_type: self.token_type,
            value: self.value@,
            line: self.line,
            column: self.column,
        }
    }
}

/// Ghost view of a token sequence, token by token.
pub open spec fn tokens_view(s: Seq<Token>) -> Seq<TokenV> {
    s.map_values(|t: Token| t@)
}

/// The type position of a declaration: either a builtin type keyword or a
/// user-defined type name.
#[derive(Debug)]
pub enum TypeNode {
    Builtin(TokenType),
    UserDefined(std::string::String),
}

/// Ghost mirror of `TypeNode`, with the name as a character sequence.
pub enum TypeNodeV {
    Builtin(TokenType),
    UserDefined(Seq<char>),
}

impl View for TypeNode {
    type V = TypeNodeV;

    open spec fn view(&self) -> TypeNodeV {
        match self {
            TypeNode::Builtin(t) => TypeNodeV::Builtin(*t),
            TypeNode::UserDefined(s) => TypeNodeV::UserDefined(s@),
        }
    }
}

impl Clone for TypeNode {
    /// A clone views to the same ghost type node.
    fn clone(&self) -> (t: TypeNode)
        ensures
            t@ == self@,
    {
        match self {
            TypeNode::Builtin(tok) => TypeNode::Builtin(*tok),
            TypeNode::UserDefined(s) => TypeNode::UserDefined(s.clone()),
        }
    }
}

} // verus!
