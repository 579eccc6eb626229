//! The parser: a single-pass, left-to-right recursive-descent /
//! precedence-climbing parser over a token stream.
//!
//! The executable `Parser` here mirrors, statement for statement, the
//! mathematical parser in `grammar`; every method's contract pins its result
//! and its cursor movement to the corresponding `grammar` function.  The
//! first syntax error aborts the whole parse; there is no recovery.

use vstd::prelude::*;

use crate::ast::{ast_opt_view, asts_view, ast_view, lemma_asts_view_push, names_view, params_view, Ast, ASTNode};
use crate::grammar::{
    all_digits, at_end, cur, digits_val, int_lit_value, is_digit, is_identifier_ast,
    is_type_token, parse_i64_spec, skip_parens, spec_consume_semicolon, spec_expect,
    spec_is_function_definition, spec_parse_binary_expression, spec_parse_block,
    spec_parse_block_statement, spec_parse_block_stmts, spec_parse_bool_literal,
    spec_parse_break_statement, spec_parse_call_args, spec_parse_call_expression,
    spec_parse_case_body, spec_parse_char_literal, spec_parse_default_body,
    spec_parse_do_while_statement, spec_parse_enum_declaration, spec_parse_enum_values,
    spec_parse_expression, spec_parse_float_literal, spec_parse_for_statement,
    spec_parse_function_declaration, spec_parse_function_prototype,
    spec_parse_grouped_expression, spec_parse_identifier, spec_parse_if_statement,
    spec_parse_include_statement, spec_parse_infix, spec_parse_infix_chain,
    spec_parse_int_literal, spec_parse_main_declaration, spec_parse_params,
    spec_parse_postfix_unary_expression, spec_parse_prefix, spec_parse_print_statement,
    spec_parse_program, spec_parse_program_items, spec_parse_return_statement,
    spec_parse_statement, spec_parse_string_literal, spec_parse_switch_items,
    spec_parse_switch_statement, spec_parse_unary_expression, spec_parse_variable_declaration,
    spec_parse_while_statement, step, token_precedence, ErrV, PREC_ASSIGNMENT,
    PREC_BITWISE_TERM, PREC_CALL, PREC_COMPARISON, PREC_EQUALITY, PREC_FACTOR, PREC_LOGICAL_AND,
    PREC_LOGICAL_OR, PREC_LOWEST, PREC_POSTFIX, PREC_TERM, PREC_UNARY,
};
use crate::text::{chars_to_string, dec_digits, push_str_chars, push_usize_text};
use crate::token::{tokens_view, Token, TokenType, TokenV, TypeNode, TypeNodeV};

verus! {

/// The closed set of syntax-error kinds.
#[derive(Clone, Copy, Debug, PartialEq, Eq, Structural)]
pub enum ParseErrorType {
    UnexpectedEOF,
    FailedToFindToken(TokenType),
    ExpectedTypeToken,
    ExpectedIdentifier,
    UnexpectedToken,
    ExpectedExpr,
    InvalidCallTarget,
    MissingSemicolon,
    UnclosedBlock,
}

/// A syntax error: its kind, the offending token, and a rendered message
/// that names the token's exact line and column.
#[derive(Debug)]
pub struct ParseError {
    pub error_type: ParseErrorType,
    pub token: Token,
    pub message: String,
}

/// Ghost mirror of `ParseError`.
pub struct ParseErrorVw {
    pub error_type: ParseErrorType,
    pub token: TokenV,
    pub message: Seq<char>,
}

impl View for ParseError {
    type V = ParseErrorVw;

    open spec fn view(&self) -> ParseErrorVw {
        ParseErrorVw {
            error_type: self.error_type,
            token: self.token@,
            message: self.message@,
        }
    }
}

/// The printed name of a token type.
pub open spec fn token_type_name(t: TokenType) -> Seq<char> {
    match t {
        TokenType::Eof => "Eof"@,
        TokenType::Error => "Error"@,
        TokenType::Identifier => "Identifier"@,
        TokenType::IntLit => "IntLit"@,
        TokenType::FloatLit => "FloatLit"@,
        TokenType::StringLit => "StringLit"@,
        TokenType::CharLit => "CharLit"@,
        TokenType::BoolLit => "BoolLit"@,
        TokenType::Int => "Int"@,
        TokenType::Float => "Float"@,
        TokenType::Double => "Double"@,
        TokenType::Char => "Char"@,
        TokenType::Bool => "Bool"@,
        TokenType::Void => "Void"@,
        TokenType::String => "String"@,
        TokenType::Main => "Main"@,
        TokenType::Include => "Include"@,
        TokenType::Enum => "Enum"@,
        TokenType::Print => "Print"@,
        TokenType::If => "If"@,
        TokenType::Else => "Else"@,
        TokenType::While => "While"@,
        TokenType::Do => "Do"@,
        TokenType::For => "For"@,
        TokenType::Switch => "Switch"@,
        TokenType::Case => "Case"@,
        TokenType::Default => "Default"@,
        TokenType::Return => "Return"@,
        TokenType::Break => "Break"@,
        TokenType::AssignOp => "AssignOp"@,
        TokenType::Or => "Or"@,
        TokenType::And => "And"@,
        TokenType::Not => "Not"@,
        TokenType::EqualOp => "EqualOp"@,
        TokenType::Ne => "Ne"@,
        TokenType::Lt => "Lt"@,
        TokenType::Gt => "Gt"@,
        TokenType::Le => "Le"@,
        TokenType::Ge => "Ge"@,
        TokenType::BitAnd => "BitAnd"@,
        TokenType::BitOr => "BitOr"@,
        TokenType::BitXor => "BitXor"@,
        TokenType::BitLShift => "BitLShift"@,
        TokenType::BitRShift => "BitRShift"@,
        TokenType::Plus => "Plus"@,
        TokenType::Minus => "Minus"@,
        TokenType::Multiply => "Multiply"@,
        TokenType::Divide => "Divide"@,
        TokenType::Modulo => "Modulo"@,
        TokenType::Increment => "Increment"@,
        TokenType::Decrement => "Decrement"@,
        TokenType::LParen => "LParen"@,
        TokenType::RParen => "RParen"@,
        TokenType::LBrace => "LBrace"@,
        TokenType::RBrace => "RBrace"@,
        TokenType::Semicolon => "Semicolon"@,
        TokenType::Comma => "Comma"@,
        TokenType::Colon => "Colon"@,
    }
}

/// The message body for an error kind, before the position suffix.
pub open spec fn error_message_base(kind: ParseErrorType, token: TokenV) -> Seq<char> {
    match kind {
        ParseErrorType::UnexpectedEOF => "Unexpected end of file"@,
        ParseErrorType::FailedToFindToken(expected) => "Failed to find expected token: "@
            + token_type_name(expected),
        ParseErrorType::ExpectedTypeToken => "Expected type token (int, float, etc.)"@,
        ParseErrorType::ExpectedIdentifier => "Expected identifier"@,
        ParseErrorType::UnexpectedToken => "Unexpected token: "@ + token_type_name(
            token.token_type,
        ) + " ("@ + token.value + ")"@,
        ParseErrorType::ExpectedExpr => "Expected expression"@,
        ParseErrorType::InvalidCallTarget =>
            "Invalid function call target: only identifiers can be called"@,
        ParseErrorType::MissingSemicolon => "Missing semicolon at end of statement"@,
        ParseErrorType::UnclosedBlock => "Unclosed block, expected '}' before end of file"@,
    }
}

/// The full rendered message: the body, then ` (line: L, col: C)`.
pub open spec fn error_message(kind: ParseErrorType, token: TokenV) -> Seq<char> {
    error_message_base(kind, token) + " (line: "@ + dec_digits(token.line as nat) + ", col: "@
        + dec_digits(token.column as nat) + ")"@
}

/// What a returned `ParseError` must be for the grammar-level error `v`:
/// same kind, same offending token, and the rendered message for the two.
pub open spec fn perr_matches(e: ParseError, v: ErrV) -> bool {
    &&& e@.error_type == v.kind
    &&& e@.token == v.token
    &&& e@.message == error_message(v.kind, v.token)
}

/// The printed name of a token type, as text.
pub fn token_type_name_str(t: TokenType) -> (r: &'static str)
    ensures
        r@ == token_type_name(t),
{
    match t {
        TokenType::Eof => "Eof",
        TokenType::Error => "Error",
        TokenType::Identifier => "Identifier",
        TokenType::IntLit => "IntLit",
        TokenType::FloatLit => "FloatLit",
        TokenType::StringLit => "StringLit",
        TokenType::CharLit => "CharLit",
        TokenType::BoolLit => "BoolLit",
        TokenType::Int => "Int",
        TokenType::Float => "Float",
        TokenType::Double => "Double",
        TokenType::Char => "Char",
        TokenType::Bool => "Bool",
        TokenType::Void => "Void",
        TokenType::String => "String",
        TokenType::Main => "Main",
        TokenType::Include => "Include",
        TokenType::Enum => "Enum",
        TokenType::Print => "Print",
        TokenType::If => "If",
        TokenType::Else => "Else",
        TokenType::While => "While",
        TokenType::Do => "Do",
        TokenType::For => "For",
        TokenType::Switch => "Switch",
        TokenType::Case => "Case",
        TokenType::Default => "Default",
        TokenType::Return => "Return",
        TokenType::Break => "Break",
        TokenType::AssignOp => "AssignOp",
        TokenType::Or => "Or",
        TokenType::And => "And",
        TokenType::Not => "Not",
        TokenType::EqualOp => "EqualOp",
        TokenType::Ne => "Ne",
        TokenType::Lt => "Lt",
        TokenType::Gt => "Gt",
        TokenType::Le => "Le",
        TokenType::Ge => "Ge",
        TokenType::BitAnd => "BitAnd",
        TokenType::BitOr => "BitOr",
        TokenType::BitXor => "BitXor",
        TokenType::BitLShift => "BitLShift",
        TokenType::BitRShift => "BitRShift",
        TokenType::Plus => "Plus",
        TokenType::Minus => "Minus",
        TokenType::Multiply => "Multiply",
        TokenType::Divide => "Divide",
        TokenType::Modulo => "Modulo",
        TokenType::Increment => "Increment",
        TokenType::Decrement => "Decrement",
        TokenType::LParen => "LParen",
        TokenType::RParen => "RParen",
        TokenType::LBrace => "LBrace",
        TokenType::RBrace => "RBrace",
        TokenType::Semicolon => "Semicolon",
        TokenType::Comma => "Comma",
        TokenType::Colon => "Colon",
    }
}

impl ParseError {
    /// Builds the error for `error_type` at `token`, rendering the message.
    pub fn new(error_type: ParseErrorType, token: Token) -> (e: ParseError)
        ensures
            e@.error_type == error_type,
            e@.token == token@,
            e@.message == error_message(error_type, token@),
    {
        let mut out: Vec<char> = Vec::new();
        match error_type {
            ParseErrorType::UnexpectedEOF => {
                push_str_chars(&mut out, "Unexpected end of file");
            },
            ParseErrorType::FailedToFindToken(expected) => {
                push_str_chars(&mut out, "Failed to find expected token: ");
                push_str_chars(&mut out, token_type_name_str(expected));
            },
            ParseErrorType::ExpectedTypeToken => {
                push_str_chars(&mut out, "Expected type token (int, float, etc.)");
            },
            ParseErrorType::ExpectedIdentifier => {
                push_str_chars(&mut out, "Expected identifier");
            },
            ParseErrorType::UnexpectedToken => {
                push_str_chars(&mut out, "Unexpected token: ");
                push_str_chars(&mut out, token_type_name_str(token.token_type));
                push_str_chars(&mut out, " (");
                push_str_chars(&mut out, token.value.as_str());
                push_str_chars(&mut out, ")");
            },
            ParseErrorType::ExpectedExpr => {
                push_str_chars(&mut out, "Expected expression");
            },
            ParseErrorType::InvalidCallTarget => {
                push_str_chars(
                    &mut out,
                    "Invalid function call target: only identifiers can be called",
                );
            },
            ParseErrorType::MissingSemicolon => {
                push_str_chars(&mut out, "Missing semicolon at end of statement");
            },
            ParseErrorType::UnclosedBlock => {
                push_str_chars(&mut out, "Unclosed block, expected '}' before end of file");
            },
        }
        push_str_chars(&mut out, " (line: ");
        push_usize_text(&mut out, token.line);
        push_str_chars(&mut out, ", col: ");
        push_usize_text(&mut out, token.column);
        push_str_chars(&mut out, ")");
        let message: String = chars_to_string(&out);
        ParseError { error_type, token, message }
    }
}

// === Result relations ===

/// An executable node result matches a grammar result when an `Ok` tree
/// views to the grammar's tree and an `Err` carries the grammar's error.
pub open spec fn res_node_matches(r: Result<ASTNode, ParseError>, s: Result<Ast, ErrV>) -> bool {
    match (r, s) {
        (Ok(n), Ok(a)) => ast_view(n) == a,
        (Err(e), Err(v)) => perr_matches(e, v),
        _ => false,
    }
}

/// The same relation for statement lists.
pub open spec fn res_nodes_matches(r: Result<Vec<ASTNode>, ParseError>, s: Result<Seq<Ast>, ErrV>) -> bool {
    match (r, s) {
        (Ok(v), Ok(a)) => asts_view(v@) == a,
        (Err(e), Err(x)) => perr_matches(e, x),
        _ => false,
    }
}

/// The same relation for single tokens.
pub open spec fn res_token_matches(r: Result<Token, ParseError>, s: Result<TokenV, ErrV>) -> bool {
    match (r, s) {
        (Ok(t), Ok(v)) => t@ == v,
        (Err(e), Err(x)) => perr_matches(e, x),
        _ => false,
    }
}

/// The same relation for unit results.
pub open spec fn res_unit_matches(r: Result<(), ParseError>, s: Result<(), ErrV>) -> bool {
    match (r, s) {
        (Ok(_), Ok(_)) => true,
        (Err(e), Err(x)) => perr_matches(e, x),
        _ => false,
    }
}

// === Numeric literal reading ===

/// The value of an integer literal's text: what `str::parse::<i64>` reads,
/// or `0` where the text is not a well-formed `i64`.
pub fn parse_i64(s: &str) -> (r: i64)
    ensures
        r == int_lit_value(s@),
{
    let n: usize = s.unicode_len();
    if n == 0 {
        return 0;
    }
    let first: char = s.get_char(0);
    let neg: bool = first == '-';
    let signed: bool = first == '-' || first == '+';
    let start: usize = if signed {
        1
    } else {
        0
    };
    let ghost body: Seq<char> = s@.subrange(start as int, n as int);
    if start >= n {
        return 0;
    }
    proof {
        if !signed {
            assert(s@.subrange(0int, n as int) =~= s@);
        }
    }
    let mut i: usize = start;
    let mut mag: u128 = 0;
    while i < n
        invariant
            n == s@.len(),
            start <= i <= n,
            start < n,
            signed == (s@[0] == '-' || s@[0] == '+'),
            neg == (s@[0] == '-'),
            start == if signed { 1int } else { 0int },
            body == s@.subrange(start as int, n as int),
            all_digits(s@.subrange(start as int, i as int)),
            mag as int == digits_val(s@.subrange(start as int, i as int)),
            mag <= 0x8000_0000_0000_0000u128,
        decreases n - i,
    {
        let c: char = s.get_char(i);
        let cv: u32 = c as u32;
        proof {
            assert(s@.subrange(start as int, (i + 1) as int).drop_last() =~= s@.subrange(
                start as int,
                i as int,
            ));
            assert(s@.subrange(start as int, (i + 1) as int).last() == s@[i as int]);
        }
        if cv < 48 || cv > 57 {
            proof {
                assert(!is_digit(s@[i as int]));
                assert(body[i - start] == s@[i as int]);
                assert(!all_digits(body));
            }
            return 0;
        }
        proof {
            assert(is_digit(s@[i as int]));
            assert(all_digits(s@.subrange(start as int, (i + 1) as int)));
        }
        mag = mag * 10 + ((cv - 48) as u128);
        if mag > 0x8000_0000_0000_0000u128 {
            proof {
                let sg = s@.len() > 0 && (s@[0] == '+' || s@[0] == '-');
                assert(sg == signed);
                let sbody = if sg {
                    s@.subrange(1, s@.len() as int)
                } else {
                    s@
                };
                assert(sbody == body);
                if all_digits(body) {
                    lemma_digits_val_extend_ge(s@, start as int, (i + 1) as int, n as int);
                    assert(digits_val(body) >= mag as int);
                    assert(digits_val(body) > 0x8000_0000_0000_0000);
                    let v = if neg {
                        -digits_val(body)
                    } else {
                        digits_val(body)
                    };
                    assert(!(i64::MIN <= v <= i64::MAX));
                    assert(parse_i64_spec(s@) == Option::<int>::None);
                } else {
                    assert(parse_i64_spec(s@) == Option::<int>::None);
                }
                assert(int_lit_value(s@) == 0);
            }
            return 0;
        }
        i = i + 1;
    }
    proof {
        assert(s@.subrange(start as int, i as int) =~= body);
        assert(all_digits(body));
        assert(mag as int == digits_val(body));
        assert(body.len() > 0);
    }
    if neg {
        if mag == 0x8000_0000_0000_0000u128 {
            proof {
                assert(parse_i64_spec(s@) == Option::Some(-0x8000_0000_0000_0000int));
            }
            i64::MIN
        } else {
            -((mag as u64) as i64)
        }
    } else {
        if mag > 0x7fff_ffff_ffff_ffffu128 {
            0
        } else {
            mag as i64
        }
    }
}


/// A digit string's value is not negative.
proof fn lemma_digits_val_nonneg(s: Seq<char>)
    requires
        all_digits(s),
    ensures
        digits_val(s) >= 0,
    decreases s.len(),
{
    if s.len() > 0 {
        assert(all_digits(s.drop_last()));
        lemma_digits_val_nonneg(s.drop_last());
    }
}

/// If the digits of `s[a..c]` extend those of `s[a..b]`, the longer string
/// has at least the shorter one's value.
proof fn lemma_digits_val_extend_ge(s: Seq<char>, a: int, b: int, c: int)
    requires
        0 <= a <= b <= c <= s.len(),
        all_digits(s.subrange(a, c)),
    ensures
        digits_val(s.subrange(a, c)) >= digits_val(s.subrange(a, b)),
    decreases c - b,
{
    if b < c {
        assert(s.subrange(a, c).drop_last() =~= s.subrange(a, c - 1));
        assert(all_digits(s.subrange(a, c - 1)));
        lemma_digits_val_extend_ge(s, a, b, c - 1);
        lemma_digits_val_nonneg(s.subrange(a, c - 1));
        assert(is_digit(s.subrange(a, c).last()));
    } else {
        assert(s.subrange(a, c) =~= s.subrange(a, b));
    }
}

// === The parser ===

/// The parser: a token stream and a cursor.  The cursor never stands past
/// the end of the stream.
pub struct Parser {
    tokens: Vec<Token>,
    current: usize,
}

impl Parser {
    /// The ghost token stream the parser reads.
    pub closed spec fn toks(&self) -> Seq<TokenV> {
        tokens_view(self.tokens@)
    }

    /// The ghost cursor.
    pub closed spec fn pos(&self) -> int {
        self.current as int
    }

    /// The cursor is within the stream.
    pub closed spec fn wf(&self) -> bool {
        self.current <= self.tokens@.len()
    }

    /// Builds a parser that reads `tokens` from the start.
    pub fn new(tokens: Vec<Token>) -> (p: Parser)
        ensures
            p.toks() == tokens_view(tokens@),
            p.pos() == 0,
            p.wf(),
    {
        Parser { tokens, current: 0 }
    }

    /// The token under the cursor, or the end-of-input token.
    fn current_token(&self) -> (t: Token)
        requires
            self.wf(),
        ensures
            t@ == cur(self.toks(), self.pos()),
    {
        if self.current < self.tokens.len() {
            self.tokens[self.current].clone()
        } else {
            Token::new(TokenType::Eof, String::new(), 0, 0)
        }
    }

    /// The token `offset` places past the cursor, or the end-of-input token.
    fn peek(&self, offset: usize) -> (t: Token)
        requires
            self.wf(),
        ensures
            t@ == cur(self.toks(), self.pos() + offset),
    {
        let len: usize = self.tokens.len();
        if self.current < len && offset < len - self.current {
            self.tokens[self.current + offset].clone()
        } else {
            Token::new(TokenType::Eof, String::new(), 0, 0)
        }
    }

    /// Whether the cursor stands at the end of the input.
    fn is_at_end(&self) -> (r: bool)
        requires
            self.wf(),
        ensures
            r == at_end(self.toks(), self.pos()),
    {
        self.current_token().token_type == TokenType::Eof
    }

    /// Consumes one token and yields it (the end-of-input token repeats).
    fn advance(&mut self) -> (t: Token)
        requires
            old(self).wf(),
        ensures
            final(self).tokens == old(self).tokens,
            final(self).wf(),
            t@ == cur(old(self).toks(), old(self).pos()),
            final(self).pos() == step(old(self).toks(), old(self).pos()),
    {
        let token = self.current_token();
        if self.current < self.tokens.len() {
            self.current = self.current + 1;
        }
        token
    }

    /// Whether the token under the cursor has kind `token_type`.
    fn check(&self, token_type: TokenType) -> (r: bool)
        requires
            self.wf(),
        ensures
            r == (cur(self.toks(), self.pos()).token_type == token_type),
    {
        self.current_token().token_type == token_type
    }

    /// Consumes the token under the cursor when it has kind `token_type`.
    fn match_token(&mut self, token_type: TokenType) -> (r: bool)
        requires
            old(self).wf(),
        ensures
            final(self).tokens == old(self).tokens,
            final(self).wf(),
            r == (cur(old(self).toks(), old(self).pos()).token_type == token_type),
            final(self).pos() == if r {
                step(old(self).toks(), old(self).pos())
            } else {
                old(self).pos()
            },
    {
        if self.check(token_type) {
            self.advance();
            true
        } else {
            false
        }
    }

    /// Demands a token of kind `token_type`.
    fn expect(&mut self, token_type: TokenType) -> (r: Result<Token, ParseError>)
        requires
            old(self).wf(),
        ensures
            final(self).tokens == old(self).tokens,
            final(self).wf(),
            ({
                let s = spec_expect(old(self).toks(), old(self).pos(), token_type);
                res_token_matches(r, s.0) && final(self).pos() == s.1
            }),
    {
        if self.check(token_type) {
            Ok(self.advance())
        } else {
            Err(ParseError::new(ParseErrorType::FailedToFindToken(token_type), self.current_token()))
        }
    }

    /// Demands the statement terminator.
    fn consume_semicolon(&mut self) -> (r: Result<(), ParseError>)
        requires
            old(self).wf(),
        ensures
            final(self).tokens == old(self).tokens,
            final(self).wf(),
            ({
                let s = spec_consume_semicolon(old(self).toks(), old(self).pos());
                res_unit_matches(r, s.0) && final(self).pos() == s.1
            }),
    {
        if !self.match_token(TokenType::Semicolon) {
            return Err(ParseError::new(ParseErrorType::MissingSemicolon, self.current_token()));
        }
        Ok(())
    }

    /// Whether `token_type` is a builtin type keyword.
    fn is_type_token(&self, token_type: TokenType) -> (r: bool)
        ensures
            r == is_type_token(token_type),
    {
        match token_type {
            TokenType::Int | TokenType::Float | TokenType::Double | TokenType::Char
                | TokenType::Bool | TokenType::Void | TokenType::String => true,
            _ => false,
        }
    }

    /// The binding power of `token_type` in infix position.
    fn get_precedence(&self, token_type: TokenType) -> (r: u32)
        ensures
            r == token_precedence(token_type),
    {
        match token_type {
            TokenType::AssignOp => PREC_ASSIGNMENT,
            TokenType::Or => PREC_LOGICAL_OR,
            TokenType::And => PREC_LOGICAL_AND,
            TokenType::EqualOp | TokenType::Ne => PREC_EQUALITY,
            TokenType::Lt | TokenType::Gt | TokenType::Le | TokenType::Ge => PREC_COMPARISON,
            TokenType::BitAnd | TokenType::BitOr | TokenType::BitXor | TokenType::BitLShift
                | TokenType::BitRShift => PREC_BITWISE_TERM,
            TokenType::Plus | TokenType::Minus => PREC_TERM,
            TokenType::Multiply | TokenType::Divide | TokenType::Modulo => PREC_FACTOR,
            TokenType::Increment | TokenType::Decrement => PREC_POSTFIX,
            TokenType::LParen => PREC_CALL,
            _ => PREC_LOWEST,
        }
    }

    /// Whether the tree is a bare identifier.
    fn is_identifier_node(node: &ASTNode) -> (r: bool)
        ensures
            r == is_identifier_ast(ast_view(*node)),
    {
        match node {
            ASTNode::Identifier { .. } => true,
            _ => false,
        }
    }

    /// The bounded lookahead that recognizes a function definition.
    fn is_function_definition(&self) -> (r: bool)
        requires
            self.wf(),
        ensures
            r == spec_is_function_definition(self.toks(), self.pos()),
    {
        let len: usize = self.tokens.len();
        if len - self.current <= 1 {
            return false;
        }
        let mut i: usize = self.current + 1;
        if self.tokens[i].token_type == TokenType::Identifier {
            i = i + 1;
            if i < len && self.tokens[i].token_type == TokenType::LParen {
                i = i + 1;
                let ghost j0: int = i as int;
                let mut paren_count: u128 = 1;
                while i < len && paren_count > 0
                    invariant
                        len == self.tokens@.len(),
                        i <= len,
                        skip_parens(self.toks(), i as int, paren_count as int) == skip_parens(
                            self.toks(),
                            j0,
                            1,
                        ),
                        paren_count <= i as u128 + 1,
                    decreases len - i,
                {
                    if self.tokens[i].token_type == TokenType::LParen {
                        paren_count = paren_count + 1;
                    } else if self.tokens[i].token_type == TokenType::RParen {
                        paren_count = paren_count - 1;
                    }
                    i = i + 1;
                }
                proof {
                    assert(skip_parens(self.toks(), i as int, paren_count as int) == i as int);
                }
                if i < len && self.tokens[i].token_type == TokenType::LBrace {
                    return true;
                }
                return false;
            }
            return false;
        }
        false
    }

    /// An integer literal: one token, value as `str::parse` with `0`
    /// fallback.
    fn parse_int_literal(&mut self) -> (r: Result<ASTNode, ParseError>)
        requires
            old(self).wf(),
        ensures
            final(self).toks() == old(self).toks(),
            final(self).wf(),
            old(self).pos() <= final(self).pos() <= final(self).toks().len(),
            ({
                let s = spec_parse_int_literal(old(self).toks(), old(self).pos());
                res_node_matches(r, s.0) && final(self).pos() == s.1
            }),
            !at_end(old(self).toks(), old(self).pos()) ==> old(self).pos() < final(self).pos(),
    {
        let token = self.advance();
        let value = parse_i64(token.value.as_str());
        Ok(ASTNode::IntLiteral { value, line: token.line, column: token.column })
    }

    /// A floating-point literal: one token, kept as its own text.
    fn parse_float_literal(&mut self) -> (r: Result<ASTNode, ParseError>)
        requires
            old(self).wf(),
        ensures
            final(self).toks() == old(self).toks(),
            final(self).wf(),
            old(self).pos() <= final(self).pos() <= final(self).toks().len(),
            ({
                let s = spec_parse_float_literal(old(self).toks(), old(self).pos());
                res_node_matches(r, s.0) && final(self).pos() == s.1
            }),
            !at_end(old(self).toks(), old(self).pos()) ==> old(self).pos() < final(self).pos(),
    {
        let token = self.advance();
        Ok(ASTNode::FloatLiteral { text: token.value, line: token.line, column: token.column })
    }

    /// A string literal: one token, quotes stripped.
    fn parse_string_literal(&mut self) -> (r: Result<ASTNode, ParseError>)
        requires
            old(self).wf(),
        ensures
            final(self).toks() == old(self).toks(),
            final(self).wf(),
            old(self).pos() <= final(self).pos() <= final(self).toks().len(),
            ({
                let s = spec_parse_string_literal(old(self).toks(), old(self).pos());
                res_node_matches(r, s.0) && final(self).pos() == s.1
            }),
            !at_end(old(self).toks(), old(self).pos()) ==> old(self).pos() < final(self).pos(),
    {
        let token = self.advance();
        let n = token.value.as_str().unicode_len();
        let value: String = if n >= 2 && token.value.as_str().get_char(0) == '"'
            && token.value.as_str().get_char(n - 1) == '"' {
            String::from_str(token.value.as_str().substring_char(1, n - 1))
        } else {
            token.value.clone()
        };
        Ok(ASTNode::StringLiteral { value, line: token.line, column: token.column })
    }

    /// A character literal: one token.
    fn parse_char_literal(&mut self) -> (r: Result<ASTNode, ParseError>)
        requires
            old(self).wf(),
        ensures
            final(self).toks() == old(self).toks(),
            final(self).wf(),
            old(self).pos() <= final(self).pos() <= final(self).toks().len(),
            ({
                let s = spec_parse_char_literal(old(self).toks(), old(self).pos());
                res_node_matches(r, s.0) && final(self).pos() == s.1
            }),
            !at_end(old(self).toks(), old(self).pos()) ==> old(self).pos() < final(self).pos(),
    {
        let token = self.advance();
        let n = token.value.as_str().unicode_len();
        let value: char = if n >= 3 && token.value.as_str().get_char(0) == '\''
            && token.value.as_str().get_char(n - 1) == '\'' {
            token.value.as_str().get_char(1)
        } else {
            '\u{0}'
        };
        Ok(ASTNode::CharLiteral { value, line: token.line, column: token.column })
    }

    /// A boolean literal: one token, true exactly when its text is `true`.
    fn parse_bool_literal(&mut self) -> (r: Result<ASTNode, ParseError>)
        requires
            old(self).wf(),
        ensures
            final(self).toks() == old(self).toks(),
            final(self).wf(),
            old(self).pos() <= final(self).pos() <= final(self).toks().len(),
            ({
                let s = spec_parse_bool_literal(old(self).toks(), old(self).pos());
                res_node_matches(r, s.0) && final(self).pos() == s.1
            }),
            !at_end(old(self).toks(), old(self).pos()) ==> old(self).pos() < final(self).pos(),
    {
        let token = self.advance();
        let value: bool = token.value == String::from_str("true");
        Ok(ASTNode::BoolLiteral { value, line: token.line, column: token.column })
    }

    /// An identifier: one token.
    fn parse_identifier(&mut self) -> (r: Result<ASTNode, ParseError>)
        requires
            old(self).wf(),
        ensures
            final(self).toks() == old(self).toks(),
            final(self).wf(),
            old(self).pos() <= final(self).pos() <= final(self).toks().len(),
            ({
                let s = spec_parse_identifier(old(self).toks(), old(self).pos());
                res_node_matches(r, s.0) && final(self).pos() == s.1
            }),
            !at_end(old(self).toks(), old(self).pos()) ==> old(self).pos() < final(self).pos(),
    {
        let token = self.advance();
        Ok(ASTNode::Identifier { name: token.value, line: token.line, column: token.column })
    }

    /// A parenthesized expression.
    fn parse_grouped_expression(&mut self) -> (r: Result<ASTNode, ParseError>)
        requires
            old(self).wf(),
        ensures
            final(self).toks() == old(self).toks(),
            final(self).wf(),
            old(self).pos() <= final(self).pos() <= final(self).toks().len(),
            ({
                let s = spec_parse_grouped_expression(old(self).toks(), old(self).pos());
                res_node_matches(r, s.0) && final(self).pos() == s.1
            }),
            r is Ok ==> old(self).pos() < final(self).pos(),
        decreases old(self).toks().len() - old(self).pos(), 0int,
    {
        match self.expect(TokenType::LParen) {
            Err(e) => {
                return Err(e);
            },
            Ok(_) => {},
        }
        let expr = match self.parse_expression(PREC_LOWEST) {
            Ok(n) => n,
            Err(e) => {
                return Err(e);
            },
        };
        match self.expect(TokenType::RParen) {
            Err(e) => {
                return Err(e);
            },
            Ok(_) => {},
        }
        Ok(expr)
    }

    /// A prefix unary expression.
    fn parse_unary_expression(&mut self) -> (r: Result<ASTNode, ParseError>)
        requires
            old(self).wf(),
            old(self).pos() < old(self).toks().len(),
        ensures
            final(self).toks() == old(self).toks(),
            final(self).wf(),
            old(self).pos() <= final(self).pos() <= final(self).toks().len(),
            ({
                let s = spec_parse_unary_expression(old(self).toks(), old(self).pos());
                res_node_matches(r, s.0) && final(self).pos() == s.1
            }),
            r is Ok ==> old(self).pos() < final(self).pos(),
        decreases old(self).toks().len() - old(self).pos(), 0int,
    {
        let op_token = self.advance();
        let right = match self.parse_expression(PREC_UNARY) {
            Ok(n) => n,
            Err(e) => {
                return Err(e);
            },
        };
        Ok(
            ASTNode::UnaryExpr {
                op: op_token.token_type,
                operand: Box::new(right),
                is_postfix: false,
                line: op_token.line,
                column: op_token.column,
            },
        )
    }

    /// A postfix `++`/`--` on an already-parsed operand.
    fn parse_postfix_unary_expression(&mut self, left: ASTNode) -> (r: Result<ASTNode, ParseError>)
        requires
            old(self).wf(),
        ensures
            final(self).toks() == old(self).toks(),
            final(self).wf(),
            old(self).pos() <= final(self).pos() <= final(self).toks().len(),
            ({
                let s = spec_parse_postfix_unary_expression(
                    old(self).toks(),
                    old(self).pos(),
                    ast_view(left),
                );
                res_node_matches(r, s.0) && final(self).pos() == s.1
            }),
            !at_end(old(self).toks(), old(self).pos()) ==> old(self).pos() < final(self).pos(),
    {
        let op_token = self.advance();
        Ok(
            ASTNode::UnaryExpr {
                op: op_token.token_type,
                operand: Box::new(left),
                is_postfix: true,
                line: op_token.line,
                column: op_token.column,
            },
        )
    }

    /// An infix operator application on an already-parsed left operand.
    fn parse_binary_expression(&mut self, left: ASTNode) -> (r: Result<ASTNode, ParseError>)
        requires
            old(self).wf(),
            old(self).pos() < old(self).toks().len(),
        ensures
            final(self).toks() == old(self).toks(),
            final(self).wf(),
            old(self).pos() <= final(self).pos() <= final(self).toks().len(),
            ({
                let s = spec_parse_binary_expression(
                    old(self).toks(),
                    old(self).pos(),
                    ast_view(left),
                );
                res_node_matches(r, s.0) && final(self).pos() == s.1
            }),
            old(self).pos() < final(self).pos(),
        decreases old(self).toks().len() - old(self).pos(), 0int,
    {
        let op_token = self.advance();
        let precedence = self.get_precedence(op_token.token_type);
        let right = match self.parse_expression(precedence) {
            Ok(n) => n,
            Err(e) => {
                return Err(e);
            },
        };
        if op_token.token_type == TokenType::AssignOp && !Self::is_identifier_node(&left) {
            return Err(ParseError::new(ParseErrorType::UnexpectedToken, op_token));
        }
        Ok(
            ASTNode::BinaryExpr {
                op: op_token.token_type,
                left: Box::new(left),
                right: Box::new(right),
                line: op_token.line,
                column: op_token.column,
            },
        )
    }

    /// A comma-separated argument list (at least one argument), appended to
    /// `args`.
    fn parse_args_into(&mut self, args: &mut Vec<ASTNode>) -> (r: Result<(), ParseError>)
        requires
            old(self).wf(),
        ensures
            final(self).toks() == old(self).toks(),
            final(self).wf(),
            old(self).pos() <= final(self).pos() <= final(self).toks().len(),
            ({
                let s = spec_parse_call_args(old(self).toks(), old(self).pos());
                final(self).pos() == s.1 && (match (r, s.0) {
                    (Ok(_), Ok(a)) => asts_view(final(args)@) == asts_view(old(args)@) + a,
                    (Err(e), Err(x)) => perr_matches(e, x),
                    _ => false,
                })
            }),
            r is Ok ==> old(self).pos() < final(self).pos(),
        decreases old(self).toks().len() - old(self).pos(), 3int,
    {
        let a = match self.parse_expression(PREC_LOWEST) {
            Ok(n) => n,
            Err(e) => {
                return Err(e);
            },
        };
        let ghost av = ast_view(a);
        proof {
            lemma_asts_view_push(args@, a);
        }
        args.push(a);
        if self.match_token(TokenType::Comma) {
            let res = self.parse_args_into(args);
            proof {
                if res is Ok {
                    assert(asts_view(old(args)@).push(av) =~= asts_view(old(args)@) + seq![av]);
                    let s2 = spec_parse_call_args(
                        old(self).toks(),
                        spec_parse_expression(old(self).toks(), old(self).pos(), PREC_LOWEST).1 + 1,
                    );
                    match s2.0 {
                        Ok(rest) => {
                            assert((asts_view(old(args)@) + seq![av]) + rest =~= asts_view(
                                old(args)@,
                            ) + (seq![av] + rest));
                        },
                        Err(_) => {},
                    }
                }
            }
            res
        } else {
            proof {
                assert(asts_view(old(args)@).push(av) =~= asts_view(old(args)@) + seq![av]);
            }
            Ok(())
        }
    }

    /// A call on an already-parsed callee.
    fn parse_call_expression(&mut self, callee: ASTNode) -> (r: Result<ASTNode, ParseError>)
        requires
            old(self).wf(),
        ensures
            final(self).toks() == old(self).toks(),
            final(self).wf(),
            old(self).pos() <= final(self).pos() <= final(self).toks().len(),
            ({
                let s = spec_parse_call_expression(
                    old(self).toks(),
                    old(self).pos(),
                    ast_view(callee),
                );
                res_node_matches(r, s.0) && final(self).pos() == s.1
            }),
            r is Ok ==> old(self).pos() < final(self).pos(),
        decreases old(self).toks().len() - old(self).pos(), 0int,
    {
        let call_token = self.current_token();
        match self.expect(TokenType::LParen) {
            Err(e) => {
                return Err(e);
            },
            Ok(_) => {},
        }
        let ghost p1 = self.pos();
        let mut args: Vec<ASTNode> = Vec::new();
        if !self.check(TokenType::RParen) {
            match self.parse_args_into(&mut args) {
                Err(e) => {
                    return Err(e);
                },
                Ok(_) => {},
            }
            proof {
                match spec_parse_call_args(old(self).toks(), p1).0 {
                    Ok(aa) => {
                        assert(asts_view(Seq::<ASTNode>::empty()) + aa =~= aa);
                    },
                    Err(_) => {},
                }
            }
        } else {
            proof {
                assert(asts_view(args@) =~= Seq::<Ast>::empty());
            }
        }
        match self.expect(TokenType::RParen) {
            Err(e) => {
                return Err(e);
            },
            Ok(_) => {},
        }
        Ok(
            ASTNode::CallExpr {
                callee: Box::new(callee),
                args,
                line: call_token.line,
                column: call_token.column,
            },
        )
    }

    /// The prefix form that starts an expression.
    fn parse_prefix(&mut self) -> (r: Result<ASTNode, ParseError>)
        requires
            old(self).wf(),
        ensures
            final(self).toks() == old(self).toks(),
            final(self).wf(),
            old(self).pos() <= final(self).pos() <= final(self).toks().len(),
            ({
                let s = spec_parse_prefix(old(self).toks(), old(self).pos());
                res_node_matches(r, s.0) && final(self).pos() == s.1
            }),
            r is Ok ==> old(self).pos() < final(self).pos(),
        decreases old(self).toks().len() - old(self).pos(), 1int,
    {
        match self.current_token().token_type {
            TokenType::IntLit => self.parse_int_literal(),
            TokenType::FloatLit => self.parse_float_literal(),
            TokenType::StringLit => self.parse_string_literal(),
            TokenType::CharLit => self.parse_char_literal(),
            TokenType::BoolLit => self.parse_bool_literal(),
            TokenType::Identifier => self.parse_identifier(),
            TokenType::LParen => self.parse_grouped_expression(),
            TokenType::Minus | TokenType::Not | TokenType::Increment | TokenType::Decrement => self
                .parse_unary_expression(),
            _ => Err(ParseError::new(ParseErrorType::ExpectedExpr, self.current_token())),
        }
    }

    /// One infix continuation on an already-parsed left operand.
    fn parse_infix(&mut self, left: ASTNode) -> (r: Result<ASTNode, ParseError>)
        requires
            old(self).wf(),
        ensures
            final(self).toks() == old(self).toks(),
            final(self).wf(),
            old(self).pos() <= final(self).pos() <= final(self).toks().len(),
            ({
                let s = spec_parse_infix(old(self).toks(), old(self).pos(), ast_view(left));
                res_node_matches(r, s.0) && final(self).pos() == s.1
            }),
            r is Ok && !at_end(old(self).toks(), old(self).pos()) ==> old(self).pos()
                < final(self).pos(),
        decreases old(self).toks().len() - old(self).pos(), 1int,
    {
        match self.current_token().token_type {
            TokenType::AssignOp | TokenType::Plus | TokenType::Minus | TokenType::Multiply
                | TokenType::Divide | TokenType::Modulo | TokenType::EqualOp | TokenType::Ne
                | TokenType::Lt | TokenType::Gt | TokenType::Le | TokenType::Ge | TokenType::And
                | TokenType::Or | TokenType::BitAnd | TokenType::BitOr | TokenType::BitXor
                | TokenType::BitLShift | TokenType::BitRShift => self.parse_binary_expression(left),
            TokenType::Increment | TokenType::Decrement => self.parse_postfix_unary_expression(
                left,
            ),
            TokenType::LParen => {
                if Self::is_identifier_node(&left) {
                    self.parse_call_expression(left)
                } else {
                    Err(ParseError::new(ParseErrorType::InvalidCallTarget, self.current_token()))
                }
            },
            _ => Err(ParseError::new(ParseErrorType::UnexpectedToken, self.current_token())),
        }
    }

    /// A whole expression: a prefix form, then the precedence-climbing loop
    /// above `precedence`.
    pub fn parse_expression(&mut self, precedence: u32) -> (r: Result<ASTNode, ParseError>)
        requires
            old(self).wf(),
        ensures
            final(self).toks() == old(self).toks(),
            final(self).wf(),
            old(self).pos() <= final(self).pos() <= final(self).toks().len(),
            ({
                let s = spec_parse_expression(old(self).toks(), old(self).pos(), precedence);
                res_node_matches(r, s.0) && final(self).pos() == s.1
            }),
            r is Ok ==> old(self).pos() < final(self).pos(),
        decreases old(self).toks().len() - old(self).pos(), 2int,
    {
        let mut left = match self.parse_prefix() {
            Ok(n) => n,
            Err(e) => {
                return Err(e);
            },
        };
        while !self.is_at_end() && self.get_precedence(self.current_token().token_type)
            > precedence
            invariant
                self.wf(),
                self.toks() == old(self).toks(),
                old(self).pos() < self.pos() <= self.toks().len(),
                spec_parse_expression(old(self).toks(), old(self).pos(), precedence)
                    == spec_parse_infix_chain(
                    old(self).toks(),
                    self.pos(),
                    ast_view(left),
                    precedence,
                ),
            decreases self.toks().len() - self.pos(),
        {
            left = match self.parse_infix(left) {
                Ok(n) => n,
                Err(e) => {
                    return Err(e);
                },
            };
        }
        Ok(left)
    }

    /// A comma-separated parameter list (at least one parameter), appended
    /// to `params`.
    fn parse_params_into(&mut self, params: &mut Vec<(TypeNode, String)>) -> (r: Result<
        (),
        ParseError,
    >)
        requires
            old(self).wf(),
        ensures
            final(self).toks() == old(self).toks(),
            final(self).wf(),
            old(self).pos() <= final(self).pos() <= final(self).toks().len(),
            ({
                let s = spec_parse_params(old(self).toks(), old(self).pos());
                final(self).pos() == s.1 && (match (r, s.0) {
                    (Ok(_), Ok(a)) => params_view(final(params)@) == params_view(old(params)@) + a,
                    (Err(e), Err(x)) => perr_matches(e, x),
                    _ => false,
                })
            }),
            r is Ok ==> old(self).pos() < final(self).pos(),
        decreases old(self).toks().len() - old(self).pos(),
    {
        let param_type = self.advance();
        let param_name = match self.expect(TokenType::Identifier) {
            Ok(t) => t,
            Err(e) => {
                return Err(e);
            },
        };
        let p = (TypeNode::Builtin(param_type.token_type), param_name.value);
        let ghost pv = (p.0@, p.1@);
        let ghost before = params@;
        params.push(p);
        proof {
            assert(params_view(params@) =~= params_view(before).push(pv));
            assert(params_view(before).push(pv) =~= params_view(before) + seq![pv]);
        }
        if self.match_token(TokenType::Comma) {
            let res = self.parse_params_into(params);
            proof {
                if res is Ok {
                    let s2 = spec_parse_params(
                        old(self).toks(),
                        spec_expect(
                            old(self).toks(),
                            step(old(self).toks(), old(self).pos()),
                            TokenType::Identifier,
                        ).1 + 1,
                    );
                    match s2.0 {
                        Ok(rest) => {
                            assert((params_view(before) + seq![pv]) + rest =~= params_view(before)
                                + (seq![pv] + rest));
                        },
                        Err(_) => {},
                    }
                }
            }
            res
        } else {
            Ok(())
        }
    }

    /// A function prototype.
    #[verifier::rlimit(50)]
    pub fn parse_function_prototype(&mut self) -> (r: Result<ASTNode, ParseError>)
        requires
            old(self).wf(),
        ensures
            final(self).toks() == old(self).toks(),
            final(self).wf(),
            old(self).pos() <= final(self).pos() <= final(self).toks().len(),
            ({
                let s = spec_parse_function_prototype(old(self).toks(), old(self).pos());
                res_node_matches(r, s.0) && final(self).pos() == s.1
            }),
            r is Ok ==> old(self).pos() < final(self).pos(),
    {
        let return_token = self.advance();
        let name_token = match self.expect(TokenType::Identifier) {
            Ok(t) => t,
            Err(e) => {
                return Err(e);
            },
        };
        match self.expect(TokenType::LParen) {
            Err(e) => {
                return Err(e);
            },
            Ok(_) => {},
        }
        let ghost pp = self.pos();
        let mut params: Vec<(TypeNode, String)> = Vec::new();
        if !self.check(TokenType::RParen) {
            match self.parse_params_into(&mut params) {
                Err(e) => {
                    return Err(e);
                },
                Ok(_) => {},
            }
            proof {
                match spec_parse_params(old(self).toks(), pp).0 {
                    Ok(aa) => {
                        assert(params_view(Seq::<(TypeNode, String)>::empty()) + aa =~= aa);
                    },
                    Err(_) => {},
                }
            }
        } else {
            proof {
                assert(params_view(params@) =~= Seq::<(TypeNodeV, Seq<char>)>::empty());
            }
        }
        match self.expect(TokenType::RParen) {
            Err(e) => {
                return Err(e);
            },
            Ok(_) => {},
        }
        match self.consume_semicolon() {
            Err(e) => {
                return Err(e);
            },
            Ok(_) => {},
        }
        Ok(
            ASTNode::FunctionProto {
                return_type: TypeNode::Builtin(return_token.token_type),
                name: name_token.value,
                params,
                line: return_token.line,
                column: return_token.column,
            },
        )
    }

    /// A print statement.
    #[verifier::rlimit(50)]
    pub fn parse_print_statement(&mut self) -> (r: Result<ASTNode, ParseError>)
        requires
            old(self).wf(),
        ensures
            final(self).toks() == old(self).toks(),
            final(self).wf(),
            old(self).pos() <= final(self).pos() <= final(self).toks().len(),
            ({
                let s = spec_parse_print_statement(old(self).toks(), old(self).pos());
                res_node_matches(r, s.0) && final(self).pos() == s.1
            }),
            r is Ok ==> old(self).pos() < final(self).pos(),
    {
        let print_token = self.advance();
        match self.expect(TokenType::LParen) {
            Err(e) => {
                return Err(e);
            },
            Ok(_) => {},
        }
        let ghost pa = self.pos();
        let mut args: Vec<ASTNode> = Vec::new();
        if !self.check(TokenType::RParen) {
            match self.parse_args_into(&mut args) {
                Err(e) => {
                    return Err(e);
                },
                Ok(_) => {},
            }
            proof {
                match spec_parse_call_args(old(self).toks(), pa).0 {
                    Ok(aa) => {
                        assert(asts_view(Seq::<ASTNode>::empty()) + aa =~= aa);
                    },
                    Err(_) => {},
                }
            }
        } else {
            proof {
                assert(asts_view(args@) =~= Seq::<Ast>::empty());
            }
        }
        match self.expect(TokenType::RParen) {
            Err(e) => {
                return Err(e);
            },
            Ok(_) => {},
        }
        match self.consume_semicolon() {
            Err(e) => {
                return Err(e);
            },
            Ok(_) => {},
        }
        Ok(ASTNode::PrintStmt { args, line: print_token.line, column: print_token.column })
    }

    /// A `break` statement.
    pub fn parse_break_statement(&mut self) -> (r: Result<ASTNode, ParseError>)
        requires
            old(self).wf(),
        ensures
            final(self).toks() == old(self).toks(),
            final(self).wf(),
            old(self).pos() <= final(self).pos() <= final(self).toks().len(),
            ({
                let s = spec_parse_break_statement(old(self).toks(), old(self).pos());
                res_node_matches(r, s.0) && final(self).pos() == s.1
            }),
            r is Ok ==> old(self).pos() < final(self).pos(),
    {
        let break_token = self.advance();
        match self.consume_semicolon() {
            Err(e) => {
                return Err(e);
            },
            Ok(_) => {},
        }
        Ok(ASTNode::BreakStmt { line: break_token.line, column: break_token.column })
    }

    /// An include directive.
    #[verifier::rlimit(50)]
    pub fn parse_include_statement(&mut self) -> (r: Result<ASTNode, ParseError>)
        requires
            old(self).wf(),
        ensures
            final(self).toks() == old(self).toks(),
            final(self).wf(),
            old(self).pos() <= final(self).pos() <= final(self).toks().len(),
            ({
                let s = spec_parse_include_statement(old(self).toks(), old(self).pos());
                res_node_matches(r, s.0) && final(self).pos() == s.1
            }),
            r is Ok ==> old(self).pos() < final(self).pos(),
    {
        let include_token = self.advance();
        if self.match_token(TokenType::Lt) {
            let header: String = if self.check(TokenType::Main) {
                self.advance();
                String::from_str("main")
            } else if self.check(TokenType::Identifier) {
                self.advance().value
            } else {
                return Err(
                    ParseError::new(ParseErrorType::ExpectedIdentifier, self.current_token()),
                );
            };
            match self.expect(TokenType::Gt) {
                Err(e) => {
                    return Err(e);
                },
                Ok(_) => {},
            }
            Ok(
                ASTNode::IncludeStmt {
                    header,
                    line: include_token.line,
                    column: include_token.column,
                },
            )
        } else if self.check(TokenType::StringLit) {
            let header_token = self.advance();
            let n = header_token.value.as_str().unicode_len();
            let header: String = if n >= 2 && header_token.value.as_str().get_char(0) == '"'
                && header_token.value.as_str().get_char(n - 1) == '"' {
                String::from_str(header_token.value.as_str().substring_char(1, n - 1))
            } else {
                header_token.value.clone()
            };
            Ok(
                ASTNode::IncludeStmt {
                    header,
                    line: include_token.line,
                    column: include_token.column,
                },
            )
        } else {
            Err(ParseError::new(ParseErrorType::UnexpectedToken, self.current_token()))
        }
    }

    /// A variable declaration: a type token, a name, an optional `=`
    /// initializer, and the statement terminator.
    pub fn parse_variable_declaration(&mut self) -> (r: Result<ASTNode, ParseError>)
        requires
            old(self).wf(),
        ensures
            final(self).toks() == old(self).toks(),
            final(self).wf(),
            old(self).pos() <= final(self).pos() <= final(self).toks().len(),
            ({
                let s = spec_parse_variable_declaration(old(self).toks(), old(self).pos());
                res_node_matches(r, s.0) && final(self).pos() == s.1
            }),
            r is Ok ==> old(self).pos() < final(self).pos(),
    {
        let type_token = self.advance();
        let name_token = match self.expect(TokenType::Identifier) {
            Ok(t) => t,
            Err(e) => {
                return Err(e);
            },
        };
        let initializer: Option<Box<ASTNode>> = if self.match_token(TokenType::AssignOp) {
            match self.parse_expression(PREC_LOWEST) {
                Ok(n) => {
                    let b: Option<Box<ASTNode>> = Some(Box::new(n));
                    proof {
                        assert(ast_opt_view(b) == Option::Some(Box::new(ast_view(n))));
                    }
                    b
                },
                Err(e) => {
                    return Err(e);
                },
            }
        } else {
            None
        };
        match self.consume_semicolon() {
            Err(e) => {
                return Err(e);
            },
            Ok(_) => {},
        }
        Ok(
            ASTNode::VarDecl {
                var_type: TypeNode::Builtin(type_token.token_type),
                name: name_token.value,
                initializer,
                line: type_token.line,
                column: type_token.column,
            },
        )
    }

    /// A `return` statement: an optional value, then the terminator.
    #[verifier::rlimit(100)]
    #[verifier::spinoff_prover]
    pub fn parse_return_statement(&mut self) -> (r: Result<ASTNode, ParseError>)
        requires
            old(self).wf(),
        ensures
            final(self).toks() == old(self).toks(),
            final(self).wf(),
            old(self).pos() <= final(self).pos() <= final(self).toks().len(),
            ({
                let s = spec_parse_return_statement(old(self).toks(), old(self).pos());
                res_node_matches(r, s.0)
            }),
            final(self).pos() == spec_parse_return_statement(old(self).toks(), old(self).pos()).1,
            r is Ok ==> old(self).pos() < final(self).pos(),
    {
        let return_token = self.advance();
        let mut value: Option<Box<ASTNode>> = None;
        if !self.check(TokenType::Semicolon) && !self.check(TokenType::RBrace) {
            let n = match self.parse_expression(PREC_LOWEST) {
                Ok(n) => n,
                Err(e) => {
                    return Err(e);
                },
            };
            let ghost nv = ast_view(n);
            value = Some(Box::new(n));
            proof {
                assert(ast_opt_view(value) == Option::Some(Box::new(nv)));
            }
        }
        match self.consume_semicolon() {
            Err(e) => {
                return Err(e);
            },
            Ok(_) => {},
        }
        let node = ASTNode::ReturnStmt {
            value,
            line: return_token.line,
            column: return_token.column,
        };
        proof {
            let s = spec_parse_return_statement(old(self).toks(), old(self).pos());
            match s.0 {
                Result::Ok(a) => {
                    assert(ast_view(node) == a);
                },
                Result::Err(_) => {
                    assert(false);
                },
            }
        }
        Ok(node)
    }

    /// The names inside an enum declaration (at least one), appended to
    /// `values`.
    fn parse_enum_values_into(&mut self, values: &mut Vec<String>) -> (r: Result<(), ParseError>)
        requires
            old(self).wf(),
        ensures
            final(self).toks() == old(self).toks(),
            final(self).wf(),
            old(self).pos() <= final(self).pos() <= final(self).toks().len(),
            ({
                let s = spec_parse_enum_values(old(self).toks(), old(self).pos());
                final(self).pos() == s.1 && (match (r, s.0) {
                    (Ok(_), Ok(a)) => names_view(final(values)@) == names_view(old(values)@) + a,
                    (Err(e), Err(x)) => perr_matches(e, x),
                    _ => false,
                })
            }),
            r is Ok ==> old(self).pos() < final(self).pos(),
        decreases old(self).toks().len() - old(self).pos(),
    {
        let name_token = match self.expect(TokenType::Identifier) {
            Ok(t) => t,
            Err(e) => {
                return Err(e);
            },
        };
        let ghost nv = name_token.value@;
        let ghost before = values@;
        values.push(name_token.value);
        proof {
            assert(names_view(values@) =~= names_view(before).push(nv));
            assert(names_view(before).push(nv) =~= names_view(before) + seq![nv]);
        }
        if self.match_token(TokenType::Comma) {
            let res = self.parse_enum_values_into(values);
            proof {
                if res is Ok {
                    let s2 = spec_parse_enum_values(
                        old(self).toks(),
                        spec_expect(old(self).toks(), old(self).pos(), TokenType::Identifier).1
                            + 1,
                    );
                    match s2.0 {
                        Ok(rest) => {
                            assert((names_view(before) + seq![nv]) + rest =~= names_view(before)
                                + (seq![nv] + rest));
                        },
                        Err(_) => {},
                    }
                }
            }
            res
        } else {
            Ok(())
        }
    }

    /// An enum declaration: `enum`, a name, the member names in braces, and
    /// the terminator.
    #[verifier::rlimit(100)]
    pub fn parse_enum_declaration(&mut self) -> (r: Result<ASTNode, ParseError>)
        requires
            old(self).wf(),
        ensures
            final(self).toks() == old(self).toks(),
            final(self).wf(),
            old(self).pos() <= final(self).pos() <= final(self).toks().len(),
            ({
                let s = spec_parse_enum_declaration(old(self).toks(), old(self).pos());
                res_node_matches(r, s.0) && final(self).pos() == s.1
            }),
            r is Ok ==> old(self).pos() < final(self).pos(),
    {
        let enum_token = self.advance();
        let name_token = match self.expect(TokenType::Identifier) {
            Ok(t) => t,
            Err(e) => {
                return Err(e);
            },
        };
        match self.expect(TokenType::LBrace) {
            Err(e) => {
                return Err(e);
            },
            Ok(_) => {},
        }
        let ghost pv = self.pos();
        let mut values: Vec<String> = Vec::new();
        if !self.check(TokenType::RBrace) {
            match self.parse_enum_values_into(&mut values) {
                Err(e) => {
                    return Err(e);
                },
                Ok(_) => {},
            }
            proof {
                match spec_parse_enum_values(old(self).toks(), pv).0 {
                    Ok(aa) => {
                        assert(names_view(Seq::<String>::empty()) + aa =~= aa);
                    },
                    Err(_) => {},
                }
            }
        } else {
            proof {
                assert(names_view(values@) =~= Seq::<Seq<char>>::empty());
            }
        }
        match self.expect(TokenType::RBrace) {
            Err(e) => {
                return Err(e);
            },
            Ok(_) => {},
        }
        match self.consume_semicolon() {
            Err(e) => {
                return Err(e);
            },
            Ok(_) => {},
        }
        let value_list = ASTNode::EnumValueList {
            values,
            line: name_token.line,
            column: name_token.column,
        };
        let ghost vlv = ast_view(value_list);
        let node = ASTNode::EnumDecl {
            name: name_token.value,
            values: Box::new(value_list),
            line: enum_token.line,
            column: enum_token.column,
        };
        proof {
            let s = spec_parse_enum_declaration(old(self).toks(), old(self).pos());
            match s.0 {
                Result::Ok(a) => {
                    match a {
                        Ast::EnumDecl { name: sn, values: sv, line: sl, column: sc } => {
                            assert(vlv == *sv);
                            assert(ast_view(node) == a);
                        },
                        _ => {
                            assert(false);
                        },
                    }
                },
                Result::Err(_) => {
                    assert(false);
                },
            }
        }
        Ok(node)
    }

    /// A brace-delimited block.  Reaching the end of the input before the
    /// closing brace is the unclosed-block error.
    #[verifier::loop_isolation(false)]
    pub fn parse_block(&mut self) -> (r: Result<Vec<ASTNode>, ParseError>)
        requires
            old(self).wf(),
        ensures
            final(self).toks() == old(self).toks(),
            final(self).wf(),
            old(self).pos() <= final(self).pos() <= final(self).toks().len(),
            ({
                let s = spec_parse_block(old(self).toks(), old(self).pos());
                res_nodes_matches(r, s.0) && final(self).pos() == s.1
            }),
            r is Ok ==> old(self).pos() < final(self).pos(),
        decreases old(self).toks().len() - old(self).pos(), 4int,
    {
        match self.expect(TokenType::LBrace) {
            Err(e) => {
                return Err(e);
            },
            Ok(_) => {},
        }
        let ghost pb = self.pos();
        let mut stmts: Vec<ASTNode> = Vec::new();
        proof {
            assert(asts_view(stmts@) =~= Seq::<Ast>::empty());
        }
        while !self.check(TokenType::RBrace) && !self.is_at_end()
            invariant
                self.wf(),
                self.toks() == old(self).toks(),
                old(self).pos() < self.pos() <= self.toks().len(),
                spec_parse_block_stmts(old(self).toks(), pb, Seq::<Ast>::empty())
                    == spec_parse_block_stmts(old(self).toks(), self.pos(), asts_view(stmts@)),
            decreases self.toks().len() - self.pos(),
        {
            let ghost ph = self.pos();
            let st = match self.parse_statement() {
                Ok(n) => n,
                Err(e) => {
                    proof {
                        let ss = spec_parse_statement(old(self).toks(), ph);
                        assert(spec_parse_block_stmts(old(self).toks(), ph, asts_view(stmts@))
                            == (Result::<Seq<Ast>, ErrV>::Err(ss.0->Err_0), ss.1));
                    }
                    return Err(e);
                },
            };
            proof {
                lemma_asts_view_push(stmts@, st);
            }
            stmts.push(st);
        }
        proof {
            assert(spec_parse_block_stmts(old(self).toks(), pb, Seq::<Ast>::empty()) == (
                Result::<Seq<Ast>, ErrV>::Ok(asts_view(stmts@)),
                self.pos(),
            ));
        }
        if self.is_at_end() {
            proof {
                let s = spec_parse_block(old(self).toks(), old(self).pos());
                assert(s.0 is Err);
                assert(s.1 == self.pos());
            }
            return Err(ParseError::new(ParseErrorType::UnclosedBlock, self.current_token()));
        }
        match self.expect(TokenType::RBrace) {
            Err(e) => {
                return Err(e);
            },
            Ok(_) => {},
        }
        proof {
            let s = spec_parse_block(old(self).toks(), old(self).pos());
            match s.0 {
                Result::Ok(a) => {
                    assert(asts_view(stmts@) == a);
                    assert(self.pos() == s.1);
                },
                Result::Err(_) => {
                    assert(false);
                },
            }
        }
        Ok(stmts)
    }

    /// A block in statement position.
    pub fn parse_block_statement(&mut self) -> (r: Result<ASTNode, ParseError>)
        requires
            old(self).wf(),
        ensures
            final(self).toks() == old(self).toks(),
            final(self).wf(),
            old(self).pos() <= final(self).pos() <= final(self).toks().len(),
            ({
                let s = spec_parse_block_statement(old(self).toks(), old(self).pos());
                res_node_matches(r, s.0) && final(self).pos() == s.1
            }),
            r is Ok ==> old(self).pos() < final(self).pos(),
        decreases old(self).toks().len() - old(self).pos(), 5int,
    {
        let block_token = self.current_token();
        let body = match self.parse_block() {
            Ok(v) => v,
            Err(e) => {
                return Err(e);
            },
        };
        Ok(ASTNode::BlockStmt { body, line: block_token.line, column: block_token.column })
    }

    /// The entry-point declaration: the reserved word, then a body block.
    #[verifier::rlimit(100)]
    pub fn parse_main_declaration(&mut self) -> (r: Result<ASTNode, ParseError>)
        requires
            old(self).wf(),
        ensures
            final(self).toks() == old(self).toks(),
            final(self).wf(),
            old(self).pos() <= final(self).pos() <= final(self).toks().len(),
            ({
                let s = spec_parse_main_declaration(old(self).toks(), old(self).pos());
                res_node_matches(r, s.0) && final(self).pos() == s.1
            }),
            r is Ok ==> old(self).pos() < final(self).pos(),
        decreases old(self).toks().len() - old(self).pos(), 5int,
    {
        let main_token = self.advance();
        let body = match self.parse_block() {
            Ok(v) => v,
            Err(e) => {
                return Err(e);
            },
        };
        Ok(ASTNode::MainDecl { body, line: main_token.line, column: main_token.column })
    }

    /// A function definition: return type, name, parameter list, then a
    /// body block.
    #[verifier::rlimit(100)]
    pub fn parse_function_declaration(&mut self) -> (r: Result<ASTNode, ParseError>)
        requires
            old(self).wf(),
        ensures
            final(self).toks() == old(self).toks(),
            final(self).wf(),
            old(self).pos() <= final(self).pos() <= final(self).toks().len(),
            ({
                let s = spec_parse_function_declaration(old(self).toks(), old(self).pos());
                res_node_matches(r, s.0) && final(self).pos() == s.1
            }),
            r is Ok ==> old(self).pos() < final(self).pos(),
        decreases old(self).toks().len() - old(self).pos(), 5int,
    {
        let return_token = self.advance();
        let name_token = match self.expect(TokenType::Identifier) {
            Ok(t) => t,
            Err(e) => {
                return Err(e);
            },
        };
        match self.expect(TokenType::LParen) {
            Err(e) => {
                return Err(e);
            },
            Ok(_) => {},
        }
        let ghost pp = self.pos();
        let mut params: Vec<(TypeNode, String)> = Vec::new();
        if !self.check(TokenType::RParen) {
            match self.parse_params_into(&mut params) {
                Err(e) => {
                    return Err(e);
                },
                Ok(_) => {},
            }
            proof {
                match spec_parse_params(old(self).toks(), pp).0 {
                    Ok(aa) => {
                        assert(params_view(Seq::<(TypeNode, String)>::empty()) + aa =~= aa);
                    },
                    Err(_) => {},
                }
            }
        } else {
            proof {
                assert(params_view(params@) =~= Seq::<(TypeNodeV, Seq<char>)>::empty());
            }
        }
        match self.expect(TokenType::RParen) {
            Err(e) => {
                return Err(e);
            },
            Ok(_) => {},
        }
        let body = match self.parse_block() {
            Ok(v) => v,
            Err(e) => {
                return Err(e);
            },
        };
        Ok(
            ASTNode::FunctionDecl {
                return_type: TypeNode::Builtin(return_token.token_type),
                name: name_token.value,
                params,
                body,
                line: return_token.line,
                column: return_token.column,
            },
        )
    }

    /// An `if` statement: condition in parentheses, a block, and an
    /// optional `else` block.
    #[verifier::rlimit(100)]
    pub fn parse_if_statement(&mut self) -> (r: Result<ASTNode, ParseError>)
        requires
            old(self).wf(),
        ensures
            final(self).toks() == old(self).toks(),
            final(self).wf(),
            old(self).pos() <= final(self).pos() <= final(self).toks().len(),
            ({
                let s = spec_parse_if_statement(old(self).toks(), old(self).pos());
                res_node_matches(r, s.0) && final(self).pos() == s.1
            }),
            r is Ok ==> old(self).pos() < final(self).pos(),
        decreases old(self).toks().len() - old(self).pos(), 5int,
    {
        let if_token = self.advance();
        match self.expect(TokenType::LParen) {
            Err(e) => {
                return Err(e);
            },
            Ok(_) => {},
        }
        let condition = match self.parse_expression(PREC_LOWEST) {
            Ok(n) => n,
            Err(e) => {
                return Err(e);
            },
        };
        match self.expect(TokenType::RParen) {
            Err(e) => {
                return Err(e);
            },
            Ok(_) => {},
        }
        let if_body = match self.parse_block() {
            Ok(v) => v,
            Err(e) => {
                return Err(e);
            },
        };
        let mut else_body: Vec<ASTNode> = Vec::new();
        proof {
            assert(asts_view(else_body@) =~= Seq::<Ast>::empty());
        }
        if self.match_token(TokenType::Else) {
            else_body = match self.parse_block() {
                Ok(v) => v,
                Err(e) => {
                    return Err(e);
                },
            };
        }
        Ok(
            ASTNode::IfStmt {
                condition: Box::new(condition),
                if_body,
                else_body,
                line: if_token.line,
                column: if_token.column,
            },
        )
    }

    /// A `while` statement: condition in parentheses, then a block.
    #[verifier::rlimit(100)]
    pub fn parse_while_statement(&mut self) -> (r: Result<ASTNode, ParseError>)
        requires
            old(self).wf(),
        ensures
            final(self).toks() == old(self).toks(),
            final(self).wf(),
            old(self).pos() <= final(self).pos() <= final(self).toks().len(),
            ({
                let s = spec_parse_while_statement(old(self).toks(), old(self).pos());
                res_node_matches(r, s.0) && final(self).pos() == s.1
            }),
            r is Ok ==> old(self).pos() < final(self).pos(),
        decreases old(self).toks().len() - old(self).pos(), 5int,
    {
        let while_token = self.advance();
        match self.expect(TokenType::LParen) {
            Err(e) => {
                return Err(e);
            },
            Ok(_) => {},
        }
        let condition = match self.parse_expression(PREC_LOWEST) {
            Ok(n) => n,
            Err(e) => {
                return Err(e);
            },
        };
        match self.expect(TokenType::RParen) {
            Err(e) => {
                return Err(e);
            },
            Ok(_) => {},
        }
        let body = match self.parse_block() {
            Ok(v) => v,
            Err(e) => {
                return Err(e);
            },
        };
        Ok(
            ASTNode::WhileStmt {
                condition: Box::new(condition),
                body,
                line: while_token.line,
                column: while_token.column,
            },
        )
    }

    /// A `do`-`while` statement: a block, then `while`, the condition in
    /// parentheses, and the terminator.
    #[verifier::rlimit(100)]
    pub fn parse_do_while_statement(&mut self) -> (r: Result<ASTNode, ParseError>)
        requires
            old(self).wf(),
        ensures
            final(self).toks() == old(self).toks(),
            final(self).wf(),
            old(self).pos() <= final(self).pos() <= final(self).toks().len(),
            ({
                let s = spec_parse_do_while_statement(old(self).toks(), old(self).pos());
                res_node_matches(r, s.0) && final(self).pos() == s.1
            }),
            r is Ok ==> old(self).pos() < final(self).pos(),
        decreases old(self).toks().len() - old(self).pos(), 5int,
    {
        let do_token = self.advance();
        let body_vec = match self.parse_block() {
            Ok(v) => v,
            Err(e) => {
                return Err(e);
            },
        };
        let ghost bvv = asts_view(body_vec@);
        let body = ASTNode::BlockStmt {
            body: body_vec,
            line: do_token.line,
            column: do_token.column,
        };
        let ghost bodyv = ast_view(body);
        proof {
            assert(bodyv == (Ast::BlockStmt {
                body: bvv,
                line: do_token@.line,
                column: do_token@.column,
            }));
        }
        match self.expect(TokenType::While) {
            Err(e) => {
                return Err(e);
            },
            Ok(_) => {},
        }
        match self.expect(TokenType::LParen) {
            Err(e) => {
                return Err(e);
            },
            Ok(_) => {},
        }
        let condition = match self.parse_expression(PREC_LOWEST) {
            Ok(n) => n,
            Err(e) => {
                return Err(e);
            },
        };
        match self.expect(TokenType::RParen) {
            Err(e) => {
                return Err(e);
            },
            Ok(_) => {},
        }
        match self.consume_semicolon() {
            Err(e) => {
                return Err(e);
            },
            Ok(_) => {},
        }
        let ghost cv = ast_view(condition);
        let node = ASTNode::DoWhileStmt {
            body: Box::new(body),
            condition: Box::new(condition),
            line: do_token.line,
            column: do_token.column,
        };
        proof {
            assert(ast_view(node) == (Ast::DoWhileStmt {
                body: Box::new(bodyv),
                condition: Box::new(cv),
                line: do_token@.line,
                column: do_token@.column,
            }));
            let s = spec_parse_do_while_statement(old(self).toks(), old(self).pos());
            match s.0 {
                Result::Ok(a) => {
                    assert(ast_view(node) == a);
                },
                Result::Err(_) => {
                    assert(false);
                },
            }
        }
        Ok(node)
    }

    /// A C-style `for` statement: optional init (declaration or
    /// expression), optional condition, optional update, then a block.
    #[verifier::rlimit(100)]
    pub fn parse_for_statement(&mut self) -> (r: Result<ASTNode, ParseError>)
        requires
            old(self).wf(),
        ensures
            final(self).toks() == old(self).toks(),
            final(self).wf(),
            old(self).pos() <= final(self).pos() <= final(self).toks().len(),
            ({
                let s = spec_parse_for_statement(old(self).toks(), old(self).pos());
                res_node_matches(r, s.0) && final(self).pos() == s.1
            }),
            r is Ok ==> old(self).pos() < final(self).pos(),
        decreases old(self).toks().len() - old(self).pos(), 5int,
    {
        let for_token = self.current_token();
        match self.expect(TokenType::For) {
            Err(e) => {
                return Err(e);
            },
            Ok(_) => {},
        }
        match self.expect(TokenType::LParen) {
            Err(e) => {
                return Err(e);
            },
            Ok(_) => {},
        }
        let mut init: Option<Box<ASTNode>> = None;
        if !self.check(TokenType::Semicolon) {
            if self.is_type_token(self.current_token().token_type) {
                let d = match self.parse_variable_declaration() {
                    Ok(n) => n,
                    Err(e) => {
                        return Err(e);
                    },
                };
                let ghost dv = ast_view(d);
                init = Some(Box::new(d));
                proof {
                    assert(ast_opt_view(init) == Option::Some(Box::new(dv)));
                }
            } else {
                let ex = match self.parse_expression(PREC_LOWEST) {
                    Ok(n) => n,
                    Err(e) => {
                        return Err(e);
                    },
                };
                match self.consume_semicolon() {
                    Err(e) => {
                        return Err(e);
                    },
                    Ok(_) => {},
                }
                let ghost xv = ast_view(ex);
                init = Some(Box::new(ex));
                proof {
                    assert(ast_opt_view(init) == Option::Some(Box::new(xv)));
                }
            }
        } else {
            self.advance();
        }
        let mut condition: Option<Box<ASTNode>> = None;
        if !self.check(TokenType::Semicolon) {
            let c = match self.parse_expression(PREC_LOWEST) {
                Ok(n) => n,
                Err(e) => {
                    return Err(e);
                },
            };
            let ghost cv = ast_view(c);
            condition = Some(Box::new(c));
            proof {
                assert(ast_opt_view(condition) == Option::Some(Box::new(cv)));
            }
        }
        match self.expect(TokenType::Semicolon) {
            Err(e) => {
                return Err(e);
            },
            Ok(_) => {},
        }
        let mut update: Option<Box<ASTNode>> = None;
        if !self.check(TokenType::RParen) {
            let u = match self.parse_expression(PREC_LOWEST) {
                Ok(n) => n,
                Err(e) => {
                    return Err(e);
                },
            };
            let ghost uv = ast_view(u);
            update = Some(Box::new(u));
            proof {
                assert(ast_opt_view(update) == Option::Some(Box::new(uv)));
            }
        }
        match self.expect(TokenType::RParen) {
            Err(e) => {
                return Err(e);
            },
            Ok(_) => {},
        }
        let body_vec = match self.parse_block() {
            Ok(v) => v,
            Err(e) => {
                return Err(e);
            },
        };
        let ghost bvv = asts_view(body_vec@);
        let body = ASTNode::BlockStmt {
            body: body_vec,
            line: for_token.line,
            column: for_token.column,
        };
        let ghost bodyv = ast_view(body);
        proof {
            assert(bodyv == (Ast::BlockStmt {
                body: bvv,
                line: for_token@.line,
                column: for_token@.column,
            }));
        }
        let node = ASTNode::ForStmt {
            init,
            condition,
            update,
            body: Box::new(body),
            line: for_token.line,
            column: for_token.column,
        };
        proof {
            let s = spec_parse_for_statement(old(self).toks(), old(self).pos());
            match s.0 {
                Result::Ok(a) => {
                    assert(ast_view(node) == a);
                },
                Result::Err(_) => {
                    assert(false);
                },
            }
        }
        Ok(node)
    }

    /// A `switch` statement: the selector in parentheses, then the brace-
    /// delimited case and default items.
    #[verifier::rlimit(100)]
    #[verifier::loop_isolation(false)]
    pub fn parse_switch_statement(&mut self) -> (r: Result<ASTNode, ParseError>)
        requires
            old(self).wf(),
        ensures
            final(self).toks() == old(self).toks(),
            final(self).wf(),
            old(self).pos() <= final(self).pos() <= final(self).toks().len(),
            ({
                let s = spec_parse_switch_statement(old(self).toks(), old(self).pos());
                res_node_matches(r, s.0) && final(self).pos() == s.1
            }),
            r is Ok ==> old(self).pos() < final(self).pos(),
        decreases old(self).toks().len() - old(self).pos(), 5int,
    {
        let switch_token = self.advance();
        match self.expect(TokenType::LParen) {
            Err(e) => {
                return Err(e);
            },
            Ok(_) => {},
        }
        let expression = match self.parse_expression(PREC_LOWEST) {
            Ok(n) => n,
            Err(e) => {
                return Err(e);
            },
        };
        let ghost xv = ast_view(expression);
        match self.expect(TokenType::RParen) {
            Err(e) => {
                return Err(e);
            },
            Ok(_) => {},
        }
        match self.expect(TokenType::LBrace) {
            Err(e) => {
                return Err(e);
            },
            Ok(_) => {},
        }
        let ghost pi = self.pos();
        let mut cases: Vec<ASTNode> = Vec::new();
        let mut default_body: Vec<ASTNode> = Vec::new();
        proof {
            assert(asts_view(cases@) =~= Seq::<Ast>::empty());
            assert(asts_view(default_body@) =~= Seq::<Ast>::empty());
        }
        while !self.check(TokenType::RBrace) && !self.is_at_end()
            invariant
                self.wf(),
                self.toks() == old(self).toks(),
                old(self).pos() < self.pos() <= self.toks().len(),
                spec_parse_switch_items(
                    old(self).toks(),
                    pi,
                    Seq::<Ast>::empty(),
                    Seq::<Ast>::empty(),
                ) == spec_parse_switch_items(
                    old(self).toks(),
                    self.pos(),
                    asts_view(cases@),
                    asts_view(default_body@),
                ),
            decreases self.toks().len() - self.pos(),
        {
            let ghost p_at = self.pos();
            let ghost cv0 = asts_view(cases@);
            let ghost dv0s = asts_view(default_body@);
            if self.check(TokenType::Case) {
                self.advance();
                let case_token = self.current_token();
                let value = match self.parse_expression(PREC_LOWEST) {
                    Ok(n) => n,
                    Err(e) => {
                        proof {
                            let ts = old(self).toks();
                            let rv = spec_parse_expression(ts, step(ts, p_at), PREC_LOWEST);
                            assert(spec_parse_switch_items(ts, p_at, cv0, dv0s) == (
                                Result::<(Seq<Ast>, Seq<Ast>), ErrV>::Err(rv.0->Err_0),
                                rv.1,
                            ));
                        }
                        return Err(e);
                    },
                };
                match self.expect(TokenType::Colon) {
                    Err(e) => {
                        proof {
                            let ts = old(self).toks();
                            let rv = spec_parse_expression(ts, step(ts, p_at), PREC_LOWEST);
                            let rc = spec_expect(ts, rv.1, TokenType::Colon);
                            assert(spec_parse_switch_items(ts, p_at, cv0, dv0s) == (
                                Result::<(Seq<Ast>, Seq<Ast>), ErrV>::Err(rc.0->Err_0),
                                rc.1,
                            ));
                        }
                        return Err(e);
                    },
                    Ok(_) => {},
                }
                let ghost pc = self.pos();
                let mut body: Vec<ASTNode> = Vec::new();
                proof {
                    assert(asts_view(body@) =~= Seq::<Ast>::empty());
                }
                while !self.check(TokenType::Case) && !self.check(TokenType::Default)
                    && !self.check(TokenType::RBrace) && !self.is_at_end()
                    invariant
                        self.wf(),
                        self.toks() == old(self).toks(),
                        old(self).pos() < self.pos() <= self.toks().len(),
                        p_at < pc <= self.pos(),
                        spec_parse_case_body(old(self).toks(), pc, Seq::<Ast>::empty())
                            == spec_parse_case_body(
                            old(self).toks(),
                            self.pos(),
                            asts_view(body@),
                        ),
                    decreases self.toks().len() - self.pos(),
                {
                    let ghost ph = self.pos();
                    let st = match self.parse_statement() {
                        Ok(n) => n,
                        Err(e) => {
                            proof {
                                let ts = old(self).toks();
                                let ss = spec_parse_statement(ts, ph);
                                assert(spec_parse_case_body(ts, ph, asts_view(body@)) == (
                                    Result::<Seq<Ast>, ErrV>::Err(ss.0->Err_0),
                                    ss.1,
                                ));
                                assert(spec_parse_case_body(ts, pc, Seq::<Ast>::empty()).0
                                    is Err);
                                assert(spec_parse_switch_items(ts, p_at, cv0, dv0s) == (
                                    Result::<(Seq<Ast>, Seq<Ast>), ErrV>::Err(ss.0->Err_0),
                                    ss.1,
                                ));
                            }
                            return Err(e);
                        },
                    };
                    proof {
                        lemma_asts_view_push(body@, st);
                    }
                    body.push(st);
                }
                proof {
                    assert(spec_parse_case_body(old(self).toks(), pc, Seq::<Ast>::empty()) == (
                        Result::<Seq<Ast>, ErrV>::Ok(asts_view(body@)),
                        self.pos(),
                    ));
                }
                let ghost vv = ast_view(value);
                let ghost bodv = asts_view(body@);
                let node = ASTNode::CaseBlock {
                    value: Box::new(value),
                    body,
                    line: case_token.line,
                    column: case_token.column,
                };
                proof {
                    assert(ast_view(node) == (Ast::CaseBlock {
                        value: Box::new(vv),
                        body: bodv,
                        line: case_token@.line,
                        column: case_token@.column,
                    }));
                    lemma_asts_view_push(cases@, node);
                }
                cases.push(node);
                proof {
                    assert(spec_parse_switch_items(old(self).toks(), p_at, cv0, dv0s)
                        == spec_parse_switch_items(
                        old(self).toks(),
                        self.pos(),
                        asts_view(cases@),
                        asts_view(default_body@),
                    ));
                }
            } else if self.check(TokenType::Default) {
                self.advance();
                match self.expect(TokenType::Colon) {
                    Err(e) => {
                        proof {
                            let ts = old(self).toks();
                            let rc = spec_expect(ts, step(ts, p_at), TokenType::Colon);
                            assert(spec_parse_switch_items(ts, p_at, cv0, dv0s) == (
                                Result::<(Seq<Ast>, Seq<Ast>), ErrV>::Err(rc.0->Err_0),
                                rc.1,
                            ));
                        }
                        return Err(e);
                    },
                    Ok(_) => {},
                }
                let ghost pd = self.pos();
                let ghost dv0 = asts_view(default_body@);
                while !self.check(TokenType::RBrace) && !self.is_at_end()
                    invariant
                        self.wf(),
                        self.toks() == old(self).toks(),
                        old(self).pos() < self.pos() <= self.toks().len(),
                        p_at < pd <= self.pos(),
                        spec_parse_default_body(old(self).toks(), pd, dv0)
                            == spec_parse_default_body(
                            old(self).toks(),
                            self.pos(),
                            asts_view(default_body@),
                        ),
                    decreases self.toks().len() - self.pos(),
                {
                    let ghost ph = self.pos();
                    let st = match self.parse_statement() {
                        Ok(n) => n,
                        Err(e) => {
                            proof {
                                let ts = old(self).toks();
                                let ss = spec_parse_statement(ts, ph);
                                assert(spec_parse_default_body(ts, ph, asts_view(default_body@))
                                    == (Result::<Seq<Ast>, ErrV>::Err(ss.0->Err_0), ss.1));
                                assert(spec_parse_default_body(ts, pd, dv0).0 is Err);
                                assert(spec_parse_switch_items(ts, p_at, cv0, dv0s) == (
                                    Result::<(Seq<Ast>, Seq<Ast>), ErrV>::Err(ss.0->Err_0),
                                    ss.1,
                                ));
                            }
                            return Err(e);
                        },
                    };
                    proof {
                        lemma_asts_view_push(default_body@, st);
                    }
                    default_body.push(st);
                }
                proof {
                    assert(spec_parse_default_body(old(self).toks(), pd, dv0) == (
                        Result::<Seq<Ast>, ErrV>::Ok(asts_view(default_body@)),
                        self.pos(),
                    ));
                    assert(spec_parse_switch_items(old(self).toks(), p_at, cv0, dv0s)
                        == spec_parse_switch_items(
                        old(self).toks(),
                        self.pos(),
                        asts_view(cases@),
                        asts_view(default_body@),
                    ));
                }
            } else {
                self.advance();
                proof {
                    assert(spec_parse_switch_items(old(self).toks(), p_at, cv0, dv0s)
                        == spec_parse_switch_items(
                        old(self).toks(),
                        self.pos(),
                        asts_view(cases@),
                        asts_view(default_body@),
                    ));
                }
            }
        }
        proof {
            assert(spec_parse_switch_items(
                old(self).toks(),
                pi,
                Seq::<Ast>::empty(),
                Seq::<Ast>::empty(),
            ) == (
                Result::<(Seq<Ast>, Seq<Ast>), ErrV>::Ok(
                    (asts_view(cases@), asts_view(default_body@)),
                ),
                self.pos(),
            ));
        }
        match self.expect(TokenType::RBrace) {
            Err(e) => {
                return Err(e);
            },
            Ok(_) => {},
        }
        let ghost csv = asts_view(cases@);
        let ghost dbv = asts_view(default_body@);
        let node = ASTNode::SwitchStmt {
            expression: Box::new(expression),
            cases,
            default_body,
            line: switch_token.line,
            column: switch_token.column,
        };
        proof {
            assert(ast_view(node) == (Ast::SwitchStmt {
                expression: Box::new(xv),
                cases: csv,
                default_body: dbv,
                line: switch_token@.line,
                column: switch_token@.column,
            }));
            let s = spec_parse_switch_statement(old(self).toks(), old(self).pos());
            match s.0 {
                Result::Ok(a) => {
                    assert(ast_view(node) == a);
                },
                Result::Err(_) => {
                    assert(false);
                },
            }
        }
        Ok(node)
    }

    /// One statement, dispatched on its first token; a type token leads
    /// into the declaration disambiguation, anything unrecognized is a bare
    /// expression statement.
    #[verifier::rlimit(100)]
    pub fn parse_statement(&mut self) -> (r: Result<ASTNode, ParseError>)
        requires
            old(self).wf(),
        ensures
            final(self).toks() == old(self).toks(),
            final(self).wf(),
            old(self).pos() <= final(self).pos() <= final(self).toks().len(),
            ({
                let s = spec_parse_statement(old(self).toks(), old(self).pos());
                res_node_matches(r, s.0) && final(self).pos() == s.1
            }),
            r is Ok ==> old(self).pos() < final(self).pos(),
        decreases old(self).toks().len() - old(self).pos(), 10int,
    {
        let t = self.current_token().token_type;
        if t == TokenType::Enum {
            self.parse_enum_declaration()
        } else if self.is_type_token(t) {
            if self.peek(1).token_type == TokenType::Identifier {
                if self.peek(2).token_type == TokenType::LParen {
                    if self.is_function_definition() {
                        self.parse_function_declaration()
                    } else {
                        self.parse_function_prototype()
                    }
                } else {
                    self.parse_variable_declaration()
                }
            } else {
                self.parse_variable_declaration()
            }
        } else if t == TokenType::Print {
            self.parse_print_statement()
        } else if t == TokenType::If {
            self.parse_if_statement()
        } else if t == TokenType::While {
            self.parse_while_statement()
        } else if t == TokenType::Do {
            self.parse_do_while_statement()
        } else if t == TokenType::For {
            self.parse_for_statement()
        } else if t == TokenType::Switch {
            self.parse_switch_statement()
        } else if t == TokenType::Return {
            self.parse_return_statement()
        } else if t == TokenType::LBrace {
            self.parse_block_statement()
        } else if t == TokenType::Main {
            self.parse_main_declaration()
        } else if t == TokenType::Break {
            self.parse_break_statement()
        } else {
            let start_token = self.current_token();
            let expr = match self.parse_expression(PREC_LOWEST) {
                Ok(n) => n,
                Err(e) => {
                    return Err(e);
                },
            };
            match self.consume_semicolon() {
                Err(e) => {
                    return Err(e);
                },
                Ok(_) => {},
            }
            let ghost ev = ast_view(expr);
            let node = ASTNode::ExpressionStmt {
                expr: Box::new(expr),
                line: start_token.line,
                column: start_token.column,
            };
            proof {
                assert(ast_view(node) == (Ast::ExpressionStmt {
                    expr: Box::new(ev),
                    line: start_token@.line,
                    column: start_token@.column,
                }));
            }
            Ok(node)
        }
    }

    /// A whole program: the very first declaration must be an include
    /// directive, then the remaining declarations up to the end of the
    /// input.
    #[verifier::rlimit(100)]
    pub fn parse_program(&mut self) -> (r: Result<Vec<ASTNode>, ParseError>)
        requires
            old(self).wf(),
            old(self).pos() == 0,
        ensures
            final(self).toks() == old(self).toks(),
            final(self).wf(),
            ({
                let s = spec_parse_program(old(self).toks());
                res_nodes_matches(r, s.0) && final(self).pos() == s.1
            }),
    {
        if !self.check(TokenType::Include) {
            return Err(ParseError::new(ParseErrorType::UnexpectedToken, self.current_token()));
        }
        let inc = match self.parse_include_statement() {
            Ok(n) => n,
            Err(e) => {
                return Err(e);
            },
        };
        let ghost iv = ast_view(inc);
        let mut items: Vec<ASTNode> = Vec::new();
        proof {
            lemma_asts_view_push(items@, inc);
            assert(asts_view(Seq::<ASTNode>::empty()).push(iv) =~= seq![iv]);
        }
        items.push(inc);
        while !self.is_at_end()
            invariant
                self.wf(),
                self.toks() == old(self).toks(),
                0 < self.pos() <= self.toks().len(),
                spec_parse_program(old(self).toks()) == spec_parse_program_items(
                    old(self).toks(),
                    self.pos(),
                    asts_view(items@),
                ),
            decreases self.toks().len() - self.pos(),
        {
            let t = self.current_token().token_type;
            let parsed = if t == TokenType::Include {
                self.parse_include_statement()
            } else if self.is_type_token(t) {
                if self.peek(1).token_type == TokenType::Identifier && self.peek(
                    2,
                ).token_type == TokenType::LParen {
                    if self.is_function_definition() {
                        self.parse_function_declaration()
                    } else {
                        self.parse_function_prototype()
                    }
                } else {
                    self.parse_statement()
                }
            } else if t == TokenType::Main {
                self.parse_main_declaration()
            } else {
                self.parse_statement()
            };
            let node = match parsed {
                Ok(n) => n,
                Err(e) => {
                    return Err(e);
                },
            };
            proof {
                lemma_asts_view_push(items@, node);
            }
            items.push(node);
        }
        Ok(items)
    }
}

} // verus!
