//! The grammar, as a mathematical parser.
//!
//! Every function here is a specification: it maps a token sequence and a
//! cursor position to a parse result and the position after it.  The
//! executable methods in `parser` carry contracts pinning them to their
//! counterparts here, so for those forms the grammar below *is* the
//! meaning of parsing; the remaining statement forms are specified here
//! for the whole language.
//!
//! Recursive functions decrease the lexicographic pair (tokens left, rank).
//! Where a recursion resumes at a position another recursive call returned,
//! the definition is guarded by `pos < next <= ts.len()`; the guard always
//! holds (every parser step moves the cursor forward and never past the
//! end), which the executable methods prove, so the `dead` fallback behind
//! it is unreachable.

use vstd::prelude::*;

use crate::ast::Ast;
use crate::parser::ParseErrorType;
use crate::token::{TokenType, TokenV, TypeNodeV};

verus! {

/// A grammar-level syntax error: the kind and the offending token.
pub struct ErrV {
    pub kind: ParseErrorType,
    pub token: TokenV,
}

/// The token standing for the end of the input.
pub open spec fn eof_token() -> TokenV {
    TokenV { token_type: TokenType::Eof, value: Seq::empty(), line: 0, column: 0 }
}

/// The token at `pos`, or the end-of-input token past the end.
pub open spec fn cur(ts: Seq<TokenV>, pos: int) -> TokenV {
    if 0 <= pos < ts.len() {
        ts[pos]
    } else {
        eof_token()
    }
}

/// Whether the cursor stands at the end of the input.
pub open spec fn at_end(ts: Seq<TokenV>, pos: int) -> bool {
    cur(ts, pos).token_type == TokenType::Eof
}

/// The cursor after consuming one token (it never moves past the end).
pub open spec fn step(ts: Seq<TokenV>, pos: int) -> int {
    if 0 <= pos < ts.len() {
        pos + 1
    } else {
        pos
    }
}

/// Demanding one token of kind `t`: the token and the moved cursor, or the
/// expected-token-not-found error naming `t`.
pub open spec fn spec_expect(ts: Seq<TokenV>, pos: int, t: TokenType) -> (Result<TokenV, ErrV>, int) {
    if cur(ts, pos).token_type == t {
        (Ok(cur(ts, pos)), step(ts, pos))
    } else {
        (Err(ErrV { kind: ParseErrorType::FailedToFindToken(t), token: cur(ts, pos) }), pos)
    }
}

/// Demanding the statement terminator, with the missing-terminator error.
pub open spec fn spec_consume_semicolon(ts: Seq<TokenV>, pos: int) -> (Result<(), ErrV>, int) {
    if cur(ts, pos).token_type == TokenType::Semicolon {
        (Ok(()), step(ts, pos))
    } else {
        (Err(ErrV { kind: ParseErrorType::MissingSemicolon, token: cur(ts, pos) }), pos)
    }
}

/// Unreachable fallback behind a termination guard.
pub open spec fn dead<T>(pos: int) -> (Result<T, ErrV>, int) {
    (Err(ErrV { kind: ParseErrorType::UnexpectedEOF, token: eof_token() }), pos)
}

/// Prefixing an already-parsed item onto the result of a list continuation.
pub open spec fn prepend<T>(prefix: Seq<T>, r: (Result<Seq<T>, ErrV>, int)) -> (
    Result<Seq<T>, ErrV>,
    int,
) {
    match r.0 {
        Ok(rest) => (Ok(prefix + rest), r.1),
        Err(e) => (Err(e), r.1),
    }
}

// The eleven precedence levels, lowest to highest.
pub const PREC_LOWEST: u32 = 0;

pub const PREC_ASSIGNMENT: u32 = 1;

pub const PREC_LOGICAL_OR: u32 = 2;

pub const PREC_LOGICAL_AND: u32 = 3;

pub const PREC_EQUALITY: u32 = 4;

pub const PREC_COMPARISON: u32 = 5;

pub const PREC_BITWISE_TERM: u32 = 6;

pub const PREC_TERM: u32 = 7;

pub const PREC_FACTOR: u32 = 8;

pub const PREC_UNARY: u32 = 9;

pub const PREC_POSTFIX: u32 = 10;

pub const PREC_CALL: u32 = 11;

/// The binding power of a token when seen in infix position.
pub open spec fn token_precedence(t: TokenType) -> u32 {
    match t {
        TokenType::AssignOp => PREC_ASSIGNMENT,
        TokenType::Or => PREC_LOGICAL_OR,
        TokenType::And => PREC_LOGICAL_AND,
        TokenType::EqualOp | TokenType::Ne => PREC_EQUALITY,
        TokenType::Lt | TokenType::Gt | TokenType::Le | TokenType::Ge => PREC_COMPARISON,
        TokenType::BitAnd | TokenType::BitOr | TokenType::BitXor | TokenType::BitLShift
            | TokenType::BitRShift => PREC_BITWISE_TERM,
        TokenType::Plus | TokenType::Minus => PREC_TERM,
        TokenType::Multiply | TokenType::Divide | TokenType::Modulo => PREC_FACTOR,
        TokenType::Increment | TokenType::Decrement => PREC_POSTFIX,
        TokenType::LParen => PREC_CALL,
        _ => PREC_LOWEST,
    }
}

/// Whether `t` is a builtin type keyword.
pub open spec fn is_type_token(t: TokenType) -> bool {
    match t {
        TokenType::Int | TokenType::Float | TokenType::Double | TokenType::Char | TokenType::Bool
            | TokenType::Void | TokenType::String => true,
        _ => false,
    }
}

/// Whether `t` can start an infix operator application.
pub open spec fn is_binary_op_token(t: TokenType) -> bool {
    match t {
        TokenType::AssignOp | TokenType::Plus | TokenType::Minus | TokenType::Multiply
            | TokenType::Divide | TokenType::Modulo | TokenType::EqualOp | TokenType::Ne
            | TokenType::Lt | TokenType::Gt | TokenType::Le | TokenType::Ge | TokenType::And
            | TokenType::Or | TokenType::BitAnd | TokenType::BitOr | TokenType::BitXor
            | TokenType::BitLShift | TokenType::BitRShift => true,
        _ => false,
    }
}

/// Whether the tree is a bare identifier (the only thing that may be
/// assigned to or called).
pub open spec fn is_identifier_ast(a: Ast) -> bool {
    match a {
        Ast::Identifier { .. } => true,
        _ => false,
    }
}

/// The position after a balanced-parenthesis skip that starts at `i` with
/// `count` parentheses already open.
pub open spec fn skip_parens(ts: Seq<TokenV>, i: int, count: int) -> int
    decreases ts.len() - i,
{
    if 0 <= i < ts.len() && count > 0 {
        let d: int = if ts[i].token_type == TokenType::LParen {
            1
        } else if ts[i].token_type == TokenType::RParen {
            -1
        } else {
            0
        };
        skip_parens(ts, i + 1, count + d)
    } else {
        i
    }
}

/// The bounded lookahead that tells a function definition from a prototype
/// or a variable: identifier, `(`, a balanced skip, then `{`.
pub open spec fn spec_is_function_definition(ts: Seq<TokenV>, pos: int) -> bool {
    if pos + 1 >= ts.len() {
        false
    } else if cur(ts, pos + 1).token_type == TokenType::Identifier {
        if cur(ts, pos + 2).token_type == TokenType::LParen {
            let j = skip_parens(ts, pos + 3, 1);
            0 <= j < ts.len() && ts[j].token_type == TokenType::LBrace
        } else {
            false
        }
    } else {
        false
    }
}

// === Numeric literal values ===

/// Whether `c` is a decimal digit.
pub open spec fn is_digit(c: char) -> bool {
    '0' <= c && c <= '9'
}

/// Whether every character of `s` is a decimal digit.
pub open spec fn all_digits(s: Seq<char>) -> bool {
    forall|i: int| 0 <= i < s.len() ==> is_digit(#[trigger] s[i])
}

/// The value of a digit string, most significant digit first.
pub open spec fn digits_val(s: Seq<char>) -> int
    decreases s.len(),
{
    if s.len() == 0 {
        0
    } else {
        digits_val(s.drop_last()) * 10 + (s.last() as int - 48)
    }
}

/// What `str::parse::<i64>` accepts: an optional sign, then at least one
/// digit, the whole text, with the value in the range of `i64`.
pub open spec fn parse_i64_spec(s: Seq<char>) -> Option<int> {
    let signed = s.len() > 0 && (s[0] == '+' || s[0] == '-');
    let body = if signed {
        s.subrange(1, s.len() as int)
    } else {
        s
    };
    let neg = s.len() > 0 && s[0] == '-';
    if body.len() == 0 || !all_digits(body) {
        Option::None
    } else {
        let v = if neg {
            -digits_val(body)
        } else {
            digits_val(body)
        };
        if i64::MIN <= v <= i64::MAX {
            Option::Some(v)
        } else {
            Option::None
        }
    }
}

/// The value an integer literal lowers to: its parsed value, or `0` where
/// the text is not a well-formed `i64`.
pub open spec fn int_lit_value(s: Seq<char>) -> i64 {
    match parse_i64_spec(s) {
        Option::Some(v) => v as i64,
        Option::None => 0,
    }
}

/// The text of a string literal with its surrounding double quotes removed.
pub open spec fn strip_quotes(s: Seq<char>) -> Seq<char> {
    if s.len() >= 2 && s[0] == '"' && s[s.len() - 1] == '"' {
        s.subrange(1, s.len() - 1)
    } else {
        s
    }
}

/// The character of a character literal (`'\0'` where the text is not a
/// quoted character).
pub open spec fn char_lit_value(s: Seq<char>) -> char {
    if s.len() >= 3 && s[0] == '\'' && s[s.len() - 1] == '\'' {
        s[1]
    } else {
        '\u{0}'
    }
}

// === Expressions ===

/// An integer literal: one token, value as `str::parse` with `0` fallback.
pub open spec fn spec_parse_int_literal(ts: Seq<TokenV>, pos: int) -> (Result<Ast, ErrV>, int) {
    let tok = cur(ts, pos);
    (
        Ok(Ast::IntLiteral { value: int_lit_value(tok.value), line: tok.line, column: tok.column }),
        step(ts, pos),
    )
}

/// A floating-point literal: one token, kept as its own text.
pub open spec fn spec_parse_float_literal(ts: Seq<TokenV>, pos: int) -> (Result<Ast, ErrV>, int) {
    let tok = cur(ts, pos);
    (Ok(Ast::FloatLiteral { text: tok.value, line: tok.line, column: tok.column }), step(ts, pos))
}

/// A string literal: one token, quotes stripped.
pub open spec fn spec_parse_string_literal(ts: Seq<TokenV>, pos: int) -> (Result<Ast, ErrV>, int) {
    let tok = cur(ts, pos);
    (
        Ok(
            Ast::StringLiteral {
                value: strip_quotes(tok.value),
                line: tok.line,
                column: tok.column,
            },
        ),
        step(ts, pos),
    )
}

/// A character literal: one token.
pub open spec fn spec_parse_char_literal(ts: Seq<TokenV>, pos: int) -> (Result<Ast, ErrV>, int) {
    let tok = cur(ts, pos);
    (
        Ok(Ast::CharLiteral { value: char_lit_value(tok.value), line: tok.line, column: tok.column }),
        step(ts, pos),
    )
}

/// A boolean literal: one token, true exactly when its text is `true`.
pub open spec fn spec_parse_bool_literal(ts: Seq<TokenV>, pos: int) -> (Result<Ast, ErrV>, int) {
    let tok = cur(ts, pos);
    (
        Ok(Ast::BoolLiteral { value: tok.value == "true"@, line: tok.line, column: tok.column }),
        step(ts, pos),
    )
}

/// An identifier: one token.
pub open spec fn spec_parse_identifier(ts: Seq<TokenV>, pos: int) -> (Result<Ast, ErrV>, int) {
    let tok = cur(ts, pos);
    (Ok(Ast::Identifier { name: tok.value, line: tok.line, column: tok.column }), step(ts, pos))
}

/// A parenthesized expression: `(`, a lowest-precedence expression, `)`.
pub open spec fn spec_parse_grouped_expression(ts: Seq<TokenV>, pos: int) -> (
    Result<Ast, ErrV>,
    int,
)
    decreases ts.len() - pos, 0int,
{
    let r1 = spec_expect(ts, pos, TokenType::LParen);
    match r1.0 {
        Err(e) => (Err(e), r1.1),
        Ok(_) => {
            let r2 = spec_parse_expression(ts, r1.1, PREC_LOWEST);
            match r2.0 {
                Err(e) => (Err(e), r2.1),
                Ok(expr) => {
                    let r3 = spec_expect(ts, r2.1, TokenType::RParen);
                    match r3.0 {
                        Err(e) => (Err(e), r3.1),
                        Ok(_) => (Ok(expr), r3.1),
                    }
                },
            }
        },
    }
}

/// A prefix unary expression: the operator, then a unary-precedence operand.
pub open spec fn spec_parse_unary_expression(ts: Seq<TokenV>, pos: int) -> (Result<Ast, ErrV>, int)
    decreases ts.len() - pos, 0int,
{
    if 0 <= pos < ts.len() {
        let op = cur(ts, pos);
        let r = spec_parse_expression(ts, pos + 1, PREC_UNARY);
        match r.0 {
            Err(e) => (Err(e), r.1),
            Ok(right) => (
                Ok(
                    Ast::UnaryExpr {
                        op: op.token_type,
                        operand: Box::new(right),
                        is_postfix: false,
                        line: op.line,
                        column: op.column,
                    },
                ),
                r.1,
            ),
        }
    } else {
        dead(pos)
    }
}

/// A postfix `++`/`--` on an already-parsed operand.
pub open spec fn spec_parse_postfix_unary_expression(ts: Seq<TokenV>, pos: int, left: Ast) -> (
    Result<Ast, ErrV>,
    int,
) {
    let op = cur(ts, pos);
    (
        Ok(
            Ast::UnaryExpr {
                op: op.token_type,
                operand: Box::new(left),
                is_postfix: true,
                line: op.line,
                column: op.column,
            },
        ),
        step(ts, pos),
    )
}

/// An infix operator application: the operator, then its right operand at
/// the operator's own precedence.  Assignment demands an identifier on the
/// left, after the right side has been parsed.
pub open spec fn spec_parse_binary_expression(ts: Seq<TokenV>, pos: int, left: Ast) -> (
    Result<Ast, ErrV>,
    int,
)
    decreases ts.len() - pos, 0int,
{
    if 0 <= pos < ts.len() {
        let op = cur(ts, pos);
        let r = spec_parse_expression(ts, pos + 1, token_precedence(op.token_type));
        match r.0 {
            Err(e) => (Err(e), r.1),
            Ok(right) => {
                if op.token_type == TokenType::AssignOp && !is_identifier_ast(left) {
                    (Err(ErrV { kind: ParseErrorType::UnexpectedToken, token: op }), r.1)
                } else {
                    (
                        Ok(
                            Ast::BinaryExpr {
                                op: op.token_type,
                                left: Box::new(left),
                                right: Box::new(right),
                                line: op.line,
                                column: op.column,
                            },
                        ),
                        r.1,
                    )
                }
            },
        }
    } else {
        dead(pos)
    }
}

/// A comma-separated argument list (at least one argument).
pub open spec fn spec_parse_call_args(ts: Seq<TokenV>, pos: int) -> (Result<Seq<Ast>, ErrV>, int)
    decreases ts.len() - pos, 3int,
{
    let r = spec_parse_expression(ts, pos, PREC_LOWEST);
    match r.0 {
        Err(e) => (Err(e), r.1),
        Ok(a) => {
            if cur(ts, r.1).token_type == TokenType::Comma {
                if pos < r.1 + 1 && r.1 + 1 <= ts.len() {
                    prepend(seq![a], spec_parse_call_args(ts, r.1 + 1))
                } else {
                    dead(r.1 + 1)
                }
            } else {
                (Ok(seq![a]), r.1)
            }
        },
    }
}

/// A call on an already-parsed callee: `(`, the arguments, `)`.
pub open spec fn spec_parse_call_expression(ts: Seq<TokenV>, pos: int, callee: Ast) -> (
    Result<Ast, ErrV>,
    int,
)
    decreases ts.len() - pos, 0int,
{
    let call_tok = cur(ts, pos);
    let r1 = spec_expect(ts, pos, TokenType::LParen);
    match r1.0 {
        Err(e) => (Err(e), r1.1),
        Ok(_) => {
            let ra = if cur(ts, r1.1).token_type == TokenType::RParen {
                (Ok(Seq::<Ast>::empty()), r1.1)
            } else {
                spec_parse_call_args(ts, r1.1)
            };
            match ra.0 {
                Err(e) => (Err(e), ra.1),
                Ok(args) => {
                    let r2 = spec_expect(ts, ra.1, TokenType::RParen);
                    match r2.0 {
                        Err(e) => (Err(e), r2.1),
                        Ok(_) => (
                            Ok(
                                Ast::CallExpr {
                                    callee: Box::new(callee),
                                    args,
                                    line: call_tok.line,
                                    column: call_tok.column,
                                },
                            ),
                            r2.1,
                        ),
                    }
                },
            }
        },
    }
}

/// The prefix form that starts an expression.
pub open spec fn spec_parse_prefix(ts: Seq<TokenV>, pos: int) -> (Result<Ast, ErrV>, int)
    decreases ts.len() - pos, 1int,
{
    match cur(ts, pos).token_type {
        TokenType::IntLit => spec_parse_int_literal(ts, pos),
        TokenType::FloatLit => spec_parse_float_literal(ts, pos),
        TokenType::StringLit => spec_parse_string_literal(ts, pos),
        TokenType::CharLit => spec_parse_char_literal(ts, pos),
        TokenType::BoolLit => spec_parse_bool_literal(ts, pos),
        TokenType::Identifier => spec_parse_identifier(ts, pos),
        TokenType::LParen => spec_parse_grouped_expression(ts, pos),
        TokenType::Minus | TokenType::Not | TokenType::Increment | TokenType::Decrement =>
            spec_parse_unary_expression(ts, pos),
        _ => (Err(ErrV { kind: ParseErrorType::ExpectedExpr, token: cur(ts, pos) }), pos),
    }
}

/// One infix continuation on an already-parsed left operand.
pub open spec fn spec_parse_infix(ts: Seq<TokenV>, pos: int, left: Ast) -> (Result<Ast, ErrV>, int)
    decreases ts.len() - pos, 1int,
{
    let t = cur(ts, pos).token_type;
    if is_binary_op_token(t) {
        spec_parse_binary_expression(ts, pos, left)
    } else if t == TokenType::Increment || t == TokenType::Decrement {
        spec_parse_postfix_unary_expression(ts, pos, left)
    } else if t == TokenType::LParen {
        if is_identifier_ast(left) {
            spec_parse_call_expression(ts, pos, left)
        } else {
            (Err(ErrV { kind: ParseErrorType::InvalidCallTarget, token: cur(ts, pos) }), pos)
        }
    } else {
        (Err(ErrV { kind: ParseErrorType::UnexpectedToken, token: cur(ts, pos) }), pos)
    }
}

/// The precedence-climbing loop: while the next token binds more tightly
/// than `min_prec`, extend `left` by one infix continuation.
pub open spec fn spec_parse_infix_chain(ts: Seq<TokenV>, pos: int, left: Ast, min_prec: u32) -> (
    Result<Ast, ErrV>,
    int,
)
    decreases ts.len() - pos, 2int,
{
    if !at_end(ts, pos) && token_precedence(cur(ts, pos).token_type) > min_prec {
        let r = spec_parse_infix(ts, pos, left);
        match r.0 {
            Err(e) => (Err(e), r.1),
            Ok(l2) => {
                if pos < r.1 && r.1 <= ts.len() {
                    spec_parse_infix_chain(ts, r.1, l2, min_prec)
                } else {
                    dead(r.1)
                }
            },
        }
    } else {
        (Ok(left), pos)
    }
}

/// A whole expression: a prefix form, then the precedence-climbing loop
/// above `min_prec`.
pub open spec fn spec_parse_expression(ts: Seq<TokenV>, pos: int, min_prec: u32) -> (
    Result<Ast, ErrV>,
    int,
)
    decreases ts.len() - pos, 2int,
{
    let r = spec_parse_prefix(ts, pos);
    match r.0 {
        Err(e) => (Err(e), r.1),
        Ok(left) => {
            if pos < r.1 && r.1 <= ts.len() {
                spec_parse_infix_chain(ts, r.1, left, min_prec)
            } else {
                dead(r.1)
            }
        },
    }
}

// === Statements and declarations ===

/// A variable declaration: a type token, a name, an optional `=`
/// initializer, and the statement terminator.
pub open spec fn spec_parse_variable_declaration(ts: Seq<TokenV>, pos: int) -> (
    Result<Ast, ErrV>,
    int,
)
    decreases ts.len() - pos, 5int,
{
    let type_tok = cur(ts, pos);
    let p0 = step(ts, pos);
    let r1 = spec_expect(ts, p0, TokenType::Identifier);
    match r1.0 {
        Err(e) => (Err(e), r1.1),
        Ok(ident_tok) => {
            let ri = if cur(ts, r1.1).token_type == TokenType::AssignOp {
                let re = spec_parse_expression(ts, r1.1 + 1, PREC_LOWEST);
                match re.0 {
                    Err(e) => (Err(e), re.1),
                    Ok(init) => (Ok(Option::Some(Box::new(init))), re.1),
                }
            } else {
                (Ok(Option::None), r1.1)
            };
            match ri.0 {
                Err(e) => (Err(e), ri.1),
                Ok(initializer) => {
                    let rs = spec_consume_semicolon(ts, ri.1);
                    match rs.0 {
                        Err(e) => (Err(e), rs.1),
                        Ok(_) => (
                            Ok(
                                Ast::VarDecl {
                                    var_type: TypeNodeV::Builtin(type_tok.token_type),
                                    name: ident_tok.value,
                                    initializer,
                                    line: type_tok.line,
                                    column: type_tok.column,
                                },
                            ),
                            rs.1,
                        ),
                    }
                },
            }
        },
    }
}

/// A comma-separated parameter list (at least one parameter): a type
/// token, then a parameter name, repeated.
pub open spec fn spec_parse_params(ts: Seq<TokenV>, pos: int) -> (
    Result<Seq<(TypeNodeV, Seq<char>)>, ErrV>,
    int,
)
    decreases ts.len() - pos,
{
    let ptype = cur(ts, pos);
    let p0 = step(ts, pos);
    let r1 = spec_expect(ts, p0, TokenType::Identifier);
    match r1.0 {
        Err(e) => (Err(e), r1.1),
        Ok(ptok) => {
            let param = (TypeNodeV::Builtin(ptype.token_type), ptok.value);
            if cur(ts, r1.1).token_type == TokenType::Comma {
                prepend(seq![param], spec_parse_params(ts, r1.1 + 1))
            } else {
                (Ok(seq![param]), r1.1)
            }
        },
    }
}

/// A function prototype: return type, name, parameter list, terminator.
pub open spec fn spec_parse_function_prototype(ts: Seq<TokenV>, pos: int) -> (
    Result<Ast, ErrV>,
    int,
) {
    let ret_tok = cur(ts, pos);
    let p0 = step(ts, pos);
    let r1 = spec_expect(ts, p0, TokenType::Identifier);
    match r1.0 {
        Err(e) => (Err(e), r1.1),
        Ok(name_tok) => {
            let r2 = spec_expect(ts, r1.1, TokenType::LParen);
            match r2.0 {
                Err(e) => (Err(e), r2.1),
                Ok(_) => {
                    let rp = if cur(ts, r2.1).token_type == TokenType::RParen {
                        (Ok(Seq::<(TypeNodeV, Seq<char>)>::empty()), r2.1)
                    } else {
                        spec_parse_params(ts, r2.1)
                    };
                    match rp.0 {
                        Err(e) => (Err(e), rp.1),
                        Ok(params) => {
                            let r3 = spec_expect(ts, rp.1, TokenType::RParen);
                            match r3.0 {
                                Err(e) => (Err(e), r3.1),
                                Ok(_) => {
                                    let r4 = spec_consume_semicolon(ts, r3.1);
                                    match r4.0 {
                                        Err(e) => (Err(e), r4.1),
                                        Ok(_) => (
                                            Ok(
                                                Ast::FunctionProto {
                                                    return_type: TypeNodeV::Builtin(
                                                        ret_tok.token_type,
                                                    ),
                                                    name: name_tok.value,
                                                    params,
                                                    line: ret_tok.line,
                                                    column: ret_tok.column,
                                                },
                                            ),
                                            r4.1,
                                        ),
                                    }
                                },
                            }
                        },
                    }
                },
            }
        },
    }
}

/// A function definition: return type, name, parameter list, then a body
/// block.
pub open spec fn spec_parse_function_declaration(ts: Seq<TokenV>, pos: int) -> (
    Result<Ast, ErrV>,
    int,
)
    decreases ts.len() - pos, 5int,
{
    let ret_tok = cur(ts, pos);
    let p0 = step(ts, pos);
    let r1 = spec_expect(ts, p0, TokenType::Identifier);
    match r1.0 {
        Err(e) => (Err(e), r1.1),
        Ok(name_tok) => {
            let r2 = spec_expect(ts, r1.1, TokenType::LParen);
            match r2.0 {
                Err(e) => (Err(e), r2.1),
                Ok(_) => {
                    let rp = if cur(ts, r2.1).token_type == TokenType::RParen {
                        (Ok(Seq::<(TypeNodeV, Seq<char>)>::empty()), r2.1)
                    } else {
                        spec_parse_params(ts, r2.1)
                    };
                    match rp.0 {
                        Err(e) => (Err(e), rp.1),
                        Ok(params) => {
                            let r3 = spec_expect(ts, rp.1, TokenType::RParen);
                            match r3.0 {
                                Err(e) => (Err(e), r3.1),
                                Ok(_) => {
                                    if pos < r3.1 && r3.1 <= ts.len() {
                                        let rb = spec_parse_block(ts, r3.1);
                                        match rb.0 {
                                            Err(e) => (Err(e), rb.1),
                                            Ok(body) => (
                                                Ok(
                                                    Ast::FunctionDecl {
                                                        return_type: TypeNodeV::Builtin(
                                                            ret_tok.token_type,
                                                        ),
                                                        name: name_tok.value,
                                                        params,
                                                        body,
                                                        line: ret_tok.line,
                                                        column: ret_tok.column,
                                                    },
                                                ),
                                                rb.1,
                                            ),
                                        }
                                    } else {
                                        dead(r3.1)
                                    }
                                },
                            }
                        },
                    }
                },
            }
        },
    }
}

/// The entry-point declaration: the reserved word, then a body block.
pub open spec fn spec_parse_main_declaration(ts: Seq<TokenV>, pos: int) -> (Result<Ast, ErrV>, int)
    decreases ts.len() - pos, 5int,
{
    let main_tok = cur(ts, pos);
    let p0 = step(ts, pos);
    let rb = spec_parse_block(ts, p0);
    match rb.0 {
        Err(e) => (Err(e), rb.1),
        Ok(body) => (
            Ok(Ast::MainDecl { body, line: main_tok.line, column: main_tok.column }),
            rb.1,
        ),
    }
}

/// A print statement: `print`, `(`, zero or more arguments, `)`, terminator.
pub open spec fn spec_parse_print_statement(ts: Seq<TokenV>, pos: int) -> (Result<Ast, ErrV>, int)
    decreases ts.len() - pos, 5int,
{
    let print_tok = cur(ts, pos);
    let p0 = step(ts, pos);
    let r1 = spec_expect(ts, p0, TokenType::LParen);
    match r1.0 {
        Err(e) => (Err(e), r1.1),
        Ok(_) => {
            let ra = if cur(ts, r1.1).token_type == TokenType::RParen {
                (Ok(Seq::<Ast>::empty()), r1.1)
            } else {
                spec_parse_call_args(ts, r1.1)
            };
            match ra.0 {
                Err(e) => (Err(e), ra.1),
                Ok(args) => {
                    let r2 = spec_expect(ts, ra.1, TokenType::RParen);
                    match r2.0 {
                        Err(e) => (Err(e), r2.1),
                        Ok(_) => {
                            let r3 = spec_consume_semicolon(ts, r2.1);
                            match r3.0 {
                                Err(e) => (Err(e), r3.1),
                                Ok(_) => (
                                    Ok(
                                        Ast::PrintStmt {
                                            args,
                                            line: print_tok.line,
                                            column: print_tok.column,
                                        },
                                    ),
                                    r3.1,
                                ),
                            }
                        },
                    }
                },
            }
        },
    }
}

/// An `if` statement: condition in parentheses, a block, and an optional
/// `else` block.
pub open spec fn spec_parse_if_statement(ts: Seq<TokenV>, pos: int) -> (Result<Ast, ErrV>, int)
    decreases ts.len() - pos, 5int,
{
    let if_tok = cur(ts, pos);
    let p0 = step(ts, pos);
    let r1 = spec_expect(ts, p0, TokenType::LParen);
    match r1.0 {
        Err(e) => (Err(e), r1.1),
        Ok(_) => {
            let rc = spec_parse_expression(ts, r1.1, PREC_LOWEST);
            match rc.0 {
                Err(e) => (Err(e), rc.1),
                Ok(condition) => {
                    let r2 = spec_expect(ts, rc.1, TokenType::RParen);
                    match r2.0 {
                        Err(e) => (Err(e), r2.1),
                        Ok(_) => {
                            if pos < r2.1 && r2.1 <= ts.len() {
                                let rb = spec_parse_block(ts, r2.1);
                                match rb.0 {
                                    Err(e) => (Err(e), rb.1),
                                    Ok(if_body) => {
                                        if cur(ts, rb.1).token_type == TokenType::Else {
                                            if pos < rb.1 + 1 && rb.1 + 1 <= ts.len() {
                                                let re = spec_parse_block(ts, rb.1 + 1);
                                                match re.0 {
                                                    Err(e) => (Err(e), re.1),
                                                    Ok(else_body) => (
                                                        Ok(
                                                            Ast::IfStmt {
                                                                condition: Box::new(condition),
                                                                if_body,
                                                                else_body,
                                                                line: if_tok.line,
                                                                column: if_tok.column,
                                                            },
                                                        ),
                                                        re.1,
                                                    ),
                                                }
                                            } else {
                                                dead(rb.1 + 1)
                                            }
                                        } else {
                                            (
                                                Ok(
                                                    Ast::IfStmt {
                                                        condition: Box::new(condition),
                                                        if_body,
                                                        else_body: Seq::empty(),
                                                        line: if_tok.line,
                                                        column: if_tok.column,
                                                    },
                                                ),
                                                rb.1,
                                            )
                                        }
                                    },
                                }
                            } else {
                                dead(r2.1)
                            }
                        },
                    }
                },
            }
        },
    }
}

/// A `while` statement: condition in parentheses, then a block.
pub open spec fn spec_parse_while_statement(ts: Seq<TokenV>, pos: int) -> (Result<Ast, ErrV>, int)
    decreases ts.len() - pos, 5int,
{
    let while_tok = cur(ts, pos);
    let p0 = step(ts, pos);
    let r1 = spec_expect(ts, p0, TokenType::LParen);
    match r1.0 {
        Err(e) => (Err(e), r1.1),
        Ok(_) => {
            let rc = spec_parse_expression(ts, r1.1, PREC_LOWEST);
            match rc.0 {
                Err(e) => (Err(e), rc.1),
                Ok(condition) => {
                    let r2 = spec_expect(ts, rc.1, TokenType::RParen);
                    match r2.0 {
                        Err(e) => (Err(e), r2.1),
                        Ok(_) => {
                            if pos < r2.1 && r2.1 <= ts.len() {
                                let rb = spec_parse_block(ts, r2.1);
                                match rb.0 {
                                    Err(e) => (Err(e), rb.1),
                                    Ok(body) => (
                                        Ok(
                                            Ast::WhileStmt {
                                                condition: Box::new(condition),
                                                body,
                                                line: while_tok.line,
                                                column: while_tok.column,
                                            },
                                        ),
                                        rb.1,
                                    ),
                                }
                            } else {
                                dead(r2.1)
                            }
                        },
                    }
                },
            }
        },
    }
}

/// A `do`-`while` statement: a block, then `while`, the condition in
/// parentheses, and the terminator.
pub open spec fn spec_parse_do_while_statement(ts: Seq<TokenV>, pos: int) -> (
    Result<Ast, ErrV>,
    int,
)
    decreases ts.len() - pos, 5int,
{
    let do_tok = cur(ts, pos);
    let p0 = step(ts, pos);
    let rb = spec_parse_block(ts, p0);
    match rb.0 {
        Err(e) => (Err(e), rb.1),
        Ok(body_vec) => {
            let body = Ast::BlockStmt { body: body_vec, line: do_tok.line, column: do_tok.column };
            let r1 = spec_expect(ts, rb.1, TokenType::While);
            match r1.0 {
                Err(e) => (Err(e), r1.1),
                Ok(_) => {
                    let r2 = spec_expect(ts, r1.1, TokenType::LParen);
                    match r2.0 {
                        Err(e) => (Err(e), r2.1),
                        Ok(_) => {
                            if pos < r2.1 && r2.1 <= ts.len() {
                                let rc = spec_parse_expression(ts, r2.1, PREC_LOWEST);
                                match rc.0 {
                                    Err(e) => (Err(e), rc.1),
                                    Ok(condition) => {
                                        let r3 = spec_expect(ts, rc.1, TokenType::RParen);
                                        match r3.0 {
                                            Err(e) => (Err(e), r3.1),
                                            Ok(_) => {
                                                let r4 = spec_consume_semicolon(ts, r3.1);
                                                match r4.0 {
                                                    Err(e) => (Err(e), r4.1),
                                                    Ok(_) => (
                                                        Ok(
                                                            Ast::DoWhileStmt {
                                                                body: Box::new(body),
                                                                condition: Box::new(condition),
                                                                line: do_tok.line,
                                                                column: do_tok.column,
                                                            },
                                                        ),
                                                        r4.1,
                                                    ),
                                                }
                                            },
                                        }
                                    },
                                }
                            } else {
                                dead(r2.1)
                            }
                        },
                    }
                },
            }
        },
    }
}

/// A `return` statement: an optional value, then the terminator.
pub open spec fn spec_parse_return_statement(ts: Seq<TokenV>, pos: int) -> (Result<Ast, ErrV>, int)
    decreases ts.len() - pos, 5int,
{
    let ret_tok = cur(ts, pos);
    let p0 = step(ts, pos);
    let rv = if cur(ts, p0).token_type != TokenType::Semicolon && cur(ts, p0).token_type
        != TokenType::RBrace {
        let re = spec_parse_expression(ts, p0, PREC_LOWEST);
        match re.0 {
            Err(e) => (Err(e), re.1),
            Ok(v) => (Ok(Option::Some(Box::new(v))), re.1),
        }
    } else {
        (Ok(Option::None), p0)
    };
    match rv.0 {
        Err(e) => (Err(e), rv.1),
        Ok(value) => {
            let rs = spec_consume_semicolon(ts, rv.1);
            match rs.0 {
                Err(e) => (Err(e), rs.1),
                Ok(_) => (
                    Ok(Ast::ReturnStmt { value, line: ret_tok.line, column: ret_tok.column }),
                    rs.1,
                ),
            }
        },
    }
}

/// A `break` statement.
pub open spec fn spec_parse_break_statement(ts: Seq<TokenV>, pos: int) -> (Result<Ast, ErrV>, int) {
    let break_tok = cur(ts, pos);
    let p0 = step(ts, pos);
    let rs = spec_consume_semicolon(ts, p0);
    match rs.0 {
        Err(e) => (Err(e), rs.1),
        Ok(_) => (Ok(Ast::BreakStmt { line: break_tok.line, column: break_tok.column }), rs.1),
    }
}

/// The statements of a brace-delimited block, up to the closing brace or
/// the end of the input.
pub open spec fn spec_parse_block_stmts(ts: Seq<TokenV>, pos: int, acc: Seq<Ast>) -> (
    Result<Seq<Ast>, ErrV>,
    int,
)
    decreases ts.len() - pos, 11int,
{
    if cur(ts, pos).token_type == TokenType::RBrace || at_end(ts, pos) {
        (Ok(acc), pos)
    } else {
        let r = spec_parse_statement(ts, pos);
        match r.0 {
            Err(e) => (Err(e), r.1),
            Ok(st) => {
                if pos < r.1 && r.1 <= ts.len() {
                    spec_parse_block_stmts(ts, r.1, acc.push(st))
                } else {
                    dead(r.1)
                }
            },
        }
    }
}

/// A brace-delimited block.  Reaching the end of the input before the
/// closing brace is the unclosed-block error.
pub open spec fn spec_parse_block(ts: Seq<TokenV>, pos: int) -> (Result<Seq<Ast>, ErrV>, int)
    decreases ts.len() - pos, 4int,
{
    let r1 = spec_expect(ts, pos, TokenType::LBrace);
    match r1.0 {
        Err(e) => (Err(e), r1.1),
        Ok(_) => {
            let rl = spec_parse_block_stmts(ts, r1.1, Seq::empty());
            match rl.0 {
                Err(e) => (Err(e), rl.1),
                Ok(stmts) => {
                    if at_end(ts, rl.1) {
                        (
                            Err(
                                ErrV {
                                    kind: ParseErrorType::UnclosedBlock,
                                    token: cur(ts, rl.1),
                                },
                            ),
                            rl.1,
                        )
                    } else {
                        let r2 = spec_expect(ts, rl.1, TokenType::RBrace);
                        match r2.0 {
                            Err(e) => (Err(e), r2.1),
                            Ok(_) => (Ok(stmts), r2.1),
                        }
                    }
                },
            }
        },
    }
}

/// A block in statement position.
pub open spec fn spec_parse_block_statement(ts: Seq<TokenV>, pos: int) -> (Result<Ast, ErrV>, int)
    decreases ts.len() - pos, 5int,
{
    let block_tok = cur(ts, pos);
    let rb = spec_parse_block(ts, pos);
    match rb.0 {
        Err(e) => (Err(e), rb.1),
        Ok(body) => (
            Ok(Ast::BlockStmt { body, line: block_tok.line, column: block_tok.column }),
            rb.1,
        ),
    }
}

/// A C-style `for` statement: optional init (declaration or expression),
/// optional condition, optional update, then a block.
pub open spec fn spec_parse_for_statement(ts: Seq<TokenV>, pos: int) -> (Result<Ast, ErrV>, int)
    decreases ts.len() - pos, 5int,
{
    let for_tok = cur(ts, pos);
    let r0 = spec_expect(ts, pos, TokenType::For);
    match r0.0 {
        Err(e) => (Err(e), r0.1),
        Ok(_) => {
            let r1 = spec_expect(ts, r0.1, TokenType::LParen);
            match r1.0 {
                Err(e) => (Err(e), r1.1),
                Ok(_) => {
                    let ri = if cur(ts, r1.1).token_type != TokenType::Semicolon {
                        if is_type_token(cur(ts, r1.1).token_type) {
                            let rd = spec_parse_variable_declaration(ts, r1.1);
                            match rd.0 {
                                Err(e) => (Err(e), rd.1),
                                Ok(d) => (Ok(Option::Some(Box::new(d))), rd.1),
                            }
                        } else {
                            let re = spec_parse_expression(ts, r1.1, PREC_LOWEST);
                            match re.0 {
                                Err(e) => (Err(e), re.1),
                                Ok(ex) => {
                                    let rs = spec_consume_semicolon(ts, re.1);
                                    match rs.0 {
                                        Err(e) => (Err(e), rs.1),
                                        Ok(_) => (Ok(Option::Some(Box::new(ex))), rs.1),
                                    }
                                },
                            }
                        }
                    } else {
                        (Ok(Option::None), step(ts, r1.1))
                    };
                    match ri.0 {
                        Err(e) => (Err(e), ri.1),
                        Ok(init) => {
                            if pos < ri.1 && ri.1 <= ts.len() {
                                let rc = if cur(ts, ri.1).token_type != TokenType::Semicolon {
                                    let re = spec_parse_expression(ts, ri.1, PREC_LOWEST);
                                    match re.0 {
                                        Err(e) => (Err(e), re.1),
                                        Ok(c) => (Ok(Option::Some(Box::new(c))), re.1),
                                    }
                                } else {
                                    (Ok(Option::None), ri.1)
                                };
                                match rc.0 {
                                    Err(e) => (Err(e), rc.1),
                                    Ok(condition) => {
                                        let r2 = spec_expect(ts, rc.1, TokenType::Semicolon);
                                        match r2.0 {
                                            Err(e) => (Err(e), r2.1),
                                            Ok(_) => {
                                                if pos < r2.1 && r2.1 <= ts.len() {
                                                    let ru = if cur(ts, r2.1).token_type
                                                        != TokenType::RParen {
                                                        let re = spec_parse_expression(
                                                            ts,
                                                            r2.1,
                                                            PREC_LOWEST,
                                                        );
                                                        match re.0 {
                                                            Err(e) => (Err(e), re.1),
                                                            Ok(u) => (
                                                                Ok(Option::Some(Box::new(u))),
                                                                re.1,
                                                            ),
                                                        }
                                                    } else {
                                                        (Ok(Option::None), r2.1)
                                                    };
                                                    match ru.0 {
                                                        Err(e) => (Err(e), ru.1),
                                                        Ok(update) => {
                                                            let r3 = spec_expect(
                                                                ts,
                                                                ru.1,
                                                                TokenType::RParen,
                                                            );
                                                            match r3.0 {
                                                                Err(e) => (Err(e), r3.1),
                                                                Ok(_) => {
                                                                    if pos < r3.1 && r3.1
                                                                        <= ts.len() {
                                                                        let rb = spec_parse_block(
                                                                            ts,
                                                                            r3.1,
                                                                        );
                                                                        match rb.0 {
                                                                            Err(e) => (
                                                                                Err(e),
                                                                                rb.1,
                                                                            ),
                                                                            Ok(body_vec) => {
                                                                                let body =
                                                                                    Ast::BlockStmt {
                                                                                    body: body_vec,
                                                                                    line:
                                                                                        for_tok.line,
                                                                                    column:
                                                                                        for_tok.column,
                                                                                };
                                                                                (
                                                                                    Ok(
                                                                                        Ast::ForStmt {
                                                                                            init,
                                                                                            condition,
                                                                                            update,
                                                                                            body:
                                                                                                Box::new(
                                                                                                body,
                                                                                            ),
                                                                                            line:
                                                                                                for_tok.line,
                                                                                            column:
                                                                                                for_tok.column,
                                                                                        },
                                                                                    ),
                                                                                    rb.1,
                                                                                )
                                                                            },
                                                                        }
                                                                    } else {
                                                                        dead(r3.1)
                                                                    }
                                                                },
                                                            }
                                                        },
                                                    }
                                                } else {
                                                    dead(r2.1)
                                                }
                                            },
                                        }
                                    },
                                }
                            } else {
                                dead(ri.1)
                            }
                        },
                    }
                },
            }
        },
    }
}

/// The statements of one `case` body: up to the next `case`, `default`,
/// closing brace, or end of input.
pub open spec fn spec_parse_case_body(ts: Seq<TokenV>, pos: int, acc: Seq<Ast>) -> (
    Result<Seq<Ast>, ErrV>,
    int,
)
    decreases ts.len() - pos, 11int,
{
    let t = cur(ts, pos).token_type;
    if t == TokenType::Case || t == TokenType::Default || t == TokenType::RBrace || at_end(
        ts,
        pos,
    ) {
        (Ok(acc), pos)
    } else {
        let r = spec_parse_statement(ts, pos);
        match r.0 {
            Err(e) => (Err(e), r.1),
            Ok(st) => {
                if pos < r.1 && r.1 <= ts.len() {
                    spec_parse_case_body(ts, r.1, acc.push(st))
                } else {
                    dead(r.1)
                }
            },
        }
    }
}

/// The statements of the `default` body: up to the closing brace or end of
/// input.
pub open spec fn spec_parse_default_body(ts: Seq<TokenV>, pos: int, acc: Seq<Ast>) -> (
    Result<Seq<Ast>, ErrV>,
    int,
)
    decreases ts.len() - pos, 11int,
{
    if cur(ts, pos).token_type == TokenType::RBrace || at_end(ts, pos) {
        (Ok(acc), pos)
    } else {
        let r = spec_parse_statement(ts, pos);
        match r.0 {
            Err(e) => (Err(e), r.1),
            Ok(st) => {
                if pos < r.1 && r.1 <= ts.len() {
                    spec_parse_default_body(ts, r.1, acc.push(st))
                } else {
                    dead(r.1)
                }
            },
        }
    }
}

/// The items between the braces of a `switch`: `case` blocks and `default`
/// statements, with stray tokens skipped; yields the case list and the
/// accumulated default body.
pub open spec fn spec_parse_switch_items(
    ts: Seq<TokenV>,
    pos: int,
    cases: Seq<Ast>,
    dflt: Seq<Ast>,
) -> (Result<(Seq<Ast>, Seq<Ast>), ErrV>, int)
    decreases ts.len() - pos, 11int,
{
    if cur(ts, pos).token_type == TokenType::RBrace || at_end(ts, pos) {
        (Ok((cases, dflt)), pos)
    } else if cur(ts, pos).token_type == TokenType::Case {
        let p1 = step(ts, pos);
        let case_tok = cur(ts, p1);
        let rv = spec_parse_expression(ts, p1, PREC_LOWEST);
        match rv.0 {
            Err(e) => (Err(e), rv.1),
            Ok(value) => {
                let rc = spec_expect(ts, rv.1, TokenType::Colon);
                match rc.0 {
                    Err(e) => (Err(e), rc.1),
                    Ok(_) => {
                        if pos < rc.1 && rc.1 <= ts.len() {
                            let rb = spec_parse_case_body(ts, rc.1, Seq::empty());
                            match rb.0 {
                                Err(e) => (Err(e), rb.1),
                                Ok(body) => {
                                    let node = Ast::CaseBlock {
                                        value: Box::new(value),
                                        body,
                                        line: case_tok.line,
                                        column: case_tok.column,
                                    };
                                    if pos < rb.1 && rb.1 <= ts.len() {
                                        spec_parse_switch_items(ts, rb.1, cases.push(node), dflt)
                                    } else {
                                        dead(rb.1)
                                    }
                                },
                            }
                        } else {
                            dead(rc.1)
                        }
                    },
                }
            },
        }
    } else if cur(ts, pos).token_type == TokenType::Default {
        let p1 = step(ts, pos);
        let rc = spec_expect(ts, p1, TokenType::Colon);
        match rc.0 {
            Err(e) => (Err(e), rc.1),
            Ok(_) => {
                let rb = spec_parse_default_body(ts, rc.1, dflt);
                match rb.0 {
                    Err(e) => (Err(e), rb.1),
                    Ok(d2) => {
                        if pos < rb.1 && rb.1 <= ts.len() {
                            spec_parse_switch_items(ts, rb.1, cases, d2)
                        } else {
                            dead(rb.1)
                        }
                    },
                }
            },
        }
    } else {
        spec_parse_switch_items(ts, pos + 1, cases, dflt)
    }
}

/// A `switch` statement: the selector in parentheses, then the brace-
/// delimited case and default items.
pub open spec fn spec_parse_switch_statement(ts: Seq<TokenV>, pos: int) -> (Result<Ast, ErrV>, int)
    decreases ts.len() - pos, 5int,
{
    let switch_tok = cur(ts, pos);
    let p0 = step(ts, pos);
    let r1 = spec_expect(ts, p0, TokenType::LParen);
    match r1.0 {
        Err(e) => (Err(e), r1.1),
        Ok(_) => {
            let rx = spec_parse_expression(ts, r1.1, PREC_LOWEST);
            match rx.0 {
                Err(e) => (Err(e), rx.1),
                Ok(expression) => {
                    let r2 = spec_expect(ts, rx.1, TokenType::RParen);
                    match r2.0 {
                        Err(e) => (Err(e), r2.1),
                        Ok(_) => {
                            let r3 = spec_expect(ts, r2.1, TokenType::LBrace);
                            match r3.0 {
                                Err(e) => (Err(e), r3.1),
                                Ok(_) => {
                                    if pos < r3.1 && r3.1 <= ts.len() {
                                        let ri = spec_parse_switch_items(
                                            ts,
                                            r3.1,
                                            Seq::empty(),
                                            Seq::empty(),
                                        );
                                        match ri.0 {
                                            Err(e) => (Err(e), ri.1),
                                            Ok(items) => {
                                                let r4 = spec_expect(
                                                    ts,
                                                    ri.1,
                                                    TokenType::RBrace,
                                                );
                                                match r4.0 {
                                                    Err(e) => (Err(e), r4.1),
                                                    Ok(_) => (
                                                        Ok(
                                                            Ast::SwitchStmt {
                                                                expression: Box::new(expression),
                                                                cases: items.0,
                                                                default_body: items.1,
                                                                line: switch_tok.line,
                                                                column: switch_tok.column,
                                                            },
                                                        ),
                                                        r4.1,
                                                    ),
                                                }
                                            },
                                        }
                                    } else {
                                        dead(r3.1)
                                    }
                                },
                            }
                        },
                    }
                },
            }
        },
    }
}

/// The names inside an enum declaration (at least one).
pub open spec fn spec_parse_enum_values(ts: Seq<TokenV>, pos: int) -> (
    Result<Seq<Seq<char>>, ErrV>,
    int,
)
    decreases ts.len() - pos,
{
    let r1 = spec_expect(ts, pos, TokenType::Identifier);
    match r1.0 {
        Err(e) => (Err(e), r1.1),
        Ok(tok) => {
            if cur(ts, r1.1).token_type == TokenType::Comma {
                prepend(seq![tok.value], spec_parse_enum_values(ts, r1.1 + 1))
            } else {
                (Ok(seq![tok.value]), r1.1)
            }
        },
    }
}

/// An enum declaration: `enum`, a name, the member names in braces, and
/// the terminator.
pub open spec fn spec_parse_enum_declaration(ts: Seq<TokenV>, pos: int) -> (Result<Ast, ErrV>, int) {
    let enum_tok = cur(ts, pos);
    let p0 = step(ts, pos);
    let r1 = spec_expect(ts, p0, TokenType::Identifier);
    match r1.0 {
        Err(e) => (Err(e), r1.1),
        Ok(name_tok) => {
            let r2 = spec_expect(ts, r1.1, TokenType::LBrace);
            match r2.0 {
                Err(e) => (Err(e), r2.1),
                Ok(_) => {
                    let rv = if cur(ts, r2.1).token_type == TokenType::RBrace {
                        (Ok(Seq::<Seq<char>>::empty()), r2.1)
                    } else {
                        spec_parse_enum_values(ts, r2.1)
                    };
                    match rv.0 {
                        Err(e) => (Err(e), rv.1),
                        Ok(values) => {
                            let r3 = spec_expect(ts, rv.1, TokenType::RBrace);
                            match r3.0 {
                                Err(e) => (Err(e), r3.1),
                                Ok(_) => {
                                    let r4 = spec_consume_semicolon(ts, r3.1);
                                    match r4.0 {
                                        Err(e) => (Err(e), r4.1),
                                        Ok(_) => {
                                            let value_list = Ast::EnumValueList {
                                                values,
                                                line: name_tok.line,
                                                column: name_tok.column,
                                            };
                                            (
                                                Ok(
                                                    Ast::EnumDecl {
                                                        name: name_tok.value,
                                                        values: Box::new(value_list),
                                                        line: enum_tok.line,
                                                        column: enum_tok.column,
                                                    },
                                                ),
                                                r4.1,
                                            )
                                        },
                                    }
                                },
                            }
                        },
                    }
                },
            }
        },
    }
}

/// An include directive: `include` then `<name>` (where the reserved entry
/// point name is accepted) or a quoted header name.
pub open spec fn spec_parse_include_statement(ts: Seq<TokenV>, pos: int) -> (Result<Ast, ErrV>, int) {
    let include_tok = cur(ts, pos);
    let p0 = step(ts, pos);
    if cur(ts, p0).token_type == TokenType::Lt {
        let p1 = step(ts, p0);
        let rh = if cur(ts, p1).token_type == TokenType::Main {
            (Ok("main"@), step(ts, p1))
        } else if cur(ts, p1).token_type == TokenType::Identifier {
            (Ok(cur(ts, p1).value), step(ts, p1))
        } else {
            (
                Err(ErrV { kind: ParseErrorType::ExpectedIdentifier, token: cur(ts, p1) }),
                p1,
            )
        };
        match rh.0 {
            Err(e) => (Err(e), rh.1),
            Ok(header) => {
                let r1 = spec_expect(ts, rh.1, TokenType::Gt);
                match r1.0 {
                    Err(e) => (Err(e), r1.1),
                    Ok(_) => (
                        Ok(
                            Ast::IncludeStmt {
                                header,
                                line: include_tok.line,
                                column: include_tok.column,
                            },
                        ),
                        r1.1,
                    ),
                }
            },
        }
    } else if cur(ts, p0).token_type == TokenType::StringLit {
        let header_tok = cur(ts, p0);
        (
            Ok(
                Ast::IncludeStmt {
                    header: strip_quotes(header_tok.value),
                    line: include_tok.line,
                    column: include_tok.column,
                },
            ),
            step(ts, p0),
        )
    } else {
        (Err(ErrV { kind: ParseErrorType::UnexpectedToken, token: cur(ts, p0) }), p0)
    }
}

/// One statement, dispatched on its first token; a type token leads into
/// the declaration disambiguation, anything unrecognized is a bare
/// expression statement.
pub open spec fn spec_parse_statement(ts: Seq<TokenV>, pos: int) -> (Result<Ast, ErrV>, int)
    decreases ts.len() - pos, 10int,
{
    let t = cur(ts, pos).token_type;
    if t == TokenType::Enum {
        spec_parse_enum_declaration(ts, pos)
    } else if is_type_token(t) {
        if cur(ts, pos + 1).token_type == TokenType::Identifier {
            if cur(ts, pos + 2).token_type == TokenType::LParen {
                if spec_is_function_definition(ts, pos) {
                    spec_parse_function_declaration(ts, pos)
                } else {
                    spec_parse_function_prototype(ts, pos)
                }
            } else {
                spec_parse_variable_declaration(ts, pos)
            }
        } else {
            spec_parse_variable_declaration(ts, pos)
        }
    } else if t == TokenType::Print {
        spec_parse_print_statement(ts, pos)
    } else if t == TokenType::If {
        spec_parse_if_statement(ts, pos)
    } else if t == TokenType::While {
        spec_parse_while_statement(ts, pos)
    } else if t == TokenType::Do {
        spec_parse_do_while_statement(ts, pos)
    } else if t == TokenType::For {
        spec_parse_for_statement(ts, pos)
    } else if t == TokenType::Switch {
        spec_parse_switch_statement(ts, pos)
    } else if t == TokenType::Return {
        spec_parse_return_statement(ts, pos)
    } else if t == TokenType::LBrace {
        spec_parse_block_statement(ts, pos)
    } else if t == TokenType::Main {
        spec_parse_main_declaration(ts, pos)
    } else if t == TokenType::Break {
        spec_parse_break_statement(ts, pos)
    } else {
        let start = cur(ts, pos);
        let r = spec_parse_expression(ts, pos, PREC_LOWEST);
        match r.0 {
            Err(e) => (Err(e), r.1),
            Ok(expr) => {
                let rs = spec_consume_semicolon(ts, r.1);
                match rs.0 {
                    Err(e) => (Err(e), rs.1),
                    Ok(_) => (
                        Ok(
                            Ast::ExpressionStmt {
                                expr: Box::new(expr),
                                line: start.line,
                                column: start.column,
                            },
                        ),
                        rs.1,
                    ),
                }
            },
        }
    }
}

/// The declarations after the leading include directive, up to the end of
/// the input.
pub open spec fn spec_parse_program_items(ts: Seq<TokenV>, pos: int, acc: Seq<Ast>) -> (
    Result<Seq<Ast>, ErrV>,
    int,
)
    decreases ts.len() - pos, 11int,
{
    if at_end(ts, pos) {
        (Ok(acc), pos)
    } else {
        let t = cur(ts, pos).token_type;
        let r = if t == TokenType::Include {
            spec_parse_include_statement(ts, pos)
        } else if is_type_token(t) {
            if cur(ts, pos + 1).token_type == TokenType::Identifier && cur(
                ts,
                pos + 2,
            ).token_type == TokenType::LParen {
                if spec_is_function_definition(ts, pos) {
                    spec_parse_function_declaration(ts, pos)
                } else {
                    spec_parse_function_prototype(ts, pos)
                }
            } else {
                spec_parse_statement(ts, pos)
            }
        } else if t == TokenType::Main {
            spec_parse_main_declaration(ts, pos)
        } else {
            spec_parse_statement(ts, pos)
        };
        match r.0 {
            Err(e) => (Err(e), r.1),
            Ok(node) => {
                if pos < r.1 && r.1 <= ts.len() {
                    spec_parse_program_items(ts, r.1, acc.push(node))
                } else {
                    dead(r.1)
                }
            },
        }
    }
}

/// A whole program: the very first declaration must be an include
/// directive, then the remaining declarations up to the end of the input.
pub open spec fn spec_parse_program(ts: Seq<TokenV>) -> (Result<Seq<Ast>, ErrV>, int) {
    if cur(ts, 0).token_type != TokenType::Include {
        (Err(ErrV { kind: ParseErrorType::UnexpectedToken, token: cur(ts, 0) }), 0)
    } else {
        let r = spec_parse_include_statement(ts, 0);
        match r.0 {
            Err(e) => (Err(e), r.1),
            Ok(inc) => {
                if 0 < r.1 && r.1 <= ts.len() {
                    spec_parse_program_items(ts, r.1, seq![inc])
                } else {
                    dead(r.1)
                }
            },
        }
    }
}

} // verus!
