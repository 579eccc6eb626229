use compiler::ast::ASTNode;
use compiler::parser::{parse_i64, ParseError, ParseErrorType, Parser};
use compiler::token::{Token, TokenType, TypeNode};

fn tok(token_type: TokenType, value: &str) -> Token {
    Token::new(token_type, value.to_string(), 1, 1)
}

fn tok_at(token_type: TokenType, value: &str, line: usize, column: usize) -> Token {
    Token::new(token_type, value.to_string(), line, column)
}

#[test]
fn precedence_assign_add_mul() {
    // a = b + c * d  parses as  a = (b + (c * d))
    let tokens = vec![
        tok(TokenType::Identifier, "a"),
        tok(TokenType::AssignOp, "="),
        tok(TokenType::Identifier, "b"),
        tok(TokenType::Plus, "+"),
        tok(TokenType::Identifier, "c"),
        tok(TokenType::Multiply, "*"),
        tok(TokenType::Identifier, "d"),
        tok(TokenType::Semicolon, ";"),
        tok(TokenType::Eof, ""),
    ];
    let mut parser = Parser::new(tokens);
    let expr = parser.parse_expression(0).expect("expression should parse");
    match expr {
        ASTNode::BinaryExpr { op: TokenType::AssignOp, left, right, .. } => {
            match *left {
                ASTNode::Identifier { ref name, .. } => assert_eq!(name, "a"),
                _ => panic!("left of assignment should be the identifier a"),
            }
            match *right {
                ASTNode::BinaryExpr { op: TokenType::Plus, left: add_l, right: add_r, .. } => {
                    match *add_l {
                        ASTNode::Identifier { ref name, .. } => assert_eq!(name, "b"),
                        _ => panic!("left of + should be b"),
                    }
                    match *add_r {
                        ASTNode::BinaryExpr { op: TokenType::Multiply, left: m_l, right: m_r, .. } => {
                            match *m_l {
                                ASTNode::Identifier { ref name, .. } => assert_eq!(name, "c"),
                                _ => panic!("left of * should be c"),
                            }
                            match *m_r {
                                ASTNode::Identifier { ref name, .. } => assert_eq!(name, "d"),
                                _ => panic!("right of * should be d"),
                            }
                        }
                        _ => panic!("right of + should be the multiplication"),
                    }
                }
                _ => panic!("right of assignment should be the addition"),
            }
        }
        _ => panic!("expected an assignment at the top"),
    }
}

#[test]
fn call_on_literal_is_invalid_call_target() {
    // 1(2);  fails with the invalid-call-target error
    let tokens = vec![
        tok(TokenType::IntLit, "1"),
        tok(TokenType::LParen, "("),
        tok(TokenType::IntLit, "2"),
        tok(TokenType::RParen, ")"),
        tok(TokenType::Semicolon, ";"),
        tok(TokenType::Eof, ""),
    ];
    let mut parser = Parser::new(tokens);
    let result = parser.parse_expression(0);
    match result {
        Err(e) => assert!(matches!(e.error_type, ParseErrorType::InvalidCallTarget)),
        Ok(_) => panic!("calling a literal must be rejected"),
    }
}

#[test]
fn print_without_terminator_is_missing_semicolon() {
    let tokens = vec![
        tok(TokenType::Print, "print"),
        tok(TokenType::LParen, "("),
        tok(TokenType::IntLit, "1"),
        tok(TokenType::RParen, ")"),
        tok(TokenType::Eof, ""),
    ];
    let mut parser = Parser::new(tokens);
    let result = parser.parse_print_statement();
    match result {
        Err(e) => assert!(matches!(e.error_type, ParseErrorType::MissingSemicolon)),
        Ok(_) => panic!("a print statement without a terminator must be rejected"),
    }
}

#[test]
fn prototype_with_params() {
    // int f(int x, bool y);
    let tokens = vec![
        tok(TokenType::Int, "int"),
        tok(TokenType::Identifier, "f"),
        tok(TokenType::LParen, "("),
        tok(TokenType::Int, "int"),
        tok(TokenType::Identifier, "x"),
        tok(TokenType::Comma, ","),
        tok(TokenType::Bool, "bool"),
        tok(TokenType::Identifier, "y"),
        tok(TokenType::RParen, ")"),
        tok(TokenType::Semicolon, ";"),
        tok(TokenType::Eof, ""),
    ];
    let mut parser = Parser::new(tokens);
    let node = parser.parse_function_prototype().expect("prototype should parse");
    match node {
        ASTNode::FunctionProto { return_type, name, params, .. } => {
            assert!(matches!(return_type, TypeNode::Builtin(TokenType::Int)));
            assert_eq!(name, "f");
            assert_eq!(params.len(), 2);
            assert!(matches!(params[0].0, TypeNode::Builtin(TokenType::Int)));
            assert_eq!(params[0].1, "x");
            assert!(matches!(params[1].0, TypeNode::Builtin(TokenType::Bool)));
            assert_eq!(params[1].1, "y");
        }
        _ => panic!("expected a function prototype"),
    }
}

#[test]
fn include_angle_header() {
    // include <main>
    let tokens = vec![
        tok(TokenType::Include, "include"),
        tok(TokenType::Lt, "<"),
        tok(TokenType::Main, "main"),
        tok(TokenType::Gt, ">"),
        tok(TokenType::Eof, ""),
    ];
    let mut parser = Parser::new(tokens);
    let node = parser.parse_include_statement().expect("include should parse");
    match node {
        ASTNode::IncludeStmt { header, .. } => assert_eq!(header, "main"),
        _ => panic!("expected an include directive"),
    }
}

#[test]
fn include_quoted_header_strips_quotes() {
    let tokens = vec![
        tok(TokenType::Include, "include"),
        tok(TokenType::StringLit, "\"defs\""),
        tok(TokenType::Eof, ""),
    ];
    let mut parser = Parser::new(tokens);
    let node = parser.parse_include_statement().expect("include should parse");
    match node {
        ASTNode::IncludeStmt { header, .. } => assert_eq!(header, "defs"),
        _ => panic!("expected an include directive"),
    }
}

#[test]
fn string_literal_quotes_stripped() {
    let tokens = vec![tok(TokenType::StringLit, "\"hi\""), tok(TokenType::Eof, "")];
    let mut parser = Parser::new(tokens);
    let expr = parser.parse_expression(0).expect("literal should parse");
    match expr {
        ASTNode::StringLiteral { value, .. } => assert_eq!(value, "hi"),
        _ => panic!("expected a string literal"),
    }
}

#[test]
fn int_literal_values() {
    assert_eq!(parse_i64("123"), 123);
    assert_eq!(parse_i64("0007"), 7);
    assert_eq!(parse_i64("-42"), -42);
    assert_eq!(parse_i64("+8"), 8);
    assert_eq!(parse_i64(""), 0);
    assert_eq!(parse_i64("12a"), 0);
    assert_eq!(parse_i64("9223372036854775807"), i64::MAX);
    assert_eq!(parse_i64("-9223372036854775808"), i64::MIN);
    assert_eq!(parse_i64("9223372036854775808"), 0);
    assert_eq!(parse_i64("99999999999999999999999999"), 0);
}

#[test]
fn error_message_carries_position() {
    let t = tok_at(TokenType::RBrace, "}", 3, 7);
    let e = ParseError::new(ParseErrorType::MissingSemicolon, t);
    assert_eq!(e.message, "Missing semicolon at end of statement (line: 3, col: 7)");
}

#[test]
fn expected_expression_error() {
    let tokens = vec![tok(TokenType::Semicolon, ";"), tok(TokenType::Eof, "")];
    let mut parser = Parser::new(tokens);
    let result = parser.parse_expression(0);
    match result {
        Err(e) => assert!(matches!(e.error_type, ParseErrorType::ExpectedExpr)),
        Ok(_) => panic!("a bare terminator is not an expression"),
    }
}

#[test]
fn postfix_and_prefix_unary() {
    // -x++ parses with unary minus around the postfix increment? No: postfix
    // binds via the infix loop, so -x then ++ applies to the whole unary at
    // unary precedence; check the simple postfix shape on an identifier.
    let tokens = vec![
        tok(TokenType::Identifier, "x"),
        tok(TokenType::Increment, "++"),
        tok(TokenType::Semicolon, ";"),
        tok(TokenType::Eof, ""),
    ];
    let mut parser = Parser::new(tokens);
    let expr = parser.parse_expression(0).expect("postfix should parse");
    match expr {
        ASTNode::UnaryExpr { op: TokenType::Increment, is_postfix, .. } => assert!(is_postfix),
        _ => panic!("expected a postfix increment"),
    }
}

#[test]
fn grouping_overrides_precedence() {
    // (a + b) * c
    let tokens = vec![
        tok(TokenType::LParen, "("),
        tok(TokenType::Identifier, "a"),
        tok(TokenType::Plus, "+"),
        tok(TokenType::Identifier, "b"),
        tok(TokenType::RParen, ")"),
        tok(TokenType::Multiply, "*"),
        tok(TokenType::Identifier, "c"),
        tok(TokenType::Eof, ""),
    ];
    let mut parser = Parser::new(tokens);
    let expr = parser.parse_expression(0).expect("expression should parse");
    match expr {
        ASTNode::BinaryExpr { op: TokenType::Multiply, left, .. } => match *left {
            ASTNode::BinaryExpr { op: TokenType::Plus, .. } => {}
            _ => panic!("left of * should be the parenthesized addition"),
        },
        _ => panic!("expected the multiplication at the top"),
    }
}

#[test]
fn call_arguments_in_order() {
    // f(1, x)
    let tokens = vec![
        tok(TokenType::Identifier, "f"),
        tok(TokenType::LParen, "("),
        tok(TokenType::IntLit, "1"),
        tok(TokenType::Comma, ","),
        tok(TokenType::Identifier, "x"),
        tok(TokenType::RParen, ")"),
        tok(TokenType::Eof, ""),
    ];
    let mut parser = Parser::new(tokens);
    let expr = parser.parse_expression(0).expect("call should parse");
    match expr {
        ASTNode::CallExpr { callee, args, .. } => {
            assert!(matches!(*callee, ASTNode::Identifier { .. }));
            assert_eq!(args.len(), 2);
            assert!(matches!(args[0], ASTNode::IntLiteral { value: 1, .. }));
            assert!(matches!(args[1], ASTNode::Identifier { .. }));
        }
        _ => panic!("expected a call expression"),
    }
}

#[test]
fn break_statement_parses() {
    let tokens = vec![
        tok(TokenType::Break, "break"),
        tok(TokenType::Semicolon, ";"),
        tok(TokenType::Eof, ""),
    ];
    let mut parser = Parser::new(tokens);
    let node = parser.parse_break_statement().expect("break should parse");
    assert!(matches!(node, ASTNode::BreakStmt { .. }));
}

#[test]
fn report_renders_context_and_caret() {
    let reporter = compiler::error::ErrorReporter::new("int x = 1\nint y = ;\nint z = 3\n");
    let text = reporter.report_syntax("Expected expression", 2, 9);
    assert_eq!(
        text,
        "\n\u{274c} Syntax Error:\n  Expected expression\n  at line 2, col 9\n\n\
         \u{20}  1   | int x = 1\n   2 > | int y = ;\n                 ^\n   3   | int z = 3\n\n"
    );
}

#[test]
fn report_out_of_range_line() {
    let reporter = compiler::error::ErrorReporter::new("only one line");
    let text = reporter.report_lexical("bad character", 9, 1);
    assert_eq!(
        text,
        "\n\u{274c} Lexical Error:\n  bad character\n  at line 9, col 1\n  (Source location unavailable)\n"
    );
}

#[test]
fn variable_declaration_without_terminator_is_missing_terminator() {
    // int x = 5  with no terminator fails with the missing-terminator error
    let tokens = vec![
        tok(TokenType::Int, "int"),
        tok(TokenType::Identifier, "x"),
        tok(TokenType::AssignOp, "="),
        tok(TokenType::IntLit, "5"),
        tok(TokenType::Eof, ""),
    ];
    let mut parser = Parser::new(tokens);
    let result = parser.parse_statement();
    match result {
        Err(e) => assert!(matches!(e.error_type, ParseErrorType::MissingSemicolon)),
        Ok(_) => panic!("a declaration without a terminator must be rejected"),
    }
}

#[test]
fn program_requires_leading_include() {
    let tokens = vec![
        tok(TokenType::Int, "int"),
        tok(TokenType::Identifier, "x"),
        tok(TokenType::Semicolon, ";"),
        tok(TokenType::Eof, ""),
    ];
    let mut parser = Parser::new(tokens);
    let result = parser.parse_program();
    match result {
        Err(e) => assert!(matches!(e.error_type, ParseErrorType::UnexpectedToken)),
        Ok(_) => panic!("a program must start with an include directive"),
    }
}

#[test]
fn render_fixed_text_grammar() {
    let ins = vec![
        compiler::ir::Instruction::Label("L0".to_string()),
        compiler::ir::Instruction::Binary(
            compiler::ir::Operand::Temp(0),
            TokenType::Plus,
            compiler::ir::Operand::Int(5),
            compiler::ir::Operand::Int(3),
        ),
        compiler::ir::Instruction::Goto("L0".to_string()),
        compiler::ir::Instruction::Print(vec![
            compiler::ir::Operand::Temp(0),
            compiler::ir::Operand::Var("x".to_string()),
        ]),
    ];
    let text = compiler::ir::render(&ins);
    assert_eq!(text, "L0:
t0 = 5 Plus 3
goto L0
print t0, x
");
}
