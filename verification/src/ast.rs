//! The abstract syntax tree.
//!
//! `ASTNode` is the executable tree the parser builds; `Ast` is its ghost
//! mirror, with every owned string replaced by a `Seq<char>` and every child
//! list by a `Seq`.  Contracts all through the crate speak of the mirror,
//! reached through `ast_view`.  Every node carries the 1-based line and
//! column of the token that introduced it.

use vstd::prelude::*;

use crate::token::{TokenType, TypeNode, TypeNodeV};

verus! {

/// A syntax tree node: one variant per syntactic form of the language.
/// Nodes own their children exclusively; the tree is built once by the
/// parser and only read thereafter.
#[derive(Debug)]
pub enum ASTNode {
    IntLiteral { value: i64, line: usize, column: usize },
    /// A floating-point literal, kept as the literal's own text.
    FloatLiteral { text: String, line: usize, column: usize },
    StringLiteral { value: String, line: usize, column: usize },
    CharLiteral { value: char, line: usize, column: usize },
    BoolLiteral { value: bool, line: usize, column: usize },
    Identifier { name: String, line: usize, column: usize },
    BinaryExpr { op: TokenType, left: Box<ASTNode>, right: Box<ASTNode>, line: usize, column: usize },
    UnaryExpr { op: TokenType, operand: Box<ASTNode>, is_postfix: bool, line: usize, column: usize },
    CallExpr { callee: Box<ASTNode>, args: Vec<ASTNode>, line: usize, column: usize },
    VarDecl { var_type: TypeNode, name: String, initializer: Option<Box<ASTNode>>, line: usize, column: usize },
    FunctionProto { return_type: TypeNode, name: String, params: Vec<(TypeNode, String)>, line: usize, column: usize },
    FunctionDecl { return_type: TypeNode, name: String, params: Vec<(TypeNode, String)>, body: Vec<ASTNode>, line: usize, column: usize },
    /// The distinguished entry point: a bare `main` block.
    MainDecl { body: Vec<ASTNode>, line: usize, column: usize },
    IfStmt { condition: Box<ASTNode>, if_body: Vec<ASTNode>, else_body: Vec<ASTNode>, line: usize, column: usize },
    WhileStmt { condition: Box<ASTNode>, body: Vec<ASTNode>, line: usize, column: usize },
    DoWhileStmt { body: Box<ASTNode>, condition: Box<ASTNode>, line: usize, column: usize },
    ForStmt { init: Option<Box<ASTNode>>, condition: Option<Box<ASTNode>>, update: Option<Box<ASTNode>>, body: Box<ASTNode>, line: usize, column: usize },
    SwitchStmt { expression: Box<ASTNode>, cases: Vec<ASTNode>, default_body: Vec<ASTNode>, line: usize, column: usize },
    CaseBlock { value: Box<ASTNode>, body: Vec<ASTNode>, line: usize, column: usize },
    ReturnStmt { value: Option<Box<ASTNode>>, line: usize, column: usize },
    BreakStmt { line: usize, column: usize },
    PrintStmt { args: Vec<ASTNode>, line: usize, column: usize },
    BlockStmt { body: Vec<ASTNode>, line: usize, column: usize },
    ExpressionStmt { expr: Box<ASTNode>, line: usize, column: usize },
    EnumDecl { name: String, values: Box<ASTNode>, line: usize, column: usize },
    EnumValueList { values: Vec<String>, line: usize, column: usize },
    IncludeStmt { header: String, line: usize, column: usize },
}

/// Ghost mirror of `ASTNode`.
pub enum Ast {
    IntLiteral { value: i64, line: usize, column: usize },
    FloatLiteral { text: Seq<char>, line: usize, column: usize },
    StringLiteral { value: Seq<char>, line: usize, column: usize },
    CharLiteral { value: char, line: usize, column: usize },
    BoolLiteral { value: bool, line: usize, column: usize },
    Identifier { name: Seq<char>, line: usize, column: usize },
    BinaryExpr { op: TokenType, left: Box<Ast>, right: Box<Ast>, line: usize, column: usize },
    UnaryExpr { op: TokenType, operand: Box<Ast>, is_postfix: bool, line: usize, column: usize },
    CallExpr { callee: Box<Ast>, args: Seq<Ast>, line: usize, column: usize },
    VarDecl { var_type: TypeNodeV, name: Seq<char>, initializer: Option<Box<Ast>>, line: usize, column: usize },
    FunctionProto { return_type: TypeNodeV, name: Seq<char>, params: Seq<(TypeNodeV, Seq<char>)>, line: usize, column: usize },
    FunctionDecl { return_type: TypeNodeV, name: Seq<char>, params: Seq<(TypeNodeV, Seq<char>)>, body: Seq<Ast>, line: usize, column: usize },
    MainDecl { body: Seq<Ast>, line: usize, column: usize },
    IfStmt { condition: Box<Ast>, if_body: Seq<Ast>, else_body: Seq<Ast>, line: usize, column: usize },
    WhileStmt { condition: Box<Ast>, body: Seq<Ast>, line: usize, column: usize },
    DoWhileStmt { body: Box<Ast>, condition: Box<Ast>, line: usize, column: usize },
    ForStmt { init: Option<Box<Ast>>, condition: Option<Box<Ast>>, update: Option<Box<Ast>>, body: Box<Ast>, line: usize, column: usize },
    SwitchStmt { expression: Box<Ast>, cases: Seq<Ast>, default_body: Seq<Ast>, line: usize, column: usize },
    CaseBlock { value: Box<Ast>, body: Seq<Ast>, line: usize, column: usize },
    ReturnStmt { value: Option<Box<Ast>>, line: usize, column: usize },
    BreakStmt { line: usize, column: usize },
    PrintStmt { args: Seq<Ast>, line: usize, column: usize },
    BlockStmt { body: Seq<Ast>, line: usize, column: usize },
    ExpressionStmt { expr: Box<Ast>, line: usize, column: usize },
    EnumDecl { name: Seq<char>, values: Box<Ast>, line: usize, column: usize },
    EnumValueList { values: Seq<Seq<char>>, line: usize, column: usize },
    IncludeStmt { header: Seq<char>, line: usize, column: usize },
}

/// Ghost view of a parameter list.
pub open spec fn params_view(s: Seq<(TypeNode, String)>) -> Seq<(TypeNodeV, Seq<char>)> {
    s.map_values(|p: (TypeNode, String)| (p.0@, p.1@))
}

/// Ghost view of a list of names.
pub open spec fn names_view(s: Seq<String>) -> Seq<Seq<char>> {
    s.map_values(|x: String| x@)
}

/// Ghost view of an optional child.
pub open spec fn ast_opt_view(o: Option<Box<ASTNode>>) -> Option<Box<Ast>>
    decreases o,
{
    match o {
        Option::None => Option::None,
        Option::Some(b) => Option::Some(Box::new(ast_view(*b))),
    }
}

/// Ghost view of a node: the `Ast` it mirrors.
pub open spec fn ast_view(n: ASTNode) -> Ast
    decreases n,
{
    match n {
        ASTNode::IntLiteral { value, line, column } => Ast::IntLiteral { value, line, column },
        ASTNode::FloatLiteral { text, line, column } => Ast::FloatLiteral { text: text@, line, column },
        ASTNode::StringLiteral { value, line, column } => Ast::StringLiteral { value: value@, line, column },
        ASTNode::CharLiteral { value, line, column } => Ast::CharLiteral { value, line, column },
        ASTNode::BoolLiteral { value, line, column } => Ast::BoolLiteral { value, line, column },
        ASTNode::Identifier { name, line, column } => Ast::Identifier { name: name@, line, column },
        ASTNode::BinaryExpr { op, left, right, line, column } => Ast::BinaryExpr {
            op,
            left: Box::new(ast_view(*left)),
            right: Box::new(ast_view(*right)),
            line,
            column,
        },
        ASTNode::UnaryExpr { op, operand, is_postfix, line, column } => Ast::UnaryExpr {
            op,
            operand: Box::new(ast_view(*operand)),
            is_postfix,
            line,
            column,
        },
        ASTNode::CallExpr { callee, args, line, column } => Ast::CallExpr {
            callee: Box::new(ast_view(*callee)),
            args: asts_view(args@),
            line,
            column,
        },
        ASTNode::VarDecl { var_type, name, initializer, line, column } => Ast::VarDecl {
            var_type: var_type@,
            name: name@,
            initializer: ast_opt_view(initializer),
            line,
            column,
        },
        ASTNode::FunctionProto { return_type, name, params, line, column } => Ast::FunctionProto {
            return_type: return_type@,
            name: name@,
            params: params_view(params@),
            line,
            column,
        },
        ASTNode::FunctionDecl { return_type, name, params, body, line, column } => Ast::FunctionDecl {
            return_type: return_type@,
            name: name@,
            params: params_view(params@),
            body: asts_view(body@),
            line,
            column,
        },
        ASTNode::MainDecl { body, line, column } => Ast::MainDecl {
            body: asts_view(body@),
            line,
            column,
        },
        ASTNode::IfStmt { condition, if_body, else_body, line, column } => Ast::IfStmt {
            condition: Box::new(ast_view(*condition)),
            if_body: asts_view(if_body@),
            else_body: asts_view(else_body@),
            line,
            column,
        },
        ASTNode::WhileStmt { condition, body, line, column } => Ast::WhileStmt {
            condition: Box::new(ast_view(*condition)),
            body: asts_view(body@),
            line,
            column,
        },
        ASTNode::DoWhileStmt { body, condition, line, column } => Ast::DoWhileStmt {
            body: Box::new(ast_view(*body)),
            condition: Box::new(ast_view(*condition)),
            line,
            column,
        },
        ASTNode::ForStmt { init, condition, update, body, line, column } => Ast::ForStmt {
            init: ast_opt_view(init),
            condition: ast_opt_view(condition),
            update: ast_opt_view(update),
            body: Box::new(ast_view(*body)),
            line,
            column,
        },
        ASTNode::SwitchStmt { expression, cases, default_body, line, column } => Ast::SwitchStmt {
            expression: Box::new(ast_view(*expression)),
            cases: asts_view(cases@),
            default_body: asts_view(default_body@),
            line,
            column,
        },
        ASTNode::CaseBlock { value, body, line, column } => Ast::CaseBlock {
            value: Box::new(ast_view(*value)),
            body: asts_view(body@),
            line,
            column,
        },
        ASTNode::ReturnStmt { value, line, column } => Ast::ReturnStmt {
            value: ast_opt_view(value),
            line,
            column,
        },
        ASTNode::BreakStmt { line, column } => Ast::BreakStmt { line, column },
        ASTNode::PrintStmt { args, line, column } => Ast::PrintStmt {
            args: asts_view(args@),
            line,
            column,
        },
        ASTNode::BlockStmt { body, line, column } => Ast::BlockStmt {
            body: asts_view(body@),
            line,
            column,
        },
        ASTNode::ExpressionStmt { expr, line, column } => Ast::ExpressionStmt {
            expr: Box::new(ast_view(*expr)),
            line,
            column,
        },
        ASTNode::EnumDecl { name, values, line, column } => Ast::EnumDecl {
            name: name@,
            values: Box::new(ast_view(*values)),
            line,
            column,
        },
        ASTNode::EnumValueList { values, line, column } => Ast::EnumValueList {
            values: names_view(values@),
            line,
            column,
        },
        ASTNode::IncludeStmt { header, line, column } => Ast::IncludeStmt { header: header@, line, column },
    }
}

/// Ghost view of a list of nodes, element by element.
pub open spec fn asts_view(s: Seq<ASTNode>) -> Seq<Ast>
    decreases s,
{
    if s.len() == 0 {
        Seq::empty()
    } else {
        asts_view(s.drop_last()).push(ast_view(s.last()))
    }
}

/// Appending one node views to pushing its view.
pub proof fn lemma_asts_view_push(s: Seq<ASTNode>, n: ASTNode)
    ensures
        asts_view(s.push(n)) == asts_view(s).push(ast_view(n)),
{
    assert(s.push(n).drop_last() =~= s);
    assert(s.push(n).last() == n);
}

} // verus!
