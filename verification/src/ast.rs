//! The syntax tree of a Hunnu program, as the code generator consumes it.
use vstd::prelude::*;

verus! {

/// Operator tokens that reach the code generator inside unary and binary expressions.
#[derive(Clone, Copy, PartialEq, Eq, Structural, Debug)]
pub enum TokenType {
    Plus,
    Minus,
    Star,
    Slash,
    Percent,
    Eq,
    Neq,
    Lt,
    Le,
    Gt,
    Ge,
    Not,
    And,
    Or,
}

/// The declared type of a literal.
#[derive(Clone, Copy, PartialEq, Eq, Structural, Debug)]
pub enum LiteralType {
    Int,
    Float,
    String,
    Bool,
}

/// The value carried by a literal.  A float is held as its IEEE-754 bit pattern.
#[derive(Clone, Debug)]
pub enum LiteralValue {
    Int(i64),
    Float(u64),
    String(String),
    Bool(bool),
}

/// The kinds of node in a Hunnu syntax tree.
#[derive(Debug)]
#[allow(inconsistent_fields)]
pub enum NodeData {
    Program { statements: Vec<ASTNode> },
    VarDecl { name: String, initializer: Box<ASTNode> },
    FnDecl { name: String, params: Vec<String>, body: Box<ASTNode> },
    TypeDecl { name: String, fields: Vec<String> },
    ExternFn { name: String, params: Vec<String>, returns_int: i32, library: String },
    PrintStmt { argument: Box<ASTNode> },
    Block { statements: Vec<ASTNode> },
    ExprStmt { expression: Box<ASTNode> },
    ReturnStmt { value: Option<Box<ASTNode>> },
    IfStmt { condition: Box<ASTNode>, then_branch: Box<ASTNode>, else_branch: Option<Box<ASTNode>> },
    WhileStmt { condition: Box<ASTNode>, body: Box<ASTNode> },
    ForStmt {
        initializer: Option<Box<ASTNode>>,
        condition: Option<Box<ASTNode>>,
        update: Option<Box<ASTNode>>,
        body: Box<ASTNode>,
    },
    BreakStmt,
    ContinueStmt,
    TryStmt {
        try_block: Box<ASTNode>,
        catch_var: Option<String>,
        catch_block: Option<Box<ASTNode>>,
        finally_block: Option<Box<ASTNode>>,
    },
    Literal { literal_type: LiteralType, value: LiteralValue },
    Identifier { name: String },
    BinaryExpr { operator: TokenType, left: Box<ASTNode>, right: Box<ASTNode> },
    UnaryExpr { operator: TokenType, operand: Box<ASTNode> },
    CallExpr { name: String, args: Vec<ASTNode> },
    Assign { name: String, value: Box<ASTNode> },
    ArrayExpr { elements: Vec<ASTNode> },
    IndexExpr { array: Box<ASTNode>, index: Box<ASTNode> },
    IndexAssign { array: Box<ASTNode>, index: Box<ASTNode>, value: Box<ASTNode> },
    StringConcat { left: Box<ASTNode>, right: Box<ASTNode> },
    MatchExpr { value: Box<ASTNode>, patterns: Vec<ASTNode>, bodies: Vec<ASTNode> },
    FieldAccess { object: Box<ASTNode>, field: String },
    AddressOf { operand: Box<ASTNode> },
    Dereference { operand: Box<ASTNode> },
}

/// A node of the syntax tree.
#[derive(Debug)]
pub struct ASTNode {
    pub data: NodeData,
}

} // verus!
