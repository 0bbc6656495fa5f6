//! The syntax tree that the evaluator consumes.
//!
//! A tree is immutable once built. Children are held behind `Arc`, so that a
//! function value can keep its body without copying it, and so that a node
//! serves as its own mathematical model: two handles to one node are equal.

use std::sync::Arc;
use vstd::prelude::*;

verus! {

#[derive(Clone, Copy, Debug, PartialEq, Eq, Structural)]
pub enum BinaryOperator {
    Plus,
    Minus,
    Multiply,
    Divide,
    Modulo,
    LessThan,
    GreaterThan,
    IsEquals,
    NotEquals,
}

#[derive(Clone, Copy, Debug, PartialEq, Eq, Structural)]
pub enum AssignmentOperator {
    Equals,
    Addition,
    Subtraction,
    Multiplication,
    Division,
    Modulation,
}

#[derive(Clone, Copy, Debug, PartialEq, Eq, Structural)]
pub enum UnaryOperator {
    Plus,
    Minus,
    Negation,
}

#[derive(Clone, Copy, Debug, PartialEq, Eq, Structural)]
pub enum LogicalOperator {
    And,
    Or,
}

/// One node of the tree. A decimal literal carries the IEEE 754 bit pattern of
/// its number.
#[derive(Debug)]
pub enum Node {
    Program(Vec<Arc<Node>>),
    BlockStatement(Vec<Arc<Node>>),
    IntegerLiteral(usize),
    DecimalLiteral(u64),
    StringLiteral(String),
    Identifier(String),
    ArrayExpression(Vec<Arc<Node>>),
    BinaryExpression(Arc<Node>, BinaryOperator, Arc<Node>),
    UnaryExpression(Arc<Node>, UnaryOperator),
    LogicalExpression(Arc<Node>, LogicalOperator, Arc<Node>),
    AssignmentExpression(Arc<Node>, AssignmentOperator, Arc<Node>),
    VariableDeclaration(String, Option<Arc<Node>>, bool),
    FunctionDeclaration(String, Vec<Arc<Node>>, Arc<Node>),
    CallExpression(Arc<Node>, Vec<Arc<Node>>),
    MemberExpression(Arc<Node>, Arc<Node>, bool),
    IfStatement(Arc<Node>, Arc<Node>, Option<Arc<Node>>),
    WhileStatement(Arc<Node>, Arc<Node>),
    ReturnStatement(Arc<Node>),
    ClassDeclaration(String, Option<Arc<Node>>, Vec<Arc<Node>>),
    PropertyDefinition(String, Arc<Node>, bool),
    MethodDefinition(String, Vec<Arc<Node>>, Arc<Node>, bool),
}

/// The node behind a handle.
pub open spec fn node_at(handle: &Arc<Node>) -> Node {
    **handle
}

/// Calls `Arc::clone`. Taken on trust: the new handle points to the node that
/// the old one points to, so that the two are equal.
#[verifier::external_body]
pub(crate) fn share_node(node: &Arc<Node>) -> (r: Arc<Node>)
    ensures
        r == *node,
{
    Arc::clone(node)
}

/// The binary operator that a compound assignment applies; `Equals` applies
/// none.
pub open spec fn binary_operator_of(operator: AssignmentOperator) -> Option<BinaryOperator> {
    match operator {
        AssignmentOperator::Equals => None,
        AssignmentOperator::Addition => Some(BinaryOperator::Plus),
        AssignmentOperator::Subtraction => Some(BinaryOperator::Minus),
        AssignmentOperator::Multiplication => Some(BinaryOperator::Multiply),
        AssignmentOperator::Division => Some(BinaryOperator::Divide),
        AssignmentOperator::Modulation => Some(BinaryOperator::Modulo),
    }
}

/// Maps a compound assignment operator to the binary operator it stands for.
pub fn compound_operator(operator: AssignmentOperator) -> (r: Option<BinaryOperator>)
    ensures
        r == binary_operator_of(operator),
{
    match operator {
        AssignmentOperator::Equals => None,
        AssignmentOperator::Addition => Some(BinaryOperator::Plus),
        AssignmentOperator::Subtraction => Some(BinaryOperator::Minus),
        AssignmentOperator::Multiplication => Some(BinaryOperator::Multiply),
        AssignmentOperator::Division => Some(BinaryOperator::Divide),
        AssignmentOperator::Modulation => Some(BinaryOperator::Modulo),
    }
}

} // verus!
