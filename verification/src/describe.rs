//! A node as text, for the messages of errors.
//!
//! The text names the kind of the node and, between brackets, what the node
//! holds, as a `Debug` form on one line would.

use crate::ast::AssignmentOperator;
use crate::ast::BinaryOperator;
use crate::ast::LogicalOperator;
use crate::ast::Node;
use crate::ast::UnaryOperator;
use crate::builtin::stringify::boolean_text;
use crate::text::count_to_text;
use crate::text::identifier_to_text;
use crate::text::integer_text;
use crate::text::joined;
use crate::text::quoted_of;
use crate::text::quoted_text;
use crate::text::text;
use std::sync::Arc;
use vstd::prelude::*;

verus! {

/// The name of a binary operator.
pub open spec fn binary_operator_name(operator: BinaryOperator) -> Seq<char> {
    match operator {
        BinaryOperator::Plus => "Plus"@,
        BinaryOperator::Minus => "Minus"@,
        BinaryOperator::Multiply => "Multiply"@,
        BinaryOperator::Divide => "Divide"@,
        BinaryOperator::Modulo => "Modulo"@,
        BinaryOperator::LessThan => "LessThan"@,
        BinaryOperator::GreaterThan => "GreaterThan"@,
        BinaryOperator::IsEquals => "IsEquals"@,
        BinaryOperator::NotEquals => "NotEquals"@,
    }
}

/// The name of a unary operator.
pub open spec fn unary_operator_name(operator: UnaryOperator) -> Seq<char> {
    match operator {
        UnaryOperator::Plus => "Plus"@,
        UnaryOperator::Minus => "Minus"@,
        UnaryOperator::Negation => "Negation"@,
    }
}

/// The name of a logical operator.
pub open spec fn logical_operator_name(operator: LogicalOperator) -> Seq<char> {
    match operator {
        LogicalOperator::And => "And"@,
        LogicalOperator::Or => "Or"@,
    }
}

/// The name of an assignment operator.
pub open spec fn assignment_operator_name(operator: AssignmentOperator) -> Seq<char> {
    match operator {
        AssignmentOperator::Equals => "Equals"@,
        AssignmentOperator::Addition => "Addition"@,
        AssignmentOperator::Subtraction => "Subtraction"@,
        AssignmentOperator::Multiplication => "Multiplication"@,
        AssignmentOperator::Division => "Division"@,
        AssignmentOperator::Modulation => "Modulation"@,
    }
}

/// `true` or `false`.
pub open spec fn flag_text(flag: bool) -> Seq<char> {
    if flag {
        "true"@
    } else {
        "false"@
    }
}

/// The texts of the first `n` nodes, with a comma and a space between them.
pub open spec fn nodes_text(nodes: Vec<Arc<Node>>, n: int) -> Seq<char>
    decreases nodes, n,
{
    if n <= 0 || n > nodes.len() {
        Seq::empty()
    } else if n == 1 {
        node_text(*nodes[0])
    } else {
        nodes_text(nodes, n - 1) + ", "@ + node_text(*nodes[n - 1])
    }
}

/// The text of a list of nodes.
pub open spec fn list_text(nodes: Vec<Arc<Node>>) -> Seq<char>
    decreases nodes, nodes.len() + 1,
{
    "["@ + nodes_text(nodes, nodes.len() as int) + "]"@
}

/// The text of a node that may be missing.
pub open spec fn optional_text(node: Option<Arc<Node>>) -> Seq<char>
    decreases node,
{
    match node {
        Some(n) => "Some("@ + node_text(*n) + ")"@,
        None => "None"@,
    }
}

/// The text of a node.
pub open spec fn node_text(node: Node) -> Seq<char>
    decreases node, 0int,
{
    match node {
        Node::Program(statements) => "Program("@ + list_text(statements) + ")"@,
        Node::BlockStatement(statements) => "BlockStatement("@ + list_text(statements) + ")"@,
        Node::IntegerLiteral(value) => "IntegerLiteral("@ + integer_text(value as int) + ")"@,
        Node::DecimalLiteral(bits) => "DecimalLiteral("@ + integer_text(bits as int) + ")"@,
        Node::StringLiteral(value) => "StringLiteral("@ + quoted_of(value@) + ")"@,
        Node::Identifier(name) => "Identifier("@ + quoted_of(name@) + ")"@,
        Node::ArrayExpression(items) => "ArrayExpression("@ + list_text(items) + ")"@,
        Node::BinaryExpression(left, operator, right) => "BinaryExpression("@ + node_text(*left)
            + ", "@ + binary_operator_name(operator) + ", "@ + node_text(*right) + ")"@,
        Node::UnaryExpression(expression, operator) => "UnaryExpression("@ + node_text(
            *expression,
        ) + ", "@ + unary_operator_name(operator) + ")"@,
        Node::LogicalExpression(left, operator, right) => "LogicalExpression("@ + node_text(*left)
            + ", "@ + logical_operator_name(operator) + ", "@ + node_text(*right) + ")"@,
        Node::AssignmentExpression(left, operator, right) => "AssignmentExpression("@ + node_text(
            *left,
        ) + ", "@ + assignment_operator_name(operator) + ", "@ + node_text(*right) + ")"@,
        Node::VariableDeclaration(name, value, is_constant) => "VariableDeclaration("@ + quoted_of(
            name@,
        ) + ", "@ + optional_text(value) + ", "@ + flag_text(is_constant) + ")"@,
        Node::FunctionDeclaration(name, parameters, body) => "FunctionDeclaration("@ + quoted_of(
            name@,
        ) + ", "@ + list_text(parameters) + ", "@ + node_text(*body) + ")"@,
        Node::CallExpression(callee, arguments) => "CallExpression("@ + node_text(*callee) + ", "@
            + list_text(arguments) + ")"@,
        Node::MemberExpression(object, property, computed) => "MemberExpression("@ + node_text(
            *object,
        ) + ", "@ + node_text(*property) + ", "@ + flag_text(computed) + ")"@,
        Node::IfStatement(condition, body, alternate) => "IfStatement("@ + node_text(*condition)
            + ", "@ + node_text(*body) + ", "@ + optional_text(alternate) + ")"@,
        Node::WhileStatement(condition, body) => "WhileStatement("@ + node_text(*condition) + ", "@
            + node_text(*body) + ")"@,
        Node::ReturnStatement(value) => "ReturnStatement("@ + node_text(*value) + ")"@,
        Node::ClassDeclaration(name, super_class, body) => "ClassDeclaration("@ + quoted_of(name@)
            + ", "@ + optional_text(super_class) + ", "@ + list_text(body) + ")"@,
        Node::PropertyDefinition(name, value, is_static) => "PropertyDefinition("@ + quoted_of(
            name@,
        ) + ", "@ + node_text(*value) + ", "@ + flag_text(is_static) + ")"@,
        Node::MethodDefinition(name, parameters, body, is_static) => "MethodDefinition("@
            + quoted_of(name@) + ", "@ + list_text(parameters) + ", "@ + node_text(*body) + ", "@
            + flag_text(is_static) + ")"@,
    }
}

/// The name of a binary operator.
pub fn name_of_binary_operator(operator: BinaryOperator) -> (r: String)
    ensures
        r@ == binary_operator_name(operator),
{
    match operator {
        BinaryOperator::Plus => text("Plus"),
        BinaryOperator::Minus => text("Minus"),
        BinaryOperator::Multiply => text("Multiply"),
        BinaryOperator::Divide => text("Divide"),
        BinaryOperator::Modulo => text("Modulo"),
        BinaryOperator::LessThan => text("LessThan"),
        BinaryOperator::GreaterThan => text("GreaterThan"),
        BinaryOperator::IsEquals => text("IsEquals"),
        BinaryOperator::NotEquals => text("NotEquals"),
    }
}

/// The name of a unary operator.
pub fn name_of_unary_operator(operator: UnaryOperator) -> (r: String)
    ensures
        r@ == unary_operator_name(operator),
{
    match operator {
        UnaryOperator::Plus => text("Plus"),
        UnaryOperator::Minus => text("Minus"),
        UnaryOperator::Negation => text("Negation"),
    }
}

/// The name of a logical operator.
pub fn name_of_logical_operator(operator: LogicalOperator) -> (r: String)
    ensures
        r@ == logical_operator_name(operator),
{
    match operator {
        LogicalOperator::And => text("And"),
        LogicalOperator::Or => text("Or"),
    }
}

/// The name of an assignment operator.
pub fn name_of_assignment_operator(operator: AssignmentOperator) -> (r: String)
    ensures
        r@ == assignment_operator_name(operator),
{
    match operator {
        AssignmentOperator::Equals => text("Equals"),
        AssignmentOperator::Addition => text("Addition"),
        AssignmentOperator::Subtraction => text("Subtraction"),
        AssignmentOperator::Multiplication => text("Multiplication"),
        AssignmentOperator::Division => text("Division"),
        AssignmentOperator::Modulation => text("Modulation"),
    }
}

/// The text of a list of nodes.
pub fn describe_list(nodes: &Vec<Arc<Node>>) -> (r: String)
    ensures
        r@ == list_text(*nodes),
    decreases nodes, nodes.len() + 1,
{
    let mut out = text("[");
    let mut i: usize = 0;
    while i < nodes.len()
        invariant
            i <= nodes.len(),
            out@ == "["@ + nodes_text(*nodes, i as int),
        decreases nodes.len() - i,
    {
        if i > 0 {
            out = joined(out, ", ");
        }
        let item = describe(&nodes[i]);
        out = joined(out, item.as_str());
        i = i + 1;
        assert(out@ =~= "["@ + nodes_text(*nodes, i as int));
    }
    joined(out, "]")
}

/// The text of a node that may be missing.
pub fn describe_optional(node: &Option<Arc<Node>>) -> (r: String)
    ensures
        r@ == optional_text(*node),
    decreases node,
{
    match node {
        Some(n) => {
            let out = joined(text("Some("), describe(n).as_str());
            joined(out, ")")
        },
        None => text("None"),
    }
}

/// Three parts between the brackets of a kind.
fn bracket3(kind: &str, a: &str, b: &str, c: &str) -> (r: String)
    ensures
        r@ == kind@ + a@ + ", "@ + b@ + ", "@ + c@ + ")"@,
{
    let mut out = joined(text(kind), a);
    out = joined(out, ", ");
    out = joined(out, b);
    out = joined(out, ", ");
    out = joined(out, c);
    joined(out, ")")
}

/// Two parts between the brackets of a kind.
fn bracket2(kind: &str, a: &str, b: &str) -> (r: String)
    ensures
        r@ == kind@ + a@ + ", "@ + b@ + ")"@,
{
    let mut out = joined(text(kind), a);
    out = joined(out, ", ");
    out = joined(out, b);
    joined(out, ")")
}

/// One part between the brackets of a kind.
fn bracket1(kind: &str, a: &str) -> (r: String)
    ensures
        r@ == kind@ + a@ + ")"@,
{
    let out = joined(text(kind), a);
    joined(out, ")")
}

/// The text of a node.
pub fn describe(node: &Arc<Node>) -> (r: String)
    ensures
        r@ == node_text(**node),
    decreases **node, 0int,
{
    match &**node {
        Node::Program(statements) => bracket1("Program(", describe_list(statements).as_str()),
        Node::BlockStatement(statements) => bracket1(
            "BlockStatement(",
            describe_list(statements).as_str(),
        ),
        Node::IntegerLiteral(value) => bracket1("IntegerLiteral(", count_to_text(*value).as_str()),
        Node::DecimalLiteral(bits) => bracket1("DecimalLiteral(", identifier_to_text(*bits).as_str()),
        Node::StringLiteral(value) => bracket1(
            "StringLiteral(",
            quoted_text(value.as_str()).as_str(),
        ),
        Node::Identifier(name) => bracket1("Identifier(", quoted_text(name.as_str()).as_str()),
        Node::ArrayExpression(items) => bracket1("ArrayExpression(", describe_list(items).as_str()),
        Node::BinaryExpression(left, operator, right) => bracket3(
            "BinaryExpression(",
            describe(left).as_str(),
            name_of_binary_operator(*operator).as_str(),
            describe(right).as_str(),
        ),
        Node::UnaryExpression(expression, operator) => bracket2(
            "UnaryExpression(",
            describe(expression).as_str(),
            name_of_unary_operator(*operator).as_str(),
        ),
        Node::LogicalExpression(left, operator, right) => bracket3(
            "LogicalExpression(",
            describe(left).as_str(),
            name_of_logical_operator(*operator).as_str(),
            describe(right).as_str(),
        ),
        Node::AssignmentExpression(left, operator, right) => bracket3(
            "AssignmentExpression(",
            describe(left).as_str(),
            name_of_assignment_operator(*operator).as_str(),
            describe(right).as_str(),
        ),
        Node::VariableDeclaration(name, value, is_constant) => bracket3(
            "VariableDeclaration(",
            quoted_text(name.as_str()).as_str(),
            describe_optional(value).as_str(),
            boolean_text(*is_constant).as_str(),
        ),
        Node::FunctionDeclaration(name, parameters, body) => bracket3(
            "FunctionDeclaration(",
            quoted_text(name.as_str()).as_str(),
            describe_list(parameters).as_str(),
            describe(body).as_str(),
        ),
        Node::CallExpression(callee, arguments) => bracket2(
            "CallExpression(",
            describe(callee).as_str(),
            describe_list(arguments).as_str(),
        ),
        Node::MemberExpression(object, property, computed) => bracket3(
            "MemberExpression(",
            describe(object).as_str(),
            describe(property).as_str(),
            boolean_text(*computed).as_str(),
        ),
        Node::IfStatement(condition, body, alternate) => bracket3(
            "IfStatement(",
            describe(condition).as_str(),
            describe(body).as_str(),
            describe_optional(alternate).as_str(),
        ),
        Node::WhileStatement(condition, body) => bracket2(
            "WhileStatement(",
            describe(condition).as_str(),
            describe(body).as_str(),
        ),
        Node::ReturnStatement(value) => bracket1("ReturnStatement(", describe(value).as_str()),
        Node::ClassDeclaration(name, super_class, body) => bracket3(
            "ClassDeclaration(",
            quoted_text(name.as_str()).as_str(),
            describe_optional(super_class).as_str(),
            describe_list(body).as_str(),
        ),
        Node::PropertyDefinition(name, value, is_static) => bracket3(
            "PropertyDefinition(",
            quoted_text(name.as_str()).as_str(),
            describe(value).as_str(),
            boolean_text(*is_static).as_str(),
        ),
        Node::MethodDefinition(name, parameters, body, is_static) => {
            let mut out = joined(text("MethodDefinition("), quoted_text(name.as_str()).as_str());
            out = joined(out, ", ");
            out = joined(out, describe_list(parameters).as_str());
            out = joined(out, ", ");
            out = joined(out, describe(body).as_str());
            out = joined(out, ", ");
            out = joined(out, boolean_text(*is_static).as_str());
            joined(out, ")")
        },
    }
}

} // verus!
