use crate::ast::BinaryOperator;
use crate::ast::Node;
use crate::ast::UnaryOperator;
use crate::builtin::stringify::decimal_free;
use crate::builtin::stringify::stringify;
use crate::builtin::stringify::text_of;
use crate::builtin::stringify::writes;
use crate::describe::binary_operator_name;
use crate::describe::describe;
use crate::describe::name_of_binary_operator;
use crate::describe::name_of_unary_operator;
use crate::describe::node_text;
use crate::describe::unary_operator_name;
use crate::environment::EnvironmentId;
use crate::host::Host;
use crate::text::count_to_text;
use crate::text::identifier_to_text;
use crate::text::integer_text;
use crate::text::joined;
use crate::text::quoted_of;
use crate::text::quoted_text;
use crate::text::text;
use crate::values::Value;
use crate::values::ValueView;
use std::sync::Arc;
use vstd::prelude::*;

verus! {

/// Why an evaluation stopped. The first error ends the evaluation; none is
/// turned into a value.
#[derive(Debug)]
pub enum InterpreterError {
    UnsupportedNode(Arc<Node>),
    UnsupportedBinaryOperator(BinaryOperator),
    UnsupportedUnaryOperator(UnaryOperator),
    UnsupportedValue(Value),
    UnexpectedNode(Arc<Node>),
    UnexpectedValue(Value),
    ValueCastError(Value, String),
    VariableDeclarationExist(String),
    UnresolvedVariable(String),
    UnresolvedProperty(String),
    ReassignConstant(String),
    InvalidAssignFactor(Arc<Node>),
    InvalidFunctionCallee(Value),
    InvalidFunctionParameter(Arc<Node>),
    InvalidCondition(Value),
    InvalidValue(Value, String),
    InvalidDefaultParameter(String),
    InvalidParameterCount(usize, usize),
    UnresolvedEnvironment(EnvironmentId),
    /// The evaluation would nest deeper than its limit, or the store has no
    /// identifier left for a scope.
    LimitReached,
}

/// The model of an error.
pub enum ErrorView {
    UnsupportedNode(Node),
    UnsupportedBinaryOperator(BinaryOperator),
    UnsupportedUnaryOperator(UnaryOperator),
    UnsupportedValue(ValueView),
    UnexpectedNode(Node),
    UnexpectedValue(ValueView),
    ValueCastError(ValueView, Seq<char>),
    VariableDeclarationExist(Seq<char>),
    UnresolvedVariable(Seq<char>),
    UnresolvedProperty(Seq<char>),
    ReassignConstant(Seq<char>),
    InvalidAssignFactor(Node),
    InvalidFunctionCallee(ValueView),
    InvalidFunctionParameter(Node),
    InvalidCondition(ValueView),
    InvalidValue(ValueView, Seq<char>),
    InvalidDefaultParameter(Seq<char>),
    InvalidParameterCount(int, int),
    UnresolvedEnvironment(u64),
    LimitReached,
}

impl View for InterpreterError {
    type V = ErrorView;

    open spec fn view(&self) -> ErrorView {
        match *self {
            InterpreterError::UnsupportedNode(n) => ErrorView::UnsupportedNode(*n),
            InterpreterError::UnsupportedBinaryOperator(o) => ErrorView::UnsupportedBinaryOperator(
                o,
            ),
            InterpreterError::UnsupportedUnaryOperator(o) => ErrorView::UnsupportedUnaryOperator(o),
            InterpreterError::UnsupportedValue(v) => ErrorView::UnsupportedValue(v@),
            InterpreterError::UnexpectedNode(n) => ErrorView::UnexpectedNode(*n),
            InterpreterError::UnexpectedValue(v) => ErrorView::UnexpectedValue(v@),
            InterpreterError::ValueCastError(v, s) => ErrorView::ValueCastError(v@, s@),
            InterpreterError::VariableDeclarationExist(s) => ErrorView::VariableDeclarationExist(
                s@,
            ),
            InterpreterError::UnresolvedVariable(s) => ErrorView::UnresolvedVariable(s@),
            InterpreterError::UnresolvedProperty(s) => ErrorView::UnresolvedProperty(s@),
            InterpreterError::ReassignConstant(s) => ErrorView::ReassignConstant(s@),
            InterpreterError::InvalidAssignFactor(n) => ErrorView::InvalidAssignFactor(*n),
            InterpreterError::InvalidFunctionCallee(v) => ErrorView::InvalidFunctionCallee(v@),
            InterpreterError::InvalidFunctionParameter(n) => ErrorView::InvalidFunctionParameter(
                *n,
            ),
            InterpreterError::InvalidCondition(v) => ErrorView::InvalidCondition(v@),
            InterpreterError::InvalidValue(v, s) => ErrorView::InvalidValue(v@, s@),
            InterpreterError::InvalidDefaultParameter(s) => ErrorView::InvalidDefaultParameter(s@),
            InterpreterError::InvalidParameterCount(a, b) => ErrorView::InvalidParameterCount(
                a as int,
                b as int,
            ),
            InterpreterError::UnresolvedEnvironment(e) => ErrorView::UnresolvedEnvironment(e),
            InterpreterError::LimitReached => ErrorView::LimitReached,
        }
    }
}

/// The model of a result: the model of the value, or of the error.
pub open spec fn outcome(r: Result<Value, InterpreterError>) -> Result<ValueView, ErrorView> {
    match r {
        Ok(v) => Ok(v@),
        Err(e) => Err(e@),
    }
}

/// The message of an error, where `value_text` is the text of the value that
/// the message writes out, if it writes one out.
pub open spec fn message_around(e: ErrorView, value_text: Seq<char>) -> Seq<char> {
    match e {
        ErrorView::UnsupportedNode(node) => "This node is not supported by interpreter yet: "@
            + node_text(node),
        ErrorView::UnexpectedNode(node) => "Unexpected node: "@ + node_text(node),
        ErrorView::ValueCastError(_, cast) => "Failed to cast node to "@ + cast + ": "@
            + value_text,
        ErrorView::UnsupportedBinaryOperator(operator) => "This operator is not supported by interpreter yet: "@
            + binary_operator_name(operator),
        ErrorView::UnsupportedUnaryOperator(operator) => "This operator is not supported by interpreter yet: "@
            + unary_operator_name(operator),
        ErrorView::UnsupportedValue(_) => "Unsupported value: "@ + value_text,
        ErrorView::UnexpectedValue(_) => "Unexpected value: "@ + value_text,
        ErrorView::VariableDeclarationExist(name) => "Cannot re-declare variable \""@ + name
            + "\" as it's already defined"@,
        ErrorView::UnresolvedVariable(name) => "Cannot resolve \""@ + name
            + "\" as it doesn't exist"@,
        ErrorView::ReassignConstant(name) => "Cannot reassign \""@ + name
            + "\" as it's a constant"@,
        ErrorView::InvalidAssignFactor(node) => "Invalid left-hand side for assignment expression: "@
            + node_text(node),
        ErrorView::InvalidFunctionCallee(_) => "Invalid function callee: "@ + quoted_of(
            value_text,
        ),
        ErrorView::InvalidFunctionParameter(node) => "Invalid parameter provided in function: "@
            + node_text(node),
        ErrorView::InvalidCondition(_) => "Invalid condition: "@ + quoted_of(value_text),
        ErrorView::InvalidValue(_, expected) => "Invalid value: "@ + value_text
            + ", expected "@ + expected,
        ErrorView::InvalidDefaultParameter(name) => "Invalid default value provided for non-last argument: "@
            + name,
        ErrorView::InvalidParameterCount(expected, got) => "Invalid calle parameters count. Expected "@
            + integer_text(expected) + ", but got "@ + integer_text(got),
        ErrorView::UnresolvedProperty(name) => "Unresolved property: "@ + name,
        ErrorView::UnresolvedEnvironment(env) => "Unresolved environment: "@ + integer_text(
            env as int,
        ),
        ErrorView::LimitReached => "Limit reached"@,
    }
}

/// The value that the message of an error writes out, if it writes one out
/// as `print` does.
pub open spec fn written_value(e: ErrorView) -> Option<ValueView> {
    match e {
        ErrorView::UnsupportedValue(value) => Some(value),
        ErrorView::ValueCastError(value, _) => Some(value),
        ErrorView::UnexpectedValue(value) => Some(value),
        ErrorView::InvalidFunctionCallee(value) => Some(value),
        ErrorView::InvalidCondition(value) => Some(value),
        ErrorView::InvalidValue(value, _) => Some(value),
        _ => None,
    }
}

/// The message of an error. A value is written out as `print` writes it;
/// this is the message where that value holds no decimal number.
pub open spec fn message_text(e: ErrorView) -> Seq<char> {
    message_around(
        e,
        match written_value(e) {
            Some(v) => text_of(v),
            None => Seq::empty(),
        },
    )
}

impl InterpreterError {
    /// The message of the error. Where the message writes a value out, the
    /// host gives the text of each decimal number in it, and is asked for
    /// nothing else; the words around the value are fixed here.
    pub fn message<H: Host>(&self, host: &mut H) -> (r: String)
        ensures
            exists|value_text: Seq<char>|
                #![trigger message_around(self@, value_text)]
                r@ == message_around(self@, value_text) && (written_value(self@) matches Some(v)
                    ==> writes::<H>(v, value_text)),
            (written_value(self@) matches Some(v) ==> decimal_free(v)) ==> r@ == message_text(
                self@,
            ),
            (written_value(self@) matches Some(v) ==> decimal_free(v)) ==> *final(host) == *old(
                host,
            ),
    {
        let ghost mut value_text = Seq::<char>::empty();
        let r = match self {
            InterpreterError::UnsupportedNode(node) => joined(
                text("This node is not supported by interpreter yet: "),
                describe(node).as_str(),
            ),
            InterpreterError::UnexpectedNode(node) => joined(
                text("Unexpected node: "),
                describe(node).as_str(),
            ),
            InterpreterError::ValueCastError(value, cast) => {
                let mut out = joined(text("Failed to cast node to "), cast.as_str());
                out = joined(out, ": ");
                let written = stringify(value, host);
                proof {
                    value_text = written@;
                }
                joined(out, written.as_str())
            },
            InterpreterError::UnsupportedBinaryOperator(operator) => joined(
                text("This operator is not supported by interpreter yet: "),
                name_of_binary_operator(*operator).as_str(),
            ),
            InterpreterError::UnsupportedUnaryOperator(operator) => joined(
                text("This operator is not supported by interpreter yet: "),
                name_of_unary_operator(*operator).as_str(),
            ),
            InterpreterError::UnsupportedValue(value) => {
                let written = stringify(value, host);
                proof {
                    value_text = written@;
                }
                joined(text("Unsupported value: "), written.as_str())
            },
            InterpreterError::UnexpectedValue(value) => {
                let written = stringify(value, host);
                proof {
                    value_text = written@;
                }
                joined(text("Unexpected value: "), written.as_str())
            },
            InterpreterError::VariableDeclarationExist(variable_name) => {
                let out = joined(text("Cannot re-declare variable \""), variable_name.as_str());
                joined(out, "\" as it's already defined")
            },
            InterpreterError::UnresolvedVariable(variable_name) => {
                let out = joined(text("Cannot resolve \""), variable_name.as_str());
                joined(out, "\" as it doesn't exist")
            },
            InterpreterError::ReassignConstant(variable_name) => {
                let out = joined(text("Cannot reassign \""), variable_name.as_str());
                joined(out, "\" as it's a constant")
            },
            InterpreterError::InvalidAssignFactor(factor) => joined(
                text("Invalid left-hand side for assignment expression: "),
                describe(factor).as_str(),
            ),
            InterpreterError::InvalidFunctionCallee(value) => {
                let written = stringify(value, host);
                proof {
                    value_text = written@;
                }
                joined(text("Invalid function callee: "), quoted_text(written.as_str()).as_str())
            },
            InterpreterError::InvalidFunctionParameter(parameter) => joined(
                text("Invalid parameter provided in function: "),
                describe(parameter).as_str(),
            ),
            InterpreterError::InvalidCondition(condition) => {
                let written = stringify(condition, host);
                proof {
                    value_text = written@;
                }
                joined(text("Invalid condition: "), quoted_text(written.as_str()).as_str())
            },
            InterpreterError::InvalidValue(value, expected) => {
                let written = stringify(value, host);
                proof {
                    value_text = written@;
                }
                let mut out = joined(text("Invalid value: "), written.as_str());
                out = joined(out, ", expected ");
                joined(out, expected.as_str())
            },
            InterpreterError::InvalidDefaultParameter(name) => joined(
                text("Invalid default value provided for non-last argument: "),
                name.as_str(),
            ),
            InterpreterError::InvalidParameterCount(expected, got) => {
                let mut out = joined(
                    text("Invalid calle parameters count. Expected "),
                    count_to_text(*expected).as_str(),
                );
                out = joined(out, ", but got ");
                joined(out, count_to_text(*got).as_str())
            },
            InterpreterError::UnresolvedProperty(property) => joined(
                text("Unresolved property: "),
                property.as_str(),
            ),
            InterpreterError::UnresolvedEnvironment(env) => joined(
                text("Unresolved environment: "),
                identifier_to_text(*env).as_str(),
            ),
            InterpreterError::LimitReached => text("Limit reached"),
        };
        assert(r@ == message_around(self@, value_text));
        r
    }
}

} // verus!
