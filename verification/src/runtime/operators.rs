//! The operators of the language on values.

use crate::ast::BinaryOperator;
use crate::ast::LogicalOperator;
use crate::ast::UnaryOperator;
use crate::host::DecimalFunction;
use crate::host::Host;
use crate::runtime::error::ErrorView;
use crate::runtime::error::InterpreterError;
use crate::runtime::error::outcome;
use crate::runtime::interpreter::Interpreter;
use crate::text::text;
use crate::values::clone_value;
use crate::values::decimal::DecimalValue;
use crate::values::integer::IntegerValue;
use crate::values::lemma_value_view;
use crate::values::Value;
use crate::values::ValueView;
use vstd::prelude::*;

verus! {

/// The quotient of two integers, rounded toward zero.
pub open spec fn truncated_quotient(x: int, d: int) -> int {
    if x >= 0 && d > 0 {
        x / d
    } else if x < 0 && d < 0 {
        (-x) / (-d)
    } else if x < 0 {
        -((-x) / d)
    } else {
        -(x / (-d))
    }
}

/// The remainder of a division that rounds toward zero. It has the sign of
/// the dividend.
pub open spec fn truncated_remainder(x: int, d: int) -> int {
    if x >= 0 && d > 0 {
        x % d
    } else if x < 0 && d < 0 {
        -((-x) % (-d))
    } else if x < 0 {
        -((-x) % d)
    } else {
        x % (-d)
    }
}

/// An integer as the result of `operator`, where the machine has it.
pub open spec fn integer_outcome(v: int, operator: BinaryOperator) -> Result<ValueView, ErrorView> {
    if isize::MIN <= v <= isize::MAX {
        Ok(ValueView::Integer(v))
    } else {
        Err(ErrorView::UnsupportedBinaryOperator(operator))
    }
}

/// What a binary operator gives for two integers. Arithmetic gives an
/// integer, and fails where the result is no integer of the machine or the
/// divisor is zero; a comparison gives a boolean.
pub open spec fn integer_binary(left: int, right: int, operator: BinaryOperator) -> Result<
    ValueView,
    ErrorView,
> {
    match operator {
        BinaryOperator::Plus => integer_outcome(left + right, operator),
        BinaryOperator::Minus => integer_outcome(left - right, operator),
        BinaryOperator::Multiply => integer_outcome(left * right, operator),
        BinaryOperator::Divide => if right == 0 {
            Err(ErrorView::UnsupportedBinaryOperator(operator))
        } else {
            integer_outcome(truncated_quotient(left, right), operator)
        },
        BinaryOperator::Modulo => if right == 0 || (left == isize::MIN && right == -1) {
            Err(ErrorView::UnsupportedBinaryOperator(operator))
        } else {
            Ok(ValueView::Integer(truncated_remainder(left, right)))
        },
        BinaryOperator::GreaterThan => Ok(ValueView::Boolean(left > right)),
        BinaryOperator::LessThan => Ok(ValueView::Boolean(left < right)),
        BinaryOperator::NotEquals => Ok(ValueView::Boolean(left != right)),
        BinaryOperator::IsEquals => Ok(ValueView::Boolean(left == right)),
    }
}

/// The operator compares; it does not compute a number.
pub open spec fn compares(operator: BinaryOperator) -> bool {
    operator == BinaryOperator::GreaterThan || operator == BinaryOperator::LessThan || operator
        == BinaryOperator::NotEquals || operator == BinaryOperator::IsEquals
}

/// What a binary operator gives for two texts: `==` compares them, every
/// other operator fails.
pub open spec fn string_binary(left: Seq<char>, right: Seq<char>, operator: BinaryOperator) -> Result<
    ValueView,
    ErrorView,
> {
    if operator == BinaryOperator::IsEquals {
        Ok(ValueView::Boolean(left == right))
    } else {
        Err(ErrorView::InvalidCondition(ValueView::String(left)))
    }
}

/// The value is a number.
pub open spec fn is_number(v: ValueView) -> bool {
    v is Integer || v is Decimal
}

/// What a binary operator gives for two values, where the host has no part in
/// it. Two numbers are computed with or compared, two texts compared; any
/// other pair gives `null`. With a decimal number among two numbers the
/// result is the host's: nothing is said of it here.
pub open spec fn binary_value(left: ValueView, right: ValueView, operator: BinaryOperator) -> Option<
    Result<ValueView, ErrorView>,
> {
    if is_number(left) && is_number(right) {
        match (left, right) {
            (ValueView::Integer(l), ValueView::Integer(r)) => Some(integer_binary(l, r, operator)),
            _ => None,
        }
    } else {
        match (left, right) {
            (ValueView::String(l), ValueView::String(r)) => Some(string_binary(l, r, operator)),
            _ => Some(Ok(ValueView::Null)),
        }
    }
}

/// What a unary operator gives for a value, where the host has no part in it.
/// `+` gives the value, `-` the negation of a number, `!` the negation of a
/// boolean. The error names the operand, `operand`.
pub open spec fn unary_value(
    target: ValueView,
    operator: UnaryOperator,
    operand: crate::ast::Node,
) -> Option<Result<ValueView, ErrorView>> {
    match operator {
        UnaryOperator::Plus => Some(Ok(target)),
        UnaryOperator::Minus => match target {
            ValueView::Decimal(_) => None,
            ValueView::Integer(i) => if -i <= isize::MAX {
                Some(Ok(ValueView::Integer(-i)))
            } else {
                Some(Err(ErrorView::UnsupportedUnaryOperator(operator)))
            },
            _ => Some(Err(ErrorView::UnexpectedNode(operand))),
        },
        UnaryOperator::Negation => match target {
            ValueView::Boolean(b) => Some(Ok(ValueView::Boolean(!b))),
            _ => Some(Err(ErrorView::UnexpectedNode(operand))),
        },
    }
}

/// What a logical operator gives for two values: both have to be booleans.
pub open spec fn logical_value(left: ValueView, right: ValueView, operator: LogicalOperator) -> Result<
    ValueView,
    ErrorView,
> {
    match (left, right) {
        (ValueView::Boolean(l), ValueView::Boolean(r)) => Ok(
            ValueView::Boolean(
                match operator {
                    LogicalOperator::And => l && r,
                    LogicalOperator::Or => l || r,
                },
            ),
        ),
        (ValueView::Boolean(_), _) => Err(ErrorView::InvalidValue(right, "boolean"@)),
        _ => Err(ErrorView::InvalidValue(left, "boolean"@)),
    }
}

impl Interpreter {
    /// The integer that a value is.
    pub fn get_integer_value(value: &Value) -> (r: Result<IntegerValue, InterpreterError>)
        ensures
            match value@ {
                ValueView::Integer(i) => r is Ok && r->Ok_0.value == i,
                _ => r is Err && r->Err_0@ == ErrorView::ValueCastError(value@, "integer"@),
            },
    {
        proof {
            lemma_value_view(*value);
        }
        match value {
            Value::Integer(i) => Ok(IntegerValue { value: i.value }),
            _ => Err(InterpreterError::ValueCastError(clone_value(value), text("integer"))),
        }
    }

    /// The decimal number that a number is. The host is asked to convert an
    /// integer, and its answer is the number; for any other value it is not
    /// asked.
    pub fn get_decimal_value<H: Host>(value: &Value, host: &mut H) -> (r: Result<
        DecimalValue,
        InterpreterError,
    >)
        ensures
            match value@ {
                ValueView::Decimal(d) => r is Ok && r->Ok_0.bits == d,
                ValueView::Integer(_) => r is Ok,
                _ => r is Err && r->Err_0@ == ErrorView::ValueCastError(value@, "decimal"@),
            },
            value@ is Integer ==> exists|asked: &mut H, i: isize, bits: u64|
                call_ensures(H::decimal_from_integer, (asked, i), bits) && value@
                    == ValueView::Integer(i as int) && mut_ref_current(asked) == *old(host)
                    && mut_ref_future(asked) == *final(host) && r is Ok && r->Ok_0.bits == bits,
            !(value@ is Integer) ==> *final(host) == *old(host),
    {
        proof {
            lemma_value_view(*value);
        }
        match value {
            Value::Decimal(d) => Ok(DecimalValue { bits: d.bits }),
            Value::Integer(i) => Ok(DecimalValue { bits: host.decimal_from_integer(i.value) }),
            _ => Err(InterpreterError::ValueCastError(clone_value(value), text("decimal"))),
        }
    }

    /// A binary operator on two decimal numbers. The host is asked once, with
    /// the operator and the two numbers in their order: to compare, where
    /// the operator compares, and else to compute. Its answer is the result,
    /// a boolean or a decimal number.
    pub fn eval_decimals<H: Host>(left: u64, right: u64, operator: BinaryOperator, host: &mut H) -> (r:
        Result<Value, InterpreterError>)
        ensures
            r is Ok,
            compares(operator) ==> exists|asked: &mut H, holds: bool|
                call_ensures(H::decimal_compare, (asked, operator, left, right), holds)
                    && mut_ref_current(asked) == *old(host) && mut_ref_future(asked) == *final(host)
                    && r->Ok_0@ == ValueView::Boolean(holds),
            !compares(operator) ==> exists|asked: &mut H, bits: u64|
                call_ensures(H::decimal_arithmetic, (asked, operator, left, right), bits)
                    && mut_ref_current(asked) == *old(host) && mut_ref_future(asked) == *final(host)
                    && r->Ok_0@ == ValueView::Decimal(bits),
    {
        match operator {
            BinaryOperator::GreaterThan
            | BinaryOperator::LessThan
            | BinaryOperator::NotEquals
            | BinaryOperator::IsEquals => Ok(
                Value::boolean(host.decimal_compare(operator, left, right)),
            ),
            _ => Ok(Value::decimal(host.decimal_arithmetic(operator, left, right))),
        }
    }

    /// A binary operator on two integers.
    pub fn eval_integers(left: isize, right: isize, operator: BinaryOperator) -> (r: Result<
        Value,
        InterpreterError,
    >)
        ensures
            outcome(r) == integer_binary(left as int, right as int, operator),
    {
        let computed = match operator {
            BinaryOperator::Plus => left.checked_add(right),
            BinaryOperator::Minus => left.checked_sub(right),
            BinaryOperator::Multiply => left.checked_mul(right),
            BinaryOperator::Divide => left.checked_div(right),
            BinaryOperator::Modulo => left.checked_rem(right),
            BinaryOperator::GreaterThan => {
                return Ok(Value::boolean(left > right));
            },
            BinaryOperator::LessThan => {
                return Ok(Value::boolean(left < right));
            },
            BinaryOperator::NotEquals => {
                return Ok(Value::boolean(left != right));
            },
            BinaryOperator::IsEquals => {
                return Ok(Value::boolean(left == right));
            },
        };
        match computed {
            Some(v) => Ok(Value::integer(v)),
            None => Err(InterpreterError::UnsupportedBinaryOperator(operator)),
        }
    }

    /// A binary operator on two numbers: on integers where both are, else on
    /// decimal numbers. Where one of the two is a decimal number, the host is
    /// first asked to convert the other, if that is an integer, and then
    /// asked once with the operator and the two decimal numbers in their
    /// order; its last answer is the result. In every other case the host is
    /// not asked.
    pub fn eval_numeric_binary_expression<H: Host>(
        left: &Value,
        right: &Value,
        operator: BinaryOperator,
        host: &mut H,
    ) -> (r: Result<Value, InterpreterError>)
        ensures
            is_number(left@) && is_number(right@) ==> (binary_value(left@, right@, operator)
                matches Some(o) ==> outcome(r) == o),
            is_number(left@) && is_number(right@) && (left@ is Decimal || right@ is Decimal) ==> r
                is Ok && (compares(operator) ==> r->Ok_0@ is Boolean) && (!compares(operator)
                ==> r->Ok_0@ is Decimal),
            !is_number(left@) ==> r is Err && r->Err_0@ == ErrorView::UnsupportedValue(left@),
            is_number(left@) && !is_number(right@) ==> r is Err && r->Err_0@
                == ErrorView::UnsupportedValue(right@),
            left@ is Decimal && right@ is Decimal ==> (compares(operator) ==> exists|
                asked: &mut H,
                holds: bool,
            |
                    call_ensures(
                        H::decimal_compare,
                        (asked, operator, left@->Decimal_0, right@->Decimal_0),
                        holds,
                    )
                        && mut_ref_current(asked) == *old(host)
                        && mut_ref_future(asked) == *final(host)
                        && r is Ok && r->Ok_0@ == ValueView::Boolean(holds))
                && (!compares(operator) ==> exists|asked: &mut H, bits: u64|
                    call_ensures(
                        H::decimal_arithmetic,
                        (asked, operator, left@->Decimal_0, right@->Decimal_0),
                        bits,
                    )
                        && mut_ref_current(asked) == *old(host)
                        && mut_ref_future(asked) == *final(host)
                        && r is Ok && r->Ok_0@ == ValueView::Decimal(bits)),
            left@ is Integer && right@ is Decimal ==> exists|first: &mut H, i: isize, x: u64|
                call_ensures(H::decimal_from_integer, (first, i), x)
                    && left@ == ValueView::Integer(i as int)
                    && mut_ref_current(first) == *old(host)
                    && (compares(operator) ==> exists|asked: &mut H, holds: bool|
                        call_ensures(
                            H::decimal_compare,
                            (asked, operator, x, right@->Decimal_0),
                            holds,
                        )
                            && mut_ref_current(asked) == mut_ref_future(first)
                            && mut_ref_future(asked) == *final(host)
                            && r is Ok && r->Ok_0@ == ValueView::Boolean(holds))
                    && (!compares(operator) ==> exists|asked: &mut H, bits: u64|
                        call_ensures(
                            H::decimal_arithmetic,
                            (asked, operator, x, right@->Decimal_0),
                            bits,
                        )
                            && mut_ref_current(asked) == mut_ref_future(first)
                            && mut_ref_future(asked) == *final(host)
                            && r is Ok && r->Ok_0@ == ValueView::Decimal(bits)),
            left@ is Decimal && right@ is Integer ==> exists|first: &mut H, i: isize, y: u64|
                call_ensures(H::decimal_from_integer, (first, i), y)
                    && right@ == ValueView::Integer(i as int)
                    && mut_ref_current(first) == *old(host)
                    && (compares(operator) ==> exists|asked: &mut H, holds: bool|
                        call_ensures(
                            H::decimal_compare,
                            (asked, operator, left@->Decimal_0, y),
                            holds,
                        )
                            && mut_ref_current(asked) == mut_ref_future(first)
                            && mut_ref_future(asked) == *final(host)
                            && r is Ok && r->Ok_0@ == ValueView::Boolean(holds))
                    && (!compares(operator) ==> exists|asked: &mut H, bits: u64|
                        call_ensures(
                            H::decimal_arithmetic,
                            (asked, operator, left@->Decimal_0, y),
                            bits,
                        )
                            && mut_ref_current(asked) == mut_ref_future(first)
                            && mut_ref_future(asked) == *final(host)
                            && r is Ok && r->Ok_0@ == ValueView::Decimal(bits)),
            !(is_number(left@) && is_number(right@) && (left@ is Decimal || right@ is Decimal))
                ==> *final(host) == *old(host),
    {
        proof {
            lemma_value_view(*left);
            lemma_value_view(*right);
        }
        match (left, right) {
            (Value::Integer(l), Value::Integer(r)) => Self::eval_integers(
                l.value,
                r.value,
                operator,
            ),
            (Value::Integer(_), Value::Decimal(_))
            | (Value::Decimal(_), Value::Integer(_))
            | (Value::Decimal(_), Value::Decimal(_)) => {
                let l = match Self::get_decimal_value(left, host) {
                    Ok(l) => l,
                    Err(e) => {
                        return Err(e);
                    },
                };
                let r = match Self::get_decimal_value(right, host) {
                    Ok(r) => r,
                    Err(e) => {
                        return Err(e);
                    },
                };
                Self::eval_decimals(l.bits, r.bits, operator, host)
            },
            (Value::Integer(_), _) | (Value::Decimal(_), _) => Err(
                InterpreterError::UnsupportedValue(clone_value(right)),
            ),
            _ => Err(InterpreterError::UnsupportedValue(clone_value(left))),
        }
    }

    /// A binary operator on two texts.
    pub fn eval_string_binary_expression(left: &str, right: &str, operator: BinaryOperator) -> (r:
        Result<Value, InterpreterError>)
        ensures
            outcome(r) == string_binary(left@, right@, operator),
    {
        match operator {
            BinaryOperator::IsEquals => {
                let l = text(left);
                let r = text(right);
                Ok(Value::boolean(l == r))
            },
            _ => Err(InterpreterError::InvalidCondition(Value::string(text(left)))),
        }
    }

    /// A binary operator on two values. The host has a part where both are
    /// numbers and one of them is a decimal number, and is then asked as
    /// `eval_numeric_binary_expression` says.
    pub fn eval_binary_values<H: Host>(
        left: &Value,
        right: &Value,
        operator: BinaryOperator,
        host: &mut H,
    ) -> (r: Result<Value, InterpreterError>)
        ensures
            binary_value(left@, right@, operator) matches Some(o) ==> outcome(r) == o,
            binary_value(left@, right@, operator) is None ==> r is Ok && (compares(operator) ==> r->Ok_0@
                is Boolean) && (!compares(operator) ==> r->Ok_0@ is Decimal),
            left@ is Decimal && right@ is Decimal ==> (compares(operator) ==> exists|
                asked: &mut H,
                holds: bool,
            |
                    call_ensures(
                        H::decimal_compare,
                        (asked, operator, left@->Decimal_0, right@->Decimal_0),
                        holds,
                    )
                        && mut_ref_current(asked) == *old(host)
                        && mut_ref_future(asked) == *final(host)
                        && r is Ok && r->Ok_0@ == ValueView::Boolean(holds))
                && (!compares(operator) ==> exists|asked: &mut H, bits: u64|
                    call_ensures(
                        H::decimal_arithmetic,
                        (asked, operator, left@->Decimal_0, right@->Decimal_0),
                        bits,
                    )
                        && mut_ref_current(asked) == *old(host)
                        && mut_ref_future(asked) == *final(host)
                        && r is Ok && r->Ok_0@ == ValueView::Decimal(bits)),
            left@ is Integer && right@ is Decimal ==> exists|first: &mut H, i: isize, x: u64|
                call_ensures(H::decimal_from_integer, (first, i), x)
                    && left@ == ValueView::Integer(i as int)
                    && mut_ref_current(first) == *old(host)
                    && (compares(operator) ==> exists|asked: &mut H, holds: bool|
                        call_ensures(
                            H::decimal_compare,
                            (asked, operator, x, right@->Decimal_0),
                            holds,
                        )
                            && mut_ref_current(asked) == mut_ref_future(first)
                            && mut_ref_future(asked) == *final(host)
                            && r is Ok && r->Ok_0@ == ValueView::Boolean(holds))
                    && (!compares(operator) ==> exists|asked: &mut H, bits: u64|
                        call_ensures(
                            H::decimal_arithmetic,
                            (asked, operator, x, right@->Decimal_0),
                            bits,
                        )
                            && mut_ref_current(asked) == mut_ref_future(first)
                            && mut_ref_future(asked) == *final(host)
                            && r is Ok && r->Ok_0@ == ValueView::Decimal(bits)),
            left@ is Decimal && right@ is Integer ==> exists|first: &mut H, i: isize, y: u64|
                call_ensures(H::decimal_from_integer, (first, i), y)
                    && right@ == ValueView::Integer(i as int)
                    && mut_ref_current(first) == *old(host)
                    && (compares(operator) ==> exists|asked: &mut H, holds: bool|
                        call_ensures(
                            H::decimal_compare,
                            (asked, operator, left@->Decimal_0, y),
                            holds,
                        )
                            && mut_ref_current(asked) == mut_ref_future(first)
                            && mut_ref_future(asked) == *final(host)
                            && r is Ok && r->Ok_0@ == ValueView::Boolean(holds))
                    && (!compares(operator) ==> exists|asked: &mut H, bits: u64|
                        call_ensures(
                            H::decimal_arithmetic,
                            (asked, operator, left@->Decimal_0, y),
                            bits,
                        )
                            && mut_ref_current(asked) == mut_ref_future(first)
                            && mut_ref_future(asked) == *final(host)
                            && r is Ok && r->Ok_0@ == ValueView::Decimal(bits)),
            !(is_number(left@) && is_number(right@) && (left@ is Decimal || right@ is Decimal))
                ==> *final(host) == *old(host),
    {
        proof {
            lemma_value_view(*left);
            lemma_value_view(*right);
        }
        match (left, right) {
            (Value::Integer(_), Value::Integer(_))
            | (Value::Integer(_), Value::Decimal(_))
            | (Value::Decimal(_), Value::Integer(_))
            | (Value::Decimal(_), Value::Decimal(_)) => Self::eval_numeric_binary_expression(
                left,
                right,
                operator,
                host,
            ),
            (Value::String(l), Value::String(r)) => Self::eval_string_binary_expression(
                l.value.as_str(),
                r.value.as_str(),
                operator,
            ),
            _ => Ok(Value::null()),
        }
    }

    /// A unary operator on a value. The error names the operand.
    pub fn eval_unary_value<H: Host>(
        target: Value,
        operator: UnaryOperator,
        operand: &std::sync::Arc<crate::ast::Node>,
        host: &mut H,
    ) -> (r: Result<Value, InterpreterError>)
        ensures
            unary_value(target@, operator, **operand) matches Some(o) ==> outcome(r) == o,
            unary_value(target@, operator, **operand) is None ==> exists|
                asked: &mut H,
                d: u64,
                bits: u64,
            |
                call_ensures(H::decimal_apply, (asked, DecimalFunction::Negate, d), bits) && target@
                    == ValueView::Decimal(d) && mut_ref_current(asked) == *old(host)
                    && mut_ref_future(asked) == *final(host) && r is Ok && r->Ok_0@
                    == ValueView::Decimal(bits),
            unary_value(target@, operator, **operand) is Some ==> *final(host) == *old(host),
    {
        proof {
            lemma_value_view(target);
        }
        match operator {
            UnaryOperator::Plus => Ok(target),
            UnaryOperator::Minus => match &target {
                Value::Decimal(d) => Ok(
                    Value::decimal(host.decimal_apply(DecimalFunction::Negate, d.bits)),
                ),
                Value::Integer(i) => {
                    if i.value == isize::MIN {
                        Err(InterpreterError::UnsupportedUnaryOperator(operator))
                    } else {
                        Ok(Value::integer(-i.value))
                    }
                },
                _ => Err(InterpreterError::UnexpectedNode(crate::ast::share_node(operand))),
            },
            UnaryOperator::Negation => match &target {
                Value::Boolean(b) => Ok(Value::boolean(!b.value)),
                _ => Err(InterpreterError::UnexpectedNode(crate::ast::share_node(operand))),
            },
        }
    }

    /// A logical operator on two values.
    pub fn eval_logical_values(left: Value, right: Value, operator: LogicalOperator) -> (r: Result<
        Value,
        InterpreterError,
    >)
        ensures
            outcome(r) == logical_value(left@, right@, operator),
    {
        proof {
            lemma_value_view(left);
            lemma_value_view(right);
        }
        match (&left, &right) {
            (Value::Boolean(l), Value::Boolean(r)) => Ok(
                Value::boolean(
                    match operator {
                        LogicalOperator::And => l.value && r.value,
                        LogicalOperator::Or => l.value || r.value,
                    },
                ),
            ),
            (Value::Boolean(_), _) => Err(InterpreterError::InvalidValue(right, text("boolean"))),
            _ => Err(InterpreterError::InvalidValue(left, text("boolean"))),
        }
    }
}

} // verus!
