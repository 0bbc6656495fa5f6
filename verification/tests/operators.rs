use pl_interpreter::ast::BinaryOperator;
use pl_interpreter::ast::LogicalOperator;
use pl_interpreter::ast::Node;
use pl_interpreter::ast::UnaryOperator;
use pl_interpreter::host::DecimalFunction;
use pl_interpreter::host::Host;
use pl_interpreter::runtime::error::InterpreterError;
use pl_interpreter::runtime::interpreter::Interpreter;
use pl_interpreter::values::Value;
use std::sync::Arc;

struct Recorder {
    lines: Vec<String>,
}

impl Host for Recorder {
    fn print(&mut self, line: String) {
        self.lines.push(line);
    }

    fn random(&mut self) -> u64 {
        0.25f64.to_bits()
    }

    fn decimal_from_integer(&mut self, value: isize) -> u64 {
        (value as f64).to_bits()
    }

    fn decimal_arithmetic(&mut self, operator: BinaryOperator, left: u64, right: u64) -> u64 {
        let l = f64::from_bits(left);
        let r = f64::from_bits(right);
        let v = match operator {
            BinaryOperator::Plus => l + r,
            BinaryOperator::Minus => l - r,
            BinaryOperator::Multiply => l * r,
            BinaryOperator::Divide => l / r,
            _ => l % r,
        };
        v.to_bits()
    }

    fn decimal_compare(&mut self, operator: BinaryOperator, left: u64, right: u64) -> bool {
        let l = f64::from_bits(left);
        let r = f64::from_bits(right);
        match operator {
            BinaryOperator::GreaterThan => l > r,
            BinaryOperator::LessThan => l < r,
            BinaryOperator::NotEquals => l != r,
            _ => l == r,
        }
    }

    fn decimal_apply(&mut self, function: DecimalFunction, value: u64) -> u64 {
        let x = f64::from_bits(value);
        let v = match function {
            DecimalFunction::Negate => x * -1.0,
            DecimalFunction::Abs => x.abs(),
            DecimalFunction::Floor => x.floor(),
            DecimalFunction::Ceil => x.ceil(),
            DecimalFunction::Trunc => x.trunc(),
            DecimalFunction::Round => x.round(),
            DecimalFunction::Sqrt => x.sqrt(),
        };
        v.to_bits()
    }

    fn decimal_power(&mut self, base: u64, exponent: u64) -> u64 {
        f64::from_bits(base).powf(f64::from_bits(exponent)).to_bits()
    }

    fn decimal_text(&mut self, value: u64) -> String {
        f64::from_bits(value).to_string()
    }
}

fn host() -> Recorder {
    Recorder { lines: Vec::new() }
}

fn integer_of(r: Result<Value, InterpreterError>) -> isize {
    match r {
        Ok(Value::Integer(i)) => i.value(),
        other => panic!("no integer: {:?}", other),
    }
}

fn boolean_of(r: Result<Value, InterpreterError>) -> bool {
    match r {
        Ok(Value::Boolean(b)) => b.value(),
        other => panic!("no boolean: {:?}", other),
    }
}

fn decimal_of(r: Result<Value, InterpreterError>) -> f64 {
    match r {
        Ok(Value::Decimal(d)) => f64::from_bits(d.value()),
        other => panic!("no decimal: {:?}", other),
    }
}

fn decimal(x: f64) -> Value {
    Value::decimal(x.to_bits())
}

fn text(s: &str) -> Value {
    Value::string(s.to_string())
}

#[test]
fn integer_arithmetic_is_exact() {
    assert_eq!(integer_of(Interpreter::eval_integers(7, 5, BinaryOperator::Plus)), 12);
    assert_eq!(integer_of(Interpreter::eval_integers(7, 5, BinaryOperator::Minus)), 2);
    assert_eq!(integer_of(Interpreter::eval_integers(-7, 5, BinaryOperator::Multiply)), -35);
    assert_eq!(integer_of(Interpreter::eval_integers(7, 2, BinaryOperator::Divide)), 3);
    assert_eq!(integer_of(Interpreter::eval_integers(7, 2, BinaryOperator::Modulo)), 1);
}

#[test]
fn integer_division_rounds_toward_zero() {
    assert_eq!(integer_of(Interpreter::eval_integers(-7, 2, BinaryOperator::Divide)), -3);
    assert_eq!(integer_of(Interpreter::eval_integers(7, -2, BinaryOperator::Divide)), -3);
    assert_eq!(integer_of(Interpreter::eval_integers(-7, -2, BinaryOperator::Divide)), 3);
    assert_eq!(integer_of(Interpreter::eval_integers(-7, 2, BinaryOperator::Modulo)), -1);
    assert_eq!(integer_of(Interpreter::eval_integers(7, -2, BinaryOperator::Modulo)), 1);
    assert_eq!(integer_of(Interpreter::eval_integers(-7, -2, BinaryOperator::Modulo)), -1);
}

#[test]
fn integer_comparisons_give_booleans() {
    assert!(boolean_of(Interpreter::eval_integers(1, 2, BinaryOperator::LessThan)));
    assert!(!boolean_of(Interpreter::eval_integers(1, 2, BinaryOperator::GreaterThan)));
    assert!(boolean_of(Interpreter::eval_integers(2, 2, BinaryOperator::IsEquals)));
    assert!(!boolean_of(Interpreter::eval_integers(2, 2, BinaryOperator::NotEquals)));
}

#[test]
fn integer_arithmetic_beyond_the_machine_fails() {
    for (l, r, operator) in [
        (isize::MAX, 1, BinaryOperator::Plus),
        (isize::MIN, 1, BinaryOperator::Minus),
        (isize::MAX, 2, BinaryOperator::Multiply),
        (isize::MIN, -1, BinaryOperator::Divide),
        (isize::MIN, -1, BinaryOperator::Modulo),
        (1, 0, BinaryOperator::Divide),
        (1, 0, BinaryOperator::Modulo),
    ] {
        match Interpreter::eval_integers(l, r, operator) {
            Err(InterpreterError::UnsupportedBinaryOperator(o)) => assert_eq!(o, operator),
            other => panic!("unexpected result: {:?}", other),
        }
    }
}

#[test]
fn decimals_are_the_hosts() {
    let mut h = host();
    let a = 1.5f64.to_bits();
    let b = 2.25f64.to_bits();
    assert_eq!(decimal_of(Interpreter::eval_decimals(a, b, BinaryOperator::Plus, &mut h)), 3.75);
    assert_eq!(decimal_of(Interpreter::eval_decimals(a, b, BinaryOperator::Multiply, &mut h)), 3.375);
    assert!(boolean_of(Interpreter::eval_decimals(a, b, BinaryOperator::LessThan, &mut h)));
    assert!(!boolean_of(Interpreter::eval_decimals(a, b, BinaryOperator::IsEquals, &mut h)));
}

#[test]
fn a_decimal_among_two_numbers_gives_a_decimal() {
    let mut h = host();
    let got = Interpreter::eval_numeric_binary_expression(
        &Value::integer(2),
        &decimal(0.5),
        BinaryOperator::Plus,
        &mut h,
    );
    assert_eq!(decimal_of(got), 2.5);
    let got = Interpreter::eval_numeric_binary_expression(
        &Value::integer(2),
        &Value::integer(3),
        BinaryOperator::Plus,
        &mut h,
    );
    assert_eq!(integer_of(got), 5);
    let got = Interpreter::eval_numeric_binary_expression(
        &text("a"),
        &Value::integer(3),
        BinaryOperator::Plus,
        &mut h,
    );
    assert!(matches!(got, Err(InterpreterError::UnsupportedValue(Value::String(_)))));
    let got = Interpreter::eval_numeric_binary_expression(
        &Value::integer(3),
        &Value::null(),
        BinaryOperator::Plus,
        &mut h,
    );
    assert!(matches!(got, Err(InterpreterError::UnsupportedValue(Value::Null(_)))));
}

#[test]
fn texts_can_only_be_compared() {
    assert!(boolean_of(Interpreter::eval_string_binary_expression("a", "a", BinaryOperator::IsEquals)));
    assert!(!boolean_of(Interpreter::eval_string_binary_expression("a", "b", BinaryOperator::IsEquals)));
    let got = Interpreter::eval_string_binary_expression("a", "b", BinaryOperator::Plus);
    assert!(matches!(got, Err(InterpreterError::InvalidCondition(Value::String(_)))));
}

#[test]
fn mixed_operands_give_null() {
    let mut h = host();
    let got = Interpreter::eval_binary_values(&text("a"), &Value::integer(1), BinaryOperator::Plus, &mut h);
    assert!(matches!(got, Ok(Value::Null(_))));
    let got = Interpreter::eval_binary_values(
        &Value::array(vec![]),
        &Value::array(vec![]),
        BinaryOperator::IsEquals,
        &mut h,
    );
    assert!(matches!(got, Ok(Value::Null(_))));
}

#[test]
fn unary_operators() {
    let mut h = host();
    let operand = Arc::new(Node::Identifier("x".to_string()));
    assert_eq!(
        integer_of(Interpreter::eval_unary_value(Value::integer(5), UnaryOperator::Minus, &operand, &mut h)),
        -5
    );
    assert_eq!(
        integer_of(Interpreter::eval_unary_value(Value::integer(5), UnaryOperator::Plus, &operand, &mut h)),
        5
    );
    assert_eq!(
        decimal_of(Interpreter::eval_unary_value(decimal(1.5), UnaryOperator::Minus, &operand, &mut h)),
        -1.5
    );
    assert!(!boolean_of(Interpreter::eval_unary_value(
        Value::boolean(true),
        UnaryOperator::Negation,
        &operand,
        &mut h
    )));
    let got = Interpreter::eval_unary_value(text("a"), UnaryOperator::Plus, &operand, &mut h);
    assert!(matches!(got, Ok(Value::String(_))));
    let got = Interpreter::eval_unary_value(text("a"), UnaryOperator::Minus, &operand, &mut h);
    assert!(matches!(got, Err(InterpreterError::UnexpectedNode(_))));
    let got = Interpreter::eval_unary_value(Value::integer(1), UnaryOperator::Negation, &operand, &mut h);
    assert!(matches!(got, Err(InterpreterError::UnexpectedNode(_))));
    let got = Interpreter::eval_unary_value(Value::integer(isize::MIN), UnaryOperator::Minus, &operand, &mut h);
    assert!(matches!(
        got,
        Err(InterpreterError::UnsupportedUnaryOperator(UnaryOperator::Minus))
    ));
}

#[test]
fn logical_operators_need_booleans() {
    let t = || Value::boolean(true);
    let f = || Value::boolean(false);
    assert!(boolean_of(Interpreter::eval_logical_values(t(), t(), LogicalOperator::And)));
    assert!(!boolean_of(Interpreter::eval_logical_values(t(), f(), LogicalOperator::And)));
    assert!(boolean_of(Interpreter::eval_logical_values(f(), t(), LogicalOperator::Or)));
    assert!(!boolean_of(Interpreter::eval_logical_values(f(), f(), LogicalOperator::Or)));
    match Interpreter::eval_logical_values(Value::integer(1), t(), LogicalOperator::And) {
        Err(InterpreterError::InvalidValue(Value::Integer(_), expected)) => assert_eq!(expected, "boolean"),
        other => panic!("unexpected result: {:?}", other),
    }
    match Interpreter::eval_logical_values(t(), text("x"), LogicalOperator::Or) {
        Err(InterpreterError::InvalidValue(Value::String(_), expected)) => assert_eq!(expected, "boolean"),
        other => panic!("unexpected result: {:?}", other),
    }
}

#[test]
fn casts_name_what_was_expected() {
    let mut h = host();
    assert_eq!(Interpreter::get_integer_value(&Value::integer(3)).unwrap().value(), 3);
    match Interpreter::get_integer_value(&text("a")) {
        Err(InterpreterError::ValueCastError(Value::String(_), cast)) => assert_eq!(cast, "integer"),
        other => panic!("unexpected result: {:?}", other),
    }
    let d = Interpreter::get_decimal_value(&Value::integer(3), &mut h).unwrap();
    assert_eq!(f64::from_bits(d.value()), 3.0);
    let d = Interpreter::get_decimal_value(&decimal(0.5), &mut h).unwrap();
    assert_eq!(f64::from_bits(d.value()), 0.5);
    match Interpreter::get_decimal_value(&Value::null(), &mut h) {
        Err(InterpreterError::ValueCastError(Value::Null(_), cast)) => assert_eq!(cast, "decimal"),
        other => panic!("unexpected result: {:?}", other),
    }
}
