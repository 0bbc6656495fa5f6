use pl_interpreter::ast::BinaryOperator;
use pl_interpreter::ast::Node;
use pl_interpreter::ast::UnaryOperator;
use pl_interpreter::builtin::convert::convert_to_string;
use pl_interpreter::builtin::math::ceil;
use pl_interpreter::builtin::math::floor;
use pl_interpreter::builtin::math::pow;
use pl_interpreter::builtin::math::random;
use pl_interpreter::builtin::math::round;
use pl_interpreter::builtin::math::round_with;
use pl_interpreter::builtin::math::sqrt;
use pl_interpreter::builtin::math::trunc;
use pl_interpreter::builtin::number::run_abs;
use pl_interpreter::builtin::print::print_line;
use pl_interpreter::builtin::string::run_join;
use pl_interpreter::host::DecimalFunction;
use pl_interpreter::host::Host;
use pl_interpreter::native_print_function;
use pl_interpreter::native_string_convert;
use pl_interpreter::runtime::error::InterpreterError;
use pl_interpreter::runtime::interpreter::Interpreter;
use pl_interpreter::values::Value;
use pl_interpreter::ArrayValue;
use pl_interpreter::Builtin;
use pl_interpreter::ClosureType;
use pl_interpreter::ObjectValue;
use pl_interpreter::StringValue;
use pl_interpreter::WithFnCall;
use std::sync::Arc;

/// A host that keeps a list of what it was asked, and answers each question
/// with a number of its own: 100 more than the count of earlier questions.
struct Scribe {
    asked: Vec<String>,
}

impl Scribe {
    fn new() -> Scribe {
        Scribe { asked: Vec::new() }
    }

    fn note(&mut self, question: String) -> u64 {
        self.asked.push(question);
        99 + self.asked.len() as u64
    }
}

impl Host for Scribe {
    fn print(&mut self, line: String) {
        self.asked.push(format!("print {}", line));
    }

    fn random(&mut self) -> u64 {
        self.note("random".to_string())
    }

    fn decimal_from_integer(&mut self, value: isize) -> u64 {
        self.note(format!("convert {}", value))
    }

    fn decimal_arithmetic(&mut self, operator: BinaryOperator, left: u64, right: u64) -> u64 {
        self.note(format!("compute {:?} {} {}", operator, left, right))
    }

    fn decimal_compare(&mut self, operator: BinaryOperator, left: u64, right: u64) -> bool {
        self.asked.push(format!("compare {:?} {} {}", operator, left, right));
        left < right
    }

    fn decimal_apply(&mut self, function: DecimalFunction, value: u64) -> u64 {
        self.note(format!("apply {:?} {}", function, value))
    }

    fn decimal_power(&mut self, base: u64, exponent: u64) -> u64 {
        self.note(format!("power {} {}", base, exponent))
    }

    fn decimal_text(&mut self, value: u64) -> String {
        self.asked.push(format!("text {}", value));
        format!("#{}", value)
    }
}

fn bits_of(v: &Value) -> u64 {
    match v {
        Value::Decimal(d) => d.bits,
        other => panic!("no decimal number: {:?}", other),
    }
}

fn integer_of(v: &Value) -> isize {
    match v {
        Value::Integer(i) => i.value,
        other => panic!("no integer: {:?}", other),
    }
}

fn text_of(v: &Value) -> String {
    match v {
        Value::String(s) => s.value.clone(),
        other => panic!("no text: {:?}", other),
    }
}

fn questions(list: &[&str]) -> Vec<String> {
    list.iter().map(|q| q.to_string()).collect()
}

#[test]
fn each_rounding_function_asks_for_itself() {
    let mut h = Scribe::new();
    assert_eq!(bits_of(&floor(vec![Value::decimal(7)], &mut h)), 100);
    assert_eq!(bits_of(&ceil(vec![Value::decimal(8)], &mut h)), 101);
    assert_eq!(bits_of(&trunc(vec![Value::decimal(9)], &mut h)), 102);
    assert_eq!(bits_of(&round(vec![Value::decimal(10)], &mut h)), 103);
    assert_eq!(
        h.asked,
        questions(&["apply Floor 7", "apply Ceil 8", "apply Trunc 9", "apply Round 10"])
    );
}

#[test]
fn rounding_asks_nothing_for_other_arguments() {
    let mut h = Scribe::new();
    assert_eq!(integer_of(&floor(vec![Value::integer(4)], &mut h)), 4);
    assert!(matches!(ceil(vec![], &mut h), Value::Null(_)));
    assert!(matches!(round(vec![Value::boolean(true)], &mut h), Value::Null(_)));
    assert!(matches!(
        round_with(DecimalFunction::Trunc, &vec![Value::null()], &mut h),
        Value::Null(_)
    ));
    assert!(h.asked.is_empty());
}

#[test]
fn round_with_hands_over_the_function_it_was_given() {
    let mut h = Scribe::new();
    let got = round_with(DecimalFunction::Ceil, &vec![Value::decimal(5), Value::decimal(6)], &mut h);
    assert_eq!(bits_of(&got), 100);
    assert_eq!(h.asked, questions(&["apply Ceil 5"]));
}

#[test]
fn sqrt_converts_an_integer_first() {
    let mut h = Scribe::new();
    assert_eq!(bits_of(&sqrt(vec![Value::integer(9)], &mut h)), 101);
    assert_eq!(h.asked, questions(&["convert 9", "apply Sqrt 100"]));
    let mut h = Scribe::new();
    assert_eq!(bits_of(&sqrt(vec![Value::decimal(16)], &mut h)), 100);
    assert_eq!(h.asked, questions(&["apply Sqrt 16"]));
    let mut h = Scribe::new();
    assert!(matches!(sqrt(vec![Value::null()], &mut h), Value::Null(_)));
    assert!(matches!(sqrt(vec![], &mut h), Value::Null(_)));
    assert!(h.asked.is_empty());
}

#[test]
fn pow_with_a_decimal_asks_in_order() {
    let mut h = Scribe::new();
    assert_eq!(bits_of(&pow(vec![Value::decimal(2), Value::decimal(3)], &mut h)), 100);
    assert_eq!(h.asked, questions(&["power 2 3"]));
    let mut h = Scribe::new();
    assert_eq!(bits_of(&pow(vec![Value::integer(2), Value::decimal(3)], &mut h)), 101);
    assert_eq!(h.asked, questions(&["convert 2", "power 100 3"]));
    let mut h = Scribe::new();
    assert_eq!(bits_of(&pow(vec![Value::decimal(2), Value::integer(3)], &mut h)), 101);
    assert_eq!(h.asked, questions(&["convert 3", "power 2 100"]));
}

#[test]
fn pow_asks_nothing_without_a_decimal() {
    let mut h = Scribe::new();
    assert_eq!(integer_of(&pow(vec![Value::integer(2), Value::integer(10)], &mut h)), 1024);
    assert!(matches!(pow(vec![Value::integer(2), Value::null()], &mut h), Value::Null(_)));
    assert!(matches!(pow(vec![Value::null(), Value::decimal(2)], &mut h), Value::Null(_)));
    assert!(matches!(pow(vec![Value::decimal(2)], &mut h), Value::Null(_)));
    assert!(h.asked.is_empty());
}

#[test]
fn random_is_what_the_host_draws() {
    let mut h = Scribe::new();
    assert_eq!(bits_of(&random(&mut h)), 100);
    assert_eq!(bits_of(&random(&mut h)), 101);
    assert_eq!(h.asked, questions(&["random", "random"]));
}

#[test]
fn abs_of_a_decimal_asks_for_abs() {
    let mut h = Scribe::new();
    assert_eq!(bits_of(&run_abs(&Value::decimal(12), &mut h)), 100);
    assert_eq!(h.asked, questions(&["apply Abs 12"]));
    let mut h = Scribe::new();
    assert_eq!(integer_of(&run_abs(&Value::integer(-12), &mut h)), 12);
    assert!(h.asked.is_empty());
}

#[test]
fn decimals_are_handed_over_in_their_order() {
    let mut h = Scribe::new();
    let got = Interpreter::eval_decimals(5, 2, BinaryOperator::Minus, &mut h).unwrap();
    assert_eq!(bits_of(&got), 100);
    let got = Interpreter::eval_decimals(5, 2, BinaryOperator::Divide, &mut h).unwrap();
    assert_eq!(bits_of(&got), 101);
    let got = Interpreter::eval_decimals(5, 2, BinaryOperator::LessThan, &mut h).unwrap();
    assert!(matches!(got, Value::Boolean(b) if !b.value));
    let got = Interpreter::eval_decimals(2, 5, BinaryOperator::LessThan, &mut h).unwrap();
    assert!(matches!(got, Value::Boolean(b) if b.value));
    assert_eq!(
        h.asked,
        questions(&["compute Minus 5 2", "compute Divide 5 2", "compare LessThan 5 2", "compare LessThan 2 5"])
    );
}

#[test]
fn every_operator_goes_to_the_host_as_it_is() {
    let arithmetic = [
        BinaryOperator::Plus,
        BinaryOperator::Minus,
        BinaryOperator::Multiply,
        BinaryOperator::Divide,
        BinaryOperator::Modulo,
    ];
    for operator in arithmetic {
        let mut h = Scribe::new();
        let got = Interpreter::eval_decimals(3, 4, operator, &mut h).unwrap();
        assert_eq!(bits_of(&got), 100);
        assert_eq!(h.asked, vec![format!("compute {:?} 3 4", operator)]);
    }
    let comparisons = [
        BinaryOperator::GreaterThan,
        BinaryOperator::LessThan,
        BinaryOperator::IsEquals,
        BinaryOperator::NotEquals,
    ];
    for operator in comparisons {
        let mut h = Scribe::new();
        let got = Interpreter::eval_decimals(3, 4, operator, &mut h).unwrap();
        assert!(matches!(got, Value::Boolean(b) if b.value));
        assert_eq!(h.asked, vec![format!("compare {:?} 3 4", operator)]);
    }
}

#[test]
fn an_integer_beside_a_decimal_is_converted_first() {
    let mut h = Scribe::new();
    let got = Interpreter::eval_numeric_binary_expression(
        &Value::integer(7),
        &Value::decimal(3),
        BinaryOperator::Minus,
        &mut h,
    )
    .unwrap();
    assert_eq!(bits_of(&got), 101);
    assert_eq!(h.asked, questions(&["convert 7", "compute Minus 100 3"]));
    let mut h = Scribe::new();
    let got = Interpreter::eval_binary_values(
        &Value::decimal(3),
        &Value::integer(7),
        BinaryOperator::GreaterThan,
        &mut h,
    )
    .unwrap();
    assert!(matches!(got, Value::Boolean(b) if b.value));
    assert_eq!(h.asked, questions(&["convert 7", "compare GreaterThan 3 100"]));
    let mut h = Scribe::new();
    let got = Interpreter::eval_binary_values(
        &Value::integer(3),
        &Value::integer(7),
        BinaryOperator::Plus,
        &mut h,
    )
    .unwrap();
    assert_eq!(integer_of(&got), 10);
    assert!(h.asked.is_empty());
}

#[test]
fn the_decimal_of_an_integer_is_the_answer_of_the_host() {
    let mut h = Scribe::new();
    assert_eq!(Interpreter::get_decimal_value(&Value::integer(-4), &mut h).unwrap().bits, 100);
    assert_eq!(Interpreter::get_decimal_value(&Value::decimal(55), &mut h).unwrap().bits, 55);
    assert!(Interpreter::get_decimal_value(&Value::null(), &mut h).is_err());
    assert_eq!(h.asked, questions(&["convert -4"]));
}

#[test]
fn minus_on_a_decimal_asks_for_its_negation() {
    let operand = Arc::new(Node::Identifier("x".to_string()));
    let mut h = Scribe::new();
    let got = Interpreter::eval_unary_value(Value::decimal(8), UnaryOperator::Minus, &operand, &mut h);
    assert_eq!(bits_of(&got.unwrap()), 100);
    assert_eq!(h.asked, questions(&["apply Negate 8"]));
    let mut h = Scribe::new();
    let got = Interpreter::eval_unary_value(Value::decimal(8), UnaryOperator::Plus, &operand, &mut h);
    assert_eq!(bits_of(&got.unwrap()), 8);
    assert!(h.asked.is_empty());
}

#[test]
fn an_array_is_written_around_the_texts_of_its_decimals() {
    let mut h = Scribe::new();
    let value = Value::array(vec![
        Value::decimal(1),
        Value::string("a".to_string()),
        Value::array(vec![Value::decimal(2), Value::integer(3)]),
        Value::decimal(4),
    ]);
    assert_eq!(pl_interpreter::builtin::stringify::stringify(&value, &mut h), "[#1, \"a\", [#2, 3], #4]");
    assert_eq!(h.asked, questions(&["text 1", "text 2", "text 4"]));
}

#[test]
fn a_long_array_of_decimals_ends_with_the_count_of_the_rest() {
    let mut h = Scribe::new();
    let items: Vec<Value> = (0..12).map(|k| Value::decimal(k)).collect();
    let value = Value::array(items);
    assert_eq!(
        pl_interpreter::builtin::stringify::stringify(&value, &mut h),
        "[#0, #1, #2, #3, #4, #5, #6, #7, #8, #9, ...more 2 items]"
    );
    assert_eq!(h.asked.len(), 10);
    assert_eq!(h.asked[9], "text 9");
}

#[test]
fn an_object_is_written_around_the_texts_of_its_decimals() {
    let mut h = Scribe::new();
    let value = Value::Object(ObjectValue::from(vec![
        ("a".to_string(), Value::decimal(1)),
        ("b".to_string(), Value::array(vec![Value::decimal(2)])),
        ("c".to_string(), Value::integer(3)),
    ]));
    assert_eq!(
        pl_interpreter::builtin::stringify::stringify(&value, &mut h),
        "{\n    \"a\": #1,\n    \"b\": [#2],\n    \"c\": 3,\n}"
    );
    assert_eq!(h.asked, questions(&["text 1", "text 2"]));
}

#[test]
fn a_line_is_written_around_the_texts_of_its_decimals() {
    let mut h = Scribe::new();
    let args = vec![
        Value::decimal(1),
        Value::string("x".to_string()),
        Value::array(vec![Value::decimal(2)]),
        Value::integer(3),
    ];
    assert_eq!(print_line(&args, &mut h), "#1 x [#2] 3");
    assert_eq!(h.asked, questions(&["text 1", "text 2"]));
}

#[test]
fn print_hands_over_the_line_with_its_decimals() {
    let mut h = Scribe::new();
    let got = native_print_function(vec![Value::integer(1), Value::decimal(2)], &mut h);
    assert!(matches!(got, Value::Null(_)));
    assert_eq!(h.asked, questions(&["text 2", "print 1 #2"]));
}

#[test]
fn the_native_print_hands_over_the_same_line() {
    let mut h = Scribe::new();
    let native = WithFnCall::new(ClosureType::free(Builtin::Print));
    let got = native.run(vec![Value::decimal(5), Value::string("b".to_string())], &mut h);
    assert!(matches!(got, Value::Null(_)));
    assert_eq!(h.asked, questions(&["text 5", "print #5 b"]));
}

#[test]
fn the_natives_ask_what_their_functions_ask() {
    let cases = [
        (Builtin::MathFloor, "apply Floor 6"),
        (Builtin::MathCeil, "apply Ceil 6"),
        (Builtin::MathTrunc, "apply Trunc 6"),
        (Builtin::MathRound, "apply Round 6"),
        (Builtin::MathSqrt, "apply Sqrt 6"),
    ];
    for (builtin, question) in cases {
        let mut h = Scribe::new();
        let native = WithFnCall::new(ClosureType::free(builtin));
        assert_eq!(bits_of(&native.run(vec![Value::decimal(6)], &mut h)), 100);
        assert_eq!(h.asked, questions(&[question]));
    }
    let mut h = Scribe::new();
    let native = WithFnCall::new(ClosureType::bound(Builtin::NumberAbs, Value::decimal(6)));
    assert_eq!(bits_of(&native.run(vec![Value::decimal(7)], &mut h)), 100);
    assert_eq!(h.asked, questions(&["apply Abs 6"]));
}

#[test]
fn conversion_of_a_decimal_is_the_text_of_the_host() {
    let mut h = Scribe::new();
    assert_eq!(convert_to_string(&Value::decimal(3), &mut h), "#3");
    assert_eq!(text_of(&native_string_convert(vec![Value::decimal(4)], &mut h)), "#4");
    assert_eq!(h.asked, questions(&["text 3", "text 4"]));
    let mut h = Scribe::new();
    let array = Value::array(vec![Value::decimal(1), Value::decimal(2)]);
    assert_eq!(convert_to_string(&array, &mut h), "<array (2 items)>");
    assert!(h.asked.is_empty());
}

#[test]
fn join_writes_each_decimal_as_the_host_does() {
    let mut h = Scribe::new();
    let sep = StringValue { value: "-".to_string() };
    let items = ArrayValue::from(vec![
        Value::decimal(1),
        Value::integer(2),
        Value::array(vec![Value::decimal(9)]),
        Value::decimal(3),
    ]);
    let got = run_join(&sep, &vec![Value::Array(items)], &mut h);
    assert_eq!(text_of(&got), "#1-2-<array (1 items)>-#3");
    assert_eq!(h.asked, questions(&["text 1", "text 3"]));
}

#[test]
fn a_message_is_written_around_the_text_of_its_value() {
    let mut h = Scribe::new();
    let value = Value::array(vec![Value::decimal(1), Value::integer(2)]);
    assert_eq!(InterpreterError::UnsupportedValue(value).message(&mut h), "Unsupported value: [#1, 2]");
    assert_eq!(
        InterpreterError::InvalidCondition(Value::decimal(7)).message(&mut h),
        "Invalid condition: \"#7\""
    );
    assert_eq!(
        InterpreterError::InvalidValue(Value::decimal(8), "boolean".to_string()).message(&mut h),
        "Invalid value: #8, expected boolean"
    );
    assert_eq!(
        InterpreterError::ValueCastError(Value::decimal(9), "integer".to_string()).message(&mut h),
        "Failed to cast node to integer: #9"
    );
    assert_eq!(h.asked, questions(&["text 1", "text 7", "text 8", "text 9"]));
}

fn node(n: Node) -> Arc<Node> {
    Arc::new(n)
}

fn name(n: &str) -> Arc<Node> {
    node(Node::Identifier(n.to_string()))
}

fn run_program(statements: Vec<Arc<Node>>) -> (Result<(), InterpreterError>, Vec<String>) {
    let mut interpreter = Interpreter::with_depth_limit(100);
    let mut h = Scribe::new();
    let root = pl_interpreter::setup_default_environment(&mut interpreter.scope_state);
    let result = interpreter.run(node(Node::Program(statements)), root, &mut h);
    (result, h.asked)
}

#[test]
fn an_evaluation_asks_the_host_in_the_order_of_the_program() {
    let sum = node(Node::BinaryExpression(
        node(Node::DecimalLiteral(5)),
        BinaryOperator::Minus,
        node(Node::IntegerLiteral(2)),
    ));
    let negated = node(Node::UnaryExpression(node(Node::DecimalLiteral(7)), UnaryOperator::Minus));
    let floored = node(Node::CallExpression(
        node(Node::MemberExpression(name("math"), name("floor"), false)),
        vec![node(Node::DecimalLiteral(9))],
    ));
    let (result, asked) = run_program(vec![node(Node::CallExpression(
        name("print"),
        vec![sum, negated, floored, node(Node::IntegerLiteral(1))],
    ))]);
    assert!(result.is_ok(), "{:?}", result);
    assert_eq!(
        asked,
        questions(&[
            "convert 2",
            "compute Minus 5 100",
            "apply Negate 7",
            "apply Floor 9",
            "text 101",
            "text 102",
            "text 103",
            "print #101 #102 #103 1",
        ])
    );
}

#[test]
fn a_constructor_creates_the_members_it_assigns() {
    let constructor = node(Node::MethodDefinition(
        "__new__".to_string(),
        vec![name("n")],
        node(Node::BlockStatement(vec![node(Node::AssignmentExpression(
            node(Node::MemberExpression(name("self"), name("n"), false)),
            pl_interpreter::ast::AssignmentOperator::Equals,
            name("n"),
        ))])),
        false,
    ));
    let class = node(Node::ClassDeclaration("A".to_string(), None, vec![constructor]));
    let made = node(Node::VariableDeclaration(
        "a".to_string(),
        Some(node(Node::CallExpression(name("A"), vec![node(Node::IntegerLiteral(2))]))),
        false,
    ));
    let shown = node(Node::CallExpression(
        name("print"),
        vec![node(Node::MemberExpression(name("a"), name("n"), false))],
    ));
    let (result, asked) = run_program(vec![class, made, shown]);
    assert!(result.is_ok(), "{:?}", result);
    assert_eq!(asked, questions(&["print 2"]));
}
