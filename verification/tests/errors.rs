use pl_interpreter::ast::AssignmentOperator;
use pl_interpreter::ast::BinaryOperator;
use pl_interpreter::ast::LogicalOperator;
use pl_interpreter::ast::Node;
use pl_interpreter::ast::UnaryOperator;
use pl_interpreter::builtin::setup_default_environment;
use pl_interpreter::host::DecimalFunction;
use pl_interpreter::host::Host;
use pl_interpreter::runtime::error::InterpreterError;
use pl_interpreter::runtime::interpreter::Interpreter;
use pl_interpreter::values::Value;
use std::sync::Arc;

struct Recorder {
    lines: Vec<String>,
}

impl Host for Recorder {
    fn print(&mut self, line: String) {
        self.lines.push(line);
    }

    fn random(&mut self) -> u64 {
        0.25f64.to_bits()
    }

    fn decimal_from_integer(&mut self, value: isize) -> u64 {
        (value as f64).to_bits()
    }

    fn decimal_arithmetic(&mut self, operator: BinaryOperator, left: u64, right: u64) -> u64 {
        let l = f64::from_bits(left);
        let r = f64::from_bits(right);
        let v = match operator {
            BinaryOperator::Plus => l + r,
            BinaryOperator::Minus => l - r,
            BinaryOperator::Multiply => l * r,
            BinaryOperator::Divide => l / r,
            _ => l % r,
        };
        v.to_bits()
    }

    fn decimal_compare(&mut self, operator: BinaryOperator, left: u64, right: u64) -> bool {
        let l = f64::from_bits(left);
        let r = f64::from_bits(right);
        match operator {
            BinaryOperator::GreaterThan => l > r,
            BinaryOperator::LessThan => l < r,
            BinaryOperator::NotEquals => l != r,
            _ => l == r,
        }
    }

    fn decimal_apply(&mut self, function: DecimalFunction, value: u64) -> u64 {
        let x = f64::from_bits(value);
        let v = match function {
            DecimalFunction::Negate => x * -1.0,
            DecimalFunction::Abs => x.abs(),
            DecimalFunction::Floor => x.floor(),
            DecimalFunction::Ceil => x.ceil(),
            DecimalFunction::Trunc => x.trunc(),
            DecimalFunction::Round => x.round(),
            DecimalFunction::Sqrt => x.sqrt(),
        };
        v.to_bits()
    }

    fn decimal_power(&mut self, base: u64, exponent: u64) -> u64 {
        f64::from_bits(base).powf(f64::from_bits(exponent)).to_bits()
    }

    fn decimal_text(&mut self, value: u64) -> String {
        f64::from_bits(value).to_string()
    }
}

fn num(v: usize) -> Arc<Node> {
    Arc::new(Node::IntegerLiteral(v))
}

fn id(name: &str) -> Arc<Node> {
    Arc::new(Node::Identifier(name.to_string()))
}

fn bin(left: Arc<Node>, operator: BinaryOperator, right: Arc<Node>) -> Arc<Node> {
    Arc::new(Node::BinaryExpression(left, operator, right))
}

fn call(callee: Arc<Node>, arguments: Vec<Arc<Node>>) -> Arc<Node> {
    Arc::new(Node::CallExpression(callee, arguments))
}

fn block(statements: Vec<Arc<Node>>) -> Arc<Node> {
    Arc::new(Node::BlockStatement(statements))
}

fn ret(value: Arc<Node>) -> Arc<Node> {
    Arc::new(Node::ReturnStatement(value))
}

fn var(name: &str, value: Arc<Node>) -> Arc<Node> {
    Arc::new(Node::VariableDeclaration(name.to_string(), Some(value), false))
}

fn constant(name: &str, value: Arc<Node>) -> Arc<Node> {
    Arc::new(Node::VariableDeclaration(name.to_string(), Some(value), true))
}

fn function(name: &str, parameters: Vec<Arc<Node>>, body: Arc<Node>) -> Arc<Node> {
    Arc::new(Node::FunctionDeclaration(name.to_string(), parameters, body))
}

fn assign(left: Arc<Node>, operator: AssignmentOperator, right: Arc<Node>) -> Arc<Node> {
    Arc::new(Node::AssignmentExpression(left, operator, right))
}

fn member(object: Arc<Node>, name: &str) -> Arc<Node> {
    Arc::new(Node::MemberExpression(object, id(name), false))
}

fn property(name: &str, value: Arc<Node>) -> Arc<Node> {
    Arc::new(Node::PropertyDefinition(name.to_string(), value, false))
}

fn method(name: &str, parameters: Vec<Arc<Node>>, body: Arc<Node>) -> Arc<Node> {
    Arc::new(Node::MethodDefinition(name.to_string(), parameters, body, false))
}

fn class(name: &str, parent: Option<Arc<Node>>, body: Vec<Arc<Node>>) -> Arc<Node> {
    Arc::new(Node::ClassDeclaration(name.to_string(), parent, body))
}

fn print(arguments: Vec<Arc<Node>>) -> Arc<Node> {
    call(id("print"), arguments)
}

fn run(statements: Vec<Arc<Node>>) -> (Result<(), InterpreterError>, Vec<String>) {
    let mut interpreter = Interpreter::with_depth_limit(200);
    let mut host = Recorder { lines: Vec::new() };
    let root = setup_default_environment(&mut interpreter.scope_state);
    let result = interpreter.run(Arc::new(Node::Program(statements)), root, &mut host);
    (result, host.lines)
}

fn text(s: &str) -> Arc<Node> {
    Arc::new(Node::StringLiteral(s.to_string()))
}

fn evaluate(node: Arc<Node>) -> Result<Value, InterpreterError> {
    let mut interpreter = Interpreter::with_depth_limit(100);
    let mut host = Recorder { lines: Vec::new() };
    let root = setup_default_environment(&mut interpreter.scope_state);
    interpreter.resolve(&node, root, &mut host)
}

fn message(e: &InterpreterError) -> String {
    e.message(&mut Recorder { lines: Vec::new() })
}

#[test]
fn literals_evaluate_to_their_values() {
    assert!(matches!(evaluate(num(5)), Ok(Value::Integer(i)) if i.value() == 5));
    assert!(matches!(evaluate(text("a")), Ok(Value::String(s)) if s.value() == "a"));
    let bits = 2.5f64.to_bits();
    assert!(matches!(
        evaluate(Arc::new(Node::DecimalLiteral(bits))),
        Ok(Value::Decimal(d)) if d.value() == bits
    ));
    match evaluate(Arc::new(Node::ArrayExpression(vec![num(1), text("b")]))) {
        Ok(Value::Array(a)) => assert_eq!(a.value().len(), 2),
        other => panic!("unexpected result: {:?}", other),
    }
    assert!(matches!(evaluate(id("null")), Ok(Value::Null(_))));
    assert!(matches!(evaluate(id("true")), Ok(Value::Boolean(b)) if b.value()));
}

#[test]
fn declaration_without_initializer_is_null() {
    let node = Arc::new(Node::VariableDeclaration("a".to_string(), None, false));
    assert!(matches!(evaluate(block(vec![node, ret(id("a"))])), Ok(Value::Null(_))));
}

#[test]
fn block_without_return_is_null() {
    assert!(matches!(evaluate(block(vec![num(1), num(2)])), Ok(Value::Null(_))));
    assert!(matches!(
        evaluate(block(vec![num(1), ret(num(2)), num(3)])),
        Ok(Value::Integer(i)) if i.value() == 2
    ));
}

#[test]
fn unsupported_node() {
    let got = evaluate(Arc::new(Node::Program(vec![])));
    assert!(matches!(got, Err(InterpreterError::UnsupportedNode(_))));
    let got = evaluate(class("A", None, vec![]));
    assert!(matches!(got, Err(InterpreterError::UnsupportedNode(_))));
}

#[test]
fn unexpected_node() {
    let got = evaluate(ret(num(1)));
    assert!(matches!(got, Err(InterpreterError::UnexpectedNode(_))));
    let got = evaluate(Arc::new(Node::MemberExpression(text("a"), num(1), false)));
    assert!(matches!(got, Err(InterpreterError::UnexpectedNode(_))));
}

#[test]
fn unsupported_binary_operator() {
    let got = evaluate(bin(num(1), BinaryOperator::Divide, num(0)));
    assert!(matches!(
        got,
        Err(InterpreterError::UnsupportedBinaryOperator(BinaryOperator::Divide))
    ));
}

#[test]
fn unsupported_unary_operator() {
    let smallest = Arc::new(Node::IntegerLiteral(isize::MIN as usize));
    let got = evaluate(Arc::new(Node::UnaryExpression(smallest, UnaryOperator::Minus)));
    assert!(matches!(
        got,
        Err(InterpreterError::UnsupportedUnaryOperator(UnaryOperator::Minus))
    ));
}

#[test]
fn unsupported_value() {
    let computed = Arc::new(Node::MemberExpression(text("a"), num(1), true));
    assert!(matches!(evaluate(computed), Err(InterpreterError::UnsupportedValue(Value::Integer(_)))));
    let on_null = member(id("null"), "a");
    assert!(matches!(evaluate(on_null), Err(InterpreterError::UnsupportedValue(Value::Null(_)))));
}

#[test]
fn unexpected_value() {
    let program = block(vec![
        var("Array", num(1)),
        ret(member(Arc::new(Node::ArrayExpression(vec![])), "length")),
    ]);
    assert!(matches!(evaluate(program), Err(InterpreterError::UnexpectedValue(Value::Integer(_)))));
}

#[test]
fn variable_declaration_exist() {
    let program = block(vec![var("a", num(1)), var("a", num(2))]);
    match evaluate(program) {
        Err(InterpreterError::VariableDeclarationExist(name)) => assert_eq!(name, "a"),
        other => panic!("unexpected result: {:?}", other),
    }
}

#[test]
fn unresolved_variable() {
    match evaluate(id("missing")) {
        Err(InterpreterError::UnresolvedVariable(name)) => assert_eq!(name, "missing"),
        other => panic!("unexpected result: {:?}", other),
    }
    let got = evaluate(assign(id("missing"), AssignmentOperator::Equals, num(1)));
    assert!(matches!(got, Err(InterpreterError::UnresolvedVariable(_))));
}

#[test]
fn unresolved_property() {
    let program = block(vec![
        Arc::new(Node::FunctionDeclaration("noop".to_string(), vec![], block(vec![]))),
        ret(call(member(id("math"), "nothing"), vec![])),
    ]);
    match evaluate(program) {
        Err(InterpreterError::UnresolvedProperty(name)) => assert_eq!(name, "nothing"),
        other => panic!("unexpected result: {:?}", other),
    }
}

#[test]
fn reassign_constant() {
    let got = evaluate(assign(id("true"), AssignmentOperator::Equals, num(1)));
    match got {
        Err(InterpreterError::ReassignConstant(name)) => assert_eq!(name, "true"),
        other => panic!("unexpected result: {:?}", other),
    }
}

#[test]
fn invalid_assign_factor() {
    let got = evaluate(assign(num(1), AssignmentOperator::Equals, num(2)));
    assert!(matches!(got, Err(InterpreterError::InvalidAssignFactor(_))));
    let parameter = assign(num(1), AssignmentOperator::Equals, num(2));
    let got = evaluate(function("f", vec![parameter], block(vec![])));
    assert!(matches!(got, Err(InterpreterError::InvalidAssignFactor(_))));
}

#[test]
fn invalid_function_callee() {
    let got = evaluate(call(num(1), vec![]));
    assert!(matches!(got, Err(InterpreterError::InvalidFunctionCallee(Value::Integer(_)))));
}

#[test]
fn invalid_function_parameter() {
    let got = evaluate(function("f", vec![num(1)], block(vec![])));
    assert!(matches!(got, Err(InterpreterError::InvalidFunctionParameter(_))));
    let parameter = assign(id("a"), AssignmentOperator::Addition, num(2));
    let got = evaluate(function("f", vec![parameter], block(vec![])));
    assert!(matches!(got, Err(InterpreterError::InvalidFunctionParameter(_))));
}

#[test]
fn invalid_condition() {
    let got = evaluate(Arc::new(Node::IfStatement(num(1), block(vec![]), None)));
    assert!(matches!(got, Err(InterpreterError::InvalidCondition(Value::Integer(_)))));
    let got = evaluate(Arc::new(Node::WhileStatement(text("x"), block(vec![]))));
    assert!(matches!(got, Err(InterpreterError::InvalidCondition(Value::String(_)))));
    let got = evaluate(bin(text("a"), BinaryOperator::Plus, text("b")));
    assert!(matches!(got, Err(InterpreterError::InvalidCondition(Value::String(_)))));
}

#[test]
fn invalid_value() {
    let got = evaluate(Arc::new(Node::LogicalExpression(num(1), LogicalOperator::And, id("true"))));
    assert!(matches!(got, Err(InterpreterError::InvalidValue(Value::Integer(_), _))));
    let got = evaluate(assign(member(num(1), "a"), AssignmentOperator::Equals, num(2)));
    match got {
        Err(InterpreterError::InvalidValue(Value::Integer(_), expected)) => {
            assert_eq!(expected, "object or class")
        }
        other => panic!("unexpected result: {:?}", other),
    }
}

#[test]
fn invalid_default_parameter() {
    let first = assign(id("a"), AssignmentOperator::Equals, num(1));
    let program = block(vec![
        function("f", vec![first, id("b")], block(vec![])),
        ret(call(id("f"), vec![num(1), num(2)])),
    ]);
    match evaluate(program) {
        Err(InterpreterError::InvalidDefaultParameter(name)) => assert_eq!(name, "a"),
        other => panic!("unexpected result: {:?}", other),
    }
}

#[test]
fn invalid_parameter_count() {
    let program = block(vec![
        function("f", vec![id("a"), id("b")], block(vec![])),
        ret(call(id("f"), vec![num(1)])),
    ]);
    assert!(matches!(evaluate(program), Err(InterpreterError::InvalidParameterCount(2, 1))));
}

#[test]
fn default_value_stands_in_for_a_missing_argument() {
    let last = assign(id("b"), AssignmentOperator::Equals, num(10));
    let program = block(vec![
        function(
            "f",
            vec![id("a"), last],
            block(vec![ret(bin(id("a"), BinaryOperator::Plus, id("b")))]),
        ),
        ret(call(id("f"), vec![num(1)])),
    ]);
    assert!(matches!(evaluate(program), Ok(Value::Integer(i)) if i.value() == 11));
}

#[test]
fn unresolved_environment() {
    let mut interpreter = Interpreter::new();
    let mut host = Recorder { lines: Vec::new() };
    let got = interpreter.resolve(&id("a"), 42, &mut host);
    assert!(matches!(got, Err(InterpreterError::UnresolvedEnvironment(42))));
    let got = interpreter.resolve(&var("a", num(1)), 42, &mut host);
    assert!(matches!(got, Err(InterpreterError::UnresolvedEnvironment(42))));
}

#[test]
fn limit_reached() {
    let mut interpreter = Interpreter::with_depth_limit(2);
    let mut host = Recorder { lines: Vec::new() };
    let root = setup_default_environment(&mut interpreter.scope_state);
    let deep = bin(bin(num(1), BinaryOperator::Plus, num(2)), BinaryOperator::Plus, num(3));
    let got = interpreter.resolve(&deep, root, &mut host);
    assert!(matches!(got, Err(InterpreterError::LimitReached)));
    let shallow = bin(num(1), BinaryOperator::Plus, num(2));
    let got = interpreter.resolve(&shallow, root, &mut host);
    assert!(matches!(got, Ok(Value::Integer(i)) if i.value() == 3));
}

#[test]
fn static_members_of_a_class() {
    let mut interpreter = Interpreter::with_depth_limit(100);
    let mut host = Recorder { lines: Vec::new() };
    let root = setup_default_environment(&mut interpreter.scope_state);
    let make = Arc::new(Node::MethodDefinition(
        "make".to_string(),
        vec![id("a")],
        block(vec![ret(bin(id("a"), BinaryOperator::Plus, num(1)))]),
        true,
    ));
    let count = Arc::new(Node::PropertyDefinition("count".to_string(), num(3), true));
    let declaration = class("Tools", None, vec![count, make]);
    interpreter.run(declaration, root, &mut host).unwrap();
    let got = interpreter.resolve(&member(id("Tools"), "count"), root, &mut host);
    assert!(matches!(got, Ok(Value::Integer(i)) if i.value() == 3));
    let got = interpreter.resolve(&call(member(id("Tools"), "make"), vec![num(4)]), root, &mut host);
    assert!(matches!(got, Ok(Value::Integer(i)) if i.value() == 5));
    let set = assign(member(id("Tools"), "count"), AssignmentOperator::Addition, num(2));
    interpreter.resolve(&set, root, &mut host).unwrap();
    let got = interpreter.resolve(&member(id("Tools"), "count"), root, &mut host);
    assert!(matches!(got, Ok(Value::Integer(i)) if i.value() == 5));
    let got = interpreter.resolve(&member(id("Tools"), "nothing"), root, &mut host);
    assert!(matches!(got, Err(InterpreterError::UnresolvedProperty(_))));
}

#[test]
fn user_array_class_extends_arrays() {
    let mut interpreter = Interpreter::with_depth_limit(100);
    let mut host = Recorder { lines: Vec::new() };
    let root = setup_default_environment(&mut interpreter.scope_state);
    let first = method(
        "answer",
        vec![],
        block(vec![ret(num(42))]),
    );
    interpreter.run(class("Array", None, vec![first]), root, &mut host).unwrap();
    let items = Arc::new(Node::ArrayExpression(vec![num(7), num(8)]));
    let got = interpreter.resolve(&call(member(items.clone(), "answer"), vec![]), root, &mut host);
    assert!(matches!(got, Ok(Value::Integer(i)) if i.value() == 42));
    let got = interpreter.resolve(&member(items.clone(), "length"), root, &mut host);
    assert!(matches!(got, Ok(Value::Integer(i)) if i.value() == 2));
    let got = interpreter.resolve(&call(member(items, "get"), vec![num(1)]), root, &mut host);
    assert!(matches!(got, Ok(Value::Integer(i)) if i.value() == 8));
}

#[test]
fn member_of_a_text_and_of_a_number() {
    let got = evaluate(call(member(text("abc"), "upper"), vec![]));
    assert!(matches!(got, Ok(Value::String(s)) if s.value() == "ABC"));
    let got = evaluate(member(text("abc"), "length"));
    assert!(matches!(got, Ok(Value::Integer(i)) if i.value() == 3));
    let got = evaluate(member(text("abc"), "nothing"));
    assert!(matches!(got, Ok(Value::Null(_))));
    let minus = Arc::new(Node::UnaryExpression(num(4), UnaryOperator::Minus));
    let got = evaluate(call(member(minus, "abs"), vec![]));
    assert!(matches!(got, Ok(Value::Integer(i)) if i.value() == 4));
    let got = evaluate(call(member(id("math"), "pow"), vec![num(2), num(5)]));
    assert!(matches!(got, Ok(Value::Integer(i)) if i.value() == 32));
    let got = evaluate(call(id("type_of"), vec![text("a")]));
    assert!(matches!(got, Ok(Value::String(s)) if s.value() == "string"));
}

#[test]
fn statements_after_a_failure_keep_waiting() {
    let mut interpreter = Interpreter::with_depth_limit(100);
    let mut host = Recorder { lines: Vec::new() };
    let root = setup_default_environment(&mut interpreter.scope_state);
    let program = Arc::new(Node::Program(vec![
        print(vec![num(1)]),
        id("missing"),
        print(vec![num(2)]),
        print(vec![num(3)]),
    ]));
    let got = interpreter.run(program, root, &mut host);
    assert!(matches!(got, Err(InterpreterError::UnresolvedVariable(_))));
    assert_eq!(host.lines, vec!["1".to_string()]);
    assert_eq!(interpreter.stack.len(), 2);
    interpreter.execute(&mut host).unwrap();
    assert_eq!(host.lines, vec!["1".to_string(), "2".to_string(), "3".to_string()]);
    assert!(interpreter.stack.is_empty());
}

#[test]
fn messages_of_errors() {
    let v = || Value::integer(7);
    let cases = vec![
        (InterpreterError::UnsupportedValue(v()), "Unsupported value: 7".to_string()),
        (InterpreterError::UnexpectedValue(v()), "Unexpected value: 7".to_string()),
        (
            InterpreterError::VariableDeclarationExist("a".to_string()),
            "Cannot re-declare variable \"a\" as it's already defined".to_string(),
        ),
        (
            InterpreterError::UnresolvedVariable("a".to_string()),
            "Cannot resolve \"a\" as it doesn't exist".to_string(),
        ),
        (
            InterpreterError::ReassignConstant("a".to_string()),
            "Cannot reassign \"a\" as it's a constant".to_string(),
        ),
        (InterpreterError::InvalidFunctionCallee(v()), "Invalid function callee: \"7\"".to_string()),
        (InterpreterError::InvalidCondition(v()), "Invalid condition: \"7\"".to_string()),
        (
            InterpreterError::InvalidValue(v(), "boolean".to_string()),
            "Invalid value: 7, expected boolean".to_string(),
        ),
        (
            InterpreterError::InvalidDefaultParameter("a".to_string()),
            "Invalid default value provided for non-last argument: a".to_string(),
        ),
        (
            InterpreterError::InvalidParameterCount(2, 1),
            "Invalid calle parameters count. Expected 2, but got 1".to_string(),
        ),
        (InterpreterError::UnresolvedProperty("p".to_string()), "Unresolved property: p".to_string()),
        (InterpreterError::UnresolvedEnvironment(12), "Unresolved environment: 12".to_string()),
        (
            InterpreterError::UnsupportedBinaryOperator(BinaryOperator::Divide),
            "This operator is not supported by interpreter yet: Divide".to_string(),
        ),
        (
            InterpreterError::UnsupportedUnaryOperator(UnaryOperator::Minus),
            "This operator is not supported by interpreter yet: Minus".to_string(),
        ),
        (InterpreterError::LimitReached, "Limit reached".to_string()),
        (
            InterpreterError::UnexpectedNode(num(1)),
            "Unexpected node: IntegerLiteral(1)".to_string(),
        ),
        (
            InterpreterError::InvalidAssignFactor(num(1)),
            "Invalid left-hand side for assignment expression: IntegerLiteral(1)".to_string(),
        ),
        (
            InterpreterError::InvalidFunctionParameter(num(1)),
            "Invalid parameter provided in function: IntegerLiteral(1)".to_string(),
        ),
        (
            InterpreterError::UnsupportedNode(num(1)),
            "This node is not supported by interpreter yet: IntegerLiteral(1)".to_string(),
        ),
        (
            InterpreterError::ValueCastError(Value::boolean(true), "integer".to_string()),
            "Failed to cast node to integer: true".to_string(),
        ),
    ];
    for (error, expected) in cases {
        assert_eq!(message(&error), expected);
    }
}

#[test]
fn message_writes_a_node_out() {
    let node = function(
        "f",
        vec![id("a")],
        block(vec![
            var("x", bin(num(1), BinaryOperator::Plus, text("s\"q"))),
            Arc::new(Node::IfStatement(id("true"), ret(member(id("o"), "p")), None)),
            assign(id("x"), AssignmentOperator::Addition, call(id("f"), vec![])),
            Arc::new(Node::LogicalExpression(id("a"), LogicalOperator::Or, id("b"))),
            Arc::new(Node::UnaryExpression(Arc::new(Node::DecimalLiteral(3)), UnaryOperator::Negation)),
        ]),
    );
    let expected = format!("{:?}", node);
    assert_eq!(message(&InterpreterError::UnexpectedNode(node)), format!("Unexpected node: {}", expected));
    let other = class(
        "C",
        Some(id("B")),
        vec![
            property("p", Arc::new(Node::ArrayExpression(vec![num(1), num(2)]))),
            method("m", vec![id("a"), id("b")], block(vec![])),
            Arc::new(Node::WhileStatement(id("true"), Arc::new(Node::Program(vec![])))),
        ],
    );
    let expected = format!("{:?}", other);
    assert_eq!(message(&InterpreterError::UnexpectedNode(other)), format!("Unexpected node: {}", expected));
}
