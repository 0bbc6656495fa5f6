use pl_interpreter::ast::AssignmentOperator;
use pl_interpreter::ast::BinaryOperator;
use pl_interpreter::ast::Node;
use pl_interpreter::builtin::setup_default_environment;
use pl_interpreter::host::DecimalFunction;
use pl_interpreter::host::Host;
use pl_interpreter::runtime::error::InterpreterError;
use pl_interpreter::runtime::interpreter::Interpreter;
use std::sync::Arc;

struct Recorder {
    lines: Vec<String>,
}

impl Host for Recorder {
    fn print(&mut self, line: String) {
        self.lines.push(line);
    }

    fn random(&mut self) -> u64 {
        0.25f64.to_bits()
    }

    fn decimal_from_integer(&mut self, value: isize) -> u64 {
        (value as f64).to_bits()
    }

    fn decimal_arithmetic(&mut self, operator: BinaryOperator, left: u64, right: u64) -> u64 {
        let l = f64::from_bits(left);
        let r = f64::from_bits(right);
        let v = match operator {
            BinaryOperator::Plus => l + r,
            BinaryOperator::Minus => l - r,
            BinaryOperator::Multiply => l * r,
            BinaryOperator::Divide => l / r,
            _ => l % r,
        };
        v.to_bits()
    }

    fn decimal_compare(&mut self, operator: BinaryOperator, left: u64, right: u64) -> bool {
        let l = f64::from_bits(left);
        let r = f64::from_bits(right);
        match operator {
            BinaryOperator::GreaterThan => l > r,
            BinaryOperator::LessThan => l < r,
            BinaryOperator::NotEquals => l != r,
            _ => l == r,
        }
    }

    fn decimal_apply(&mut self, function: DecimalFunction, value: u64) -> u64 {
        let x = f64::from_bits(value);
        let v = match function {
            DecimalFunction::Negate => x * -1.0,
            DecimalFunction::Abs => x.abs(),
            DecimalFunction::Floor => x.floor(),
            DecimalFunction::Ceil => x.ceil(),
            DecimalFunction::Trunc => x.trunc(),
            DecimalFunction::Round => x.round(),
            DecimalFunction::Sqrt => x.sqrt(),
        };
        v.to_bits()
    }

    fn decimal_power(&mut self, base: u64, exponent: u64) -> u64 {
        f64::from_bits(base).powf(f64::from_bits(exponent)).to_bits()
    }

    fn decimal_text(&mut self, value: u64) -> String {
        f64::from_bits(value).to_string()
    }
}

fn num(v: usize) -> Arc<Node> {
    Arc::new(Node::IntegerLiteral(v))
}

fn id(name: &str) -> Arc<Node> {
    Arc::new(Node::Identifier(name.to_string()))
}

fn bin(left: Arc<Node>, operator: BinaryOperator, right: Arc<Node>) -> Arc<Node> {
    Arc::new(Node::BinaryExpression(left, operator, right))
}

fn call(callee: Arc<Node>, arguments: Vec<Arc<Node>>) -> Arc<Node> {
    Arc::new(Node::CallExpression(callee, arguments))
}

fn block(statements: Vec<Arc<Node>>) -> Arc<Node> {
    Arc::new(Node::BlockStatement(statements))
}

fn ret(value: Arc<Node>) -> Arc<Node> {
    Arc::new(Node::ReturnStatement(value))
}

fn var(name: &str, value: Arc<Node>) -> Arc<Node> {
    Arc::new(Node::VariableDeclaration(name.to_string(), Some(value), false))
}

fn constant(name: &str, value: Arc<Node>) -> Arc<Node> {
    Arc::new(Node::VariableDeclaration(name.to_string(), Some(value), true))
}

fn function(name: &str, parameters: Vec<Arc<Node>>, body: Arc<Node>) -> Arc<Node> {
    Arc::new(Node::FunctionDeclaration(name.to_string(), parameters, body))
}

fn assign(left: Arc<Node>, operator: AssignmentOperator, right: Arc<Node>) -> Arc<Node> {
    Arc::new(Node::AssignmentExpression(left, operator, right))
}

fn member(object: Arc<Node>, name: &str) -> Arc<Node> {
    Arc::new(Node::MemberExpression(object, id(name), false))
}

fn property(name: &str, value: Arc<Node>) -> Arc<Node> {
    Arc::new(Node::PropertyDefinition(name.to_string(), value, false))
}

fn method(name: &str, parameters: Vec<Arc<Node>>, body: Arc<Node>) -> Arc<Node> {
    Arc::new(Node::MethodDefinition(name.to_string(), parameters, body, false))
}

fn class(name: &str, parent: Option<Arc<Node>>, body: Vec<Arc<Node>>) -> Arc<Node> {
    Arc::new(Node::ClassDeclaration(name.to_string(), parent, body))
}

fn print(arguments: Vec<Arc<Node>>) -> Arc<Node> {
    call(id("print"), arguments)
}

fn run(statements: Vec<Arc<Node>>) -> (Result<(), InterpreterError>, Vec<String>) {
    let mut interpreter = Interpreter::with_depth_limit(200);
    let mut host = Recorder { lines: Vec::new() };
    let root = setup_default_environment(&mut interpreter.scope_state);
    let result = interpreter.run(Arc::new(Node::Program(statements)), root, &mut host);
    (result, host.lines)
}

#[test]
fn closure_keeps_the_scope_of_its_declaration() {
    let inner = function(
        "inner",
        vec![id("y")],
        block(vec![ret(bin(id("x"), BinaryOperator::Plus, id("y")))]),
    );
    let make = function("make", vec![id("x")], block(vec![inner, ret(id("inner"))]));
    let (result, lines) = run(vec![
        make,
        var("add3", call(id("make"), vec![num(3)])),
        print(vec![call(id("add3"), vec![num(4)])]),
        print(vec![call(id("add3"), vec![num(10)])]),
    ]);
    assert!(result.is_ok());
    assert_eq!(lines, vec!["7".to_string(), "13".to_string()]);
}

#[test]
fn free_names_resolve_where_the_function_was_declared() {
    // `x` is 1 where `show` is declared and 2 where it is called from.
    let show = function("show", vec![], block(vec![ret(id("x"))]));
    let caller = function(
        "caller",
        vec![],
        block(vec![var("x", num(2)), ret(call(id("show"), vec![]))]),
    );
    let (result, lines) = run(vec![
        var("x", num(1)),
        show,
        caller,
        print(vec![call(id("caller"), vec![])]),
    ]);
    assert!(result.is_ok());
    assert_eq!(lines, vec!["1".to_string()]);
}

#[test]
fn constant_cannot_be_reassigned() {
    let (result, lines) = run(vec![
        constant("PI", num(3)),
        assign(id("PI"), AssignmentOperator::Equals, num(4)),
        print(vec![id("PI")]),
    ]);
    match result {
        Err(InterpreterError::ReassignConstant(name)) => assert_eq!(name, "PI"),
        other => panic!("unexpected result: {:?}", other),
    }
    assert!(lines.is_empty());
}

#[test]
fn constant_is_protected_from_a_nested_scope() {
    let change = function(
        "change",
        vec![],
        block(vec![assign(id("LIMIT"), AssignmentOperator::Addition, num(1))]),
    );
    let (result, _) = run(vec![constant("LIMIT", num(3)), change, call(id("change"), vec![])]);
    match result {
        Err(InterpreterError::ReassignConstant(name)) => assert_eq!(name, "LIMIT"),
        other => panic!("unexpected result: {:?}", other),
    }
}

#[test]
fn object_in_constant_binding_can_be_mutated() {
    let (result, lines) = run(vec![
        class("O", None, vec![property("a", num(1))]),
        constant("o", call(id("O"), vec![])),
        assign(member(id("o"), "a"), AssignmentOperator::Equals, num(5)),
        print(vec![member(id("o"), "a")]),
    ]);
    assert!(result.is_ok());
    assert_eq!(lines, vec!["5".to_string()]);
}

#[test]
fn constructors_run_with_self_and_super() {
    let a = class(
        "A",
        None,
        vec![
            method(
                "__new__",
                vec![id("n")],
                block(vec![assign(member(id("self"), "n"), AssignmentOperator::Equals, id("n"))]),
            ),
        ],
    );
    let b = class(
        "B",
        Some(id("A")),
        vec![
            method(
                "__new__",
                vec![id("n"), id("m")],
                block(vec![
                    call(id("super"), vec![id("n")]),
                    assign(member(id("self"), "m"), AssignmentOperator::Equals, id("m")),
                ]),
            ),
        ],
    );
    let (result, lines) = run(vec![
        a,
        b,
        var("b", call(id("B"), vec![num(2), num(3)])),
        print(vec![member(id("b"), "n"), member(id("b"), "m")]),
    ]);
    assert!(result.is_ok(), "{:?}", result);
    assert_eq!(lines, vec!["2 3".to_string()]);
}

#[test]
fn assignment_creates_the_member_it_names() {
    let (result, lines) = run(vec![
        class("O", None, vec![property("c", num(10))]),
        var("o", call(id("O"), vec![])),
        assign(member(id("o"), "d"), AssignmentOperator::Equals, num(4)),
        assign(member(id("o"), "d"), AssignmentOperator::Addition, num(1)),
        print(vec![member(id("o"), "c"), member(id("o"), "d")]),
    ]);
    assert!(result.is_ok(), "{:?}", result);
    assert_eq!(lines, vec!["10 5".to_string()]);
}

#[test]
fn compound_assignment_on_member() {
    let (result, lines) = run(vec![
        class("O", None, vec![property("c", num(10))]),
        var("o", call(id("O"), vec![])),
        assign(member(id("o"), "c"), AssignmentOperator::Addition, num(5)),
        print(vec![member(id("o"), "c")]),
        assign(member(id("o"), "d"), AssignmentOperator::Addition, num(1)),
    ]);
    match result {
        Err(InterpreterError::UnresolvedProperty(name)) => assert_eq!(name, "d"),
        other => panic!("unexpected result: {:?}", other),
    }
    assert_eq!(lines, vec!["15".to_string()]);
}

#[test]
fn recursive_factorial() {
    let fact = function(
        "fact",
        vec![id("n")],
        block(vec![
            var("r", num(1)),
            Arc::new(Node::IfStatement(
                bin(id("n"), BinaryOperator::GreaterThan, num(1)),
                block(vec![assign(
                    id("r"),
                    AssignmentOperator::Equals,
                    bin(
                        id("n"),
                        BinaryOperator::Multiply,
                        call(id("fact"), vec![bin(id("n"), BinaryOperator::Minus, num(1))]),
                    ),
                )]),
                None,
            )),
            ret(id("r")),
        ]),
    );
    let (result, lines) = run(vec![fact, print(vec![call(id("fact"), vec![num(6)])])]);
    assert!(result.is_ok(), "{:?}", result);
    assert_eq!(lines, vec!["720".to_string()]);
}

#[test]
fn while_loop_sum() {
    let (result, lines) = run(vec![
        var("s", num(0)),
        var("i", num(0)),
        Arc::new(Node::WhileStatement(
            bin(id("i"), BinaryOperator::LessThan, num(10)),
            block(vec![
                assign(id("s"), AssignmentOperator::Addition, id("i")),
                assign(id("i"), AssignmentOperator::Addition, num(1)),
            ]),
        )),
        print(vec![id("s")]),
    ]);
    assert!(result.is_ok(), "{:?}", result);
    assert_eq!(lines, vec!["45".to_string()]);
}

#[test]
fn compound_assignment_agrees_with_its_long_form() {
    let (short, short_lines) = run(vec![
        var("x", num(7)),
        assign(id("x"), AssignmentOperator::Multiplication, num(6)),
        print(vec![id("x")]),
    ]);
    let (long, long_lines) = run(vec![
        var("x", num(7)),
        assign(
            id("x"),
            AssignmentOperator::Equals,
            bin(id("x"), BinaryOperator::Multiply, num(6)),
        ),
        print(vec![id("x")]),
    ]);
    assert!(short.is_ok() && long.is_ok());
    assert_eq!(short_lines, vec!["42".to_string()]);
    assert_eq!(short_lines, long_lines);
}

#[test]
fn endless_loop_reaches_the_limit() {
    let (result, _) = run(vec![Arc::new(Node::WhileStatement(id("true"), block(vec![])))]);
    assert!(matches!(result, Err(InterpreterError::LimitReached)));
}

#[test]
fn return_at_top_level_is_an_error() {
    let (result, _) = run(vec![ret(num(1))]);
    assert!(matches!(result, Err(InterpreterError::UnexpectedNode(_))));
}

#[test]
fn method_call_writes_self_back() {
    let counter = class(
        "Counter",
        None,
        vec![
            property("count", num(0)),
            method(
                "bump",
                vec![],
                block(vec![assign(
                    member(id("self"), "count"),
                    AssignmentOperator::Addition,
                    num(1),
                )]),
            ),
        ],
    );
    let (result, lines) = run(vec![
        counter,
        var("c", call(id("Counter"), vec![])),
        call(member(id("c"), "bump"), vec![]),
        call(member(id("c"), "bump"), vec![]),
        print(vec![member(id("c"), "count")]),
    ]);
    assert!(result.is_ok(), "{:?}", result);
    assert_eq!(lines, vec!["2".to_string()]);
}

#[test]
fn nested_member_is_written_back_along_the_chain() {
    let (result, lines) = run(vec![
        class("Inner", None, vec![property("v", num(1))]),
        class("Outer", None, vec![property("inner", call(id("Inner"), vec![]))]),
        var("o", call(id("Outer"), vec![])),
        assign(member(member(id("o"), "inner"), "v"), AssignmentOperator::Equals, num(5)),
        print(vec![member(member(id("o"), "inner"), "v")]),
        assign(member(member(id("o"), "inner"), "v"), AssignmentOperator::Multiplication, num(3)),
        print(vec![member(member(id("o"), "inner"), "v")]),
    ]);
    assert!(result.is_ok(), "{:?}", result);
    assert_eq!(lines, vec!["5".to_string(), "15".to_string()]);
}

#[test]
fn computed_member_takes_its_name_from_a_value() {
    let computed = Arc::new(Node::MemberExpression(
        id("o"),
        Arc::new(Node::StringLiteral("a".to_string())),
        true,
    ));
    let (result, lines) = run(vec![
        class("O", None, vec![property("a", num(1))]),
        var("o", call(id("O"), vec![])),
        assign(computed.clone(), AssignmentOperator::Equals, num(8)),
        print(vec![computed]),
    ]);
    assert!(result.is_ok(), "{:?}", result);
    assert_eq!(lines, vec!["8".to_string()]);
}

#[test]
fn class_without_constructor_gives_its_properties() {
    let (result, lines) = run(vec![
        class(
            "P",
            None,
            vec![
                property("x", num(1)),
                Arc::new(Node::PropertyDefinition("shared".to_string(), num(2), true)),
            ],
        ),
        var("p", call(id("P"), vec![num(9), num(9)])),
        print(vec![member(id("p"), "x"), member(id("p"), "shared")]),
        print(vec![call(id("type_of"), vec![id("p")]), call(id("type_of"), vec![id("P")])]),
    ]);
    assert!(result.is_ok(), "{:?}", result);
    assert_eq!(lines, vec!["1 null".to_string(), "object class".to_string()]);
}

#[test]
fn subclass_inherits_methods() {
    let a = class(
        "A",
        None,
        vec![
            property("n", num(4)),
            method(
                "double",
                vec![],
                block(vec![ret(bin(member(id("self"), "n"), BinaryOperator::Multiply, num(2)))]),
            ),
        ],
    );
    let (result, lines) = run(vec![
        a,
        class("B", Some(id("A")), vec![]),
        var("b", call(id("B"), vec![])),
        print(vec![call(member(id("b"), "double"), vec![])]),
    ]);
    assert!(result.is_ok(), "{:?}", result);
    assert_eq!(lines, vec!["8".to_string()]);
}

#[test]
fn parameter_named_self_collides_in_a_constructor() {
    let (result, _) = run(vec![
        class("A", None, vec![method("__new__", vec![id("self")], block(vec![]))]),
        call(id("A"), vec![num(1)]),
    ]);
    match result {
        Err(InterpreterError::VariableDeclarationExist(name)) => assert_eq!(name, "self"),
        other => panic!("unexpected result: {:?}", other),
    }
}

#[test]
fn constructor_needs_its_arguments() {
    let (result, _) = run(vec![
        class("A", None, vec![method("__new__", vec![id("a"), id("b")], block(vec![]))]),
        call(id("A"), vec![num(1)]),
    ]);
    assert!(matches!(result, Err(InterpreterError::InvalidParameterCount(2, 1))));
}

#[test]
fn surplus_arguments_are_passed_over() {
    let (result, lines) = run(vec![
        function("first", vec![id("a")], block(vec![ret(id("a"))])),
        print(vec![call(id("first"), vec![num(1), num(2), num(3)])]),
    ]);
    assert!(result.is_ok(), "{:?}", result);
    assert_eq!(lines, vec!["1".to_string()]);
}

#[test]
fn parameters_are_constants() {
    let (result, _) = run(vec![
        function(
            "f",
            vec![id("a")],
            block(vec![assign(id("a"), AssignmentOperator::Equals, num(1))]),
        ),
        call(id("f"), vec![num(0)]),
    ]);
    assert!(matches!(result, Err(InterpreterError::ReassignConstant(_))));
}

#[test]
fn both_sides_of_a_logical_expression_are_evaluated() {
    let (result, _) = run(vec![Arc::new(Node::LogicalExpression(
        id("false"),
        pl_interpreter::ast::LogicalOperator::And,
        id("missing"),
    ))]);
    assert!(matches!(result, Err(InterpreterError::UnresolvedVariable(_))));
}

#[test]
fn decimals_go_through_the_host() {
    let half = Arc::new(Node::DecimalLiteral(1.5f64.to_bits()));
    let (result, lines) = run(vec![
        print(vec![bin(half.clone(), BinaryOperator::Plus, num(2))]),
        print(vec![bin(half.clone(), BinaryOperator::LessThan, num(2))]),
        print(vec![call(member(id("math"), "floor"), vec![half.clone()])]),
        print(vec![call(member(id("math"), "sqrt"), vec![num(16)])]),
        print(vec![Arc::new(Node::UnaryExpression(half, pl_interpreter::ast::UnaryOperator::Minus))]),
        print(vec![call(member(id("math"), "random"), vec![])]),
        print(vec![member(id("math"), "PI")]),
    ]);
    assert!(result.is_ok(), "{:?}", result);
    assert_eq!(lines, vec!["3.5", "true", "1", "4", "-1.5", "0.25", "3.14159"]);
}

#[test]
fn condition_may_stop_being_a_boolean() {
    let (result, _) = run(vec![
        var("go", id("true")),
        Arc::new(Node::WhileStatement(
            id("go"),
            block(vec![assign(id("go"), AssignmentOperator::Equals, num(0))]),
        )),
    ]);
    assert!(matches!(result, Err(InterpreterError::InvalidCondition(_))));
}

#[test]
fn if_takes_the_alternate() {
    let (result, lines) = run(vec![
        Arc::new(Node::IfStatement(
            bin(num(1), BinaryOperator::GreaterThan, num(2)),
            block(vec![print(vec![num(1)])]),
            Some(block(vec![print(vec![num(2)])])),
        )),
        Arc::new(Node::IfStatement(
            bin(num(1), BinaryOperator::NotEquals, num(2)),
            block(vec![print(vec![num(3)])]),
            Some(block(vec![print(vec![num(4)])])),
        )),
    ]);
    assert!(result.is_ok(), "{:?}", result);
    assert_eq!(lines, vec!["2".to_string(), "3".to_string()]);
}

#[test]
fn time_is_a_number() {
    let (result, lines) = run(vec![print(vec![call(
        id("type_of"),
        vec![call(id("time"), vec![])],
    )])]);
    assert!(result.is_ok(), "{:?}", result);
    assert_eq!(lines, vec!["number".to_string()]);
}
