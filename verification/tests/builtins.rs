use pl_interpreter::ast::BinaryOperator;
use pl_interpreter::builtin::array::run_get_by_index;
use pl_interpreter::builtin::array::run_merge;
use pl_interpreter::builtin::convert::convert_to_string;
use pl_interpreter::builtin::math::ceil;
use pl_interpreter::builtin::math::floor;
use pl_interpreter::builtin::math::integer_power;
use pl_interpreter::builtin::math::pow;
use pl_interpreter::builtin::math::random;
use pl_interpreter::builtin::math::round;
use pl_interpreter::builtin::math::sqrt;
use pl_interpreter::builtin::math::trunc;
use pl_interpreter::builtin::math::PI_BITS;
use pl_interpreter::builtin::number::run_abs;
use pl_interpreter::builtin::print::print_line;
use pl_interpreter::builtin::string::run_concat;
use pl_interpreter::builtin::string::run_get_char;
use pl_interpreter::builtin::string::run_join;
use pl_interpreter::builtin::string::run_lower;
use pl_interpreter::builtin::string::run_replace;
use pl_interpreter::builtin::string::run_split;
use pl_interpreter::builtin::string::run_substr;
use pl_interpreter::builtin::string::run_trim;
use pl_interpreter::builtin::string::run_trim_end;
use pl_interpreter::builtin::string::run_trim_start;
use pl_interpreter::builtin::string::run_upper;
use pl_interpreter::builtin::time::time_result;
use pl_interpreter::builtin::time::time_value;
use pl_interpreter::get_array_object;
use pl_interpreter::get_by_index;
use pl_interpreter::get_char;
use pl_interpreter::get_math;
use pl_interpreter::get_number_object;
use pl_interpreter::get_string_object;
use pl_interpreter::merge;
use pl_interpreter::native_get_time;
use pl_interpreter::native_print_function;
use pl_interpreter::native_string_convert;
use pl_interpreter::native_type_of;
use pl_interpreter::setup_default_environment;
use pl_interpreter::ArrayValue;
use pl_interpreter::Builtin;
use pl_interpreter::ClassValue;
use pl_interpreter::ClosureType;
use pl_interpreter::DecimalFunction;
use pl_interpreter::FunctionParameter;
use pl_interpreter::FunctionValue;
use pl_interpreter::Host;
use pl_interpreter::InterpreterError;
use pl_interpreter::NativeFnValue;
use pl_interpreter::Node;
use pl_interpreter::ObjectValue;
use pl_interpreter::ScopeState;
use pl_interpreter::StringValue;
use pl_interpreter::Value;
use pl_interpreter::WithFnCall;
use std::sync::Arc;

struct Recorder {
    lines: Vec<String>,
}

impl Host for Recorder {
    fn print(&mut self, line: String) {
        self.lines.push(line);
    }

    fn random(&mut self) -> u64 {
        0.25f64.to_bits()
    }

    fn decimal_from_integer(&mut self, value: isize) -> u64 {
        (value as f64).to_bits()
    }

    fn decimal_arithmetic(&mut self, operator: BinaryOperator, left: u64, right: u64) -> u64 {
        let l = f64::from_bits(left);
        let r = f64::from_bits(right);
        let v = match operator {
            BinaryOperator::Plus => l + r,
            BinaryOperator::Minus => l - r,
            BinaryOperator::Multiply => l * r,
            BinaryOperator::Divide => l / r,
            _ => l % r,
        };
        v.to_bits()
    }

    fn decimal_compare(&mut self, operator: BinaryOperator, left: u64, right: u64) -> bool {
        let l = f64::from_bits(left);
        let r = f64::from_bits(right);
        match operator {
            BinaryOperator::GreaterThan => l > r,
            BinaryOperator::LessThan => l < r,
            BinaryOperator::NotEquals => l != r,
            _ => l == r,
        }
    }

    fn decimal_apply(&mut self, function: DecimalFunction, value: u64) -> u64 {
        let x = f64::from_bits(value);
        let v = match function {
            DecimalFunction::Negate => x * -1.0,
            DecimalFunction::Abs => x.abs(),
            DecimalFunction::Floor => x.floor(),
            DecimalFunction::Ceil => x.ceil(),
            DecimalFunction::Trunc => x.trunc(),
            DecimalFunction::Round => x.round(),
            DecimalFunction::Sqrt => x.sqrt(),
        };
        v.to_bits()
    }

    fn decimal_power(&mut self, base: u64, exponent: u64) -> u64 {
        f64::from_bits(base).powf(f64::from_bits(exponent)).to_bits()
    }

    fn decimal_text(&mut self, value: u64) -> String {
        f64::from_bits(value).to_string()
    }
}

fn host() -> Recorder {
    Recorder { lines: Vec::new() }
}

fn text(s: &str) -> Value {
    Value::string(s.to_string())
}

fn string_value(s: &str) -> StringValue {
    StringValue::from(s.to_string())
}

fn decimal(x: f64) -> Value {
    Value::decimal(x.to_bits())
}

fn as_text(v: &Value) -> String {
    match v {
        Value::String(s) => s.value(),
        other => panic!("no text: {:?}", other),
    }
}

fn as_integer(v: &Value) -> isize {
    match v {
        Value::Integer(i) => i.value(),
        other => panic!("no integer: {:?}", other),
    }
}

fn as_decimal(v: &Value) -> f64 {
    match v {
        Value::Decimal(d) => f64::from_bits(d.value()),
        other => panic!("no decimal: {:?}", other),
    }
}

fn is_null(v: &Value) -> bool {
    matches!(v, Value::Null(_))
}

fn show(v: &Value) -> String {
    pl_interpreter::builtin::stringify::stringify(v, &mut host())
}

#[test]
fn type_of_names_every_kind() {
    let function = Value::Function(FunctionValue::new(
        "f".to_string(),
        vec![],
        1,
        Arc::new(Node::BlockStatement(vec![])),
    ));
    let native = Value::NativeFn(NativeFnValue::new(
        "print".to_string(),
        WithFnCall::new(ClosureType::free(Builtin::Print)),
    ));
    let cases = vec![
        (Value::null(), "null"),
        (Value::boolean(true), "boolean"),
        (Value::integer(1), "number"),
        (decimal(1.5), "number"),
        (text("a"), "string"),
        (Value::array(vec![]), "array"),
        (Value::object(vec![]), "object"),
        (function, "function"),
        (native, "function"),
        (Value::Class(ClassValue::default()), "class"),
    ];
    for (value, name) in cases {
        assert_eq!(as_text(&native_type_of(vec![value])), name);
    }
}

#[test]
fn type_of_without_argument_is_null() {
    assert!(is_null(&native_type_of(vec![])));
}

#[test]
fn string_get_within_and_beyond_bounds() {
    let s = string_value("héllo");
    assert_eq!(as_text(&run_get_char(&s, &vec![Value::integer(0)])), "h");
    assert_eq!(as_text(&run_get_char(&s, &vec![Value::integer(1)])), "é");
    assert_eq!(as_text(&run_get_char(&s, &vec![Value::integer(4)])), "o");
    assert!(is_null(&run_get_char(&s, &vec![Value::integer(5)])));
    assert!(is_null(&run_get_char(&s, &vec![Value::integer(-1)])));
    assert!(is_null(&run_get_char(&s, &vec![text("0")])));
    assert!(is_null(&run_get_char(&s, &vec![])));
}

#[test]
fn string_get_through_the_native() {
    let native = WithFnCall::new(get_char(string_value("abc")));
    let got = native.run(vec![Value::integer(2)], &mut host());
    assert_eq!(as_text(&got), "c");
}

#[test]
fn string_concat_skips_what_is_no_text() {
    let s = string_value("a");
    let got = run_concat(&s, &vec![text("b"), Value::integer(1), text("c")]);
    assert_eq!(as_text(&got), "abc");
}

#[test]
fn string_substr_counts_from_either_end() {
    let s = string_value("hello");
    assert_eq!(as_text(&run_substr(&s, &vec![Value::integer(1)])), "ello");
    assert_eq!(as_text(&run_substr(&s, &vec![Value::integer(1), Value::integer(3)])), "ell");
    assert_eq!(as_text(&run_substr(&s, &vec![Value::integer(1), Value::integer(-1)])), "ell");
    assert_eq!(as_text(&run_substr(&s, &vec![Value::integer(5)])), "");
    assert_eq!(as_text(&run_substr(&s, &vec![Value::integer(2), Value::integer(100)])), "llo");
    assert!(is_null(&run_substr(&s, &vec![Value::integer(1), Value::integer(-4)])));
    assert!(is_null(&run_substr(&s, &vec![Value::integer(-1)])));
    assert!(is_null(&run_substr(&s, &vec![Value::integer(6)])));
    assert!(is_null(&run_substr(&s, &vec![text("1")])));
    assert!(is_null(&run_substr(&s, &vec![Value::integer(1), text("1")])));
    assert!(is_null(&run_substr(&s, &vec![])));
}

#[test]
fn string_case_and_trimming() {
    assert_eq!(as_text(&run_upper(&string_value("aBc"))), "ABC");
    assert_eq!(as_text(&run_lower(&string_value("aBc"))), "abc");
    assert_eq!(as_text(&run_trim(&string_value("  a b \n"))), "a b");
    assert_eq!(as_text(&run_trim_start(&string_value("  a b "))), "a b ");
    assert_eq!(as_text(&run_trim_end(&string_value("  a b "))), "  a b");
}

#[test]
fn string_replace_takes_every_match() {
    let s = string_value("aXbXXc");
    assert_eq!(as_text(&run_replace(&s, &vec![text("X"), text("--")])), "a--b----c");
    assert_eq!(as_text(&run_replace(&string_value("aaa"), &vec![text("aa"), text("b")])), "ba");
    assert_eq!(as_text(&run_replace(&string_value("ab"), &vec![text(""), text("-")])), "-a-b-");
    assert!(is_null(&run_replace(&s, &vec![text("X")])));
    assert!(is_null(&run_replace(&s, &vec![text("X"), Value::integer(1)])));
}

#[test]
fn string_split_gives_the_pieces() {
    let got = run_split(&string_value("a,b,,c"), &vec![text(",")]);
    assert_eq!(show(&got), "[\"a\", \"b\", \"\", \"c\"]");
    let got = run_split(&string_value("ab"), &vec![text("")]);
    assert_eq!(show(&got), "[\"\", \"a\", \"b\", \"\"]");
    let got = run_split(&string_value(""), &vec![text(",")]);
    assert_eq!(show(&got), "[\"\"]");
    assert!(is_null(&run_split(&string_value("a"), &vec![])));
    assert!(is_null(&run_split(&string_value("a"), &vec![Value::integer(1)])));
}

#[test]
fn string_join_converts_every_element() {
    let items = Value::array(vec![
        Value::integer(1),
        text("b"),
        Value::null(),
        Value::array(vec![Value::integer(1), Value::integer(2)]),
    ]);
    let got = run_join(&string_value(", "), &vec![items], &mut host());
    assert_eq!(as_text(&got), "1, b, null, <array (2 items)>");
    assert!(is_null(&run_join(&string_value(","), &vec![text("a")], &mut host())));
    assert!(is_null(&run_join(&string_value(","), &vec![], &mut host())));
}

#[test]
fn string_object_has_the_methods_and_the_length() {
    let object = get_string_object(&string_value("héllo"));
    let names: Vec<String> = object.map().into_iter().map(|e| e.0).collect();
    assert_eq!(
        names,
        vec![
            "get", "concat", "substr", "upper", "lower", "replace", "trim", "trim_start", "trim_end",
            "split", "join", "length"
        ]
    );
    let length = object.get_property("length".to_string()).unwrap();
    assert_eq!(as_integer(&length), 5);
    let upper = object.get_property("upper".to_string()).unwrap();
    match upper {
        Value::NativeFn(f) => {
            assert_eq!(f.name, "string.upper");
            assert_eq!(as_text(&f.callee().run(vec![], &mut host())), "HÉLLO");
        }
        other => panic!("no native function: {:?}", other),
    }
}

#[test]
fn array_get_within_and_beyond_bounds() {
    let a = ArrayValue::from(vec![Value::integer(10), text("x")]);
    assert_eq!(as_integer(&run_get_by_index(&a, &vec![Value::integer(0)])), 10);
    assert_eq!(as_text(&run_get_by_index(&a, &vec![Value::integer(1)])), "x");
    assert!(is_null(&run_get_by_index(&a, &vec![Value::integer(2)])));
    assert!(is_null(&run_get_by_index(&a, &vec![Value::integer(-1)])));
    assert!(is_null(&run_get_by_index(&a, &vec![text("0")])));
    assert!(is_null(&run_get_by_index(&a, &vec![])));
    let native = WithFnCall::new(get_by_index(a));
    assert_eq!(as_text(&native.run(vec![Value::integer(1)], &mut host())), "x");
}

#[test]
fn array_merge_appends_the_arguments() {
    let a = ArrayValue::from(vec![Value::integer(1)]);
    let got = run_merge(&a, vec![Value::integer(2), Value::integer(3)]);
    assert_eq!(show(&got), "[1, 2, 3]");
    assert!(is_null(&run_merge(&a, vec![])));
    let native = WithFnCall::new(merge(a));
    assert_eq!(show(&native.run(vec![text("z")], &mut host())), "[1, \"z\"]");
}

#[test]
fn array_length_counts_the_elements_appended() {
    let mut store = ScopeState::new();
    let root = setup_default_environment(&mut store);
    let mut a = ArrayValue::from(vec![]);
    for k in 0..7 {
        a.append_element(Value::integer(k));
        let object = get_array_object(&a, &"length".to_string(), root, &store).unwrap();
        let length = object.get_property("length".to_string()).unwrap();
        assert_eq!(as_integer(&length), k + 1);
    }
    assert_eq!(a.value().len(), 7);
}

#[test]
fn array_object_without_the_scope_fails() {
    let store = ScopeState::new();
    let a = ArrayValue::from(vec![]);
    let got = get_array_object(&a, &"get".to_string(), 5, &store);
    assert!(matches!(got, Err(InterpreterError::UnresolvedEnvironment(5))));
}

#[test]
fn number_abs_of_integers_and_decimals() {
    assert_eq!(as_integer(&run_abs(&Value::integer(-5), &mut host())), 5);
    assert_eq!(as_integer(&run_abs(&Value::integer(5), &mut host())), 5);
    assert!(is_null(&run_abs(&Value::integer(isize::MIN), &mut host())));
    assert_eq!(as_decimal(&run_abs(&decimal(-1.5), &mut host())), 1.5);
    assert!(is_null(&run_abs(&text("a"), &mut host())));
    let object = get_number_object(&Value::integer(-3));
    match object.get_property("abs".to_string()).unwrap() {
        Value::NativeFn(f) => {
            assert_eq!(f.name, "number.abs");
            assert_eq!(as_integer(&f.callee().run(vec![], &mut host())), 3);
        }
        other => panic!("no native function: {:?}", other),
    }
}

#[test]
fn math_rounding_keeps_integers() {
    assert_eq!(as_integer(&floor(vec![Value::integer(3)], &mut host())), 3);
    assert_eq!(as_decimal(&floor(vec![decimal(3.7)], &mut host())), 3.0);
    assert_eq!(as_decimal(&ceil(vec![decimal(3.2)], &mut host())), 4.0);
    assert_eq!(as_decimal(&trunc(vec![decimal(-3.7)], &mut host())), -3.0);
    assert_eq!(as_decimal(&round(vec![decimal(2.5)], &mut host())), 3.0);
    assert!(is_null(&floor(vec![], &mut host())));
    assert!(is_null(&ceil(vec![text("a")], &mut host())));
}

#[test]
fn math_pow_of_integers_is_exact() {
    assert_eq!(as_integer(&integer_power(2, 10)), 1024);
    assert_eq!(as_integer(&integer_power(-3, 3)), -27);
    assert_eq!(as_integer(&integer_power(7, 0)), 1);
    assert_eq!(as_integer(&integer_power(0, 0)), 1);
    assert_eq!(as_integer(&integer_power(0, 5)), 0);
    assert_eq!(as_integer(&integer_power(1, isize::MAX)), 1);
    assert_eq!(as_integer(&integer_power(-1, 7)), -1);
    assert_eq!(as_integer(&integer_power(-1, 8)), 1);
    assert!(is_null(&integer_power(2, -1)));
    assert!(is_null(&integer_power(2, 200)));
    assert_eq!(as_integer(&pow(vec![Value::integer(3), Value::integer(4)], &mut host())), 81);
    assert_eq!(as_decimal(&pow(vec![decimal(2.0), Value::integer(3)], &mut host())), 8.0);
    assert!(is_null(&pow(vec![Value::integer(2)], &mut host())));
    assert!(is_null(&pow(vec![Value::integer(2), text("a")], &mut host())));
}

#[test]
fn math_sqrt_is_always_decimal() {
    assert_eq!(as_decimal(&sqrt(vec![Value::integer(9)], &mut host())), 3.0);
    assert_eq!(as_decimal(&sqrt(vec![decimal(2.25)], &mut host())), 1.5);
    assert!(is_null(&sqrt(vec![], &mut host())));
    assert!(is_null(&sqrt(vec![Value::null()], &mut host())));
}

#[test]
fn math_object_holds_pi_and_the_functions() {
    assert_eq!(f64::from_bits(PI_BITS), 3.14159);
    let math = ObjectValue::from(get_math());
    assert_eq!(as_decimal(&math.get_property("PI".to_string()).unwrap()), 3.14159);
    for name in ["random", "floor", "ceil", "trunc", "round", "pow", "sqrt"] {
        assert!(matches!(math.get_property(name.to_string()), Some(Value::NativeFn(_))));
    }
    assert_eq!(as_decimal(&random(&mut host())), 0.25);
}

#[test]
fn time_answers_for_what_the_clock_said() {
    assert_eq!(as_integer(&time_result(Some(1234))), 1234);
    assert_eq!(as_integer(&time_result(Some(0))), 0);
    assert!(is_null(&time_result(None)));
}

#[test]
fn print_hands_one_line_to_the_host() {
    let mut h = host();
    let got = native_print_function(vec![Value::integer(1), text("a")], &mut h);
    assert!(is_null(&got));
    assert_eq!(h.lines, vec!["1 a".to_string()]);
    let got = native_print_function(vec![decimal(2.5)], &mut h);
    assert!(is_null(&got));
    assert_eq!(h.lines, vec!["1 a".to_string(), "2.5".to_string()]);
}

#[test]
fn time_is_an_integer() {
    let now = native_get_time(vec![]);
    assert!(as_integer(&now) > 1_600_000_000_000);
    assert_eq!(as_integer(&time_value(1234)), 1234);
}

#[test]
fn stringify_of_plain_values() {
    assert_eq!(show(&Value::null()), "null");
    assert_eq!(show(&Value::boolean(true)), "true");
    assert_eq!(show(&Value::boolean(false)), "false");
    assert_eq!(show(&Value::integer(-42)), "-42");
    assert_eq!(show(&Value::integer(0)), "0");
    assert_eq!(show(&decimal(1.5)), "1.5");
    assert_eq!(show(&text("a b")), "a b");
}

#[test]
fn stringify_of_functions_and_classes() {
    let function = Value::Function(FunctionValue::new(
        "add".to_string(),
        vec![
            FunctionParameter::new("a".to_string(), None),
            FunctionParameter::new("b".to_string(), Some(Value::integer(1))),
        ],
        1,
        Arc::new(Node::BlockStatement(vec![])),
    ));
    assert_eq!(show(&function), "<function add(a, b)>");
    let native = Value::NativeFn(NativeFnValue::new(
        "print".to_string(),
        WithFnCall::new(ClosureType::free(Builtin::Print)),
    ));
    assert_eq!(show(&native), "<native-function print>");
    let mut class = ClassValue::default();
    class.name = "Point".to_string();
    assert_eq!(show(&Value::Class(class)), "<class Point>");
}

#[test]
fn stringify_of_arrays_shows_ten_elements() {
    let short = Value::array(vec![Value::integer(1), text("a"), Value::array(vec![])]);
    assert_eq!(show(&short), "[1, \"a\", []]");
    let long = Value::array((0..13).map(Value::integer).collect());
    assert_eq!(show(&long), "[0, 1, 2, 3, 4, 5, 6, 7, 8, 9, ...more 3 items]");
    let ten = Value::array((0..10).map(Value::integer).collect());
    assert_eq!(show(&ten), "[0, 1, 2, 3, 4, 5, 6, 7, 8, 9]");
}

#[test]
fn stringify_of_objects_goes_line_by_line() {
    assert_eq!(show(&Value::object(vec![])), "{}");
    let inner = Value::object(vec![("x".to_string(), Value::integer(1))]);
    let outer = Value::object(vec![("a".to_string(), text("t")), ("in".to_string(), inner)]);
    assert_eq!(show(&outer), "{\n    \"a\": t,\n    \"in\": {\n        \"x\": 1,\n    },\n}");
    let many = Value::object((0..32).map(|k| (format!("k{}", k), Value::integer(k))).collect());
    let shown = show(&many);
    assert!(shown.starts_with("{\n    \"k0\": 0,\n"));
    assert!(shown.contains("    \"k29\": 29,\n"));
    assert!(!shown.contains("k30"));
    assert!(shown.ends_with("    \"...\": more 2 fields,\n}"));
}

#[test]
fn print_joins_with_one_space() {
    let mut h = host();
    let line = print_line(&vec![Value::integer(2), text("x"), Value::null()], &mut h);
    assert_eq!(line, "2 x null");
    let got = native_print_function(vec![Value::integer(2), Value::integer(3)], &mut h);
    assert!(is_null(&got));
    assert_eq!(h.lines, vec!["2 3".to_string()]);
    native_print_function(vec![], &mut h);
    assert_eq!(h.lines.len(), 2);
    assert_eq!(h.lines[1], "");
}

#[test]
fn conversion_to_text() {
    let mut h = host();
    assert_eq!(convert_to_string(&Value::array(vec![Value::null(), Value::null()]), &mut h), "<array (2 items)>");
    assert_eq!(convert_to_string(&Value::object(vec![]), &mut h), "<object (0 pairs)>");
    assert_eq!(convert_to_string(&Value::integer(12), &mut h), "12");
    assert_eq!(as_text(&native_string_convert(vec![Value::boolean(false)], &mut h)), "false");
    assert!(is_null(&native_string_convert(vec![], &mut h)));
}

#[test]
fn default_environment_binds_the_constants() {
    let mut store = ScopeState::new();
    let root = setup_default_environment(&mut store);
    assert_eq!(root, 1);
    let scope = store.get_scope(root).unwrap();
    assert!(scope.parent.is_none());
    for name in ["true", "false", "null", "print", "time", "math", "type_of"] {
        assert!(scope.lookup_variable_safe(name.to_string(), &store).is_some());
        let changed = store_assign(name);
        assert!(matches!(changed, Err(InterpreterError::ReassignConstant(_))));
    }
    assert!(matches!(
        scope.lookup_variable("true".to_string(), &store),
        Ok(Value::Boolean(_))
    ));
}

fn store_assign(name: &str) -> Result<Value, InterpreterError> {
    let mut store = ScopeState::new();
    let root = setup_default_environment(&mut store);
    store.assign_variable(name.to_string(), Value::integer(0), root, false)
}

fn starts_with(s: &[char], p: &[char]) -> bool {
    p.len() <= s.len() && &s[..p.len()] == p
}

fn replaced(s: &[char], from: &[char], to: &[char]) -> Vec<char> {
    let mut out = Vec::new();
    if from.is_empty() {
        out.extend_from_slice(to);
        if !s.is_empty() {
            out.push(s[0]);
            out.extend(replaced(&s[1..], from, to));
        }
    } else if s.is_empty() {
    } else if starts_with(s, from) {
        out.extend_from_slice(to);
        out.extend(replaced(&s[from.len()..], from, to));
    } else {
        out.push(s[0]);
        out.extend(replaced(&s[1..], from, to));
    }
    out
}

fn pieces(s: &[char], sep: &[char], piece: Vec<char>) -> Vec<Vec<char>> {
    if s.is_empty() || sep.is_empty() {
        let mut last = piece;
        last.extend_from_slice(s);
        vec![last]
    } else if starts_with(s, sep) {
        let mut out = vec![piece];
        out.extend(pieces(&s[sep.len()..], sep, Vec::new()));
        out
    } else {
        let mut longer = piece;
        longer.push(s[0]);
        pieces(&s[1..], sep, longer)
    }
}

fn split(s: &[char], sep: &[char]) -> Vec<Vec<char>> {
    if sep.is_empty() {
        let mut out = vec![Vec::new()];
        out.extend(s.iter().map(|c| vec![*c]));
        out.push(Vec::new());
        out
    } else {
        pieces(s, sep, Vec::new())
    }
}

fn trimmed_start(s: &[char]) -> &[char] {
    let mut i = 0;
    while i < s.len() && s[i].is_whitespace() {
        i += 1;
    }
    &s[i..]
}

fn trimmed_end(s: &[char]) -> &[char] {
    let mut n = s.len();
    while n > 0 && s[n - 1].is_whitespace() {
        n -= 1;
    }
    &s[..n]
}

fn words(alphabet: &[char], longest: usize) -> Vec<Vec<char>> {
    let mut all = vec![Vec::new()];
    let mut last = vec![Vec::new()];
    for _ in 0..longest {
        let mut next = Vec::new();
        for w in &last {
            for c in alphabet {
                let mut longer: Vec<char> = w.clone();
                longer.push(*c);
                next.push(longer);
            }
        }
        all.extend(next.iter().cloned());
        last = next;
    }
    all
}

fn string_of(chars: &[char]) -> String {
    chars.iter().collect()
}

#[test]
fn replace_is_what_its_statement_says() {
    let texts = words(&['a', 'b'], 5);
    let patterns = words(&['a', 'b'], 2);
    let to: Vec<char> = "xy".chars().collect();
    for s in &texts {
        for from in &patterns {
            let got = run_replace(
                &string_value(&string_of(s)),
                &vec![text(&string_of(from)), text(&string_of(&to))],
            );
            assert_eq!(as_text(&got), string_of(&replaced(s, from, &to)));
        }
    }
}

#[test]
fn split_is_what_its_statement_says() {
    let texts = words(&['a', 'b'], 5);
    let separators = words(&['a', 'b'], 2);
    for s in &texts {
        for sep in &separators {
            let got = run_split(&string_value(&string_of(s)), &vec![text(&string_of(sep))]);
            let expected: Vec<String> = split(s, sep).iter().map(|p| string_of(p)).collect();
            match got {
                Value::Array(a) => {
                    let parts: Vec<String> = a.value().iter().map(as_text).collect();
                    assert_eq!(parts, expected);
                }
                other => panic!("no array: {:?}", other),
            }
        }
    }
}

#[test]
fn trimming_is_what_its_statement_says() {
    for s in &words(&['a', ' ', '\n', '\u{a0}'], 5) {
        let value = string_value(&string_of(s));
        assert_eq!(as_text(&run_trim_start(&value)), string_of(trimmed_start(s)));
        assert_eq!(as_text(&run_trim_end(&value)), string_of(trimmed_end(s)));
        assert_eq!(as_text(&run_trim(&value)), string_of(trimmed_end(trimmed_start(s))));
    }
}

#[test]
fn integers_are_written_in_decimal_digits() {
    for v in [0isize, 7, 10, 99, 100, 12345, -1, -10, -12345, isize::MAX, isize::MIN] {
        assert_eq!(show(&Value::integer(v)), v.to_string());
    }
}

#[test]
fn white_space_is_the_listed_code_points() {
    let listed: Vec<u32> = vec![
        0x9, 0xa, 0xb, 0xc, 0xd, 0x20, 0x85, 0xa0, 0x1680, 0x2000, 0x2001, 0x2002, 0x2003, 0x2004,
        0x2005, 0x2006, 0x2007, 0x2008, 0x2009, 0x200a, 0x2028, 0x2029, 0x202f, 0x205f, 0x3000,
    ];
    let mut code: u32 = 0;
    while code < 0x3200 {
        if let Some(c) = char::from_u32(code) {
            let around = StringValue { value: format!("{}x{}", c, c) };
            let expected = if listed.contains(&code) { "x".to_string() } else { around.value.clone() };
            assert_eq!(as_text(&run_trim(&around)), expected, "code point {:#x}", code);
            let before = StringValue { value: format!("{}x", c) };
            let expected = if listed.contains(&code) { "x".to_string() } else { before.value.clone() };
            assert_eq!(as_text(&run_trim_start(&before)), expected, "code point {:#x}", code);
            let after = StringValue { value: format!("x{}", c) };
            let expected = if listed.contains(&code) { "x".to_string() } else { after.value.clone() };
            assert_eq!(as_text(&run_trim_end(&after)), expected, "code point {:#x}", code);
        }
        code += 1;
    }
    for code in [0xfeffu32, 0x180e, 0x200b, 0x2060, 0x1f600] {
        let c = char::from_u32(code).unwrap();
        let around = StringValue { value: format!("{}x{}", c, c) };
        assert_eq!(as_text(&run_trim(&around)), around.value);
    }
}
