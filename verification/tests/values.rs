use pl_interpreter::ast::Node;
use pl_interpreter::values::array::ArrayValue;
use pl_interpreter::values::bool::BoolValue;
use pl_interpreter::values::class::ClassMethod;
use pl_interpreter::values::class::ClassMethodParameter;
use pl_interpreter::values::class::ClassProperty;
use pl_interpreter::values::class::ClassValue;
use pl_interpreter::values::class_instance::ClassInstanceValue;
use pl_interpreter::values::decimal::DecimalValue;
use pl_interpreter::values::function::FunctionParameter;
use pl_interpreter::values::function::FunctionValue;
use pl_interpreter::values::integer::IntegerValue;
use pl_interpreter::values::native_fn::Builtin;
use pl_interpreter::values::native_fn::ClosureType;
use pl_interpreter::values::native_fn::NativeFnValue;
use pl_interpreter::values::native_fn::WithFnCall;
use pl_interpreter::values::null::NullValue;
use pl_interpreter::values::object::ObjectValue;
use pl_interpreter::values::string::StringValue;
use pl_interpreter::values::RuntimeValue;
use pl_interpreter::values::Value;
use pl_interpreter::values::ValueType;
use std::sync::Arc;

fn integer_of(v: &Value) -> isize {
    match v {
        Value::Integer(i) => i.value(),
        other => panic!("no integer: {:?}", other),
    }
}

fn body() -> Arc<Node> {
    Arc::new(Node::BlockStatement(vec![]))
}

fn property(name: &str, value: isize, is_static: bool) -> ClassProperty {
    ClassProperty { name: name.to_string(), value: Value::integer(value), is_static }
}

fn method(name: &str, is_static: bool) -> ClassMethod {
    ClassMethod {
        name: name.to_string(),
        args: vec![ClassMethodParameter { name: "a".to_string(), default_value: None }],
        body: body(),
        is_static,
    }
}

#[test]
fn every_value_answers_its_tag() {
    assert_eq!(NullValue::default().kind(), ValueType::Null);
    assert_eq!(BoolValue::from(true).kind(), ValueType::Boolean);
    assert_eq!(IntegerValue::from(1).kind(), ValueType::Integer);
    assert_eq!(DecimalValue::from_bits(0).kind(), ValueType::Decimal);
    assert_eq!(StringValue::from("a".to_string()).kind(), ValueType::String);
    assert_eq!(ArrayValue::from(vec![]).kind(), ValueType::Array);
    assert_eq!(ObjectValue::from(vec![]).kind(), ValueType::Object);
    assert_eq!(ClassValue::default().kind(), ValueType::Class);
    assert_eq!(ClassInstanceValue::new("A".to_string(), vec![]).kind(), ValueType::Object);
    let function = FunctionValue::new("f".to_string(), vec![], 1, body());
    assert_eq!(function.kind(), ValueType::Function);
    let native = NativeFnValue::new("n".to_string(), WithFnCall::new(ClosureType::free(Builtin::Time)));
    assert_eq!(native.kind(), ValueType::NativeFn);
    assert_eq!(Value::integer(1).kind(), ValueType::Integer);
    assert_eq!(Value::Function(function).kind(), ValueType::Function);
    assert_eq!(Value::NativeFn(native).kind(), ValueType::NativeFn);
}

#[test]
fn accessors_give_the_payload() {
    assert!(BoolValue::from(true).value());
    assert_eq!(IntegerValue::from(-3).value(), -3);
    assert_eq!(DecimalValue::from_bits(7).value(), 7);
    assert_eq!(DecimalValue::from_bits(7).to_bits(), 7);
    assert_eq!(StringValue::from("abc".to_string()).value(), "abc");
    let instance = ClassInstanceValue::new(
        "Point".to_string(),
        vec![("x".to_string(), Value::integer(1))],
    );
    assert_eq!(instance.class_name(), "Point");
    assert_eq!(instance.map().len(), 1);
    let parameter = FunctionParameter::new("p".to_string(), Some(Value::integer(2)));
    assert_eq!(parameter.name, "p");
    assert_eq!(integer_of(parameter.default_value.as_ref().unwrap()), 2);
    let native = NativeFnValue::new(
        "n".to_string(),
        WithFnCall::new(ClosureType::bound(Builtin::NumberAbs, Value::integer(-1))),
    );
    assert_eq!(native.callee().fc.builtin, Builtin::NumberAbs);
    assert_eq!(integer_of(&native.callee().fc.receiver), -1);
}

#[test]
fn array_grows_by_one_with_each_element() {
    let mut array = ArrayValue::from(vec![Value::integer(1)]);
    assert_eq!(array.value().len(), 1);
    array.append_element(Value::integer(2));
    array.append_element(Value::integer(3));
    let values = array.value();
    assert_eq!(values.len(), 3);
    assert_eq!(integer_of(&values[2]), 3);
    let copy = array.clone();
    array.append_element(Value::integer(4));
    assert_eq!(copy.value().len(), 3);
}

#[test]
fn object_assignment_replaces_or_adds() {
    let mut object = ObjectValue::from(vec![
        ("a".to_string(), Value::integer(1)),
        ("b".to_string(), Value::integer(2)),
    ]);
    object.assign_property("a".to_string(), Value::integer(5));
    object.assign_property("c".to_string(), Value::integer(9));
    assert_eq!(integer_of(&object.get_property("a".to_string()).unwrap()), 5);
    assert_eq!(integer_of(&object.get_property("b".to_string()).unwrap()), 2);
    assert_eq!(integer_of(&object.get_property("c".to_string()).unwrap()), 9);
    let entries = object.map();
    assert_eq!(entries.len(), 3);
    assert_eq!(entries[0].0, "a");
    assert_eq!(entries[1].0, "b");
    assert_eq!(entries[2].0, "c");
}

#[test]
fn object_assignment_to_an_empty_object_adds() {
    let mut object = ObjectValue::from(Vec::new());
    object.assign_property("n".to_string(), Value::integer(2));
    object.assign_property("n".to_string(), Value::integer(3));
    assert_eq!(integer_of(&object.get_property("n".to_string()).unwrap()), 3);
    assert_eq!(object.map().len(), 1);
}

#[test]
fn class_property_of_the_same_name_is_replaced() {
    let mut class = ClassValue::default();
    class.insert_property(property("a", 1, false));
    class.insert_property(property("b", 2, false));
    class.insert_property(property("a", 3, true));
    let names: Vec<String> = class.properties.iter().map(|p| p.name.clone()).collect();
    assert_eq!(names, vec!["b".to_string(), "a".to_string()]);
    assert_eq!(integer_of(&class.properties[1].value), 3);
    assert!(class.properties[1].is_static);
}

#[test]
fn class_method_of_the_same_name_is_replaced() {
    let mut class = ClassValue::default();
    class.insert_method(method("run", false));
    class.insert_method(method("stop", false));
    class.insert_method(method("run", true));
    assert_eq!(class.methods.len(), 2);
    assert_eq!(class.methods[0].0, "run");
    assert!(class.methods[0].1.is_static);
}

#[test]
fn subclass_takes_over_instance_members_only() {
    let mut parent = ClassValue::default();
    parent.insert_property(property("kept", 1, false));
    parent.insert_property(property("shared", 2, true));
    parent.insert_method(method("__new__", false));
    parent.insert_method(method("helper", true));
    parent.insert_method(method("speak", false));
    let mut child = ClassValue::default();
    child.copy_properties(&parent);
    child.copy_methods(&parent);
    let properties: Vec<String> = child.properties.iter().map(|p| p.name.clone()).collect();
    assert_eq!(properties, vec!["kept".to_string()]);
    let methods: Vec<String> = child.methods.iter().map(|m| m.0.clone()).collect();
    assert_eq!(methods, vec!["speak".to_string()]);
}

#[test]
fn static_members_are_found_by_name() {
    let mut class = ClassValue::default();
    class.insert_property(property("plain", 1, false));
    class.insert_property(property("count", 2, true));
    class.insert_method(method("make", true));
    class.insert_method(method("speak", false));
    assert_eq!(integer_of(&class.get_static_property("count".to_string()).unwrap().value), 2);
    assert!(class.get_static_property("plain".to_string()).is_none());
    assert!(class.get_static_property("none".to_string()).is_none());
    assert_eq!(class.get_static_method("make".to_string()).unwrap().name, "make");
    assert!(class.get_static_method("speak".to_string()).is_none());
}

#[test]
fn copies_are_independent() {
    let inner = Value::array(vec![Value::integer(1)]);
    let source = Value::object(vec![("a".to_string(), inner)]);
    let copy = source.clone();
    match (source, copy) {
        (Value::Object(mut first), Value::Object(second)) => {
            first.assign_property("a".to_string(), Value::integer(0));
            match second.get_property("a".to_string()).unwrap() {
                Value::Array(a) => assert_eq!(a.value().len(), 1),
                other => panic!("no array: {:?}", other),
            }
        }
        _ => panic!("no objects"),
    }
}
