//! The runtime values and their mathematical models.
//!
//! Every value has a view: a tree built from integers, sequences of code
//! points and sequences of views. The contracts of the library speak of the
//! views, so that a copy of a value counts as the value itself.

pub mod array;
pub mod bool;
pub mod class;
pub mod class_instance;
pub mod decimal;
pub mod function;
pub mod integer;
pub mod native_fn;
pub mod null;
pub mod object;
pub mod string;

use crate::ast::Node;
use crate::ast::share_node;
use self::array::ArrayValue;
use self::bool::BoolValue;
use self::class::ClassMethod;
use self::class::ClassMethodParameter;
use self::class::ClassProperty;
use self::class::ClassValue;
use self::decimal::DecimalValue;
use self::function::FunctionParameter;
use self::function::FunctionValue;
use self::integer::IntegerValue;
use self::native_fn::Builtin;
use self::native_fn::ClosureType;
use self::native_fn::NativeFnValue;
use self::native_fn::WithFnCall;
use self::null::NullValue;
use self::object::ObjectValue;
use self::string::StringValue;
use vstd::prelude::*;

verus! {

/// The type tag of a value.
#[derive(Debug, Clone, Copy, PartialEq, Eq, Structural)]
pub enum ValueType {
    Null,
    Integer,
    Decimal,
    Boolean,
    NativeFn,
    Function,
    String,
    Array,
    Object,
    Class,
    ClassInstance,
}

/// What every kind of value answers: its type tag.
pub trait RuntimeValue {
    spec fn kind_spec(&self) -> ValueType;

    fn kind(&self) -> (r: ValueType)
        ensures
            r == self.kind_spec(),
    ;
}

/// A runtime value: one of the ten kinds.
#[derive(Debug)]
pub enum Value {
    Null(NullValue),
    Boolean(BoolValue),
    Integer(IntegerValue),
    Decimal(DecimalValue),
    String(StringValue),
    Array(ArrayValue),
    Object(ObjectValue),
    Function(FunctionValue),
    NativeFn(NativeFnValue),
    Class(ClassValue),
}

/// The model of a parameter.
pub struct ParameterView {
    pub name: Seq<char>,
    pub default_value: Option<ValueView>,
}

/// The model of a function value.
pub struct FunctionView {
    pub name: Seq<char>,
    pub parameters: Seq<ParameterView>,
    pub declaration_env: u64,
    pub body: Node,
}

/// The model of a native function.
pub struct NativeFnView {
    pub name: Seq<char>,
    pub builtin: Builtin,
    pub receiver: Box<ValueView>,
}

/// The model of a class property.
pub struct PropertyView {
    pub name: Seq<char>,
    pub value: ValueView,
    pub is_static: bool,
}

/// The model of a class method.
pub struct MethodView {
    pub name: Seq<char>,
    pub args: Seq<ParameterView>,
    pub body: Node,
    pub is_static: bool,
}

/// The model of a class.
pub struct ClassView {
    pub name: Seq<char>,
    pub super_class: Option<Box<ClassView>>,
    pub properties: Seq<PropertyView>,
    pub methods: Seq<(Seq<char>, MethodView)>,
}

/// The model of a value.
pub enum ValueView {
    Null,
    Boolean(bool),
    Integer(int),
    Decimal(u64),
    String(Seq<char>),
    Array(Seq<ValueView>),
    Object(Seq<(Seq<char>, ValueView)>),
    Function(FunctionView),
    NativeFn(NativeFnView),
    Class(ClassView),
}

/// The model of a value. The function unfolds one level of the value at a
/// time: names, flags and lengths are in sight at once, the values below
/// through their own views.
pub open spec fn value_view(v: Value) -> ValueView
    decreases v,
{
    match v {
        Value::Null(_) => ValueView::Null,
        Value::Boolean(b) => ValueView::Boolean(b.value),
        Value::Integer(i) => ValueView::Integer(i.value as int),
        Value::Decimal(d) => ValueView::Decimal(d.bits),
        Value::String(s) => ValueView::String(s.value@),
        Value::Array(a) => ValueView::Array(
            Seq::new(
                a.value.len() as nat,
                |i: int|
                    if 0 <= i < a.value.len() {
                        value_view(a.value[i])
                    } else {
                        ValueView::Null
                    },
            ),
        ),
        Value::Object(o) => ValueView::Object(
            Seq::new(
                o.map.len() as nat,
                |i: int|
                    if 0 <= i < o.map.len() {
                        (o.map[i].0@, value_view(o.map[i].1))
                    } else {
                        (Seq::empty(), ValueView::Null)
                    },
            ),
        ),
        Value::Function(f) => ValueView::Function(
            FunctionView {
                name: f.name@,
                parameters: Seq::new(
                    f.parameters.len() as nat,
                    |i: int|
                        if 0 <= i < f.parameters.len() {
                            ParameterView {
                                name: f.parameters[i].name@,
                                default_value: match f.parameters[i].default_value {
                                    Some(d) => Some(value_view(d)),
                                    None => None,
                                },
                            }
                        } else {
                            ParameterView { name: Seq::empty(), default_value: None }
                        },
                ),
                declaration_env: f.declaration_env,
                body: *f.body,
            },
        ),
        Value::NativeFn(n) => ValueView::NativeFn(
            NativeFnView {
                name: n.name@,
                builtin: n.call.fc.builtin,
                receiver: Box::new(value_view(*n.call.fc.receiver)),
            },
        ),
        Value::Class(c) => ValueView::Class(class_view(c)),
    }
}

/// The model of a class, one level at a time as `value_view`.
pub open spec fn class_view(c: ClassValue) -> ClassView
    decreases c,
{
    ClassView {
        name: c.name@,
        super_class: match c.super_class {
            Some(s) => Some(Box::new(class_view(*s))),
            None => None,
        },
        properties: Seq::new(
            c.properties.len() as nat,
            |i: int|
                if 0 <= i < c.properties.len() {
                    PropertyView {
                        name: c.properties[i].name@,
                        value: value_view(c.properties[i].value),
                        is_static: c.properties[i].is_static,
                    }
                } else {
                    PropertyView { name: Seq::empty(), value: ValueView::Null, is_static: false }
                },
        ),
        methods: Seq::new(
            c.methods.len() as nat,
            |i: int|
                if 0 <= i < c.methods.len() {
                    (
                        c.methods[i].0@,
                        MethodView {
                            name: c.methods[i].1.name@,
                            args: Seq::new(
                                c.methods[i].1.args.len() as nat,
                                |k: int|
                                    if 0 <= k < c.methods[i].1.args.len() {
                                        ParameterView {
                                            name: c.methods[i].1.args[k].name@,
                                            default_value: match c.methods[i].1.args[k].default_value {
                                                Some(d) => Some(value_view(d)),
                                                None => None,
                                            },
                                        }
                                    } else {
                                        ParameterView { name: Seq::empty(), default_value: None }
                                    },
                            ),
                            body: *c.methods[i].1.body,
                            is_static: c.methods[i].1.is_static,
                        },
                    )
                } else {
                    (
                        Seq::empty(),
                        MethodView {
                            name: Seq::empty(),
                            args: Seq::empty(),
                            body: Node::IntegerLiteral(0),
                            is_static: false,
                        },
                    )
                },
        ),
    }
}

pub open spec fn values_view(values: Vec<Value>) -> Seq<ValueView> {
    Seq::new(values.len() as nat, |i: int| value_view(values[i]))
}

pub open spec fn entries_view(entries: Vec<(String, Value)>) -> Seq<(Seq<char>, ValueView)> {
    Seq::new(entries.len() as nat, |i: int| (entries[i].0@, value_view(entries[i].1)))
}

pub open spec fn option_view(value: Option<Value>) -> Option<ValueView> {
    match value {
        Some(v) => Some(value_view(v)),
        None => None,
    }
}

pub open spec fn parameter_view(p: FunctionParameter) -> ParameterView {
    ParameterView { name: p.name@, default_value: option_view(p.default_value) }
}

pub open spec fn parameters_view(ps: Vec<FunctionParameter>) -> Seq<ParameterView> {
    Seq::new(ps.len() as nat, |i: int| parameter_view(ps[i]))
}

pub open spec fn function_view(f: FunctionValue) -> FunctionView {
    FunctionView {
        name: f.name@,
        parameters: parameters_view(f.parameters),
        declaration_env: f.declaration_env,
        body: *f.body,
    }
}

pub open spec fn native_view(n: NativeFnValue) -> NativeFnView {
    NativeFnView {
        name: n.name@,
        builtin: n.call.fc.builtin,
        receiver: Box::new(value_view(*n.call.fc.receiver)),
    }
}

pub open spec fn method_parameter_view(p: ClassMethodParameter) -> ParameterView {
    ParameterView { name: p.name@, default_value: option_view(p.default_value) }
}

pub open spec fn method_parameters_view(ps: Vec<ClassMethodParameter>) -> Seq<ParameterView> {
    Seq::new(ps.len() as nat, |i: int| method_parameter_view(ps[i]))
}

pub open spec fn method_view(m: ClassMethod) -> MethodView {
    MethodView {
        name: m.name@,
        args: method_parameters_view(m.args),
        body: *m.body,
        is_static: m.is_static,
    }
}

pub open spec fn methods_view(ms: Vec<(String, ClassMethod)>) -> Seq<(Seq<char>, MethodView)> {
    Seq::new(ms.len() as nat, |i: int| (ms[i].0@, method_view(ms[i].1)))
}

pub open spec fn property_view(p: ClassProperty) -> PropertyView {
    PropertyView { name: p.name@, value: value_view(p.value), is_static: p.is_static }
}

pub open spec fn properties_view(ps: Vec<ClassProperty>) -> Seq<PropertyView> {
    Seq::new(ps.len() as nat, |i: int| property_view(ps[i]))
}

/// The view of a value, by the views of what it holds.
pub proof fn lemma_value_view(v: Value)
    ensures
        v@ == match v {
            Value::Null(_) => ValueView::Null,
            Value::Boolean(b) => ValueView::Boolean(b.value),
            Value::Integer(i) => ValueView::Integer(i.value as int),
            Value::Decimal(d) => ValueView::Decimal(d.bits),
            Value::String(s) => ValueView::String(s.value@),
            Value::Array(a) => ValueView::Array(a@),
            Value::Object(o) => ValueView::Object(o@),
            Value::Function(f) => ValueView::Function(f@),
            Value::NativeFn(n) => ValueView::NativeFn(n@),
            Value::Class(c) => ValueView::Class(c@),
        },
{
    match v {
        Value::Class(c) => {
            lemma_class_view(c);
        },
        Value::Array(a) => {
            assert(v@->Array_0 =~= values_view(a.value));
        },
        Value::Object(o) => {
            assert(v@->Object_0 =~= entries_view(o.map));
        },
        Value::Function(f) => {
            assert(v@->Function_0.parameters =~= parameters_view(f.parameters));
        },
        _ => {},
    }
}

/// The two statements of a class's model agree.
pub proof fn lemma_class_view(c: ClassValue)
    ensures
        class_view(c) == c@,
{
    assert(class_view(c).properties =~= properties_view(c.properties));
    assert forall|i: int| 0 <= i < c.methods.len() implies class_view(c).methods[i]
        == methods_view(c.methods)[i] by {
        assert(class_view(c).methods[i].1.args =~= method_parameters_view(c.methods[i].1.args));
    }
    assert(class_view(c).methods =~= methods_view(c.methods));
}

impl View for Value {
    type V = ValueView;

    open spec fn view(&self) -> ValueView {
        value_view(*self)
    }
}

impl RuntimeValue for Value {
    open spec fn kind_spec(&self) -> ValueType {
        kind_of(self@)
    }

    fn kind(&self) -> ValueType {
        match self {
            Value::Null(_) => ValueType::Null,
            Value::Boolean(_) => ValueType::Boolean,
            Value::Integer(_) => ValueType::Integer,
            Value::Decimal(_) => ValueType::Decimal,
            Value::String(_) => ValueType::String,
            Value::Array(_) => ValueType::Array,
            Value::Object(_) => ValueType::Object,
            Value::Function(_) => ValueType::Function,
            Value::NativeFn(_) => ValueType::NativeFn,
            Value::Class(_) => ValueType::Class,
        }
    }
}

/// The type tag of a value, by its model.
pub open spec fn kind_of(v: ValueView) -> ValueType {
    match v {
        ValueView::Null => ValueType::Null,
        ValueView::Boolean(_) => ValueType::Boolean,
        ValueView::Integer(_) => ValueType::Integer,
        ValueView::Decimal(_) => ValueType::Decimal,
        ValueView::String(_) => ValueType::String,
        ValueView::Array(_) => ValueType::Array,
        ValueView::Object(_) => ValueType::Object,
        ValueView::Function(_) => ValueType::Function,
        ValueView::NativeFn(_) => ValueType::NativeFn,
        ValueView::Class(_) => ValueType::Class,
    }
}

impl Value {
    pub fn null() -> (r: Value)
        ensures
            r@ == ValueView::Null,
    {
        Value::Null(NullValue {  })
    }

    pub fn boolean(value: bool) -> (r: Value)
        ensures
            r@ == ValueView::Boolean(value),
    {
        Value::Boolean(BoolValue { value })
    }

    pub fn integer(value: isize) -> (r: Value)
        ensures
            r@ == ValueView::Integer(value as int),
    {
        Value::Integer(IntegerValue { value })
    }

    pub fn decimal(bits: u64) -> (r: Value)
        ensures
            r@ == ValueView::Decimal(bits),
    {
        Value::Decimal(DecimalValue { bits })
    }

    pub fn string(value: String) -> (r: Value)
        ensures
            r@ == ValueView::String(value@),
    {
        Value::String(StringValue { value })
    }

    pub fn array(value: Vec<Value>) -> (r: Value)
        ensures
            r@ == ValueView::Array(values_view(value)),
    {
        let r = Value::Array(ArrayValue { value });
        proof {
            lemma_value_view(r);
        }
        r
    }

    pub fn object(map: Vec<(String, Value)>) -> (r: Value)
        ensures
            r@ == ValueView::Object(entries_view(map)),
    {
        let r = Value::Object(ObjectValue { map });
        proof {
            lemma_value_view(r);
        }
        r
    }
}

impl Clone for Value {
    fn clone(&self) -> (r: Self)
        ensures
            r@ == self@,
    {
        clone_value(self)
    }
}

/// The position of the first entry under `key`.
pub fn find_entry(entries: &Vec<(String, Value)>, key: &String) -> (r: Option<usize>)
    ensures
        match r {
            Some(i) => crate::entries::is_first_index(entries_view(*entries), key@, i as int),
            None => forall|j: int|
                0 <= j < entries.len() ==> (#[trigger] entries_view(*entries)[j]).0 != key@,
        },
{
    let mut i: usize = 0;
    while i < entries.len()
        invariant
            i <= entries.len(),
            forall|j: int| 0 <= j < i ==> (#[trigger] entries_view(*entries)[j]).0 != key@,
        decreases entries.len() - i,
    {
        if entries[i].0 == *key {
            return Some(i);
        }
        i = i + 1;
    }
    None
}

pub fn clone_value(v: &Value) -> (r: Value)
    ensures
        r@ == v@,
    decreases v,
{
    let r = match v {
        Value::Null(_) => Value::Null(NullValue {  }),
        Value::Boolean(b) => Value::Boolean(BoolValue { value: b.value }),
        Value::Integer(i) => Value::Integer(IntegerValue { value: i.value }),
        Value::Decimal(d) => Value::Decimal(DecimalValue { bits: d.bits }),
        Value::String(s) => Value::String(StringValue { value: s.value.clone() }),
        Value::Array(a) => Value::Array(ArrayValue { value: clone_values(&a.value) }),
        Value::Object(o) => Value::Object(ObjectValue { map: clone_entries(&o.map) }),
        Value::Function(f) => Value::Function(clone_function(f)),
        Value::NativeFn(n) => Value::NativeFn(clone_native(n)),
        Value::Class(c) => Value::Class(clone_class(c)),
    };
    proof {
        lemma_value_view(*v);
        lemma_value_view(r);
    }
    r
}

pub fn clone_values(values: &Vec<Value>) -> (r: Vec<Value>)
    ensures
        values_view(r) == values_view(*values),
    decreases values,
{
    let mut out: Vec<Value> = Vec::new();
    let mut i: usize = 0;
    while i < values.len()
        invariant
            i <= values.len(),
            out.len() == i,
            forall|j: int| 0 <= j < i ==> value_view(#[trigger] out[j]) == value_view(values[j]),
        decreases values.len() - i,
    {
        out.push(clone_value(&values[i]));
        i = i + 1;
    }
    assert(values_view(out) =~= values_view(*values));
    out
}

pub fn clone_entries(entries: &Vec<(String, Value)>) -> (r: Vec<(String, Value)>)
    ensures
        entries_view(r) == entries_view(*entries),
    decreases entries,
{
    let mut out: Vec<(String, Value)> = Vec::new();
    let mut i: usize = 0;
    while i < entries.len()
        invariant
            i <= entries.len(),
            out.len() == i,
            forall|j: int|
                0 <= j < i ==> (#[trigger] out[j]).0@ == entries[j].0@ && value_view(out[j].1)
                    == value_view(entries[j].1),
        decreases entries.len() - i,
    {
        out.push((entries[i].0.clone(), clone_value(&entries[i].1)));
        i = i + 1;
    }
    assert(entries_view(out) =~= entries_view(*entries));
    out
}

pub fn clone_option(value: &Option<Value>) -> (r: Option<Value>)
    ensures
        option_view(r) == option_view(*value),
    decreases value,
{
    match value {
        Some(v) => Some(clone_value(v)),
        None => None,
    }
}

pub fn clone_parameter(p: &FunctionParameter) -> (r: FunctionParameter)
    ensures
        parameter_view(r) == parameter_view(*p),
    decreases p,
{
    FunctionParameter { name: p.name.clone(), default_value: clone_option(&p.default_value) }
}

pub fn clone_parameters(ps: &Vec<FunctionParameter>) -> (r: Vec<FunctionParameter>)
    ensures
        parameters_view(r) == parameters_view(*ps),
    decreases ps,
{
    let mut out: Vec<FunctionParameter> = Vec::new();
    let mut i: usize = 0;
    while i < ps.len()
        invariant
            i <= ps.len(),
            out.len() == i,
            forall|j: int| 0 <= j < i ==> parameter_view(#[trigger] out[j]) == parameter_view(ps[j]),
        decreases ps.len() - i,
    {
        out.push(clone_parameter(&ps[i]));
        i = i + 1;
    }
    assert(parameters_view(out) =~= parameters_view(*ps));
    out
}

pub fn clone_function(f: &FunctionValue) -> (r: FunctionValue)
    ensures
        function_view(r) == function_view(*f),
    decreases f,
{
    FunctionValue {
        name: f.name.clone(),
        parameters: clone_parameters(&f.parameters),
        declaration_env: f.declaration_env,
        body: share_node(&f.body),
    }
}

pub fn clone_native(n: &NativeFnValue) -> (r: NativeFnValue)
    ensures
        native_view(r) == native_view(*n),
    decreases n,
{
    NativeFnValue {
        name: n.name.clone(),
        call: WithFnCall {
            fc: ClosureType {
                builtin: n.call.fc.builtin,
                receiver: Box::new(clone_value(&n.call.fc.receiver)),
            },
        },
    }
}

pub fn clone_method_parameter(p: &ClassMethodParameter) -> (r: ClassMethodParameter)
    ensures
        method_parameter_view(r) == method_parameter_view(*p),
    decreases p,
{
    ClassMethodParameter { name: p.name.clone(), default_value: clone_option(&p.default_value) }
}

pub fn clone_method_parameters(ps: &Vec<ClassMethodParameter>) -> (r: Vec<ClassMethodParameter>)
    ensures
        method_parameters_view(r) == method_parameters_view(*ps),
    decreases ps,
{
    let mut out: Vec<ClassMethodParameter> = Vec::new();
    let mut i: usize = 0;
    while i < ps.len()
        invariant
            i <= ps.len(),
            out.len() == i,
            forall|j: int|
                0 <= j < i ==> method_parameter_view(#[trigger] out[j]) == method_parameter_view(
                    ps[j],
                ),
        decreases ps.len() - i,
    {
        out.push(clone_method_parameter(&ps[i]));
        i = i + 1;
    }
    assert(method_parameters_view(out) =~= method_parameters_view(*ps));
    out
}

pub fn clone_method(m: &ClassMethod) -> (r: ClassMethod)
    ensures
        method_view(r) == method_view(*m),
    decreases m,
{
    ClassMethod {
        name: m.name.clone(),
        args: clone_method_parameters(&m.args),
        body: share_node(&m.body),
        is_static: m.is_static,
    }
}

pub fn clone_methods(ms: &Vec<(String, ClassMethod)>) -> (r: Vec<(String, ClassMethod)>)
    ensures
        methods_view(r) == methods_view(*ms),
    decreases ms,
{
    let mut out: Vec<(String, ClassMethod)> = Vec::new();
    let mut i: usize = 0;
    while i < ms.len()
        invariant
            i <= ms.len(),
            out.len() == i,
            forall|j: int|
                0 <= j < i ==> (#[trigger] out[j]).0@ == ms[j].0@ && method_view(out[j].1)
                    == method_view(ms[j].1),
        decreases ms.len() - i,
    {
        out.push((ms[i].0.clone(), clone_method(&ms[i].1)));
        i = i + 1;
    }
    assert(methods_view(out) =~= methods_view(*ms));
    out
}

pub fn clone_property(p: &ClassProperty) -> (r: ClassProperty)
    ensures
        property_view(r) == property_view(*p),
    decreases p,
{
    ClassProperty { name: p.name.clone(), value: clone_value(&p.value), is_static: p.is_static }
}

pub fn clone_properties(ps: &Vec<ClassProperty>) -> (r: Vec<ClassProperty>)
    ensures
        properties_view(r) == properties_view(*ps),
    decreases ps,
{
    let mut out: Vec<ClassProperty> = Vec::new();
    let mut i: usize = 0;
    while i < ps.len()
        invariant
            i <= ps.len(),
            out.len() == i,
            forall|j: int| 0 <= j < i ==> property_view(#[trigger] out[j]) == property_view(ps[j]),
        decreases ps.len() - i,
    {
        out.push(clone_property(&ps[i]));
        i = i + 1;
    }
    assert(properties_view(out) =~= properties_view(*ps));
    out
}

pub fn clone_class(c: &ClassValue) -> (r: ClassValue)
    ensures
        r@ == c@,
        class_view(r) == class_view(*c),
    decreases c,
{
    let super_class = match &c.super_class {
        Some(s) => Some(Box::new(clone_class(s))),
        None => None,
    };
    let r = ClassValue {
        name: c.name.clone(),
        super_class,
        properties: clone_properties(&c.properties),
        methods: clone_methods(&c.methods),
    };
    proof {
        lemma_class_view(r);
        lemma_class_view(*c);
    }
    r
}

} // verus!
