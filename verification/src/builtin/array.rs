use crate::ast::share_node;
use crate::builtin::length_value;
use crate::builtin::mk_length;
use crate::builtin::mk_native_fn;
use crate::builtin::native;
use crate::entries::inserted;
use crate::entries::lemma_absent;
use crate::entries::lemma_first_index_unique;
use crate::environment::EnvironmentId;
use crate::environment::ScopeState;
use crate::environment::ScopeStateView;
use crate::runtime::error::ErrorView;
use crate::runtime::error::InterpreterError;
use crate::text::text;
use crate::values::array::ArrayValue;
use crate::values::class::ClassMethod;
use crate::values::class::find_method_of_kind;
use crate::values::class::first_method;
use crate::values::class::has_method;
use crate::values::clone_option;
use crate::values::clone_value;
use crate::values::entries_view;
use crate::values::find_entry;
use crate::values::function::FunctionParameter;
use crate::values::function::FunctionValue;
use crate::values::FunctionView;
use crate::values::lemma_class_view;
use crate::values::lemma_value_view;
use crate::values::MethodView;
use crate::values::native_fn::Builtin;
use crate::values::native_fn::ClosureType;
use crate::values::object::ObjectValue;
use crate::values::parameters_view;
use crate::values::Value;
use crate::values::values_view;
use crate::values::ValueView;
use vstd::prelude::*;

verus! {

/// What `get` answers: the element at the index that the first argument
/// gives; `null` where there is no such argument, where it is no integer, or
/// where the index is negative or not below the length.
pub open spec fn get_by_index_result(items: Seq<ValueView>, args: Seq<ValueView>) -> ValueView {
    if args.len() >= 1 && args[0] is Integer && 0 <= args[0]->Integer_0 < items.len() {
        items[args[0]->Integer_0]
    } else {
        ValueView::Null
    }
}

/// What `merge` answers: a new array of the elements followed by the
/// arguments; `null` to no argument.
pub open spec fn merge_result(items: Seq<ValueView>, args: Seq<ValueView>) -> ValueView {
    if args.len() == 0 {
        ValueView::Null
    } else {
        ValueView::Array(items + args)
    }
}

/// The method `get` of an array.
pub fn get_by_index(value: ArrayValue) -> (r: ClosureType)
    ensures
        r.builtin == Builtin::ArrayGet,
        r.receiver@ == ValueView::Array(value@),
{
    ClosureType::bound(Builtin::ArrayGet, Value::array(value.value))
}

/// Runs `get` on `value`.
pub fn run_get_by_index(value: &ArrayValue, args: &Vec<Value>) -> (r: Value)
    ensures
        r@ == get_by_index_result(value@, values_view(*args)),
{
    if args.len() == 0 {
        return Value::null();
    }
    proof {
        lemma_value_view(args[0]);
    }
    match &args[0] {
        Value::Integer(index) => {
            if index.value < 0 {
                return Value::null();
            }
            let i = index.value as usize;
            if value.value.len() <= i {
                return Value::null();
            }
            clone_value(&value.value[i])
        },
        _ => Value::null(),
    }
}

/// The method `merge` of an array.
pub fn merge(value: ArrayValue) -> (r: ClosureType)
    ensures
        r.builtin == Builtin::ArrayMerge,
        r.receiver@ == ValueView::Array(value@),
{
    ClosureType::bound(Builtin::ArrayMerge, Value::array(value.value))
}

/// Runs `merge` on `value`.
pub fn run_merge(value: &ArrayValue, args: Vec<Value>) -> (r: Value)
    ensures
        r@ == merge_result(value@, values_view(args)),
{
    if args.len() == 0 {
        return Value::null();
    }
    let mut new_array = value.clone();
    let mut i: usize = 0;
    while i < args.len()
        invariant
            i <= args.len(),
            new_array@ == value@ + values_view(args).subrange(0, i as int),
        decreases args.len() - i,
    {
        new_array.append_element(clone_value(&args[i]));
        i = i + 1;
        assert(new_array@ =~= value@ + values_view(args).subrange(0, i as int));
    }
    assert(values_view(args).subrange(0, i as int) =~= values_view(args));
    Value::array(new_array.value)
}

/// The entries that the method object of every array has.
pub open spec fn array_object_entries(items: Seq<ValueView>) -> Seq<(Seq<char>, ValueView)> {
    let receiver = ValueView::Array(items);
    seq![
        ("get"@, native("array.get"@, Builtin::ArrayGet, receiver)),
        ("merge"@, native("array.append"@, Builtin::ArrayMerge, receiver)),
        ("length"@, length_value(items.len())),
    ]
}

/// A method as a function declared in the scope `env`.
pub open spec fn method_function(name: Seq<char>, method: MethodView, env: EnvironmentId) -> ValueView {
    ValueView::Function(
        FunctionView { name, parameters: method.args, declaration_env: env, body: method.body },
    )
}

/// What the method object of an array is, for an access to the property `key`
/// from the scope `env`.
///
/// Where `env` sees a class under the name `Array`, and that class has an
/// instance method `key`, the object holds that method too, as a function
/// declared in `env`.
pub open spec fn array_object_result(
    items: Seq<ValueView>,
    key: Seq<char>,
    env: EnvironmentId,
    s: ScopeStateView,
) -> Result<Seq<(Seq<char>, ValueView)>, ErrorView> {
    if !s.scopes.contains_key(env) {
        Err(ErrorView::UnresolvedEnvironment(env))
    } else {
        match s.lookup(env, "Array"@) {
            None => Ok(array_object_entries(items)),
            Some(ValueView::Class(c)) => if has_method(c.methods, key, false) {
                Ok(
                    inserted(
                        array_object_entries(items),
                        key,
                        method_function(key, first_method(c.methods, key, false), env),
                    ),
                )
            } else {
                Ok(array_object_entries(items))
            },
            Some(other) => Err(ErrorView::UnexpectedValue(other)),
        }
    }
}

/// A method as a function declared in the scope `env`.
pub fn function_value_of_method(name: String, method: &ClassMethod, env: EnvironmentId) -> (r:
    FunctionValue)
    ensures
        ValueView::Function(r@) == method_function(name@, method@, env),
{
    let mut parameters: Vec<FunctionParameter> = Vec::new();
    let mut i: usize = 0;
    while i < method.args.len()
        invariant
            i <= method.args.len(),
            parameters.len() == i,
            forall|j: int|
                0 <= j < i ==> crate::values::parameter_view(#[trigger] parameters[j])
                    == crate::values::method_parameter_view(method.args[j]),
        decreases method.args.len() - i,
    {
        parameters.push(
            FunctionParameter {
                name: method.args[i].name.clone(),
                default_value: clone_option(&method.args[i].default_value),
            },
        );
        i = i + 1;
    }
    assert(parameters_view(parameters) =~= method@.args);
    FunctionValue::new(name, parameters, env, share_node(&method.body))
}

/// A method as a function value declared in the scope `env`.
pub fn function_of_method(name: String, method: &ClassMethod, env: EnvironmentId) -> (r: Value)
    ensures
        r@ == method_function(name@, method@, env),
{
    let r = Value::Function(function_value_of_method(name, method, env));
    proof {
        lemma_value_view(r);
    }
    r
}

/// The method object of an array, for an access to the property `key` from
/// the scope `env`.
pub fn get_array_object(
    array: &ArrayValue,
    key: &String,
    env: EnvironmentId,
    scope_state: &ScopeState,
) -> (r: Result<ObjectValue, InterpreterError>)
    requires
        scope_state.wf(),
    ensures
        match array_object_result(array@, key@, env, scope_state@) {
            Ok(entries) => r is Ok && r->Ok_0@ == entries,
            Err(e) => r is Err && r->Err_0@ == e,
        },
{
    let mut map: Vec<(String, Value)> = Vec::new();
    map.push((text("get"), mk_native_fn(text("array.get"), get_by_index(array.clone()))));
    map.push((text("merge"), mk_native_fn(text("array.append"), merge(array.clone()))));
    map.push((text("length"), mk_length(array.value.len())));
    assert(entries_view(map) =~= array_object_entries(array@));
    let scope = match scope_state.get_scope(env) {
        Some(scope) => scope,
        None => {
            return Err(InterpreterError::UnresolvedEnvironment(env));
        },
    };
    assert(scope@ == scope_state@.scopes[env]);
    let name = text("Array");
    let array_value = scope.find(&name, scope_state);
    match array_value {
        None => {},
        Some(found) => {
            proof {
                lemma_value_view(*found);
            }
            match found {
                Value::Class(array_class) => {
                    proof {
                        lemma_class_view(*array_class);
                    }
                    match find_method_of_kind(&array_class.methods, key, false) {
                        Some(i) => {
                            let func = function_of_method(
                                array_class.methods[i].0.clone(),
                                &array_class.methods[i].1,
                                env,
                            );
                            let ghost before = entries_view(map);
                            match find_entry(&map, key) {
                                Some(p) => {
                                    proof {
                                        lemma_first_index_unique(before, key@, p as int);
                                    }
                                    map[p] = (key.clone(), func);
                                },
                                None => {
                                    proof {
                                        lemma_absent(before, key@);
                                    }
                                    map.push((key.clone(), func));
                                },
                            }
                            assert(entries_view(map) =~= inserted(before, key@, func@));
                        },
                        None => {},
                    }
                },
                _ => {
                    return Err(InterpreterError::UnexpectedValue(clone_value(found)));
                },
            }
        },
    }
    Ok(ObjectValue { map })
}

/// The length that the method object of an array shows is the number of its
/// elements: of an array that was made with `n` elements and had `k` more
/// appended, `n + k`. Nothing removes an element.
pub proof fn lemma_length_counts_appended(items: Seq<ValueView>, appended: Seq<ValueView>)
    requires
        items.len() + appended.len() <= isize::MAX,
    ensures
        crate::entries::lookup(array_object_entries(items + appended), "length"@) == Some(
            ValueView::Integer((items.len() + appended.len()) as int),
        ),
        appended.len() > 0 ==> merge_result(items, appended) == ValueView::Array(items + appended),
{
    reveal_strlit("get");
    reveal_strlit("merge");
    reveal_strlit("length");
    let entries = array_object_entries(items + appended);
    assert("get"@.len() == 3 && "merge"@.len() == 5 && "length"@.len() == 6);
    assert(crate::entries::is_first_index(entries, "length"@, 2));
    lemma_first_index_unique(entries, "length"@, 2);
}

} // verus!
