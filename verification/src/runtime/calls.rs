//! What a call needs before a body is evaluated: the check of the
//! parameters, the scope of the call, the bindings, the entries of a new
//! instance, and the members of values.

use crate::builtin::array::function_of_method;
use crate::builtin::array::get_array_object;
use crate::builtin::number::get_number_object;
use crate::builtin::string::get_string_object;
use crate::entries::inserted;
use crate::entries::lemma_absent;
use crate::entries::lemma_first_index_unique;
use crate::entries::lookup;
use crate::environment::EnvironmentId;
use crate::environment::ScopeState;
use crate::runtime::error::InterpreterError;
use crate::runtime::error::outcome;
use crate::runtime::semantics::bind_parameters;
use crate::runtime::semantics::check_parameters;
use crate::runtime::semantics::create;
use crate::runtime::semantics::instance_entries;
use crate::runtime::semantics::member_of;
use crate::runtime::semantics::misplaced_default;
use crate::runtime::semantics::or_null;
use crate::runtime::semantics::required_count;
use crate::runtime::semantics::static_property;
use crate::runtime::semantics::with_instance_methods;
use crate::runtime::semantics::with_instance_properties;
use crate::text::text;
use crate::values::class::ClassValue;
use crate::values::class::find_method_of_kind;
use crate::values::class::is_first_static_property;
use crate::values::clone_value;
use crate::values::entries_view;
use crate::values::find_entry;
use crate::values::function::FunctionParameter;
use crate::values::lemma_class_view;
use crate::values::lemma_value_view;
use crate::values::parameters_view;
use crate::values::Value;
use crate::values::values_view;
use vstd::prelude::*;

verus! {

/// The first parameter that has a default value although another parameter
/// follows it.
pub fn find_misplaced_default(parameters: &Vec<FunctionParameter>) -> (r: Option<String>)
    ensures
        match misplaced_default(parameters_view(*parameters), 0) {
            Some(name) => r is Some && r->Some_0@ == name,
            None => r is None,
        },
{
    let ghost ps = parameters_view(*parameters);
    let n = parameters.len();
    let mut i: usize = 0;
    while i < n
        invariant
            i <= n,
            n == parameters.len(),
            ps == parameters_view(*parameters),
            misplaced_default(ps, 0) == misplaced_default(ps, i as int),
        decreases n - i,
    {
        if parameters[i].default_value.is_some() && i + 1 < n {
            return Some(parameters[i].name.clone());
        }
        i = i + 1;
    }
    None
}

/// Checks the parameters of a callee against the number of arguments given.
pub fn check_call(parameters: &Vec<FunctionParameter>, given: usize) -> (r: Result<
    (),
    InterpreterError,
>)
    ensures
        match check_parameters(parameters_view(*parameters), given as int) {
            Ok(_) => r is Ok,
            Err(e) => r is Err && r->Err_0@ == e,
        },
{
    let ghost ps = parameters_view(*parameters);
    let n = parameters.len();
    match find_misplaced_default(parameters) {
        Some(name) => {
            return Err(InterpreterError::InvalidDefaultParameter(name));
        },
        None => {},
    }
    let mut required: usize = 0;
    let mut k: usize = 0;
    while k < n
        invariant
            k <= n,
            n == parameters.len(),
            ps == parameters_view(*parameters),
            required == required_count(ps, k as int),
            required <= k,
        decreases n - k,
    {
        if parameters[k].default_value.is_none() {
            required = required + 1;
        }
        k = k + 1;
    }
    if given < required {
        return Err(InterpreterError::InvalidParameterCount(required, given));
    }
    Ok(())
}

/// Adds a scope below `parent`.
pub fn create_scope(store: &mut ScopeState, parent: EnvironmentId) -> (r: Result<
    EnvironmentId,
    InterpreterError,
>)
    requires
        old(store).wf(),
    ensures
        final(store).wf(),
        old(store)@.persists_in(final(store)@),
        match create(old(store)@, parent) {
            Ok(made) => r == Ok::<EnvironmentId, InterpreterError>(made.last_generated_id)
                && final(store)@ == made && made.scopes.contains_key(made.last_generated_id)
                && !old(store)@.scopes.contains_key(made.last_generated_id),
            Err(e) => r is Err && r->Err_0@ == e && final(store)@ == old(store)@,
        },
{
    if store.get_scope(parent).is_none() {
        return Err(InterpreterError::UnresolvedEnvironment(parent));
    }
    if store.last_generated_id == u64::MAX {
        return Err(InterpreterError::LimitReached);
    }
    let id = store.create_environment(Some(parent));
    assert(!old(store)@.scopes.contains_key(id)) by {
        if old(store)@.scopes.contains_key(id) {
            assert(id <= old(store)@.last_generated_id);
        }
    }
    Ok(id)
}

/// Binds the parameters of a callee in the scope of the call.
pub fn bind_call(
    store: &mut ScopeState,
    parameters: &Vec<FunctionParameter>,
    args: &Vec<Value>,
    defaults: bool,
    scope: EnvironmentId,
) -> (r: Result<(), InterpreterError>)
    requires
        old(store).wf(),
    ensures
        final(store).wf(),
        old(store)@.persists_in(final(store)@),
        final(store)@ == bind_parameters(
            parameters_view(*parameters),
            values_view(*args),
            0,
            defaults,
            scope,
            old(store)@,
        ).store,
        match bind_parameters(
            parameters_view(*parameters),
            values_view(*args),
            0,
            defaults,
            scope,
            old(store)@,
        ).outcome {
            Ok(_) => r is Ok,
            Err(e) => r is Err && r->Err_0@ == e,
        },
{
    let ghost ps = parameters_view(*parameters);
    let ghost vs = values_view(*args);
    let ghost total = bind_parameters(ps, vs, 0, defaults, scope, store@);
    let mut i: usize = 0;
    while i < parameters.len()
        invariant
            i <= parameters.len(),
            ps == parameters_view(*parameters),
            vs == values_view(*args),
            store.wf(),
            old(store)@.persists_in(store@),
            total == bind_parameters(ps, vs, i as int, defaults, scope, store@),
            total == bind_parameters(ps, vs, 0, defaults, scope, old(store)@),
        decreases parameters.len() - i,
    {
        let value: Option<Value> = if i < args.len() {
            Some(clone_value(&args[i]))
        } else if defaults {
            match &parameters[i].default_value {
                Some(d) => Some(clone_value(d)),
                None => None,
            }
        } else {
            None
        };
        let ghost before = store@;
        let ghost bound = if i < vs.len() {
            Some(vs[i as int])
        } else if defaults {
            ps[i as int].default_value
        } else {
            None
        };
        assert(crate::values::option_view(value) == bound);
        assert(ps[i as int].name == parameters[i as int].name@);
        match value {
            Some(v) => {
                match store.declare_in(scope, parameters[i].name.clone(), v, true) {
                    Ok(_) => {},
                    Err(e) => {
                        return Err(e);
                    },
                }
            },
            None => {},
        }
        i = i + 1;
    }
    Ok(())
}

/// Puts `value` under `key`: in place of the first entry under that key, or
/// after the last entry.
pub fn put_entry(map: &mut Vec<(String, Value)>, key: String, value: Value)
    ensures
        entries_view(*final(map)) == inserted(entries_view(*old(map)), key@, value@),
{
    let ghost before = entries_view(*map);
    match find_entry(map, &key) {
        Some(p) => {
            proof {
                lemma_first_index_unique(before, key@, p as int);
            }
            map[p] = (key, value);
        },
        None => {
            proof {
                lemma_absent(before, key@);
            }
            map.push((key, value));
        },
    }
    assert(entries_view(*map) =~= inserted(before, key@, value@));
}

/// The entries of a new instance of `class`, made in the scope `env`.
pub fn new_instance_entries(class: &ClassValue, env: EnvironmentId) -> (r: Vec<(String, Value)>)
    ensures
        entries_view(r) == instance_entries(class@, env),
{
    let constructor = text("__new__");
    let mut map: Vec<(String, Value)> = Vec::new();
    assert(entries_view(map) =~= Seq::empty());
    let mut i: usize = 0;
    while i < class.properties.len()
        invariant
            i <= class.properties.len(),
            entries_view(map) == with_instance_properties(
                Seq::empty(),
                class@.properties,
                i as int,
            ),
        decreases class.properties.len() - i,
    {
        if !class.properties[i].is_static {
            put_entry(
                &mut map,
                class.properties[i].name.clone(),
                clone_value(&class.properties[i].value),
            );
        }
        i = i + 1;
    }
    let ghost with_properties = entries_view(map);
    let mut k: usize = 0;
    while k < class.methods.len()
        invariant
            k <= class.methods.len(),
            constructor@ == "__new__"@,
            entries_view(map) == with_instance_methods(
                with_properties,
                class@.methods,
                k as int,
                env,
            ),
        decreases class.methods.len() - k,
    {
        if !class.methods[k].1.is_static && class.methods[k].0 != constructor {
            let function = function_of_method(
                class.methods[k].0.clone(),
                &class.methods[k].1,
                env,
            );
            put_entry(&mut map, class.methods[k].0.clone(), function);
        }
        k = k + 1;
    }
    map
}

/// The value under `key` in the entries, or `null`.
pub fn entry_or_null(map: &Vec<(String, Value)>, key: &String) -> (r: Value)
    ensures
        r@ == or_null(lookup(entries_view(*map), key@)),
{
    match find_entry(map, key) {
        Some(i) => {
            proof {
                lemma_first_index_unique(entries_view(*map), key@, i as int);
            }
            clone_value(&map[i].1)
        },
        None => {
            proof {
                lemma_absent(entries_view(*map), key@);
            }
            Value::null()
        },
    }
}

/// The member `key` of a value, read from the scope `env`.
pub fn member(object: &Value, key: &String, env: EnvironmentId, store: &ScopeState) -> (r: Result<
    Value,
    InterpreterError,
>)
    requires
        store.wf(),
    ensures
        outcome(r) == member_of(object@, key@, env, store@),
{
    proof {
        lemma_value_view(*object);
    }
    match object {
        Value::Object(o) => Ok(entry_or_null(&o.map, key)),
        Value::Class(class) => {
            proof {
                lemma_class_view(*class);
            }
            match class.get_static_property(key.clone()) {
                Some(p) => {
                    proof {
                        let i = choose|i: int|
                            is_first_static_property(class@.properties, key@, i) && p@
                                == class@.properties[i];
                        let c = choose|c: int|
                            is_first_static_property(class@.properties, key@, c);
                        if c < i {
                            assert(!(class@.properties[c].name == key@
                                && class@.properties[c].is_static));
                        }
                        if i < c {
                            assert(!(class@.properties[i].name == key@
                                && class@.properties[i].is_static));
                        }
                    }
                    Ok(p.value)
                },
                None => {
                    assert(static_property(class@.properties, key@) is None) by {
                        if exists|i: int| is_first_static_property(class@.properties, key@, i) {
                            let i = choose|i: int|
                                is_first_static_property(class@.properties, key@, i);
                            assert(!(class@.properties[i].name == key@
                                && class@.properties[i].is_static));
                        }
                    }
                    match find_method_of_kind(&class.methods, key, true) {
                        Some(i) => Ok(
                            function_of_method(
                                class.methods[i].1.name.clone(),
                                &class.methods[i].1,
                                env,
                            ),
                        ),
                        None => Err(InterpreterError::UnresolvedProperty(key.clone())),
                    }
                },
            }
        },
        Value::String(s) => {
            let object = get_string_object(s);
            Ok(entry_or_null(&object.map, key))
        },
        Value::Integer(_) | Value::Decimal(_) => {
            let object = get_number_object(object);
            Ok(entry_or_null(&object.map, key))
        },
        Value::Array(a) => {
            match get_array_object(a, key, env, store) {
                Ok(object) => Ok(entry_or_null(&object.map, key)),
                Err(e) => Err(e),
            }
        },
        _ => Err(InterpreterError::UnsupportedValue(clone_value(object))),
    }
}

} // verus!
