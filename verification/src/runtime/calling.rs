//! The evaluator: calls of functions, of methods and of classes.

use crate::ast::Node;
use crate::ast::share_node;
use crate::builtin::array::function_value_of_method;
use crate::builtin::lemma_runs_native_value;
use crate::builtin::native_value;
use crate::builtin::print::all_decimal_free;
use crate::builtin::print::asks_nothing;
use crate::builtin::print::line_writes;
use crate::builtin::print::print_line;
use crate::entries::lemma_absent;
use crate::entries::lemma_first_index_unique;
use crate::environment::EnvironmentId;
use crate::host::Host;
use crate::runtime::calls::bind_call;
use crate::runtime::calls::check_call;
use crate::runtime::calls::create_scope;
use crate::runtime::calls::find_misplaced_default;
use crate::runtime::calls::member;
use crate::runtime::calls::new_instance_entries;
use crate::runtime::error::InterpreterError;
use crate::runtime::interpreter::agrees;
use crate::runtime::interpreter::heeds;
use crate::runtime::interpreter::Interpreter;
use crate::runtime::interpreter::keeps;
use crate::runtime::semantics::apply;
use crate::runtime::semantics::apply_member;
use crate::runtime::semantics::apply_to_arguments;
use crate::runtime::semantics::bind_super;
use crate::runtime::semantics::call_function;
use crate::runtime::semantics::call_method;
use crate::runtime::semantics::eval_call;
use crate::runtime::semantics::instantiate;
use crate::runtime::semantics::Oracle;
use crate::runtime::semantics::write_back;
use crate::text::text;
use crate::values::class::ClassValue;
use crate::values::class::find_method;
use crate::values::function::FunctionValue;
use crate::values::lemma_class_view;
use crate::values::lemma_value_view;
use crate::values::native_fn::Builtin;
use crate::values::object::ObjectValue;
use crate::values::Value;
use crate::values::values_view;
use crate::values::ValueView;
use std::sync::Arc;
use crate::values::native_fn::ClosureType;
use crate::values::native_fn::WithFnCall;
use vstd::prelude::*;

verus! {

impl Interpreter {
    /// A call.
    pub fn eval_call_expression<H: Host>(
        &mut self,
        callee: &Arc<Node>,
        arguments: &Vec<Arc<Node>>,
        env: EnvironmentId,
        host: &mut H,
        fuel: usize,
    ) -> (r: Result<Value, InterpreterError>)
        requires
            old(self).wf(),
        ensures
            keeps(*old(self), *final(self)),
            forall|oracle: Oracle|
                #![trigger heeds(oracle)]
                heeds(oracle) ==> agrees(
                    *old(self),
                    *final(self),
                    r,
                    oracle,
                    eval_call(**callee, *arguments, env, old(self).under(oracle), fuel as nat),
                ),
        decreases fuel, 5int, 0int,
    {
        match &**callee {
            Node::MemberExpression(object, property, computed) => {
                let object_value = match self.resolve_within(object, env, host, fuel) {
                    Ok(v) => v,
                    Err(e) => {
                        return Err(e);
                    },
                };
                proof {
                    lemma_value_view(object_value);
                }
                match (&object_value, &**property) {
                    (Value::Object(class_obj), Node::Identifier(func_name)) => {
                        match class_obj.get_property(func_name.clone()) {
                            None => {
                                return Err(InterpreterError::UnresolvedProperty(func_name.clone()));
                            },
                            Some(found) => {
                                proof {
                                    lemma_value_view(found);
                                }
                                match found {
                                    Value::Function(function) => {
                                        let args = match self.eval_nodes(arguments, env, host, fuel) {
                                            Ok(a) => a,
                                            Err(e) => {
                                                return Err(e);
                                            },
                                        };
                                        return self.eval_class_call(
                                            object,
                                            class_obj.clone(),
                                            function,
                                            args,
                                            env,
                                            host,
                                            fuel,
                                        );
                                    },
                                    _ => {},
                                }
                            },
                        }
                    },
                    _ => {},
                }
                let key = match self.eval_key(property, *computed, false, env, host, fuel) {
                    Ok(k) => k,
                    Err(e) => {
                        return Err(e);
                    },
                };
                self.apply_member(&object_value, &key, arguments, env, host, fuel)
            },
            _ => {
                let callee_value = match self.resolve_within(callee, env, host, fuel) {
                    Ok(v) => v,
                    Err(e) => {
                        return Err(e);
                    },
                };
                self.apply_to_arguments(callee_value, arguments, env, host, fuel)
            },
        }
    }

    /// The member `key` of `object` is called.
    pub fn apply_member<H: Host>(
        &mut self,
        object: &Value,
        key: &String,
        arguments: &Vec<Arc<Node>>,
        env: EnvironmentId,
        host: &mut H,
        fuel: usize,
    ) -> (r: Result<Value, InterpreterError>)
        requires
            old(self).wf(),
        ensures
            keeps(*old(self), *final(self)),
            forall|oracle: Oracle|
                #![trigger heeds(oracle)]
                heeds(oracle) ==> agrees(
                    *old(self),
                    *final(self),
                    r,
                    oracle,
                    apply_member(
                        object@,
                        key@,
                        *arguments,
                        env,
                        old(self).under(oracle),
                        fuel as nat,
                    ),
                ),
        decreases fuel, 4int, 1int,
    {
        let callee_value = match member(object, key, env, &self.scope_state) {
            Ok(v) => v,
            Err(e) => {
                return Err(e);
            },
        };
        self.apply_to_arguments(callee_value, arguments, env, host, fuel)
    }

    /// The arguments are evaluated and the callee is applied to them.
    pub fn apply_to_arguments<H: Host>(
        &mut self,
        callee: Value,
        arguments: &Vec<Arc<Node>>,
        env: EnvironmentId,
        host: &mut H,
        fuel: usize,
    ) -> (r: Result<Value, InterpreterError>)
        requires
            old(self).wf(),
        ensures
            keeps(*old(self), *final(self)),
            forall|oracle: Oracle|
                #![trigger heeds(oracle)]
                heeds(oracle) ==> agrees(
                    *old(self),
                    *final(self),
                    r,
                    oracle,
                    apply_to_arguments(
                        callee@,
                        *arguments,
                        env,
                        old(self).under(oracle),
                        fuel as nat,
                    ),
                ),
        decreases fuel, 4int, 0int,
    {
        let args = match self.eval_nodes(arguments, env, host, fuel) {
            Ok(a) => a,
            Err(e) => {
                return Err(e);
            },
        };
        self.apply(callee, args, env, host, fuel)
    }

    /// A value is applied to arguments. Where the value is the native
    /// `print`, the line that the account of the output gains is the line
    /// that the host is handed to print, and it is the line of the
    /// arguments. Where it is another native function, the result is what
    /// `run` gives for a copy of the callable, the arguments and the host.
    pub fn apply<H: Host>(
        &mut self,
        callee: Value,
        args: Vec<Value>,
        env: EnvironmentId,
        host: &mut H,
        fuel: usize,
    ) -> (r: Result<Value, InterpreterError>)
        requires
            old(self).wf(),
        ensures
            keeps(*old(self), *final(self)),
            forall|oracle: Oracle|
                #![trigger heeds(oracle)]
                heeds(oracle) ==> agrees(
                    *old(self),
                    *final(self),
                    r,
                    oracle,
                    apply(callee@, values_view(args), env, old(self).under(oracle), fuel as nat),
                ),
            callee@ matches ValueView::NativeFn(n) && n.builtin == Builtin::Print ==> exists|
                handed: &mut H,
                line: String,
            |
                call_ensures(H::print, (handed, line), ())
                    && mut_ref_future(handed) == *final(host)
                    && final(self).printed@ == old(self).printed@.push(line@)
                    && line_writes::<H>(values_view(args), line@)
                    && (asks_nothing(values_view(args)) ==> mut_ref_current(handed) == *old(host)),
            callee matches Value::NativeFn(native) ==> (native.call.fc.builtin != Builtin::Print
                ==> exists|callable: WithFnCall<ClosureType>, handed: &mut H|
                call_ensures(
                    WithFnCall::<ClosureType>::run::<H>,
                    (&callable, args, handed),
                    r->Ok_0,
                ) && callable.fc.builtin == native.call.fc.builtin && callable.fc.receiver@
                    == native.call.fc.receiver@ && r is Ok && mut_ref_current(handed) == *old(host)
                    && mut_ref_future(handed) == *final(host)),
        decreases fuel, 3int, 0int,
    {
        proof {
            lemma_value_view(callee);
        }
        match callee {
            Value::NativeFn(native_fn) => {
                let ghost given = values_view(args);
                match native_fn.call.fc.builtin {
                    Builtin::Print => {
                        let line = print_line(&args, host);
                        proof {
                            if !all_decimal_free(given, given.len() as int) {
                                let asked = self.answers@.len() as int;
                                self.answers@ = self.answers@.push(ValueView::String(line@));
                                assert(self.answers@[asked] == ValueView::String(line@));
                            }
                            self.printed@ = self.printed@.push(line@);
                        }
                        host.print(line);
                        return Ok(Value::null());
                    },
                    _ => {},
                }
                let result = native_fn.callee().run(args, host);
                proof {
                    lemma_runs_native_value(
                        native_fn@.builtin,
                        *native_fn@.receiver,
                        given,
                        result@,
                    );
                    if native_value(native_fn@.builtin, *native_fn@.receiver, given) is None {
                        crate::runtime::semantics::lemma_native_answer(
                            native_fn@.builtin,
                            *native_fn@.receiver,
                            given,
                            result@,
                        );
                        let asked = self.answers@.len() as int;
                        self.answers@ = self.answers@.push(result@);
                        assert(self.answers@[asked] == result@);
                    }
                }
                Ok(result)
            },
            Value::Function(function) => self.call_function(function, args, host, fuel),
            Value::Class(class) => {
                proof {
                    lemma_class_view(class);
                }
                self.eval_class_instantiation(class, args, env, host, fuel)
            },
            other => Err(InterpreterError::InvalidFunctionCallee(other)),
        }
    }

    /// A call of a function of the language.
    pub fn call_function<H: Host>(
        &mut self,
        function: FunctionValue,
        args: Vec<Value>,
        host: &mut H,
        fuel: usize,
    ) -> (r: Result<Value, InterpreterError>)
        requires
            old(self).wf(),
        ensures
            keeps(*old(self), *final(self)),
            forall|oracle: Oracle|
                #![trigger heeds(oracle)]
                heeds(oracle) ==> agrees(
                    *old(self),
                    *final(self),
                    r,
                    oracle,
                    call_function(
                        function@,
                        values_view(args),
                        old(self).under(oracle),
                        fuel as nat,
                    ),
                ),
        decreases fuel, 2int, 0int,
    {
        match check_call(&function.parameters, args.len()) {
            Ok(_) => {},
            Err(e) => {
                return Err(e);
            },
        }
        let scope = match create_scope(&mut self.scope_state, function.declaration_env) {
            Ok(id) => id,
            Err(e) => {
                return Err(e);
            },
        };
        match bind_call(&mut self.scope_state, &function.parameters, &args, true, scope) {
            Ok(_) => {},
            Err(e) => {
                return Err(e);
            },
        }
        self.resolve_within(&function.body, scope, host, fuel)
    }

    /// A call of a function that is a member of an object: the object is
    /// bound to `self` for the call and written back after it.
    pub fn eval_class_call<H: Host>(
        &mut self,
        object: &Arc<Node>,
        obj: ObjectValue,
        function: FunctionValue,
        args: Vec<Value>,
        env: EnvironmentId,
        host: &mut H,
        fuel: usize,
    ) -> (r: Result<Value, InterpreterError>)
        requires
            old(self).wf(),
        ensures
            keeps(*old(self), *final(self)),
            forall|oracle: Oracle|
                #![trigger heeds(oracle)]
                heeds(oracle) ==> agrees(
                    *old(self),
                    *final(self),
                    r,
                    oracle,
                    call_method(
                        **object,
                        obj@,
                        function@,
                        values_view(args),
                        env,
                        old(self).under(oracle),
                        fuel as nat,
                    ),
                ),
        decreases fuel, 3int, 0int,
    {
        match check_call(&function.parameters, args.len()) {
            Ok(_) => {},
            Err(e) => {
                return Err(e);
            },
        }
        let scope = match create_scope(&mut self.scope_state, function.declaration_env) {
            Ok(id) => id,
            Err(e) => {
                return Err(e);
            },
        };
        let me = Value::object(obj.map);
        match self.scope_state.declare_in(scope, text("self"), me, true) {
            Ok(_) => {},
            Err(e) => {
                return Err(e);
            },
        }
        match bind_call(&mut self.scope_state, &function.parameters, &args, true, scope) {
            Ok(_) => {},
            Err(e) => {
                return Err(e);
            },
        }
        let value = match self.resolve_within(&function.body, scope, host, fuel) {
            Ok(v) => v,
            Err(e) => {
                return Err(e);
            },
        };
        let new_self = match self.eval_identifier(&text("self"), scope) {
            Ok(v) => v,
            Err(e) => {
                return Err(e);
            },
        };
        match self.write_back(object, new_self, object, env, host, fuel) {
            Ok(_) => Ok(value),
            Err(e) => Err(e),
        }
    }

    /// Writes `value` to where `target` reads from.
    pub fn write_back<H: Host>(
        &mut self,
        target: &Arc<Node>,
        value: Value,
        root: &Arc<Node>,
        env: EnvironmentId,
        host: &mut H,
        fuel: usize,
    ) -> (r: Result<Value, InterpreterError>)
        requires
            old(self).wf(),
        ensures
            keeps(*old(self), *final(self)),
            forall|oracle: Oracle|
                #![trigger heeds(oracle)]
                heeds(oracle) ==> agrees(
                    *old(self),
                    *final(self),
                    r,
                    oracle,
                    write_back(**target, value@, **root, env, old(self).under(oracle), fuel as nat),
                ),
        decreases fuel, 2int, 0int,
    {
        match &**target {
            Node::Identifier(var_name) => self.scope_state.assign_in(
                env,
                var_name.clone(),
                value,
                true,
            ),
            Node::MemberExpression(parent, current, computed) => {
                if fuel == 0 {
                    return Err(InterpreterError::LimitReached);
                }
                let f = fuel - 1;
                let key = match self.eval_key(current, *computed, true, env, host, f) {
                    Ok(k) => k,
                    Err(e) => {
                        return Err(e);
                    },
                };
                let parent_value = match self.resolve_within(parent, env, host, f) {
                    Ok(v) => v,
                    Err(e) => {
                        return Err(e);
                    },
                };
                proof {
                    lemma_value_view(parent_value);
                }
                match parent_value {
                    Value::Object(obj) => {
                        let mut obj = obj;
                        obj.assign_property(key, value);
                        self.write_back(parent, Value::object(obj.map), root, env, host, f)
                    },
                    _ => Err(InterpreterError::UnexpectedNode(share_node(root))),
                }
            },
            _ => Err(InterpreterError::UnexpectedNode(share_node(target))),
        }
    }

    /// Binds `super` in the scope of a constructor, where the class extends a
    /// class that has a constructor.
    pub fn bind_super_constructor(&mut self, class: &ClassValue, scope: EnvironmentId) -> (r: Result<
        (),
        InterpreterError,
    >)
        requires
            old(self).wf(),
        ensures
            crate::runtime::interpreter::keeps(*old(self), *final(self)),
            final(self).printed == old(self).printed,
            final(self).answers == old(self).answers,
            final(self).scope_state@ == bind_super(class@, scope, old(self).scope_state@).store,
            match bind_super(class@, scope, old(self).scope_state@).outcome {
                Ok(_) => r is Ok,
                Err(e) => r is Err && r->Err_0@ == e,
            },
    {
        match &class.super_class {
            Some(super_class) => {
                proof {
                    lemma_class_view(**super_class);
                }
                let constructor = text("__new__");
                match find_method(&super_class.methods, &constructor) {
                    Some(i) => {
                        proof {
                            lemma_first_index_unique(super_class@.methods, "__new__"@, i as int);
                        }
                        let super_function = function_value_of_method(
                            text("super"),
                            &super_class.methods[i].1,
                            scope,
                        );
                        match find_misplaced_default(&super_function.parameters) {
                            Some(name) => {
                                return Err(InterpreterError::InvalidDefaultParameter(name));
                            },
                            None => {},
                        }
                        let super_function = Value::Function(super_function);
                        proof {
                            lemma_value_view(super_function);
                        }
                        match self.scope_state.declare_in(scope, text("super"), super_function, true) {
                            Ok(_) => Ok(()),
                            Err(e) => Err(e),
                        }
                    },
                    None => {
                        proof {
                            lemma_absent(super_class@.methods, "__new__"@);
                        }
                        Ok(())
                    },
                }
            },
            None => Ok(()),
        }
    }

    /// A call of a class: a new instance.
    pub fn eval_class_instantiation<H: Host>(
        &mut self,
        class: ClassValue,
        args: Vec<Value>,
        env: EnvironmentId,
        host: &mut H,
        fuel: usize,
    ) -> (r: Result<Value, InterpreterError>)
        requires
            old(self).wf(),
        ensures
            keeps(*old(self), *final(self)),
            forall|oracle: Oracle|
                #![trigger heeds(oracle)]
                heeds(oracle) ==> agrees(
                    *old(self),
                    *final(self),
                    r,
                    oracle,
                    instantiate(
                        class@,
                        values_view(args),
                        env,
                        old(self).under(oracle),
                        fuel as nat,
                    ),
                ),
        decreases fuel, 2int, 0int,
    {
        let instance = Value::object(new_instance_entries(&class, env));
        let name = text("__new__");
        let constructor = match find_method(&class.methods, &name) {
            Some(i) => {
                proof {
                    lemma_first_index_unique(class@.methods, "__new__"@, i as int);
                }
                function_value_of_method(text("__new__"), &class.methods[i].1, env)
            },
            None => {
                proof {
                    lemma_absent(class@.methods, "__new__"@);
                }
                return Ok(instance);
            },
        };
        match check_call(&constructor.parameters, args.len()) {
            Ok(_) => {},
            Err(e) => {
                return Err(e);
            },
        }
        let scope = match create_scope(&mut self.scope_state, env) {
            Ok(id) => id,
            Err(e) => {
                return Err(e);
            },
        };
        match bind_call(&mut self.scope_state, &constructor.parameters, &args, false, scope) {
            Ok(_) => {},
            Err(e) => {
                return Err(e);
            },
        }
        match self.scope_state.declare_in(scope, text("self"), instance, true) {
            Ok(_) => {},
            Err(e) => {
                return Err(e);
            },
        }
        match self.bind_super_constructor(&class, scope) {
            Ok(_) => {},
            Err(e) => {
                return Err(e);
            },
        }
        match self.resolve_within(&constructor.body, scope, host, fuel) {
            Ok(_) => {},
            Err(e) => {
                return Err(e);
            },
        }
        self.eval_identifier(&text("self"), scope)
    }
}

} // verus!
