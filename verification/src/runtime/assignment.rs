//! The evaluator: assignments.

use crate::ast::AssignmentOperator;
use crate::ast::compound_operator;
use crate::ast::Node;
use crate::ast::node_at;
use crate::ast::share_node;
use crate::environment::EnvironmentId;
use crate::host::Host;
use crate::runtime::error::InterpreterError;
use crate::runtime::interpreter::agrees;
use crate::runtime::interpreter::heeds;
use crate::runtime::interpreter::Interpreter;
use crate::runtime::interpreter::keeps;
use crate::runtime::semantics::assign_identifier;
use crate::runtime::semantics::assigned_value;
use crate::runtime::semantics::compound;
use crate::runtime::semantics::eval_assignment;
use crate::runtime::semantics::member_after;
use crate::runtime::semantics::member_before;
use crate::runtime::semantics::Oracle;
use crate::runtime::semantics::read_operand;
use crate::runtime::semantics::static_property;
use crate::runtime::semantics::store_member;
use crate::text::text;
use crate::values::class::ClassProperty;
use crate::values::class::is_first_static_property;
use crate::values::lemma_class_view;
use crate::values::lemma_value_view;
use crate::values::option_view;
use crate::values::Value;
use std::sync::Arc;
use vstd::prelude::*;

verus! {

impl Interpreter {
    /// The value that an assignment to a member stores.
    pub fn assigned_value<H: Host>(
        &mut self,
        previous: Option<Value>,
        key: &String,
        operator: AssignmentOperator,
        right: &Arc<Node>,
        env: EnvironmentId,
        host: &mut H,
        fuel: usize,
    ) -> (r: Result<Value, InterpreterError>)
        requires
            old(self).wf(),
        ensures
            keeps(*old(self), *final(self)),
            forall|oracle: Oracle|
                #![trigger heeds(oracle)]
                heeds(oracle) ==> agrees(
                    *old(self),
                    *final(self),
                    r,
                    oracle,
                    assigned_value(
                        option_view(previous),
                        key@,
                        operator,
                        **right,
                        env,
                        old(self).under(oracle),
                        fuel as nat,
                    ),
                ),
        decreases fuel, 2int, 1int,
    {
        match compound_operator(operator) {
            None => self.resolve_within(right, env, host, fuel),
            Some(binary) => match previous {
                None => Err(InterpreterError::UnresolvedProperty(key.clone())),
                Some(p) => {
                    proof {
                        assert forall|oracle: Oracle| #![trigger heeds(oracle)]
                            heeds(oracle) ==> compound(
                                crate::runtime::semantics::done(p@, self.under(oracle)),
                                binary,
                                node_at(right),
                                env,
                                fuel as nat,
                            ) == (if fuel == 0 {
                                crate::runtime::semantics::failed(
                                    crate::runtime::error::ErrorView::LimitReached,
                                    self.under(oracle),
                                )
                            } else {
                                crate::runtime::semantics::operate(
                                    crate::runtime::semantics::done(p@, self.under(oracle)),
                                    binary,
                                    node_at(right),
                                    env,
                                    (fuel - 1) as nat,
                                )
                            }) by {}
                    }
                    if fuel == 0 {
                        return Err(InterpreterError::LimitReached);
                    }
                    self.operate(p, binary, right, env, host, fuel - 1)
                },
            },
        }
    }

    /// The value that `target` has as its member `key`, where an assignment
    /// can reach it.
    pub fn member_before(target: &Value, key: &String) -> (r: Option<Value>)
        ensures
            option_view(r) == member_before(target@, key@),
    {
        proof {
            lemma_value_view(*target);
        }
        match target {
            Value::Object(obj) => obj.get_property(key.clone()),
            Value::Class(class) => {
                proof {
                    lemma_class_view(*class);
                }
                match class.get_static_property(key.clone()) {
                    Some(p) => {
                        proof {
                            let i = choose|i: int|
                                is_first_static_property(class@.properties, key@, i) && p@
                                    == class@.properties[i];
                            let c = choose|c: int|
                                is_first_static_property(class@.properties, key@, c);
                            if c < i {
                                assert(!(class@.properties[c].name == key@
                                    && class@.properties[c].is_static));
                            }
                            if i < c {
                                assert(!(class@.properties[i].name == key@
                                    && class@.properties[i].is_static));
                            }
                        }
                        Some(p.value)
                    },
                    None => {
                        assert(static_property(class@.properties, key@) is None) by {
                            if exists|i: int| is_first_static_property(class@.properties, key@, i) {
                                let i = choose|i: int|
                                    is_first_static_property(class@.properties, key@, i);
                                assert(!(class@.properties[i].name == key@
                                    && class@.properties[i].is_static));
                            }
                        }
                        None
                    },
                }
            },
            _ => None,
        }
    }

    /// `target` after an assignment of `value` to its member `key`.
    pub fn member_after(target: Value, key: String, value: Value) -> (r: Value)
        ensures
            r@ == member_after(target@, key@, value@),
    {
        proof {
            lemma_value_view(target);
        }
        match target {
            Value::Object(obj) => {
                let mut obj = obj;
                obj.assign_property(key, value);
                Value::object(obj.map)
            },
            Value::Class(class) => {
                proof {
                    lemma_class_view(class);
                }
                let mut class = class;
                class.insert_property(ClassProperty { name: key, value, is_static: true });
                let updated = Value::Class(class);
                proof {
                    lemma_value_view(updated);
                }
                updated
            },
            other => other,
        }
    }

    /// An assignment to the member `key` of `target`, which is what the node
    /// `object` gave.
    pub fn store_member<H: Host>(
        &mut self,
        object: &Arc<Node>,
        target: Value,
        key: String,
        operator: AssignmentOperator,
        right: &Arc<Node>,
        env: EnvironmentId,
        host: &mut H,
        fuel: usize,
    ) -> (r: Result<Value, InterpreterError>)
        requires
            old(self).wf(),
        ensures
            keeps(*old(self), *final(self)),
            forall|oracle: Oracle|
                #![trigger heeds(oracle)]
                heeds(oracle) ==> agrees(
                    *old(self),
                    *final(self),
                    r,
                    oracle,
                    store_member(
                        **object,
                        target@,
                        key@,
                        operator,
                        **right,
                        env,
                        old(self).under(oracle),
                        fuel as nat,
                    ),
                ),
        decreases fuel, 2int, 2int,
    {
        let previous = Self::member_before(&target, &key);
        let value = match self.assigned_value(previous, &key, operator, right, env, host, fuel) {
            Ok(v) => v,
            Err(e) => {
                return Err(e);
            },
        };
        let updated = Self::member_after(target, key, value);
        self.write_back(object, updated, object, env, host, fuel)
    }

    /// An assignment to an identifier.
    pub fn assign_identifier<H: Host>(
        &mut self,
        name: &String,
        operator: AssignmentOperator,
        right: &Arc<Node>,
        env: EnvironmentId,
        host: &mut H,
        fuel: usize,
    ) -> (r: Result<Value, InterpreterError>)
        requires
            old(self).wf(),
        ensures
            keeps(*old(self), *final(self)),
            forall|oracle: Oracle|
                #![trigger heeds(oracle)]
                heeds(oracle) ==> agrees(
                    *old(self),
                    *final(self),
                    r,
                    oracle,
                    assign_identifier(
                        name@,
                        operator,
                        **right,
                        env,
                        old(self).under(oracle),
                        fuel as nat,
                    ),
                ),
        decreases fuel, 2int, 2int,
    {
        let value = match compound_operator(operator) {
            None => match self.resolve_within(right, env, host, fuel) {
                Ok(v) => v,
                Err(e) => {
                    return Err(e);
                },
            },
            Some(binary) => {
            proof {
                assert forall|oracle: Oracle| #![trigger heeds(oracle)]
                    heeds(oracle) ==> compound(
                        read_operand(
                            name@,
                            env,
                            self.under(oracle),
                            fuel as nat,
                        ),
                        binary,
                        node_at(right),
                        env,
                        fuel as nat,
                    ) == (if fuel <= 1 {
                        read_operand(
                            name@,
                            env,
                            self.under(oracle),
                            fuel as nat,
                        )
                    } else {
                        crate::runtime::semantics::operate(
                            read_operand(
                                name@,
                                env,
                                self.under(oracle),
                                fuel as nat,
                            ),
                            binary,
                            node_at(right),
                            env,
                            (fuel - 1) as nat,
                        )
                    }) by {
                    let read = read_operand(
                        name@,
                        env,
                        self.under(oracle),
                        fuel as nat,
                    );
                    if fuel == 1 {
                        assert(crate::runtime::semantics::operate(
                            read,
                            binary,
                            node_at(right),
                            env,
                            0,
                        ) == read);
                    }
                }
            }
                if fuel <= 1 {
                    return Err(InterpreterError::LimitReached);
                }
                let previous = match self.eval_identifier(name, env) {
                    Ok(v) => v,
                    Err(e) => {
                        return Err(e);
                    },
                };
                match self.operate(previous, binary, right, env, host, fuel - 1) {
                    Ok(v) => v,
                    Err(e) => {
                        return Err(e);
                    },
                }
            },
        };
        self.scope_state.assign_in(env, name.clone(), value, false)
    }

    /// An assignment.
    pub fn eval_assignment_expression<H: Host>(
        &mut self,
        left: &Arc<Node>,
        operator: AssignmentOperator,
        right: &Arc<Node>,
        env: EnvironmentId,
        host: &mut H,
        fuel: usize,
    ) -> (r: Result<Value, InterpreterError>)
        requires
            old(self).wf(),
        ensures
            keeps(*old(self), *final(self)),
            forall|oracle: Oracle|
                #![trigger heeds(oracle)]
                heeds(oracle) ==> agrees(
                    *old(self),
                    *final(self),
                    r,
                    oracle,
                    eval_assignment(
                        **left,
                        operator,
                        **right,
                        env,
                        old(self).under(oracle),
                        fuel as nat,
                    ),
                ),
        decreases fuel, 3int, 0int,
    {
        match &**left {
            Node::MemberExpression(object, property, computed) => {
                let target = match self.resolve_within(object, env, host, fuel) {
                    Ok(v) => v,
                    Err(e) => {
                        return Err(e);
                    },
                };
                proof {
                    lemma_value_view(target);
                }
                match &target {
                    Value::Object(_) | Value::Class(_) => {},
                    _ => {
                        return Err(InterpreterError::InvalidValue(target, text("object or class")));
                    },
                }
                let key = match self.eval_key(property, *computed, true, env, host, fuel) {
                    Ok(k) => k,
                    Err(e) => {
                        return Err(e);
                    },
                };
                self.store_member(object, target, key, operator, right, env, host, fuel)
            },
            Node::Identifier(variable_name) => self.assign_identifier(
                variable_name,
                operator,
                right,
                env,
                host,
                fuel,
            ),
            _ => Err(InterpreterError::InvalidAssignFactor(share_node(left))),
        }
    }
}

} // verus!
