//! The evaluator: declarations of classes.

use crate::ast::Node;
use crate::ast::share_node;
use crate::environment::EnvironmentId;
use crate::host::Host;
use crate::runtime::error::ErrorView;
use crate::runtime::error::InterpreterError;
use crate::runtime::interpreter::agrees;
use crate::runtime::interpreter::follows;
use crate::runtime::interpreter::heeds;
use crate::runtime::interpreter::Interpreter;
use crate::runtime::interpreter::keeps;
use crate::runtime::interpreter::reaches;
use crate::runtime::semantics::eval_class_body;
use crate::runtime::semantics::eval_class_declaration;
use crate::runtime::semantics::inheriting;
use crate::runtime::semantics::method_parameters;
use crate::runtime::semantics::Oracle;
use crate::values::class::ClassMethod;
use crate::values::class::ClassMethodParameter;
use crate::values::class::ClassProperty;
use crate::values::class::ClassValue;
use crate::values::ClassView;
use crate::values::lemma_class_view;
use crate::values::lemma_value_view;
use crate::values::method_parameters_view;
use crate::values::ParameterView;
use crate::values::Value;
use std::sync::Arc;
use vstd::prelude::*;

verus! {

/// The parameters of a method: each has to be an identifier.
pub fn method_parameters_of(nodes: &Vec<Arc<Node>>) -> (r: Result<
    Vec<ClassMethodParameter>,
    InterpreterError,
>)
    ensures
        match r {
            Ok(parameters) => method_parameters(*nodes, 0, Seq::empty()) == Ok::<
                Seq<ParameterView>,
                ErrorView,
            >(method_parameters_view(parameters)),
            Err(e) => method_parameters(*nodes, 0, Seq::empty()) == Err::<
                Seq<ParameterView>,
                ErrorView,
            >(e@),
        },
{
    let mut parameters: Vec<ClassMethodParameter> = Vec::new();
    assert(method_parameters_view(parameters) =~= Seq::empty());
    let mut i: usize = 0;
    while i < nodes.len()
        invariant
            i <= nodes.len(),
            method_parameters(*nodes, 0, Seq::empty()) == method_parameters(
                *nodes,
                i as int,
                method_parameters_view(parameters),
            ),
        decreases nodes.len() - i,
    {
        let ghost before = method_parameters_view(parameters);
        match &*nodes[i] {
            Node::Identifier(name) => {
                parameters.push(ClassMethodParameter { name: name.clone(), default_value: None });
                assert(method_parameters_view(parameters) =~= before.push(
                    ParameterView { name: name@, default_value: None },
                ));
            },
            _ => {
                return Err(InterpreterError::UnexpectedNode(share_node(&nodes[i])));
            },
        }
        i = i + 1;
    }
    Ok(parameters)
}

/// The model of the result of an evaluation of the body of a class.
pub open spec fn class_outcome(r: Result<ClassValue, InterpreterError>) -> Result<
    ClassView,
    ErrorView,
> {
    match r {
        Ok(class) => Ok(class@),
        Err(e) => Err(e@),
    }
}

impl Interpreter {
    /// The members that the body of a class declaration defines are put into
    /// the class.
    #[verifier::loop_isolation(false)]
    pub fn eval_class_body<H: Host>(
        &mut self,
        body: &Vec<Arc<Node>>,
        class: ClassValue,
        env: EnvironmentId,
        host: &mut H,
        fuel: usize,
    ) -> (r: Result<ClassValue, InterpreterError>)
        requires
            old(self).wf(),
        ensures
            keeps(*old(self), *final(self)),
            r matches Ok(c) ==> c@.name == class@.name,
            forall|oracle: Oracle|
                #![trigger heeds(oracle)]
                heeds(oracle) ==> reaches(
                    *old(self),
                    *final(self),
                    oracle,
                    class_outcome(r),
                    eval_class_body(*body, 0, class@, env, old(self).under(oracle), fuel as nat),
                ),
        decreases fuel, 1int, body.len(),
    {
        let ghost name = class@.name;
        let ghost first = class@;
        let mut class = class;
        let mut i: usize = 0;
        while i < body.len()
            invariant
                i <= body.len(),
                keeps(*old(self), *self),
                class@.name == name,
                forall|oracle: Oracle|
                    #![trigger heeds(oracle)]
                    heeds(oracle) ==> follows(*old(self), *self, oracle) ==> (eval_class_body(
                        *body,
                        0,
                        first,
                        env,
                        old(self).under(oracle),
                        fuel as nat,
                    ) == eval_class_body(
                        *body,
                        i as int,
                        class@,
                        env,
                        self.under(oracle),
                        fuel as nat,
                    )),
            decreases body.len() - i,
        {
            match &*body[i] {
                Node::PropertyDefinition(name, value, is_static) => {
                    let v = match self.resolve_within(value, env, host, fuel) {
                        Ok(v) => v,
                        Err(e) => {
                            return Err(e);
                        },
                    };
                    class.insert_property(
                        ClassProperty { name: name.clone(), value: v, is_static: *is_static },
                    );
                },
                Node::MethodDefinition(name, method_params, method_body, is_static) => {
                    let params = match method_parameters_of(method_params) {
                        Ok(p) => p,
                        Err(e) => {
                            return Err(e);
                        },
                    };
                    class.insert_method(
                        ClassMethod {
                            name: name.clone(),
                            args: params,
                            body: share_node(method_body),
                            is_static: *is_static,
                        },
                    );
                },
                _ => {},
            }
            i = i + 1;
        }
        Ok(class)
    }

    /// A declaration of a class.
    pub fn eval_class_declaration<H: Host>(
        &mut self,
        name: &String,
        super_class: &Option<Arc<Node>>,
        body: &Vec<Arc<Node>>,
        env: EnvironmentId,
        host: &mut H,
        fuel: usize,
    ) -> (r: Result<Value, InterpreterError>)
        requires
            old(self).wf(),
        ensures
            keeps(*old(self), *final(self)),
            forall|oracle: Oracle|
                #![trigger heeds(oracle)]
                heeds(oracle) ==> agrees(
                    *old(self),
                    *final(self),
                    r,
                    oracle,
                    eval_class_declaration(
                        name@,
                        *super_class,
                        *body,
                        env,
                        old(self).under(oracle),
                        fuel as nat,
                    ),
                ),
        decreases fuel, 2int, 0int,
    {
        let mut class = ClassValue::default();
        class.name = name.clone();
        assert(class@ == inheriting(name@, None));
        match super_class {
            Some(id) => {
                let resolved = match self.resolve_within(id, env, host, fuel) {
                    Ok(v) => v,
                    Err(e) => {
                        return Err(e);
                    },
                };
                proof {
                    lemma_value_view(resolved);
                }
                match resolved {
                    Value::Class(target_class) => {
                        proof {
                            lemma_class_view(target_class);
                        }
                        class.copy_properties(&target_class);
                        class.copy_methods(&target_class);
                        class.super_class = Some(Box::new(target_class));
                        assert(class@ == inheriting(name@, Some(target_class@)));
                    },
                    _ => {},
                }
            },
            None => {},
        }
        let class = match self.eval_class_body(body, class, env, host, fuel) {
            Ok(c) => c,
            Err(e) => {
                return Err(e);
            },
        };
        let declared = Value::Class(class);
        proof {
            lemma_value_view(declared);
        }
        self.scope_state.declare_in(env, name.clone(), declared, true)
    }
}

} // verus!
