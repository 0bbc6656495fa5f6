use crate::ast::Node;
use crate::environment::EnvironmentId;
use super::clone_function;
use super::clone_parameter;
use super::function_view;
use super::FunctionView;
use super::parameter_view;
use super::ParameterView;
use super::RuntimeValue;
use super::Value;
use super::ValueType;
use std::sync::Arc;
use vstd::prelude::*;

verus! {

/// One parameter of a function: its name and the value it takes when the
/// caller gives none.
#[derive(Debug)]
pub struct FunctionParameter {
    pub name: String,
    pub default_value: Option<Value>,
}

impl View for FunctionParameter {
    type V = ParameterView;

    open spec fn view(&self) -> ParameterView {
        parameter_view(*self)
    }
}

impl Clone for FunctionParameter {
    fn clone(&self) -> (r: Self)
        ensures
            r@ == self@,
    {
        clone_parameter(self)
    }
}

impl FunctionParameter {
    pub fn new(name: String, default_value: Option<Value>) -> (r: Self)
        ensures
            r.name == name,
            r.default_value == default_value,
    {
        FunctionParameter { name, default_value }
    }
}

/// A function of the language: its name, its parameters, the scope it was
/// declared in, which is the parent of the scope of each of its calls, and its
/// body.
#[derive(Debug)]
pub struct FunctionValue {
    pub name: String,
    pub parameters: Vec<FunctionParameter>,
    pub declaration_env: EnvironmentId,
    pub body: Arc<Node>,
}

impl View for FunctionValue {
    type V = FunctionView;

    open spec fn view(&self) -> FunctionView {
        function_view(*self)
    }
}

impl Clone for FunctionValue {
    fn clone(&self) -> (r: Self)
        ensures
            r@ == self@,
    {
        clone_function(self)
    }
}

impl FunctionValue {
    pub fn new(
        name: String,
        parameters: Vec<FunctionParameter>,
        declaration_env: EnvironmentId,
        body: Arc<Node>,
    ) -> (r: Self)
        ensures
            r.name == name,
            r.parameters == parameters,
            r.declaration_env == declaration_env,
            r.body == body,
    {
        FunctionValue { name, parameters, declaration_env, body }
    }
}

impl RuntimeValue for FunctionValue {
    open spec fn kind_spec(&self) -> ValueType {
        ValueType::Function
    }

    fn kind(&self) -> ValueType {
        ValueType::Function
    }
}

} // verus!
