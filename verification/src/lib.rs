//! A tree-walking interpreter for a small dynamically typed scripting
//! language: runtime values, lexically scoped environments, the evaluator and
//! the built-in functions.
//!
//! The interpreter takes a program as a syntax tree ([`ast::Node`]) and runs it
//! against a store of scopes ([`environment::ScopeState`]). What an evaluation
//! gives is stated in [`runtime::semantics`]; the evaluator
//! ([`runtime::interpreter::Interpreter`]) is proved against that statement.
//! Output, chance and the arithmetic of decimal numbers are the host's
//! ([`host::Host`]): the statement says what an evaluation gives for each
//! way the host may answer.

pub mod ast;
pub mod builtin;
pub mod describe;
pub mod entries;
pub mod environment;
pub mod host;
pub mod runtime;
pub mod text;
pub mod values;

pub use crate::ast::AssignmentOperator;
pub use crate::ast::BinaryOperator;
pub use crate::ast::LogicalOperator;
pub use crate::ast::Node;
pub use crate::ast::UnaryOperator;
pub use crate::builtin::array::get_array_object;
pub use crate::builtin::array::get_by_index;
pub use crate::builtin::array::merge;
pub use crate::builtin::convert::native_string_convert;
pub use crate::builtin::math::get_math;
pub use crate::builtin::number::abs;
pub use crate::builtin::number::get_number_object;
pub use crate::builtin::print::native_print_function;
pub use crate::builtin::setup_default_environment;
pub use crate::builtin::string::concat;
pub use crate::builtin::string::get_char;
pub use crate::builtin::string::get_string_object;
pub use crate::builtin::string::join;
pub use crate::builtin::string::lower;
pub use crate::builtin::string::replace;
pub use crate::builtin::string::split;
pub use crate::builtin::string::substr;
pub use crate::builtin::string::trim;
pub use crate::builtin::string::trim_end;
pub use crate::builtin::string::trim_start;
pub use crate::builtin::string::upper;
pub use crate::builtin::stringify::stringify;
pub use crate::builtin::time::native_get_time;
pub use crate::builtin::type_of::native_type_of;
pub use crate::environment::Environment;
pub use crate::environment::EnvironmentId;
pub use crate::environment::ScopeState;
pub use crate::host::DecimalFunction;
pub use crate::host::Host;
pub use crate::runtime::error::InterpreterError;
pub use crate::runtime::interpreter::Interpreter;
pub use crate::values::array::ArrayValue;
pub use crate::values::bool::BoolValue;
pub use crate::values::class::ClassMethod;
pub use crate::values::class::ClassMethodParameter;
pub use crate::values::class::ClassProperty;
pub use crate::values::class::ClassValue;
pub use crate::values::class_instance::ClassInstanceValue;
pub use crate::values::decimal::DecimalValue;
pub use crate::values::function::FunctionParameter;
pub use crate::values::function::FunctionValue;
pub use crate::values::integer::IntegerValue;
pub use crate::values::native_fn::Builtin;
pub use crate::values::native_fn::ClosureType;
pub use crate::values::native_fn::NativeFnValue;
pub use crate::values::native_fn::WithFnCall;
pub use crate::values::null::NullValue;
pub use crate::values::object::Key;
pub use crate::values::object::ObjectValue;
pub use crate::values::string::StringValue;
pub use crate::values::RuntimeValue;
pub use crate::values::Value;
pub use crate::values::ValueType;
