//! What an evaluation gives, stated over the models of values and of the
//! store.
//!
//! An evaluation is given a depth: how far it may nest. At depth zero it
//! fails with `LimitReached`; every nested evaluation has one less. A
//! loop has one less for each of its rounds.
//!
//! Where the host has a part in a result (arithmetic on decimal numbers, the
//! text of a decimal number, the clock, chance) the evaluation asks the host,
//! and goes on with the answer. What the host answers is a parameter of the
//! functions here: the oracle of the machine. The functions say what an
//! evaluation gives for every oracle. Of an answer only its kind is fixed:
//! arithmetic gives a decimal number, a comparison a boolean, a value
//! written out a text, the clock an integer or `null`. Which question goes
//! to the host, and with which arguments, is stated where it is asked: in
//! the contracts of the operators and of the built-in functions.

use crate::ast::AssignmentOperator;
use crate::ast::binary_operator_of;
use crate::ast::BinaryOperator;
use crate::ast::LogicalOperator;
use crate::ast::Node;
use crate::ast::UnaryOperator;
use crate::builtin::array::array_object_result;
use crate::builtin::array::method_function;
use crate::builtin::native_value;
use crate::builtin::runs;
use crate::builtin::number::number_object_entries;
use crate::builtin::print::all_decimal_free;
use crate::builtin::print::line_of;
use crate::builtin::string::string_object_entries;
use crate::entries::has_key;
use crate::entries::inserted;
use crate::entries::lookup;
use crate::entries::value_of;
use crate::environment::EnvironmentId;
use crate::environment::ScopeStateView;
use crate::runtime::error::ErrorView;
use crate::runtime::operators::binary_value;
use crate::runtime::operators::compares;
use crate::runtime::operators::logical_value;
use crate::runtime::operators::unary_value;
use crate::values::class::first_method;
use crate::values::class::has_method;
use crate::values::class::with_inherited_methods;
use crate::values::class::with_inherited_properties;
use crate::values::class::with_property;
use crate::values::ClassView;
use crate::values::FunctionView;
use crate::values::MethodView;
use crate::values::native_fn::Builtin;
use crate::values::ParameterView;
use crate::values::PropertyView;
use crate::values::ValueView;
use std::sync::Arc;
use vstd::prelude::*;

verus! {

/// What the host answers to the questions of an evaluation: to the first
/// question, to the second, and so on. An answer is a value: the result of
/// the computation that was asked for.
pub type Oracle = spec_fn(nat) -> ValueView;

/// The model of the machine that evaluates: the store of scopes, the lines
/// that have been handed to the output, in their order, how many questions
/// the host has been asked, and what the host answers.
pub struct MachineView {
    pub store: ScopeStateView,
    pub printed: Seq<Seq<char>>,
    pub asked: nat,
    pub oracle: Oracle,
}

impl MachineView {
    /// The machine with another store.
    pub open spec fn on(self, store: ScopeStateView) -> Self {
        MachineView { store, printed: self.printed, asked: self.asked, oracle: self.oracle }
    }

    /// The machine after a line has been handed to the output.
    pub open spec fn printing(self, line: Seq<char>) -> Self {
        MachineView {
            store: self.store,
            printed: self.printed.push(line),
            asked: self.asked,
            oracle: self.oracle,
        }
    }

    /// The answer of the host to the question that is asked next.
    pub open spec fn answer(self) -> ValueView {
        (self.oracle)(self.asked)
    }

    /// The machine after the host has answered a question.
    pub open spec fn answered(self) -> Self {
        MachineView {
            store: self.store,
            printed: self.printed,
            asked: self.asked + 1,
            oracle: self.oracle,
        }
    }
}

/// The text that an answer is, where the host was asked for a text.
pub open spec fn answered_text(answer: ValueView) -> Seq<char> {
    match answer {
        ValueView::String(t) => t,
        _ => Seq::empty(),
    }
}

/// An answer where the host was asked for a decimal number. The evaluator
/// asks the host through functions that give a decimal number and nothing
/// else, so an answer of another kind does not occur; here it counts as the
/// number with no bit set.
pub open spec fn decimal_answer(answer: ValueView) -> ValueView {
    match answer {
        ValueView::Decimal(_) => answer,
        _ => ValueView::Decimal(0),
    }
}

/// An answer where the host was asked whether a comparison holds: a boolean.
pub open spec fn boolean_answer(answer: ValueView) -> ValueView {
    match answer {
        ValueView::Boolean(_) => answer,
        _ => ValueView::Boolean(false),
    }
}

/// An answer to a binary operator on numbers with a decimal number among
/// them: a boolean where the operator compares, else a decimal number.
pub open spec fn binary_answer(operator: BinaryOperator, answer: ValueView) -> ValueView {
    if compares(operator) {
        boolean_answer(answer)
    } else {
        decimal_answer(answer)
    }
}

/// An answer to a native function that leaves its result to the host: the
/// time is an integer or `null`, a value written out is a text, and every
/// other such result is a decimal number.
pub open spec fn native_answer(builtin: Builtin, answer: ValueView) -> ValueView {
    match builtin {
        Builtin::Time => match answer {
            ValueView::Integer(_) => answer,
            _ => ValueView::Null,
        },
        Builtin::StringConvert | Builtin::StringJoin => ValueView::String(answered_text(answer)),
        _ => decimal_answer(answer),
    }
}

/// What a native function gives, where the host has a part in it, is an
/// answer of the kind that `native_answer` names.
pub proof fn lemma_native_answer(
    builtin: Builtin,
    receiver: ValueView,
    args: Seq<ValueView>,
    r: ValueView,
)
    requires
        runs(builtin, receiver, args, r),
        native_value(builtin, receiver, args) is None,
    ensures
        native_answer(builtin, r) == r,
{
}

/// Where a change of the store ended: well or with an error, and with the
/// store as it then was.
pub struct Stored {
    pub outcome: Result<(), ErrorView>,
    pub store: ScopeStateView,
}

/// Where an evaluation ended: with a result or with an error, and with the
/// machine as it then was.
pub struct Step<T> {
    pub outcome: Result<T, ErrorView>,
    pub state: MachineView,
}

/// An evaluation that ended with a value.
pub type Evaluated = Step<ValueView>;

pub open spec fn done<T>(value: T, state: MachineView) -> Step<T> {
    Step { outcome: Ok(value), state }
}

pub open spec fn failed<T>(error: ErrorView, state: MachineView) -> Step<T> {
    Step { outcome: Err(error), state }
}

/// A declaration of `name` in the scope `env`. Its value is the value
/// declared.
pub open spec fn declare(
    s: MachineView,
    env: EnvironmentId,
    name: Seq<char>,
    value: ValueView,
    is_constant: bool,
) -> Evaluated {
    match s.store.declare_outcome(env, name, value, is_constant) {
        Ok(after) => done(value, s.on(after)),
        Err(e) => failed(e, s),
    }
}

/// An assignment to `name` from the scope `env`. Its value is the value
/// assigned.
pub open spec fn assign(
    s: MachineView,
    env: EnvironmentId,
    name: Seq<char>,
    value: ValueView,
    ignore_constant: bool,
) -> Evaluated {
    if !s.store.scopes.contains_key(env) {
        failed(ErrorView::UnresolvedEnvironment(env), s)
    } else {
        match s.store.assign_outcome(env, name, value, ignore_constant) {
            Ok(after) => done(value, s.on(after)),
            Err(e) => failed(e, s),
        }
    }
}

/// An identifier: the value that the scope `env` sees under the name.
pub open spec fn eval_identifier(name: Seq<char>, env: EnvironmentId, s: MachineView) -> Evaluated {
    if !s.store.scopes.contains_key(env) {
        failed(ErrorView::UnresolvedEnvironment(env), s)
    } else {
        match s.store.lookup(env, name) {
            Some(v) => done(v, s),
            None => failed(ErrorView::UnresolvedVariable(name), s),
        }
    }
}

/// A new scope with the parent `parent`: the store with the scope, or why
/// there is none. The store gives no identifier beyond the largest.
pub open spec fn create(s: ScopeStateView, parent: EnvironmentId) -> Result<ScopeStateView, ErrorView> {
    if !s.scopes.contains_key(parent) {
        Err(ErrorView::UnresolvedEnvironment(parent))
    } else if s.last_generated_id >= u64::MAX {
        Err(ErrorView::LimitReached)
    } else {
        Ok(s.created(Some(parent)))
    }
}

/// The first parameter that has a default value although another parameter
/// follows it, among those from `i` on.
pub open spec fn misplaced_default(parameters: Seq<ParameterView>, i: int) -> Option<Seq<char>>
    decreases parameters.len() - i,
{
    if i < 0 || i >= parameters.len() {
        None
    } else if parameters[i].default_value is Some && i + 1 < parameters.len() {
        Some(parameters[i].name)
    } else {
        misplaced_default(parameters, i + 1)
    }
}

/// The number of the first `n` parameters that have no default value.
pub open spec fn required_count(parameters: Seq<ParameterView>, n: int) -> int
    decreases n,
{
    if n <= 0 {
        0
    } else if parameters[n - 1].default_value is None {
        required_count(parameters, n - 1) + 1
    } else {
        required_count(parameters, n - 1)
    }
}

/// Whether a call may go ahead with these parameters and this many
/// arguments: no default value but on the last parameter, and an argument for
/// every parameter without one.
pub open spec fn check_parameters(parameters: Seq<ParameterView>, given: int) -> Result<(), ErrorView> {
    match misplaced_default(parameters, 0) {
        Some(name) => Err(ErrorView::InvalidDefaultParameter(name)),
        None => if given < required_count(parameters, parameters.len() as int) {
            Err(
                ErrorView::InvalidParameterCount(
                    required_count(parameters, parameters.len() as int),
                    given,
                ),
            )
        } else {
            Ok(())
        },
    }
}

/// The parameters from `i` on are bound in the scope `env`, each as a
/// constant: to its argument where there is one, else, where `defaults`
/// says so, to its default value where it has one.
pub open spec fn bind_parameters(
    parameters: Seq<ParameterView>,
    args: Seq<ValueView>,
    i: int,
    defaults: bool,
    env: EnvironmentId,
    s: ScopeStateView,
) -> Stored
    decreases parameters.len() - i,
{
    if i < 0 || i >= parameters.len() {
        Stored { outcome: Ok(()), store: s }
    } else {
        let value = if i < args.len() {
            Some(args[i])
        } else if defaults {
            parameters[i].default_value
        } else {
            None
        };
        match value {
            None => bind_parameters(parameters, args, i + 1, defaults, env, s),
            Some(v) => match s.declare_outcome(env, parameters[i].name, v, true) {
                Err(e) => Stored { outcome: Err(e), store: s },
                Ok(after) => bind_parameters(parameters, args, i + 1, defaults, env, after),
            },
        }
    }
}

/// The entries of an instance after the instance properties among the first
/// `n` of `properties` have been put into `entries`.
pub open spec fn with_instance_properties(
    entries: Seq<(Seq<char>, ValueView)>,
    properties: Seq<PropertyView>,
    n: int,
) -> Seq<(Seq<char>, ValueView)>
    decreases n,
{
    if n <= 0 {
        entries
    } else {
        let before = with_instance_properties(entries, properties, n - 1);
        if properties[n - 1].is_static {
            before
        } else {
            inserted(before, properties[n - 1].name, properties[n - 1].value)
        }
    }
}

/// The entries of an instance after the instance methods among the first `n`
/// of `methods`, but for the constructor, have been put into `entries`, each
/// as a function declared in the scope `env`.
pub open spec fn with_instance_methods(
    entries: Seq<(Seq<char>, ValueView)>,
    methods: Seq<(Seq<char>, MethodView)>,
    n: int,
    env: EnvironmentId,
) -> Seq<(Seq<char>, ValueView)>
    decreases n,
{
    if n <= 0 {
        entries
    } else {
        let before = with_instance_methods(entries, methods, n - 1, env);
        if methods[n - 1].1.is_static || methods[n - 1].0 == "__new__"@ {
            before
        } else {
            inserted(before, methods[n - 1].0, method_function(methods[n - 1].0, methods[n - 1].1, env))
        }
    }
}

/// The entries of a new instance of the class `c`, made in the scope `env`.
pub open spec fn instance_entries(c: ClassView, env: EnvironmentId) -> Seq<(Seq<char>, ValueView)> {
    with_instance_methods(
        with_instance_properties(Seq::empty(), c.properties, c.properties.len() as int),
        c.methods,
        c.methods.len() as int,
        env,
    )
}

/// The first static property called `name`, if there is one.
pub open spec fn static_property(properties: Seq<PropertyView>, name: Seq<char>) -> Option<
PropertyView,
> {
    if exists|i: int| crate::values::class::is_first_static_property(properties, name, i) {
        Some(
            properties[choose|i: int|
                crate::values::class::is_first_static_property(properties, name, i)],
        )
    } else {
        None
    }
}

/// The member `key` of a value, read from the scope `env`.
///
/// An object gives the value of its property, a class its static property or
/// its static method, a text, a number and an array what their method object
/// has under the name. A member that an object or a method object does not
/// have is `null`.
pub open spec fn member_of(
    object: ValueView,
    key: Seq<char>,
    env: EnvironmentId,
    s: ScopeStateView,
) -> Result<ValueView, ErrorView> {
    match object {
        ValueView::Object(entries) => Ok(or_null(lookup(entries, key))),
        ValueView::Class(c) => match static_property(c.properties, key) {
            Some(p) => Ok(p.value),
            None => if has_method(c.methods, key, true) {
                let m = first_method(c.methods, key, true);
                Ok(method_function(m.name, m, env))
            } else {
                Err(ErrorView::UnresolvedProperty(key))
            },
        },
        ValueView::String(t) => Ok(or_null(lookup(string_object_entries(t), key))),
        ValueView::Integer(_) | ValueView::Decimal(_) => Ok(
            or_null(lookup(number_object_entries(object), key)),
        ),
        ValueView::Array(items) => match array_object_result(items, key, env, s) {
            Ok(entries) => Ok(or_null(lookup(entries, key))),
            Err(e) => Err(e),
        },
        _ => Err(ErrorView::UnsupportedValue(object)),
    }
}

pub open spec fn or_null(value: Option<ValueView>) -> ValueView {
    match value {
        Some(v) => v,
        None => ValueView::Null,
    }
}

/// The value of a node in the scope `env`, within the depth `fuel`.
pub open spec fn eval(node: Node, env: EnvironmentId, s: MachineView, fuel: nat) -> Evaluated
    decreases fuel, 0int, 0int,
{
    if fuel == 0 {
        failed(ErrorView::LimitReached, s)
    } else {
        let f = (fuel - 1) as nat;
        match node {
            Node::IntegerLiteral(v) => done(ValueView::Integer((v as isize) as int), s),
            Node::DecimalLiteral(bits) => done(ValueView::Decimal(bits), s),
            Node::StringLiteral(t) => done(ValueView::String(t@), s),
            Node::ArrayExpression(items) => eval_array(items, 0, Seq::empty(), env, s, f),
            Node::BinaryExpression(left, operator, right) => eval_binary(
                *left,
                operator,
                *right,
                env,
                s,
                f,
            ),
            Node::Identifier(name) => eval_identifier(name@, env, s),
            Node::VariableDeclaration(name, value, is_constant) => eval_variable_declaration(
                name@,
                value,
                is_constant,
                env,
                s,
                f,
            ),
            Node::AssignmentExpression(left, operator, right) => eval_assignment(
                *left,
                operator,
                *right,
                env,
                s,
                f,
            ),
            Node::FunctionDeclaration(name, parameters, body) => eval_function_declaration(
                name@,
                parameters,
                *body,
                env,
                s,
                f,
            ),
            Node::MemberExpression(object, property, computed) => eval_member(
                *object,
                *property,
                computed,
                env,
                s,
                f,
            ),
            Node::UnaryExpression(expression, operator) => eval_unary(
                *expression,
                operator,
                env,
                s,
                f,
            ),
            Node::LogicalExpression(left, operator, right) => eval_logical(
                *left,
                operator,
                *right,
                env,
                s,
                f,
            ),
            Node::BlockStatement(statements) => eval_block(statements, 0, env, s, f),
            Node::IfStatement(condition, body, alternate) => eval_if(
                *condition,
                *body,
                alternate,
                env,
                s,
                f,
            ),
            Node::WhileStatement(condition, body) => eval_while(*condition, *body, env, s, f),
            Node::CallExpression(callee, arguments) => eval_call(*callee, arguments, env, s, f),
            Node::ReturnStatement(_) => failed(ErrorView::UnexpectedNode(node), s),
            _ => failed(ErrorView::UnsupportedNode(node), s),
        }
    }
}

/// The values of the nodes from `i` on, after `values`, as one array. The
/// nodes are evaluated from left to right.
pub open spec fn eval_array(
    items: Vec<Arc<Node>>,
    i: int,
    values: Seq<ValueView>,
    env: EnvironmentId,
    s: MachineView,
    fuel: nat,
) -> Evaluated
    decreases fuel, 1int, items.len() - i,
{
    if i < 0 || i >= items.len() {
        done(ValueView::Array(values), s)
    } else {
        {
            let a = eval(*items[i], env, s, fuel);
            match a.outcome {
                Err(_) => a,
                Ok(v) => eval_array(items, i + 1, values.push(v), env, a.state, fuel),
            }
        }
    }
}

/// A block from its statement `i` on. A `return` statement ends the block and
/// gives it its value; a block that ends otherwise has the value `null`.
pub open spec fn eval_block(
    statements: Vec<Arc<Node>>,
    i: int,
    env: EnvironmentId,
    s: MachineView,
    fuel: nat,
) -> Evaluated
    decreases fuel, 1int, statements.len() - i,
{
    if i < 0 || i >= statements.len() {
        done(ValueView::Null, s)
    } else {
        match *statements[i] {
            Node::ReturnStatement(value) => eval(*value, env, s, fuel),
            statement => {
                let a = eval(statement, env, s, fuel);
                match a.outcome {
                    Err(_) => a,
                    Ok(_) => eval_block(statements, i + 1, env, a.state, fuel),
                }
            },
        }
    }
}

/// A binary expression: the left operand, the right operand, the operator.
pub open spec fn eval_binary(
    left: Node,
    operator: BinaryOperator,
    right: Node,
    env: EnvironmentId,
    s: MachineView,
    fuel: nat,
) -> Evaluated
    decreases fuel, 2int, 0int,
{
    operate(eval(left, env, s, fuel), operator, right, env, fuel)
}

/// What follows the evaluation of the left operand of a binary operator: the
/// right operand, then the operator. Where the operands are numbers and one
/// of them is a decimal number, the result is the answer of the host: a
/// boolean for a comparison, else a decimal number.
pub open spec fn operate(
    left: Evaluated,
    operator: BinaryOperator,
    right: Node,
    env: EnvironmentId,
    fuel: nat,
) -> Evaluated
    decreases fuel, 1int, 0int,
{
    let a = left;
    match a.outcome {
        Err(_) => a,
        Ok(lv) => {
            let b = eval(right, env, a.state, fuel);
            match b.outcome {
                Err(_) => b,
                Ok(rv) => match binary_value(lv, rv, operator) {
                    None => done(binary_answer(operator, b.state.answer()), b.state.answered()),
                    Some(o) => Step { outcome: o, state: b.state },
                },
            }
        },
    }
}

/// A unary expression. The negative of a decimal number is the answer of
/// the host, a decimal number.
pub open spec fn eval_unary(
    expression: Node,
    operator: UnaryOperator,
    env: EnvironmentId,
    s: MachineView,
    fuel: nat,
) -> Evaluated
    decreases fuel, 2int, 0int,
{
    let a = eval(expression, env, s, fuel);
    match a.outcome {
        Err(_) => a,
        Ok(v) => match unary_value(v, operator, expression) {
            None => done(decimal_answer(a.state.answer()), a.state.answered()),
            Some(o) => Step { outcome: o, state: a.state },
        },
    }
}

/// A logical expression. Both operands are evaluated, whatever the first
/// gives.
pub open spec fn eval_logical(
    left: Node,
    operator: LogicalOperator,
    right: Node,
    env: EnvironmentId,
    s: MachineView,
    fuel: nat,
) -> Evaluated
    decreases fuel, 2int, 0int,
{
    let a = eval(left, env, s, fuel);
    match a.outcome {
        Err(_) => a,
        Ok(lv) => {
            let b = eval(right, env, a.state, fuel);
            match b.outcome {
                Err(_) => b,
                Ok(rv) => Step { outcome: logical_value(lv, rv, operator), state: b.state },
            }
        },
    }
}

/// A declaration of a variable: the value of the initializer, or `null`
/// without one, is bound in the scope `env`.
pub open spec fn eval_variable_declaration(
    name: Seq<char>,
    value: Option<Arc<Node>>,
    is_constant: bool,
    env: EnvironmentId,
    s: MachineView,
    fuel: nat,
) -> Evaluated
    decreases fuel, 2int, 0int,
{
    match value {
        None => declare(s, env, name, ValueView::Null, is_constant),
        Some(init) => {
            let a = eval(*init, env, s, fuel);
            match a.outcome {
                Err(_) => a,
                Ok(v) => declare(a.state, env, name, v, is_constant),
            }
        },
    }
}

/// An `if` statement. The condition has to be a boolean. The statement has
/// the value `null`.
pub open spec fn eval_if(
    condition: Node,
    body: Node,
    alternate: Option<Arc<Node>>,
    env: EnvironmentId,
    s: MachineView,
    fuel: nat,
) -> Evaluated
    decreases fuel, 2int, 0int,
{
    let a = eval(condition, env, s, fuel);
    match a.outcome {
        Err(_) => a,
        Ok(ValueView::Boolean(true)) => discard(eval(body, env, a.state, fuel)),
        Ok(ValueView::Boolean(false)) => match alternate {
            Some(other) => discard(eval(*other, env, a.state, fuel)),
            None => done(ValueView::Null, a.state),
        },
        Ok(v) => failed(ErrorView::InvalidCondition(v), a.state),
    }
}

/// The evaluation with `null` in place of its value.
pub open spec fn discard(e: Evaluated) -> Evaluated {
    {
        let a = e;
        match a.outcome {
            Err(_) => a,
            Ok(_) => done(ValueView::Null, a.state),
        }
    }
}

/// A `while` statement. The condition is evaluated before every round and has
/// to be a boolean; the body runs in the scope `env` itself. The statement
/// has the value `null`.
pub open spec fn eval_while(
    condition: Node,
    body: Node,
    env: EnvironmentId,
    s: MachineView,
    fuel: nat,
) -> Evaluated
    decreases fuel, 2int, 0int,
{
    let a = eval(condition, env, s, fuel);
    match a.outcome {
        Err(_) => a,
        Ok(ValueView::Boolean(true)) => {
            let b = eval(body, env, a.state, fuel);
            match b.outcome {
                Err(_) => b,
                Ok(_) => if fuel == 0 {
                    failed(ErrorView::LimitReached, b.state)
                } else {
                    eval_while(condition, body, env, b.state, (fuel - 1) as nat)
                },
            }
        },
        Ok(ValueView::Boolean(false)) => done(ValueView::Null, a.state),
        Ok(v) => failed(ErrorView::InvalidCondition(v), a.state),
    }
}

/// The parameters that the nodes from `i` on declare, after `parameters`. A
/// parameter is a name, or a name with a default value, which is evaluated
/// here, where the function is declared.
pub open spec fn eval_parameters(
    nodes: Vec<Arc<Node>>,
    i: int,
    parameters: Seq<ParameterView>,
    env: EnvironmentId,
    s: MachineView,
    fuel: nat,
) -> Step<Seq<ParameterView>>
    decreases fuel, 1int, nodes.len() - i,
{
    if i < 0 || i >= nodes.len() {
        done(parameters, s)
    } else {
        match *nodes[i] {
            Node::Identifier(name) => eval_parameters(
                nodes,
                i + 1,
                parameters.push(ParameterView { name: name@, default_value: None }),
                env,
                s,
                fuel,
            ),
            Node::AssignmentExpression(left, operator, right) => if operator
                != AssignmentOperator::Equals {
                failed(ErrorView::InvalidFunctionParameter(*nodes[i]), s)
            } else {
                match *left {
                    Node::Identifier(name) => {
                        let a = eval(*right, env, s, fuel);
                        match a.outcome {
                            Err(e) => failed(e, a.state),
                            Ok(v) => eval_parameters(
                                nodes,
                                i + 1,
                                parameters.push(
                                    ParameterView { name: name@, default_value: Some(v) },
                                ),
                                env,
                                a.state,
                                fuel,
                            ),
                        }
                    },
                    _ => failed(ErrorView::InvalidAssignFactor(*left), s),
                }
            },
            _ => failed(ErrorView::InvalidFunctionParameter(*nodes[i]), s),
        }
    }
}

/// A declaration of a function: the function, with the scope `env` as the
/// scope of its declaration, is bound under its name as a constant.
pub open spec fn eval_function_declaration(
    name: Seq<char>,
    parameters: Vec<Arc<Node>>,
    body: Node,
    env: EnvironmentId,
    s: MachineView,
    fuel: nat,
) -> Evaluated
    decreases fuel, 2int, 0int,
{
    let a = eval_parameters(parameters, 0, Seq::empty(), env, s, fuel);
    match a.outcome {
        Err(e) => failed(e, a.state),
        Ok(ps) => declare(
            a.state,
            env,
            name,
            ValueView::Function(
                FunctionView { name, parameters: ps, declaration_env: env, body },
            ),
            true,
        ),
    }
}

/// The name that a member expression reaches for. A computed name is the
/// value of the node, which has to be a text; a plain name is an identifier.
/// Where the node is no identifier, a member access fails with
/// `UnexpectedNode`, an assignment with `UnsupportedNode`, as `strict` says.
pub open spec fn eval_key(
    property: Node,
    computed: bool,
    strict: bool,
    env: EnvironmentId,
    s: MachineView,
    fuel: nat,
) -> Step<Seq<char>>
    decreases fuel, 1int, 0int,
{
    if computed {
        {
            let a = eval(property, env, s, fuel);
            match a.outcome {
                Err(e) => failed(e, a.state),
                Ok(ValueView::String(key)) => done(key, a.state),
                Ok(v) => failed(ErrorView::UnsupportedValue(v), a.state),
            }
        }
    } else {
        match property {
            Node::Identifier(name) => done(name@, s),
            _ => if strict {
                failed(ErrorView::UnsupportedNode(property), s)
            } else {
                failed(ErrorView::UnexpectedNode(property), s)
            },
        }
    }
}

/// A member expression: the object, then the name, then the member.
pub open spec fn eval_member(
    object: Node,
    property: Node,
    computed: bool,
    env: EnvironmentId,
    s: MachineView,
    fuel: nat,
) -> Evaluated
    decreases fuel, 2int, 0int,
{
    let a = eval(object, env, s, fuel);
    match a.outcome {
        Err(_) => a,
        Ok(ov) => {
            let k = eval_key(property, computed, false, env, a.state, fuel);
            match k.outcome {
                Err(e) => failed(e, k.state),
                Ok(key) => Step { outcome: member_of(ov, key, env, k.state.store), state: k.state },
            }
        },
    }
}

/// Writes `value` to where `target` reads from. An identifier is assigned to,
/// whether it is constant or not. For a member of an object, the object is
/// read, takes `value` as that member, and is written back in turn.
pub open spec fn write_back(
    target: Node,
    value: ValueView,
    root: Node,
    env: EnvironmentId,
    s: MachineView,
    fuel: nat,
) -> Evaluated
    decreases fuel, 2int, 0int,
{
    match target {
        Node::Identifier(name) => assign(s, env, name@, value, true),
        Node::MemberExpression(parent, current, computed) => if fuel == 0 {
            failed(ErrorView::LimitReached, s)
        } else {
            let f = (fuel - 1) as nat;
            {
                let k = eval_key(*current, computed, true, env, s, f);
                match k.outcome {
                    Err(e) => failed(e, k.state),
                    Ok(key) => {
                        let a = eval(*parent, env, k.state, f);
                        match a.outcome {
                            Err(_) => a,
                            Ok(ValueView::Object(entries)) => write_back(
                                *parent,
                                ValueView::Object(inserted(entries, key, value)),
                                root,
                                env,
                                a.state,
                                f,
                            ),
                            Ok(_) => failed(ErrorView::UnexpectedNode(root), a.state),
                        }
                    },
                }
            }
        },
        _ => failed(ErrorView::UnexpectedNode(target), s),
    }
}

/// The right operand of a compound assignment meets the value that the
/// target had: the assignment is evaluated as the binary expression of the
/// two would be.
pub open spec fn compound(
    previous: Evaluated,
    operator: BinaryOperator,
    right: Node,
    env: EnvironmentId,
    fuel: nat,
) -> Evaluated
    decreases fuel, 2int, 0int,
{
    let p = previous;
    if fuel == 0 {
        if p.outcome is Ok {
            failed(ErrorView::LimitReached, p.state)
        } else {
            previous
        }
    } else {
        operate(previous, operator, right, env, (fuel - 1) as nat)
    }
}

/// The target of a compound assignment, read as an operand: an identifier
/// within the depth that the operand of a binary expression has.
pub open spec fn read_operand(name: Seq<char>, env: EnvironmentId, s: MachineView, fuel: nat) -> Evaluated {
    if fuel <= 1 {
        failed(ErrorView::LimitReached, s)
    } else {
        eval_identifier(name, env, s)
    }
}

/// The class with `value` as its static property `key`.
pub open spec fn with_static(c: ClassView, key: Seq<char>, value: ValueView) -> ClassView {
    ClassView {
        name: c.name,
        super_class: c.super_class,
        properties: with_property(c.properties, PropertyView { name: key, value, is_static: true }),
        methods: c.methods,
    }
}

/// The value that a value has as its member `key`, where an assignment can
/// reach it: the property of an object, the static property of a class.
pub open spec fn member_before(target: ValueView, key: Seq<char>) -> Option<ValueView> {
    match target {
        ValueView::Object(entries) => lookup(entries, key),
        ValueView::Class(c) => match static_property(c.properties, key) {
            Some(p) => Some(p.value),
            None => None,
        },
        _ => None,
    }
}

/// A value after an assignment to its member `key`: an object with the
/// property bound to the value, whether it had the property or not; a class
/// with the static property put in.
pub open spec fn member_after(target: ValueView, key: Seq<char>, value: ValueView) -> ValueView {
    match target {
        ValueView::Object(entries) => ValueView::Object(inserted(entries, key, value)),
        ValueView::Class(c) => ValueView::Class(with_static(c, key, value)),
        _ => target,
    }
}

/// An assignment to the member `key` of `target`, which is what the node
/// `object` gave: the value to store is evaluated, the target takes it, and
/// the target is written back to where it came from.
pub open spec fn store_member(
    object: Node,
    target: ValueView,
    key: Seq<char>,
    operator: AssignmentOperator,
    right: Node,
    env: EnvironmentId,
    s: MachineView,
    fuel: nat,
) -> Evaluated
    decreases fuel, 2int, 2int,
{
    let b = assigned_value(member_before(target, key), key, operator, right, env, s, fuel);
    match b.outcome {
        Err(_) => b,
        Ok(v) => write_back(object, member_after(target, key, v), object, env, b.state, fuel),
    }
}

/// An assignment to an identifier: the value of the right side is assigned,
/// and constants are protected. A compound operator stands for the assignment
/// of the binary expression of the identifier and the right side.
pub open spec fn assign_identifier(
    name: Seq<char>,
    operator: AssignmentOperator,
    right: Node,
    env: EnvironmentId,
    s: MachineView,
    fuel: nat,
) -> Evaluated
    decreases fuel, 2int, 2int,
{
    let b = match binary_operator_of(operator) {
        None => eval(right, env, s, fuel),
        Some(op) => compound(read_operand(name, env, s, fuel), op, right, env, fuel),
    };
    match b.outcome {
        Err(_) => b,
        Ok(v) => assign(b.state, env, name, v, false),
    }
}

/// An assignment.
///
/// To an identifier: see `assign_identifier`.
///
/// To a member of an object: the object takes the value as that member and is
/// written back to where it came from. To a member of a class: the class
/// takes the value as a static property and is written back. A compound
/// operator needs the member to be there. No other value has members that
/// can be assigned to.
pub open spec fn eval_assignment(
    left: Node,
    operator: AssignmentOperator,
    right: Node,
    env: EnvironmentId,
    s: MachineView,
    fuel: nat,
) -> Evaluated
    decreases fuel, 3int, 0int,
{
    match left {
        Node::MemberExpression(object, property, computed) => {
            let a = eval(*object, env, s, fuel);
            match a.outcome {
                Err(_) => a,
                Ok(target) => if target is Object || target is Class {
                    let k = eval_key(*property, computed, true, env, a.state, fuel);
                    match k.outcome {
                        Err(e) => failed(e, k.state),
                        Ok(key) => store_member(
                            *object,
                            target,
                            key,
                            operator,
                            right,
                            env,
                            k.state,
                            fuel,
                        ),
                    }
                } else {
                    failed(ErrorView::InvalidValue(target, "object or class"@), a.state)
                },
            }
        },
        Node::Identifier(name) => assign_identifier(name@, operator, right, env, s, fuel),
        _ => failed(ErrorView::InvalidAssignFactor(left), s),
    }
}

/// The value that an assignment to a member stores: the value of the right
/// side, or, with a compound operator, what the operator gives for the value
/// that the member has and the right side. A compound operator fails with
/// `UnresolvedProperty` where there is no such member.
pub open spec fn assigned_value(
    previous: Option<ValueView>,
    key: Seq<char>,
    operator: AssignmentOperator,
    right: Node,
    env: EnvironmentId,
    s: MachineView,
    fuel: nat,
) -> Evaluated
    decreases fuel, 2int, 1int,
{
    match binary_operator_of(operator) {
        None => eval(right, env, s, fuel),
        Some(op) => match previous {
            None => failed(ErrorView::UnresolvedProperty(key), s),
            Some(p) => compound(done(p, s), op, right, env, fuel),
        },
    }
}

/// A call. The callee is evaluated, then the arguments from left to right.
///
/// Where the callee is a member of an object and the member is a function of
/// the language, the function is called as a method: see `call_method`.
pub open spec fn eval_call(
    callee: Node,
    arguments: Vec<Arc<Node>>,
    env: EnvironmentId,
    s: MachineView,
    fuel: nat,
) -> Evaluated
    decreases fuel, 5int, 0int,
{
    match callee {
        Node::MemberExpression(object, property, computed) => {
            let a = eval(*object, env, s, fuel);
            match a.outcome {
                Err(_) => a,
                Ok(ov) => match (ov, *property) {
                    (ValueView::Object(entries), Node::Identifier(name)) => match lookup(
                        entries,
                        name@,
                    ) {
                        None => failed(ErrorView::UnresolvedProperty(name@), a.state),
                        Some(ValueView::Function(function)) => {
                            let b = eval_array(
                                arguments,
                                0,
                                Seq::empty(),
                                env,
                                a.state,
                                fuel,
                            );
                            match b.outcome {
                                Ok(ValueView::Array(args)) => call_method(
                                    *object,
                                    entries,
                                    function,
                                    args,
                                    env,
                                    b.state,
                                    fuel,
                                ),
                                _ => b,
                            }
                        },
                        Some(_) => {
                            let k = eval_key(*property, computed, false, env, a.state, fuel);
                            match k.outcome {
                                Err(e) => failed(e, k.state),
                                Ok(key) => apply_member(ov, key, arguments, env, k.state, fuel),
                            }
                        },
                    },
                    _ => {
                        let k = eval_key(*property, computed, false, env, a.state, fuel);
                        match k.outcome {
                            Err(e) => failed(e, k.state),
                            Ok(key) => apply_member(ov, key, arguments, env, k.state, fuel),
                        }
                    },
                },
            }
        },
        _ => {
            let a = eval(callee, env, s, fuel);
            match a.outcome {
                Err(_) => a,
                Ok(cv) => apply_to_arguments(cv, arguments, env, a.state, fuel),
            }
        },
    }
}

/// The member `key` of `object` is called.
pub open spec fn apply_member(
    object: ValueView,
    key: Seq<char>,
    arguments: Vec<Arc<Node>>,
    env: EnvironmentId,
    s: MachineView,
    fuel: nat,
) -> Evaluated
    decreases fuel, 4int, 1int,
{
    match member_of(object, key, env, s.store) {
        Err(e) => failed(e, s),
        Ok(cv) => apply_to_arguments(cv, arguments, env, s, fuel),
    }
}

/// The arguments are evaluated and the callee is applied to them.
pub open spec fn apply_to_arguments(
    callee: ValueView,
    arguments: Vec<Arc<Node>>,
    env: EnvironmentId,
    s: MachineView,
    fuel: nat,
) -> Evaluated
    decreases fuel, 4int, 0int,
{
    let b = eval_array(arguments, 0, Seq::empty(), env, s, fuel);
    match b.outcome {
        Ok(ValueView::Array(args)) => apply(callee, args, env, b.state, fuel),
        _ => b,
    }
}

/// A value is applied to arguments. A native function is run, a function of
/// the language is called, a class gives an instance; no other value can be
/// called. Where a native function leaves its result to the host, the result
/// is the answer of the host, of the kind that the function gives.
pub open spec fn apply(
    callee: ValueView,
    args: Seq<ValueView>,
    env: EnvironmentId,
    s: MachineView,
    fuel: nat,
) -> Evaluated
    decreases fuel, 3int, 0int,
{
    match callee {
        ValueView::NativeFn(n) => if n.builtin == Builtin::Print {
            if all_decimal_free(args, args.len() as int) {
                done(ValueView::Null, s.printing(line_of(args, args.len() as int)))
            } else {
                done(ValueView::Null, s.answered().printing(answered_text(s.answer())))
            }
        } else {
            match native_value(n.builtin, *n.receiver, args) {
                Some(v) => done(v, s),
                None => done(native_answer(n.builtin, s.answer()), s.answered()),
            }
        },
        ValueView::Function(function) => call_function(function, args, s, fuel),
        ValueView::Class(c) => instantiate(c, args, env, s, fuel),
        _ => failed(ErrorView::InvalidFunctionCallee(callee), s),
    }
}

/// A call of a function of the language. The body is evaluated in a new
/// scope, whose parent is the scope that the function was declared in; the
/// parameters are bound there as constants. The value of the body is the
/// value of the call.
pub open spec fn call_function(
    function: FunctionView,
    args: Seq<ValueView>,
    s: MachineView,
    fuel: nat,
) -> Evaluated
    decreases fuel, 2int, 0int,
{
    match check_parameters(function.parameters, args.len() as int) {
        Err(e) => failed(e, s),
        Ok(_) => match create(s.store, function.declaration_env) {
            Err(e) => failed(e, s),
            Ok(made) => {
                let scope = made.last_generated_id;
                let bound = bind_parameters(function.parameters, args, 0, true, scope, made);
                match bound.outcome {
                    Err(e) => failed(e, s.on(bound.store)),
                    Ok(_) => eval(function.body, scope, s.on(bound.store), fuel),
                }
            },
        },
    }
}

/// A call of a function that is a member of an object. The function is
/// called as any other, with the object bound to `self` in the scope of the
/// call. After the call, what `self` then is there is written back to where
/// the object came from.
pub open spec fn call_method(
    object: Node,
    entries: Seq<(Seq<char>, ValueView)>,
    function: FunctionView,
    args: Seq<ValueView>,
    env: EnvironmentId,
    s: MachineView,
    fuel: nat,
) -> Evaluated
    decreases fuel, 3int, 0int,
{
    match check_parameters(function.parameters, args.len() as int) {
        Err(e) => failed(e, s),
        Ok(_) => match create(s.store, function.declaration_env) {
            Err(e) => failed(e, s),
            Ok(made) => {
                let scope = made.last_generated_id;
                match made.declare_outcome(scope, "self"@, ValueView::Object(entries), true) {
                    Err(e) => failed(e, s.on(made)),
                    Ok(with_self) => {
                        let bound = bind_parameters(
                            function.parameters,
                            args,
                            0,
                            true,
                            scope,
                            with_self,
                        );
                        match bound.outcome {
                            Err(e) => failed(e, s.on(bound.store)),
                            Ok(_) => {
                                let r = eval(function.body, scope, s.on(bound.store), fuel);
                                match r.outcome {
                                    Err(_) => r,
                                    Ok(value) => {
                                        let me = eval_identifier("self"@, scope, r.state);
                                        match me.outcome {
                                            Err(_) => me,
                                            Ok(new_self) => {
                                                let w = write_back(
                                                    object,
                                                    new_self,
                                                    object,
                                                    env,
                                                    me.state,
                                                    fuel,
                                                );
                                                match w.outcome {
                                                    Err(_) => w,
                                                    Ok(_) => done(value, w.state),
                                                }
                                            },
                                        }
                                    },
                                }
                            },
                        }
                    },
                }
            },
        }
    }
}

/// The scope of a constructor after `super` has been bound in it, where the
/// class extends a class that has a constructor: `super` is a function with
/// the parameters and the body of that constructor, declared in the scope
/// `scope`, so that it finds `self` there.
pub open spec fn bind_super(c: ClassView, scope: EnvironmentId, s: ScopeStateView) -> Stored {
    match c.super_class {
        Some(parent) => if has_key(parent.methods, "__new__"@) {
            let constructor = value_of(parent.methods, "__new__"@);
            match misplaced_default(constructor.args, 0) {
                Some(name) => Stored { outcome: Err(ErrorView::InvalidDefaultParameter(name)), store: s },
                None => match s.declare_outcome(
                    scope,
                    "super"@,
                    method_function("super"@, constructor, scope),
                    true,
                ) {
                    Err(e) => Stored { outcome: Err(e), store: s },
                    Ok(after) => Stored { outcome: Ok(()), store: after },
                },
            }
        } else {
            Stored { outcome: Ok(()), store: s }
        },
        None => Stored { outcome: Ok(()), store: s },
    }
}

/// A call of a class: a new instance. Without a constructor the instance is
/// the object of the instance properties and methods. With one, the
/// constructor runs in a new scope below the scope `env`, with its arguments,
/// `self` and, where there is one, `super` bound; the instance is what `self`
/// is there when the constructor has run.
pub open spec fn instantiate(
    c: ClassView,
    args: Seq<ValueView>,
    env: EnvironmentId,
    s: MachineView,
    fuel: nat,
) -> Evaluated
    decreases fuel, 2int, 0int,
{
    let instance = ValueView::Object(instance_entries(c, env));
    if !has_key(c.methods, "__new__"@) {
        done(instance, s)
    } else {
        let constructor = value_of(c.methods, "__new__"@);
        match check_parameters(constructor.args, args.len() as int) {
            Err(e) => failed(e, s),
            Ok(_) => match create(s.store, env) {
                Err(e) => failed(e, s),
                Ok(made) => {
                    let scope = made.last_generated_id;
                    let bound = bind_parameters(constructor.args, args, 0, false, scope, made);
                    match bound.outcome {
                        Err(e) => failed(e, s.on(bound.store)),
                        Ok(_) => match bound.store.declare_outcome(scope, "self"@, instance, true) {
                            Err(e) => failed(e, s.on(bound.store)),
                            Ok(with_self) => {
                                let with_super = bind_super(c, scope, with_self);
                                match with_super.outcome {
                                    Err(e) => failed(e, s.on(with_super.store)),
                                    Ok(_) => {
                                        let r = eval(
                                            constructor.body,
                                            scope,
                                            s.on(with_super.store),
                                            fuel,
                                        );
                                        match r.outcome {
                                            Err(_) => r,
                                            Ok(_) => eval_identifier("self"@, scope, r.state),
                                        }
                                    },
                                }
                            },
                        },
                    }
                },
            },
        }
    }
}

/// The parameters of a method: each has to be an identifier.
pub open spec fn method_parameters(nodes: Vec<Arc<Node>>, i: int, parameters: Seq<ParameterView>) -> Result<
Seq<ParameterView>,
ErrorView,
>
    decreases nodes.len() - i,
{
    if i < 0 || i >= nodes.len() {
        Ok(parameters)
    } else {
        match *nodes[i] {
            Node::Identifier(name) => method_parameters(
                nodes,
                i + 1,
                parameters.push(ParameterView { name: name@, default_value: None }),
            ),
            _ => Err(ErrorView::UnexpectedNode(*nodes[i])),
        }
    }
}

/// The class after the members that the nodes from `i` on define have been
/// put into it. The value of a property is evaluated here, where the class is
/// declared. A node that defines no member is passed over.
pub open spec fn eval_class_body(
    body: Vec<Arc<Node>>,
    i: int,
    c: ClassView,
    env: EnvironmentId,
    s: MachineView,
    fuel: nat,
) -> Step<ClassView>
    decreases fuel, 1int, body.len() - i,
{
    if i < 0 || i >= body.len() {
        done(c, s)
    } else {
        match *body[i] {
            Node::PropertyDefinition(name, value, is_static) => {
                let a = eval(*value, env, s, fuel);
                match a.outcome {
                    Err(e) => failed(e, a.state),
                    Ok(v) => eval_class_body(
                        body,
                        i + 1,
                        ClassView {
                            name: c.name,
                            super_class: c.super_class,
                            properties: with_property(
                                c.properties,
                                PropertyView { name: name@, value: v, is_static },
                            ),
                            methods: c.methods,
                        },
                        env,
                        a.state,
                        fuel,
                    ),
                }
            },
            Node::MethodDefinition(name, parameters, method_body, is_static) => match method_parameters(
                parameters,
                0,
                Seq::empty(),
            ) {
                Err(e) => failed(e, s),
                Ok(args) => eval_class_body(
                    body,
                    i + 1,
                    ClassView {
                        name: c.name,
                        super_class: c.super_class,
                        properties: c.properties,
                        methods: inserted(
                            c.methods,
                            name@,
                            MethodView { name: name@, args, body: *method_body, is_static },
                        ),
                    },
                    env,
                    s,
                    fuel,
                ),
            },
            _ => eval_class_body(body, i + 1, c, env, s, fuel),
        }
    }
}

/// The class called `name` before its own members are put into it: with the
/// instance properties and the inherited methods of the class it extends.
pub open spec fn inheriting(name: Seq<char>, parent: Option<ClassView>) -> ClassView {
    match parent {
        Some(p) => ClassView {
            name,
            super_class: Some(Box::new(p)),
            properties: with_inherited_properties(
                Seq::empty(),
                p.properties,
                p.properties.len() as int,
            ),
            methods: with_inherited_methods(Seq::empty(), p.methods, p.methods.len() as int),
        },
        None => ClassView {
            name,
            super_class: None,
            properties: Seq::empty(),
            methods: Seq::empty(),
        },
    }
}

/// A declaration of a class. The class that it extends is evaluated here;
/// what is no class is not extended. The class is bound under its name as a
/// constant.
pub open spec fn eval_class_declaration(
    name: Seq<char>,
    super_class: Option<Arc<Node>>,
    body: Vec<Arc<Node>>,
    env: EnvironmentId,
    s: MachineView,
    fuel: nat,
) -> Evaluated
    decreases fuel, 2int, 0int,
{
    match super_class {
        None => finish_class(eval_class_body(body, 0, inheriting(name, None), env, s, fuel), env),
        Some(parent) => {
            let a = eval(*parent, env, s, fuel);
            match a.outcome {
                Err(_) => a,
                Ok(ValueView::Class(p)) => finish_class(
                    eval_class_body(body, 0, inheriting(name, Some(p)), env, a.state, fuel),
                    env,
                ),
                Ok(_) => finish_class(
                    eval_class_body(body, 0, inheriting(name, None), env, a.state, fuel),
                    env,
                ),
            }
        },
    }
}

/// The class is bound under its name.
pub open spec fn finish_class(c: Step<ClassView>, env: EnvironmentId) -> Evaluated {
    {
        let a = c;
        match a.outcome {
            Err(e) => failed(e, a.state),
            Ok(class) => declare(a.state, env, class.name, ValueView::Class(class), true),
        }
    }
}

/// A statement that is run for its effect: a call, an `if`, a `while` and a
/// declaration of a class are run as such, every other node is evaluated.
pub open spec fn run_statement(node: Node, env: EnvironmentId, s: MachineView, fuel: nat) -> Evaluated {
    match node {
        Node::CallExpression(callee, arguments) => eval_call(*callee, arguments, env, s, fuel),
        Node::IfStatement(condition, body, alternate) => eval_if(
            *condition,
            *body,
            alternate,
            env,
            s,
            fuel,
        ),
        Node::WhileStatement(condition, body) => eval_while(*condition, *body, env, s, fuel),
        Node::ClassDeclaration(name, super_class, body) => eval_class_declaration(
            name@,
            super_class,
            body,
            env,
            s,
            fuel,
        ),
        _ => eval(node, env, s, fuel),
    }
}

/// What is left of a run: the statements that did not run, and the store.
pub struct Ran {
    pub outcome: Result<(), ErrorView>,
    pub state: MachineView,
    pub waiting: Seq<(Node, EnvironmentId)>,
}

/// The statements that wait are run, first come first. The first error ends
/// the run; the statements after the failed one keep waiting.
pub open spec fn run_waiting(waiting: Seq<(Node, EnvironmentId)>, s: MachineView, fuel: nat) -> Ran
    decreases waiting.len(),
{
    if waiting.len() == 0 {
        Ran { outcome: Ok(()), state: s, waiting }
    } else {
        {
            let a = run_statement(waiting[0].0, waiting[0].1, s, fuel);
            match a.outcome {
                Err(e) => Ran { outcome: Err(e), state: a.state, waiting: waiting.drop_first() },
                Ok(_) => run_waiting(waiting.drop_first(), a.state, fuel),
            }
        }
    }
}

/// The statements of `statements` from `i` on, each with the scope `env`.
pub open spec fn with_scope(statements: Vec<Arc<Node>>, env: EnvironmentId) -> Seq<
(Node, EnvironmentId),
> {
    Seq::new(statements.len() as nat, |i: int| (*statements[i], env))
}

/// A run of a node. The statements of a program or of a block are put behind
/// those that wait, and all are run; any other node is run at once, and then
/// those that wait.
pub open spec fn run_node(
    node: Node,
    env: EnvironmentId,
    waiting: Seq<(Node, EnvironmentId)>,
    s: MachineView,
    fuel: nat,
) -> Ran {
    match node {
        Node::Program(statements) | Node::BlockStatement(statements) => run_waiting(
            waiting + with_scope(statements, env),
            s,
            fuel,
        ),
        _ => {
            let a = run_statement(node, env, s, fuel);
            match a.outcome {
                Err(e) => Ran { outcome: Err(e), state: a.state, waiting },
                Ok(_) => run_waiting(waiting, a.state, fuel),
            }
        },
    }
}

} // verus!
