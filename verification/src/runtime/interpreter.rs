//! The evaluator: expressions, declarations and control flow.
//!
//! Every function of the evaluator is held to the function of the same
//! name in `semantics`: its result, the store, the output and the number of
//! questions asked are what that function gives, for every oracle that gives
//! the answers that the host gave.

use crate::ast::BinaryOperator;
use crate::ast::LogicalOperator;
use crate::ast::Node;
use crate::ast::node_at;
use crate::ast::share_node;
use crate::ast::UnaryOperator;
use crate::environment::EnvironmentId;
use crate::environment::ScopeState;
use crate::host::Host;
use crate::runtime::calls::member;
use crate::runtime::error::ErrorView;
use crate::runtime::error::InterpreterError;
use crate::runtime::error::outcome;
use crate::runtime::operators::binary_value;
use crate::runtime::operators::unary_value;
use crate::runtime::semantics::eval;
use crate::runtime::semantics::eval_array;
use crate::runtime::semantics::eval_binary;
use crate::runtime::semantics::eval_block;
use crate::runtime::semantics::eval_function_declaration;
use crate::runtime::semantics::eval_if;
use crate::runtime::semantics::eval_key;
use crate::runtime::semantics::eval_logical;
use crate::runtime::semantics::eval_member;
use crate::runtime::semantics::eval_parameters;
use crate::runtime::semantics::eval_unary;
use crate::runtime::semantics::eval_variable_declaration;
use crate::runtime::semantics::eval_while;
use crate::runtime::semantics::Evaluated;
use crate::runtime::semantics::MachineView;
use crate::runtime::semantics::Oracle;
use crate::runtime::semantics::Step;
use crate::values::clone_value;
use crate::values::function::FunctionParameter;
use crate::values::function::FunctionValue;
use crate::values::lemma_value_view;
use crate::values::parameters_view;
use crate::values::ParameterView;
use crate::values::Value;
use crate::values::values_view;
use crate::values::ValueView;
use std::collections::VecDeque;
use std::sync::Arc;
use vstd::prelude::*;

verus! {

/// How deep an evaluation may nest, unless the interpreter is told otherwise:
/// as deep as the machine can count.
pub const DEFAULT_DEPTH_LIMIT: usize = usize::MAX;

/// The evaluator: the statements that wait to be run, each with its scope,
/// the store of scopes, and how deep an evaluation may nest.
///
/// In ghost state it keeps account of its dealings with the host: of the
/// lines that it has handed to the output, and of the answers that the host
/// has given to its questions, each in their order.
pub struct Interpreter {
    pub stack: VecDeque<(Arc<Node>, EnvironmentId)>,
    pub scope_state: ScopeState,
    pub depth_limit: usize,
    pub printed: Ghost<Seq<Seq<char>>>,
    pub answers: Ghost<Seq<ValueView>>,
}

/// The sequence `later` begins with the sequence `earlier`.
pub open spec fn begins_with<T>(later: Seq<T>, earlier: Seq<T>) -> bool {
    &&& earlier.len() <= later.len()
    &&& forall|i: int| 0 <= i < earlier.len() ==> #[trigger] earlier[i] == later[i]
}

/// What every evaluation keeps: the store stays well formed and loses no
/// scope, what was printed stays printed and what the host has answered
/// stays answered, and neither the waiting statements nor the depth limit
/// change.
pub open spec fn keeps(before: Interpreter, after: Interpreter) -> bool {
    &&& after.wf()
    &&& before.scope_state@.persists_in(after.scope_state@)
    &&& begins_with(after.printed@, before.printed@)
    &&& begins_with(after.answers@, before.answers@)
    &&& after.stack == before.stack
    &&& after.depth_limit == before.depth_limit
}

/// The oracle that gives the answers of a list, in their order.
pub open spec fn told(answers: Seq<ValueView>) -> Oracle {
    |i: nat|
        if i < answers.len() {
            answers[i as int]
        } else {
            ValueView::Null
        }
}

/// A mark on an oracle. It holds of every oracle; the contracts of the
/// evaluator speak of all oracles by it, so that what is known of every
/// oracle is at hand for each.
pub open spec fn heeds(oracle: Oracle) -> bool {
    true
}

/// The oracle gives the answers that the host gave between `before` and
/// `after`.
pub open spec fn follows(before: Interpreter, after: Interpreter, oracle: Oracle) -> bool {
    forall|i: int|
        before.answers@.len() <= i < after.answers@.len() ==> oracle(i as nat)
            == #[trigger] after.answers@[i]
}

/// A step went from `before` to `after` and got `got`, as `expected` says,
/// where the oracle gives the answers that the host gave.
pub open spec fn reaches<T>(
    before: Interpreter,
    after: Interpreter,
    oracle: Oracle,
    got: Result<T, ErrorView>,
    expected: Step<T>,
) -> bool {
    follows(before, after, oracle) ==> got == expected.outcome && after.under(oracle)
        == expected.state
}

/// An evaluation went from `before` to `after` with the result `r` as
/// `expected` says, where the oracle gives the answers that the host gave.
pub open spec fn agrees(
    before: Interpreter,
    after: Interpreter,
    r: Result<Value, InterpreterError>,
    oracle: Oracle,
    expected: Evaluated,
) -> bool {
    reaches(before, after, oracle, outcome(r), expected)
}

/// The model of the result of an evaluation of several nodes: the array of
/// the values, or the error.
pub open spec fn values_outcome(r: Result<Vec<Value>, InterpreterError>) -> Result<
    ValueView,
    ErrorView,
> {
    match r {
        Ok(values) => Ok(ValueView::Array(values_view(values))),
        Err(e) => Err(e@),
    }
}

/// The model of the result of an evaluation of parameters.
pub open spec fn parameters_outcome(r: Result<Vec<FunctionParameter>, InterpreterError>) -> Result<
    Seq<ParameterView>,
    ErrorView,
> {
    match r {
        Ok(parameters) => Ok(parameters_view(parameters)),
        Err(e) => Err(e@),
    }
}

/// The model of the result of an evaluation of a name.
pub open spec fn key_outcome(r: Result<String, InterpreterError>) -> Result<Seq<char>, ErrorView> {
    match r {
        Ok(key) => Ok(key@),
        Err(e) => Err(e@),
    }
}

impl Interpreter {
    /// The store is well formed.
    pub open spec fn wf(&self) -> bool {
        self.scope_state.wf()
    }

    /// The model of the machine, for the answers that the host has given.
    pub open spec fn as_told(&self, answers: Seq<ValueView>) -> MachineView {
        self.under(told(answers))
    }

    /// The model of the machine, for a host that answers as `oracle` says.
    /// Of the answers that the host has given it holds their number: what
    /// they were is what `follows` asks of the oracle. The statements that
    /// wait and the depth limit are no part of it: `keeps` says that an
    /// evaluation leaves both as they are, and `run` and `execute` say what
    /// becomes of the statements that wait.
    pub open spec fn under(&self, oracle: Oracle) -> MachineView {
        MachineView {
            store: self.scope_state@,
            printed: self.printed@,
            asked: self.answers@.len(),
            oracle,
        }
    }

    /// An interpreter with an empty store and the default depth limit.
    pub fn new() -> (r: Self)
        ensures
            r.wf(),
            r.stack@.len() == 0,
            r.scope_state@.scopes.len() == 0,
            r.scope_state@.last_generated_id == 0,
            r.depth_limit == DEFAULT_DEPTH_LIMIT,
            r.printed@.len() == 0,
            r.answers@.len() == 0,
    {
        Interpreter {
            stack: VecDeque::new(),
            scope_state: ScopeState::new(),
            depth_limit: DEFAULT_DEPTH_LIMIT,
            printed: Ghost(Seq::empty()),
            answers: Ghost(Seq::empty()),
        }
    }

    /// An interpreter with an empty store and the depth limit `depth_limit`.
    pub fn with_depth_limit(depth_limit: usize) -> (r: Self)
        ensures
            r.wf(),
            r.stack@.len() == 0,
            r.scope_state@.scopes.len() == 0,
            r.scope_state@.last_generated_id == 0,
            r.depth_limit == depth_limit,
            r.printed@.len() == 0,
            r.answers@.len() == 0,
    {
        Interpreter {
            stack: VecDeque::new(),
            scope_state: ScopeState::new(),
            depth_limit,
            printed: Ghost(Seq::empty()),
            answers: Ghost(Seq::empty()),
        }
    }

    /// The value of a node in the scope `env`, within the depth limit.
    ///
    /// The result and the machine after the evaluation are what `eval` gives
    /// for the answers that the host gave, whatever it answered.
    pub fn resolve<H: Host>(&mut self, node: &Arc<Node>, env: EnvironmentId, host: &mut H) -> (r:
        Result<Value, InterpreterError>)
        requires
            old(self).wf(),
        ensures
            keeps(*old(self), *final(self)),
            forall|oracle: Oracle|
                #![trigger heeds(oracle)]
                heeds(oracle) ==> agrees(
                    *old(self),
                    *final(self),
                    r,
                    oracle,
                    eval(**node, env, old(self).under(oracle), old(self).depth_limit as nat),
                ),
            outcome(r) == eval(
                **node,
                env,
                old(self).as_told(final(self).answers@),
                old(self).depth_limit as nat,
            ).outcome,
            final(self).as_told(final(self).answers@) == eval(
                **node,
                env,
                old(self).as_told(final(self).answers@),
                old(self).depth_limit as nat,
            ).state,
    {
        let limit = self.depth_limit;
        let r = self.resolve_within(node, env, host, limit);
        proof {
            assert(heeds(told(self.answers@)));
        }
        r
    }

    /// The value of a node in the scope `env`, within the depth `fuel`.
    pub fn resolve_within<H: Host>(
        &mut self,
        node: &Arc<Node>,
        env: EnvironmentId,
        host: &mut H,
        fuel: usize,
    ) -> (r: Result<Value, InterpreterError>)
        requires
            old(self).wf(),
        ensures
            keeps(*old(self), *final(self)),
            forall|oracle: Oracle|
                #![trigger heeds(oracle)]
                heeds(oracle) ==> agrees(
                    *old(self),
                    *final(self),
                    r,
                    oracle,
                    eval(**node, env, old(self).under(oracle), fuel as nat),
                ),
        decreases fuel, 0int, 0int,
    {
        if fuel == 0 {
            return Err(InterpreterError::LimitReached);
        }
        let f = fuel - 1;
        match &**node {
            Node::IntegerLiteral(value) => Ok(
                Value::integer(
                    #[verifier::truncate]
                    (*value as isize),
                ),
            ),
            Node::DecimalLiteral(bits) => Ok(Value::decimal(*bits)),
            Node::StringLiteral(value) => Ok(Value::string(value.clone())),
            Node::ArrayExpression(items) => match self.eval_nodes(items, env, host, f) {
                Ok(values) => Ok(Value::array(values)),
                Err(e) => Err(e),
            },
            Node::BinaryExpression(left, operator, right) => self.eval_binary_expression(
                left,
                *operator,
                right,
                env,
                host,
                f,
            ),
            Node::Identifier(identifier) => self.eval_identifier(identifier, env),
            Node::VariableDeclaration(variable_name, value, is_constant) => {
                self.eval_variable_declaration(variable_name, value, *is_constant, env, host, f)
            },
            Node::AssignmentExpression(left, operator, right) => self.eval_assignment_expression(
                left,
                *operator,
                right,
                env,
                host,
                f,
            ),
            Node::FunctionDeclaration(name, parameters, body) => self.eval_function_declaration(
                name,
                parameters,
                body,
                env,
                host,
                f,
            ),
            Node::MemberExpression(object, property, computed) => self.eval_member_expression(
                object,
                property,
                *computed,
                env,
                host,
                f,
            ),
            Node::UnaryExpression(expression, operator) => self.eval_unary_expression(
                expression,
                *operator,
                env,
                host,
                f,
            ),
            Node::LogicalExpression(left, operator, right) => self.eval_logical_expression(
                left,
                *operator,
                right,
                env,
                host,
                f,
            ),
            Node::BlockStatement(statements) => self.eval_block(statements, env, host, f),
            Node::IfStatement(condition, body, alternate) => self.eval_if_statement(
                condition,
                body,
                alternate,
                env,
                host,
                f,
            ),
            Node::WhileStatement(condition, consequent) => self.eval_while_statement(
                condition,
                consequent,
                env,
                host,
                f,
            ),
            Node::CallExpression(callee, arguments) => self.eval_call_expression(
                callee,
                arguments,
                env,
                host,
                f,
            ),
            Node::ReturnStatement(_) => Err(InterpreterError::UnexpectedNode(share_node(node))),
            _ => Err(InterpreterError::UnsupportedNode(share_node(node))),
        }
    }

    /// The values of nodes, from left to right.
    #[verifier::loop_isolation(false)]
    pub fn eval_nodes<H: Host>(
        &mut self,
        items: &Vec<Arc<Node>>,
        env: EnvironmentId,
        host: &mut H,
        fuel: usize,
    ) -> (r: Result<Vec<Value>, InterpreterError>)
        requires
            old(self).wf(),
        ensures
            keeps(*old(self), *final(self)),
            forall|oracle: Oracle|
                #![trigger heeds(oracle)]
                heeds(oracle) ==> reaches(
                    *old(self),
                    *final(self),
                    oracle,
                    values_outcome(r),
                    eval_array(*items, 0, Seq::empty(), env, old(self).under(oracle), fuel as nat),
                ),
        decreases fuel, 1int, items.len(),
    {
        let mut values: Vec<Value> = Vec::new();
        assert(values_view(values) =~= Seq::empty());
        let mut i: usize = 0;
        while i < items.len()
            invariant
                i <= items.len(),
                keeps(*old(self), *self),
                forall|oracle: Oracle|
                    #![trigger heeds(oracle)]
                    heeds(oracle) ==> follows(*old(self), *self, oracle) ==> (eval_array(
                        *items,
                        0,
                        Seq::empty(),
                        env,
                        old(self).under(oracle),
                        fuel as nat,
                    ) == eval_array(
                        *items,
                        i as int,
                        values_view(values),
                        env,
                        self.under(oracle),
                        fuel as nat,
                    )),
            decreases items.len() - i,
        {
            let ghost before = values_view(values);
            match self.resolve_within(&items[i], env, host, fuel) {
                Ok(v) => {
                    values.push(v);
                    assert(values_view(values) =~= before.push(v@));
                },
                Err(e) => {
                    return Err(e);
                },
            }
            i = i + 1;
        }
        Ok(values)
    }

    /// A block: its statements in order. A `return` statement ends the block
    /// and gives it its value.
    #[verifier::loop_isolation(false)]
    pub fn eval_block<H: Host>(
        &mut self,
        statements: &Vec<Arc<Node>>,
        env: EnvironmentId,
        host: &mut H,
        fuel: usize,
    ) -> (r: Result<Value, InterpreterError>)
        requires
            old(self).wf(),
        ensures
            keeps(*old(self), *final(self)),
            forall|oracle: Oracle|
                #![trigger heeds(oracle)]
                heeds(oracle) ==> agrees(
                    *old(self),
                    *final(self),
                    r,
                    oracle,
                    eval_block(*statements, 0, env, old(self).under(oracle), fuel as nat),
                ),
        decreases fuel, 1int, statements.len(),
    {
        let mut i: usize = 0;
        while i < statements.len()
            invariant
                i <= statements.len(),
                keeps(*old(self), *self),
                forall|oracle: Oracle|
                    #![trigger heeds(oracle)]
                    heeds(oracle) ==> follows(*old(self), *self, oracle) ==> (eval_block(
                        *statements,
                        0,
                        env,
                        old(self).under(oracle),
                        fuel as nat,
                    ) == eval_block(*statements, i as int, env, self.under(oracle), fuel as nat)),
            decreases statements.len() - i,
        {
            match &*statements[i] {
                Node::ReturnStatement(value) => {
                    return self.resolve_within(value, env, host, fuel);
                },
                _ => {
                    match self.resolve_within(&statements[i], env, host, fuel) {
                        Ok(_) => {},
                        Err(e) => {
                            return Err(e);
                        },
                    }
                },
            }
            i = i + 1;
        }
        Ok(Value::null())
    }

    /// A binary expression.
    pub fn eval_binary_expression<H: Host>(
        &mut self,
        left: &Arc<Node>,
        operator: BinaryOperator,
        right: &Arc<Node>,
        env: EnvironmentId,
        host: &mut H,
        fuel: usize,
    ) -> (r: Result<Value, InterpreterError>)
        requires
            old(self).wf(),
        ensures
            keeps(*old(self), *final(self)),
            forall|oracle: Oracle|
                #![trigger heeds(oracle)]
                heeds(oracle) ==> agrees(
                    *old(self),
                    *final(self),
                    r,
                    oracle,
                    eval_binary(
                        **left,
                        operator,
                        **right,
                        env,
                        old(self).under(oracle),
                        fuel as nat,
                    ),
                ),
        decreases fuel, 2int, 0int,
    {
        let left_value = match self.resolve_within(left, env, host, fuel) {
            Ok(v) => v,
            Err(e) => {
                return Err(e);
            },
        };
        self.operate(left_value, operator, right, env, host, fuel)
    }

    /// What follows the left operand of a binary operator: the right operand,
    /// then the operator. A result is what `eval_binary_values` gives for
    /// the left value, the value of the right operand and the operator, in
    /// that order.
    pub fn operate<H: Host>(
        &mut self,
        left_value: Value,
        operator: BinaryOperator,
        right: &Arc<Node>,
        env: EnvironmentId,
        host: &mut H,
        fuel: usize,
    ) -> (r: Result<Value, InterpreterError>)
        requires
            old(self).wf(),
        ensures
            keeps(*old(self), *final(self)),
            forall|oracle: Oracle|
                #![trigger heeds(oracle)]
                heeds(oracle) ==> agrees(
                    *old(self),
                    *final(self),
                    r,
                    oracle,
                    crate::runtime::semantics::operate(
                        crate::runtime::semantics::done(left_value@, old(self).under(oracle)),
                        operator,
                        **right,
                        env,
                        fuel as nat,
                    ),
                ),
            r is Ok ==> exists|right_value: Value, handed: &mut H|
                call_ensures(
                    Self::eval_binary_values::<H>,
                    (&left_value, &right_value, operator, handed),
                    r,
                ) && mut_ref_future(handed) == *final(host),
        decreases fuel, 1int, 0int,
    {
        let right_value = match self.resolve_within(right, env, host, fuel) {
            Ok(v) => v,
            Err(e) => {
                return Err(e);
            },
        };
        let ghost mid = *self;
        let r = Self::eval_binary_values(&left_value, &right_value, operator, host);
        proof {
            let asked = self.answers@.len() as int;
            if binary_value(left_value@, right_value@, operator) is None {
                self.answers@ = self.answers@.push(r->Ok_0@);
                assert(self.answers@[asked] == r->Ok_0@);
            }
            assert forall|oracle: Oracle| #![trigger heeds(oracle)]
                heeds(oracle) ==> agrees(
                    *old(self),
                    *self,
                    r,
                    oracle,
                    crate::runtime::semantics::operate(
                        crate::runtime::semantics::done(left_value@, old(self).under(oracle)),
                        operator,
                        node_at(right),
                        env,
                        fuel as nat,
                    ),
                ) by {
                if follows(*old(self), *self, oracle) {
                    assert(follows(*old(self), mid, oracle)) by {
                        assert forall|i: int|
                            old(self).answers@.len() <= i < mid.answers@.len() implies oracle(
                            i as nat,
                        ) == #[trigger] mid.answers@[i] by {
                            assert(self.answers@[i] == mid.answers@[i]);
                        }
                    }
                    if binary_value(left_value@, right_value@, operator) is None {
                        assert(oracle(asked as nat) == self.answers@[asked]);
                    }
                }
            }
        }
        r
    }

    /// A unary expression. A result is what `eval_unary_value` gives for the
    /// value of the operand and the operator.
    pub fn eval_unary_expression<H: Host>(
        &mut self,
        expression: &Arc<Node>,
        operator: UnaryOperator,
        env: EnvironmentId,
        host: &mut H,
        fuel: usize,
    ) -> (r: Result<Value, InterpreterError>)
        requires
            old(self).wf(),
        ensures
            keeps(*old(self), *final(self)),
            forall|oracle: Oracle|
                #![trigger heeds(oracle)]
                heeds(oracle) ==> agrees(
                    *old(self),
                    *final(self),
                    r,
                    oracle,
                    eval_unary(**expression, operator, env, old(self).under(oracle), fuel as nat),
                ),
            r is Ok ==> exists|target: Value, handed: &mut H|
                call_ensures(
                    Self::eval_unary_value::<H>,
                    (target, operator, expression, handed),
                    r,
                ) && mut_ref_future(handed) == *final(host),
        decreases fuel, 2int, 0int,
    {
        let target = match self.resolve_within(expression, env, host, fuel) {
            Ok(v) => v,
            Err(e) => {
                return Err(e);
            },
        };
        let ghost operand = target@;
        let ghost mid = *self;
        let r = Self::eval_unary_value(target, operator, expression, host);
        proof {
            let asked = self.answers@.len() as int;
            if unary_value(operand, operator, node_at(expression)) is None {
                self.answers@ = self.answers@.push(r->Ok_0@);
                assert(self.answers@[asked] == r->Ok_0@);
            }
            assert forall|oracle: Oracle| #![trigger heeds(oracle)]
                heeds(oracle) ==> agrees(
                    *old(self),
                    *self,
                    r,
                    oracle,
                    eval_unary(
                        node_at(expression),
                        operator,
                        env,
                        old(self).under(oracle),
                        fuel as nat,
                    ),
                ) by {
                if follows(*old(self), *self, oracle) {
                    assert(follows(*old(self), mid, oracle)) by {
                        assert forall|i: int|
                            old(self).answers@.len() <= i < mid.answers@.len() implies oracle(
                            i as nat,
                        ) == #[trigger] mid.answers@[i] by {
                            assert(self.answers@[i] == mid.answers@[i]);
                        }
                    }
                    if unary_value(operand, operator, node_at(expression)) is None {
                        assert(oracle(asked as nat) == self.answers@[asked]);
                    }
                }
            }
        }
        r
    }

    /// A logical expression. Both operands are evaluated.
    pub fn eval_logical_expression<H: Host>(
        &mut self,
        left: &Arc<Node>,
        operator: LogicalOperator,
        right: &Arc<Node>,
        env: EnvironmentId,
        host: &mut H,
        fuel: usize,
    ) -> (r: Result<Value, InterpreterError>)
        requires
            old(self).wf(),
        ensures
            keeps(*old(self), *final(self)),
            forall|oracle: Oracle|
                #![trigger heeds(oracle)]
                heeds(oracle) ==> agrees(
                    *old(self),
                    *final(self),
                    r,
                    oracle,
                    eval_logical(
                        **left,
                        operator,
                        **right,
                        env,
                        old(self).under(oracle),
                        fuel as nat,
                    ),
                ),
        decreases fuel, 2int, 0int,
    {
        let left_value = match self.resolve_within(left, env, host, fuel) {
            Ok(v) => v,
            Err(e) => {
                return Err(e);
            },
        };
        let right_value = match self.resolve_within(right, env, host, fuel) {
            Ok(v) => v,
            Err(e) => {
                return Err(e);
            },
        };
        Self::eval_logical_values(left_value, right_value, operator)
    }

    /// A declaration of a variable.
    pub fn eval_variable_declaration<H: Host>(
        &mut self,
        variable_name: &String,
        value: &Option<Arc<Node>>,
        is_constant: bool,
        env: EnvironmentId,
        host: &mut H,
        fuel: usize,
    ) -> (r: Result<Value, InterpreterError>)
        requires
            old(self).wf(),
        ensures
            keeps(*old(self), *final(self)),
            forall|oracle: Oracle|
                #![trigger heeds(oracle)]
                heeds(oracle) ==> agrees(
                    *old(self),
                    *final(self),
                    r,
                    oracle,
                    eval_variable_declaration(
                        variable_name@,
                        *value,
                        is_constant,
                        env,
                        old(self).under(oracle),
                        fuel as nat,
                    ),
                ),
        decreases fuel, 2int, 0int,
    {
        let value: Value = match value {
            Some(init) => match self.resolve_within(init, env, host, fuel) {
                Ok(v) => v,
                Err(e) => {
                    return Err(e);
                },
            },
            None => Value::null(),
        };
        self.scope_state.declare_in(env, variable_name.clone(), value, is_constant)
    }

    /// An identifier: the value that the scope sees under the name.
    pub fn eval_identifier(&mut self, identifier: &String, env: EnvironmentId) -> (r: Result<
        Value,
        InterpreterError,
    >)
        requires
            old(self).wf(),
        ensures
            keeps(*old(self), *final(self)),
            forall|oracle: Oracle|
                #![trigger heeds(oracle)]
                heeds(oracle) ==> agrees(
                    *old(self),
                    *final(self),
                    r,
                    oracle,
                    crate::runtime::semantics::eval_identifier(
                        identifier@,
                        env,
                        old(self).under(oracle),
                    ),
                ),
    {
        match self.scope_state.lookup_in(env, identifier) {
            Ok(v) => Ok(clone_value(v)),
            Err(e) => Err(e),
        }
    }

    /// An `if` statement.
    pub fn eval_if_statement<H: Host>(
        &mut self,
        condition: &Arc<Node>,
        body: &Arc<Node>,
        alternate: &Option<Arc<Node>>,
        env_id: EnvironmentId,
        host: &mut H,
        fuel: usize,
    ) -> (r: Result<Value, InterpreterError>)
        requires
            old(self).wf(),
        ensures
            keeps(*old(self), *final(self)),
            forall|oracle: Oracle|
                #![trigger heeds(oracle)]
                heeds(oracle) ==> agrees(
                    *old(self),
                    *final(self),
                    r,
                    oracle,
                    eval_if(
                        **condition,
                        **body,
                        *alternate,
                        env_id,
                        old(self).under(oracle),
                        fuel as nat,
                    ),
                ),
        decreases fuel, 2int, 0int,
    {
        let condition_value = match self.resolve_within(condition, env_id, host, fuel) {
            Ok(v) => v,
            Err(e) => {
                return Err(e);
            },
        };
        proof {
            lemma_value_view(condition_value);
        }
        let holds = match &condition_value {
            Value::Boolean(b) => b.value,
            _ => {
                return Err(InterpreterError::InvalidCondition(condition_value));
            },
        };
        if holds {
            match self.resolve_within(body, env_id, host, fuel) {
                Ok(_) => {},
                Err(e) => {
                    return Err(e);
                },
            }
        } else {
            match alternate {
                Some(other) => {
                    match self.resolve_within(other, env_id, host, fuel) {
                        Ok(_) => {},
                        Err(e) => {
                            return Err(e);
                        },
                    }
                },
                None => {},
            }
        }
        Ok(Value::null())
    }

    /// A `while` statement.
    #[verifier::loop_isolation(false)]
    pub fn eval_while_statement<H: Host>(
        &mut self,
        condition: &Arc<Node>,
        body: &Arc<Node>,
        env_id: EnvironmentId,
        host: &mut H,
        fuel: usize,
    ) -> (r: Result<Value, InterpreterError>)
        requires
            old(self).wf(),
        ensures
            keeps(*old(self), *final(self)),
            forall|oracle: Oracle|
                #![trigger heeds(oracle)]
                heeds(oracle) ==> agrees(
                    *old(self),
                    *final(self),
                    r,
                    oracle,
                    eval_while(**condition, **body, env_id, old(self).under(oracle), fuel as nat),
                ),
        decreases fuel, 2int, 0int,
    {
        let mut remaining: usize = fuel;
        loop
            invariant
                remaining <= fuel,
                keeps(*old(self), *self),
                forall|oracle: Oracle|
                    #![trigger heeds(oracle)]
                    heeds(oracle) ==> follows(*old(self), *self, oracle) ==> (eval_while(
                        **condition,
                        **body,
                        env_id,
                        old(self).under(oracle),
                        fuel as nat,
                    ) == eval_while(
                        **condition,
                        **body,
                        env_id,
                        self.under(oracle),
                        remaining as nat,
                    )),
            decreases remaining,
        {
            let condition_value = match self.resolve_within(condition, env_id, host, remaining) {
                Ok(v) => v,
                Err(e) => {
                    return Err(e);
                },
            };
            proof {
                lemma_value_view(condition_value);
            }
            let holds = match &condition_value {
                Value::Boolean(b) => b.value,
                _ => {
                    return Err(InterpreterError::InvalidCondition(condition_value));
                },
            };
            if !holds {
                return Ok(Value::null());
            }
            match self.resolve_within(body, env_id, host, remaining) {
                Ok(_) => {},
                Err(e) => {
                    return Err(e);
                },
            }
            if remaining == 0 {
                return Err(InterpreterError::LimitReached);
            }
            remaining = remaining - 1;
        }
    }

    /// The parameters that the nodes of a function declaration declare.
    #[verifier::loop_isolation(false)]
    pub fn eval_parameters<H: Host>(
        &mut self,
        nodes: &Vec<Arc<Node>>,
        env: EnvironmentId,
        host: &mut H,
        fuel: usize,
    ) -> (r: Result<Vec<FunctionParameter>, InterpreterError>)
        requires
            old(self).wf(),
        ensures
            keeps(*old(self), *final(self)),
            forall|oracle: Oracle|
                #![trigger heeds(oracle)]
                heeds(oracle) ==> reaches(
                    *old(self),
                    *final(self),
                    oracle,
                    parameters_outcome(r),
                    eval_parameters(
                        *nodes,
                        0,
                        Seq::empty(),
                        env,
                        old(self).under(oracle),
                        fuel as nat,
                    ),
                ),
        decreases fuel, 1int, nodes.len(),
    {
        let mut parameters: Vec<FunctionParameter> = Vec::new();
        assert(parameters_view(parameters) =~= Seq::empty());
        let mut i: usize = 0;
        while i < nodes.len()
            invariant
                i <= nodes.len(),
                keeps(*old(self), *self),
                forall|oracle: Oracle|
                    #![trigger heeds(oracle)]
                    heeds(oracle) ==> follows(*old(self), *self, oracle) ==> (eval_parameters(
                        *nodes,
                        0,
                        Seq::empty(),
                        env,
                        old(self).under(oracle),
                        fuel as nat,
                    ) == eval_parameters(
                        *nodes,
                        i as int,
                        parameters_view(parameters),
                        env,
                        self.under(oracle),
                        fuel as nat,
                    )),
            decreases nodes.len() - i,
        {
            let ghost before = parameters_view(parameters);
            match &*nodes[i] {
                Node::Identifier(value) => {
                    parameters.push(FunctionParameter::new(value.clone(), None));
                    assert(parameters_view(parameters) =~= before.push(
                        ParameterView { name: value@, default_value: None },
                    ));
                },
                Node::AssignmentExpression(left, operator, right) => {
                    match operator {
                        crate::ast::AssignmentOperator::Equals => {},
                        _ => {
                            return Err(
                                InterpreterError::InvalidFunctionParameter(share_node(&nodes[i])),
                            );
                        },
                    }
                    match &**left {
                        Node::Identifier(value) => {
                            let default_value = match self.resolve_within(right, env, host, fuel) {
                                Ok(v) => v,
                                Err(e) => {
                                    return Err(e);
                                },
                            };
                            parameters.push(
                                FunctionParameter::new(value.clone(), Some(default_value)),
                            );
                            assert(parameters_view(parameters) =~= before.push(
                                ParameterView {
                                    name: value@,
                                    default_value: Some(default_value@),
                                },
                            ));
                        },
                        _ => {
                            return Err(InterpreterError::InvalidAssignFactor(share_node(left)));
                        },
                    }
                },
                _ => {
                    return Err(InterpreterError::InvalidFunctionParameter(share_node(&nodes[i])));
                },
            }
            i = i + 1;
        }
        Ok(parameters)
    }

    /// A declaration of a function.
    pub fn eval_function_declaration<H: Host>(
        &mut self,
        name: &String,
        params: &Vec<Arc<Node>>,
        body: &Arc<Node>,
        env: EnvironmentId,
        host: &mut H,
        fuel: usize,
    ) -> (r: Result<Value, InterpreterError>)
        requires
            old(self).wf(),
        ensures
            keeps(*old(self), *final(self)),
            forall|oracle: Oracle|
                #![trigger heeds(oracle)]
                heeds(oracle) ==> agrees(
                    *old(self),
                    *final(self),
                    r,
                    oracle,
                    eval_function_declaration(
                        name@,
                        *params,
                        **body,
                        env,
                        old(self).under(oracle),
                        fuel as nat,
                    ),
                ),
        decreases fuel, 2int, 0int,
    {
        let parameters = match self.eval_parameters(params, env, host, fuel) {
            Ok(p) => p,
            Err(e) => {
                return Err(e);
            },
        };
        let function = Value::Function(
            FunctionValue::new(name.clone(), parameters, env, share_node(body)),
        );
        proof {
            lemma_value_view(function);
        }
        self.scope_state.declare_in(env, name.clone(), function, true)
    }

    /// The name that a member expression reaches for.
    pub fn eval_key<H: Host>(
        &mut self,
        property: &Arc<Node>,
        computed: bool,
        strict: bool,
        env: EnvironmentId,
        host: &mut H,
        fuel: usize,
    ) -> (r: Result<String, InterpreterError>)
        requires
            old(self).wf(),
        ensures
            keeps(*old(self), *final(self)),
            forall|oracle: Oracle|
                #![trigger heeds(oracle)]
                heeds(oracle) ==> reaches(
                    *old(self),
                    *final(self),
                    oracle,
                    key_outcome(r),
                    eval_key(
                        **property,
                        computed,
                        strict,
                        env,
                        old(self).under(oracle),
                        fuel as nat,
                    ),
                ),
        decreases fuel, 1int, 0int,
    {
        if computed {
            let value = match self.resolve_within(property, env, host, fuel) {
                Ok(v) => v,
                Err(e) => {
                    return Err(e);
                },
            };
            proof {
                lemma_value_view(value);
            }
            match value {
                Value::String(s) => Ok(s.value),
                other => Err(InterpreterError::UnsupportedValue(other)),
            }
        } else {
            match &**property {
                Node::Identifier(value) => Ok(value.clone()),
                _ => if strict {
                    Err(InterpreterError::UnsupportedNode(share_node(property)))
                } else {
                    Err(InterpreterError::UnexpectedNode(share_node(property)))
                },
            }
        }
    }

    /// A member expression.
    pub fn eval_member_expression<H: Host>(
        &mut self,
        object: &Arc<Node>,
        property: &Arc<Node>,
        computed: bool,
        env: EnvironmentId,
        host: &mut H,
        fuel: usize,
    ) -> (r: Result<Value, InterpreterError>)
        requires
            old(self).wf(),
        ensures
            keeps(*old(self), *final(self)),
            forall|oracle: Oracle|
                #![trigger heeds(oracle)]
                heeds(oracle) ==> agrees(
                    *old(self),
                    *final(self),
                    r,
                    oracle,
                    eval_member(
                        **object,
                        **property,
                        computed,
                        env,
                        old(self).under(oracle),
                        fuel as nat,
                    ),
                ),
        decreases fuel, 2int, 0int,
    {
        let object_value = match self.resolve_within(object, env, host, fuel) {
            Ok(v) => v,
            Err(e) => {
                return Err(e);
            },
        };
        let key = match self.eval_key(property, computed, false, env, host, fuel) {
            Ok(k) => k,
            Err(e) => {
                return Err(e);
            },
        };
        member(&object_value, &key, env, &self.scope_state)
    }
}

} // verus!
