//! The evaluator: programs.

use crate::ast::Node;
use crate::ast::share_node;
use crate::environment::EnvironmentId;
use crate::host::Host;
use crate::runtime::error::ErrorView;
use crate::runtime::error::InterpreterError;
use crate::runtime::interpreter::agrees;
use crate::runtime::interpreter::begins_with;
use crate::runtime::interpreter::follows;
use crate::runtime::interpreter::heeds;
use crate::runtime::interpreter::Interpreter;
use crate::runtime::interpreter::keeps;
use crate::runtime::interpreter::told;
use crate::runtime::semantics::Oracle;
use crate::runtime::semantics::Ran;
use crate::runtime::semantics::run_node;
use crate::runtime::semantics::run_statement;
use crate::runtime::semantics::run_waiting;
use crate::runtime::semantics::with_scope;
use crate::values::Value;
use std::collections::VecDeque;
use std::sync::Arc;
use vstd::prelude::*;

verus! {

/// The statements that wait, as the nodes they are.
pub open spec fn waiting_view(stack: VecDeque<(Arc<Node>, EnvironmentId)>) -> Seq<
    (Node, EnvironmentId),
> {
    Seq::new(stack@.len(), |i: int| (*stack@[i].0, stack@[i].1))
}

/// What every run keeps: the store stays well formed and loses no scope,
/// what was printed stays printed and what the host has answered stays
/// answered, and the depth limit does not change.
pub open spec fn runs_on(before: Interpreter, after: Interpreter) -> bool {
    &&& after.wf()
    &&& before.scope_state@.persists_in(after.scope_state@)
    &&& begins_with(after.printed@, before.printed@)
    &&& begins_with(after.answers@, before.answers@)
    &&& after.depth_limit == before.depth_limit
}

/// A run went from `before` to `after` with the result `r` as `expected`
/// says, where the oracle gives the answers that the host gave.
pub open spec fn ran_as(
    before: Interpreter,
    after: Interpreter,
    r: Result<(), InterpreterError>,
    oracle: Oracle,
    expected: Ran,
) -> bool {
    follows(before, after, oracle) ==> after.under(oracle) == expected.state && waiting_view(
        after.stack,
    ) == expected.waiting && match r {
        Ok(_) => expected.outcome is Ok,
        Err(x) => expected.outcome == Err::<(), ErrorView>(x@),
    }
}

impl Interpreter {
    /// Runs one statement in the scope `env`.
    pub fn run_statement<H: Host>(&mut self, node: &Arc<Node>, env: EnvironmentId, host: &mut H) -> (r:
        Result<Value, InterpreterError>)
        requires
            old(self).wf(),
        ensures
            keeps(*old(self), *final(self)),
            forall|oracle: Oracle|
                #![trigger heeds(oracle)]
                heeds(oracle) ==> agrees(
                    *old(self),
                    *final(self),
                    r,
                    oracle,
                    run_statement(
                        **node,
                        env,
                        old(self).under(oracle),
                        old(self).depth_limit as nat,
                    ),
                ),
    {
        let limit = self.depth_limit;
        match &**node {
            Node::CallExpression(callee, arguments) => self.eval_call_expression(
                callee,
                arguments,
                env,
                host,
                limit,
            ),
            Node::IfStatement(condition, body, alternate) => self.eval_if_statement(
                condition,
                body,
                alternate,
                env,
                host,
                limit,
            ),
            Node::WhileStatement(condition, consequent) => self.eval_while_statement(
                condition,
                consequent,
                env,
                host,
                limit,
            ),
            Node::ClassDeclaration(id, super_class, body) => self.eval_class_declaration(
                id,
                super_class,
                body,
                env,
                host,
                limit,
            ),
            _ => self.resolve_within(node, env, host, limit),
        }
    }

    /// Puts statements behind those that wait, each with the scope `env`.
    pub fn wait_for(&mut self, statements: &Vec<Arc<Node>>, env: EnvironmentId)
        ensures
            final(self).scope_state == old(self).scope_state,
            final(self).depth_limit == old(self).depth_limit,
            final(self).printed == old(self).printed,
            final(self).answers == old(self).answers,
            waiting_view(final(self).stack) == waiting_view(old(self).stack) + with_scope(
                *statements,
                env,
            ),
    {
        let ghost before = waiting_view(self.stack);
        let ghost added = with_scope(*statements, env);
        let mut i: usize = 0;
        assert(waiting_view(self.stack) =~= before + added.subrange(0, 0));
        while i < statements.len()
            invariant
                i <= statements.len(),
                added == with_scope(*statements, env),
                added.len() == statements.len(),
                self.scope_state == old(self).scope_state,
                self.depth_limit == old(self).depth_limit,
                self.printed == old(self).printed,
                self.answers == old(self).answers,
                waiting_view(self.stack) == before + added.subrange(0, i as int),
            decreases statements.len() - i,
        {
            let ghost waiting = waiting_view(self.stack);
            let statement = share_node(&statements[i]);
            assert(added[i as int] == (*statement, env));
            self.stack.push_back((statement, env));
            assert(waiting_view(self.stack) =~= waiting.push((*statement, env)));
            assert(added.subrange(0, i as int + 1) =~= added.subrange(0, i as int).push(
                added[i as int],
            ));
            i = i + 1;
        }
        assert(added.subrange(0, i as int) =~= added);
    }

    /// Runs a node in the scope `env`, and then the statements that wait. The
    /// statements of a program or of a block are put behind those that wait.
    ///
    /// What ran, what it left in the store and what it printed are what
    /// `run_node` gives for the answers that the host gave, whatever it
    /// answered.
    pub fn run<H: Host>(&mut self, node: Arc<Node>, env: EnvironmentId, host: &mut H) -> (r: Result<
        (),
        InterpreterError,
    >)
        requires
            old(self).wf(),
        ensures
            runs_on(*old(self), *final(self)),
            forall|oracle: Oracle|
                #![trigger heeds(oracle)]
                heeds(oracle) ==> ran_as(
                    *old(self),
                    *final(self),
                    r,
                    oracle,
                    run_node(
                        *node,
                        env,
                        waiting_view(old(self).stack),
                        old(self).under(oracle),
                        old(self).depth_limit as nat,
                    ),
                ),
            ran_as(
                *old(self),
                *final(self),
                r,
                told(final(self).answers@),
                run_node(
                    *node,
                    env,
                    waiting_view(old(self).stack),
                    old(self).as_told(final(self).answers@),
                    old(self).depth_limit as nat,
                ),
            ),
    {
        let r = self.run_node(node, env, host);
        proof {
            assert(heeds(told(self.answers@)));
        }
        r
    }

    /// Runs a node in the scope `env`, and then the statements that wait.
    pub fn run_node<H: Host>(&mut self, node: Arc<Node>, env: EnvironmentId, host: &mut H) -> (r: Result<
        (),
        InterpreterError,
    >)
        requires
            old(self).wf(),
        ensures
            runs_on(*old(self), *final(self)),
            forall|oracle: Oracle|
                #![trigger heeds(oracle)]
                heeds(oracle) ==> ran_as(
                    *old(self),
                    *final(self),
                    r,
                    oracle,
                    run_node(
                        *node,
                        env,
                        waiting_view(old(self).stack),
                        old(self).under(oracle),
                        old(self).depth_limit as nat,
                    ),
                ),
    {
        match &*node {
            Node::Program(statements) => {
                self.wait_for(statements, env);
            },
            Node::BlockStatement(statements) => {
                self.wait_for(statements, env);
            },
            _ => {
                match self.run_statement(&node, env, host) {
                    Ok(_) => {},
                    Err(e) => {
                        return Err(e);
                    },
                }
            },
        }
        self.run_waiting(host)
    }

    /// Runs the statements that wait, first come first, until none is left or
    /// one fails.
    ///
    /// What ran, what it left in the store and what it printed are what
    /// `run_waiting` gives for the answers that the host gave, whatever it
    /// answered.
    pub fn execute<H: Host>(&mut self, host: &mut H) -> (r: Result<(), InterpreterError>)
        requires
            old(self).wf(),
        ensures
            runs_on(*old(self), *final(self)),
            forall|oracle: Oracle|
                #![trigger heeds(oracle)]
                heeds(oracle) ==> ran_as(
                    *old(self),
                    *final(self),
                    r,
                    oracle,
                    run_waiting(
                        waiting_view(old(self).stack),
                        old(self).under(oracle),
                        old(self).depth_limit as nat,
                    ),
                ),
            ran_as(
                *old(self),
                *final(self),
                r,
                told(final(self).answers@),
                run_waiting(
                    waiting_view(old(self).stack),
                    old(self).as_told(final(self).answers@),
                    old(self).depth_limit as nat,
                ),
            ),
    {
        let r = self.run_waiting(host);
        proof {
            assert(heeds(told(self.answers@)));
        }
        r
    }

    /// Runs the statements that wait, first come first, until none is left or
    /// one fails.
    #[verifier::loop_isolation(false)]
    pub fn run_waiting<H: Host>(&mut self, host: &mut H) -> (r: Result<(), InterpreterError>)
        requires
            old(self).wf(),
        ensures
            runs_on(*old(self), *final(self)),
            forall|oracle: Oracle|
                #![trigger heeds(oracle)]
                heeds(oracle) ==> ran_as(
                    *old(self),
                    *final(self),
                    r,
                    oracle,
                    run_waiting(
                        waiting_view(old(self).stack),
                        old(self).under(oracle),
                        old(self).depth_limit as nat,
                    ),
                ),
    {
        let ghost first = waiting_view(self.stack);
        loop
            invariant
                runs_on(*old(self), *self),
                first == waiting_view(old(self).stack),
                forall|oracle: Oracle|
                    #![trigger heeds(oracle)]
                    heeds(oracle) ==> follows(*old(self), *self, oracle) ==> (run_waiting(
                        first,
                        old(self).under(oracle),
                        self.depth_limit as nat,
                    ) == run_waiting(
                        waiting_view(self.stack),
                        self.under(oracle),
                        self.depth_limit as nat,
                    )),
            decreases self.stack@.len(),
        {
            let ghost waiting = waiting_view(self.stack);
            match self.stack.pop_front() {
                None => {
                    return Ok(());
                },
                Some((current_node, current_env)) => {
                    assert(waiting_view(self.stack) =~= waiting.drop_first());
                    assert(waiting[0] == (*current_node, current_env));
                    match self.run_statement(&current_node, current_env, host) {
                        Ok(_) => {},
                        Err(e) => {
                            return Err(e);
                        },
                    }
                },
            }
        }
    }
}

} // verus!
