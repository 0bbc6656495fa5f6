//! What holds of every evaluation.

use crate::ast::AssignmentOperator;
use crate::ast::binary_operator_of;
use crate::ast::BinaryOperator;
use crate::ast::Node;
use crate::environment::EnvironmentId;
use crate::environment::lemma_declared_frame;
use crate::environment::lemma_new_scope_sees_parent;
use crate::builtin::array::lemma_length_counts_appended;
use crate::entries::lookup;
use crate::environment::ScopeStateView;
use crate::runtime::error::ErrorView;
use crate::runtime::semantics::apply;
use crate::runtime::semantics::apply_member;
use crate::runtime::semantics::apply_to_arguments;
use crate::runtime::semantics::bind_parameters;
use crate::runtime::semantics::call_function;
use crate::runtime::semantics::call_method;
use crate::runtime::semantics::compound;
use crate::runtime::semantics::create;
use crate::runtime::semantics::done;
use crate::runtime::semantics::eval;
use crate::runtime::semantics::eval_assignment;
use crate::runtime::semantics::eval_array;
use crate::runtime::semantics::eval_binary;
use crate::runtime::semantics::eval_call;
use crate::runtime::semantics::eval_identifier;
use crate::runtime::semantics::eval_key;
use crate::runtime::semantics::eval_member;
use crate::runtime::semantics::failed;
use crate::runtime::semantics::MachineView;
use crate::runtime::semantics::member_of;
use crate::runtime::semantics::operate;
use crate::runtime::semantics::read_operand;
use crate::values::class::has_method;
use crate::values::FunctionView;
use crate::values::ParameterView;
use crate::values::ValueView;
use std::sync::Arc;
use vstd::prelude::*;

verus! {

/// Binding parameters changes what is seen under their names only: a name
/// that none of the parameters from `i` on has is found as before, from every
/// scope.
pub proof fn lemma_bind_parameters_frame(
    parameters: Seq<ParameterView>,
    args: Seq<ValueView>,
    i: int,
    defaults: bool,
    scope: EnvironmentId,
    s: ScopeStateView,
    env: EnvironmentId,
    name: Seq<char>,
)
    requires
        0 <= i,
        forall|j: int| i <= j < parameters.len() ==> (#[trigger] parameters[j]).name != name,
    ensures
        bind_parameters(parameters, args, i, defaults, scope, s).store.lookup(env, name)
            == s.lookup(env, name),
        bind_parameters(parameters, args, i, defaults, scope, s).store.resolve(env, name)
            == s.resolve(env, name),
    decreases parameters.len() - i,
{
    if i < parameters.len() {
        let value = if i < args.len() {
            Some(args[i])
        } else if defaults {
            parameters[i].default_value
        } else {
            None
        };
        match value {
            None => {
                lemma_bind_parameters_frame(parameters, args, i + 1, defaults, scope, s, env, name);
            },
            Some(v) => {
                match s.declare_outcome(scope, parameters[i].name, v, true) {
                    Err(_) => {},
                    Ok(after) => {
                        lemma_declared_frame(s, scope, parameters[i].name, v, true, env, name);
                        lemma_bind_parameters_frame(
                            parameters,
                            args,
                            i + 1,
                            defaults,
                            scope,
                            after,
                            env,
                            name,
                        );
                    },
                }
            },
        }
    }
}

/// A function resolves its free names where it was declared, not where it
/// is called from.
///
/// The scope that a call comes from has no part in the call of a function.
/// And in the scope that the body runs in, a name that is no parameter of the
/// function is found as the scope of the function's declaration finds it.
pub proof fn lemma_function_resolves_in_declaration_scope(
    function: FunctionView,
    args: Seq<ValueView>,
    m: MachineView,
    fuel: nat,
    from: EnvironmentId,
    elsewhere: EnvironmentId,
    name: Seq<char>,
)
    requires
        m.store.wf(),
        create(m.store, function.declaration_env) is Ok,
        forall|j: int| 0 <= j < function.parameters.len() ==> (#[trigger] function.parameters[j]).name
            != name,
    ensures
        apply(ValueView::Function(function), args, from, m, fuel) == apply(
            ValueView::Function(function),
            args,
            elsewhere,
            m,
            fuel,
        ),
        apply(ValueView::Function(function), args, from, m, fuel) == call_function(
            function,
            args,
            m,
            fuel,
        ),
        ({
            let made = create(m.store, function.declaration_env)->Ok_0;
            let scope = made.last_generated_id;
            let bound = bind_parameters(function.parameters, args, 0, true, scope, made);
            &&& made.scopes[scope].parent == Some(function.declaration_env)
            &&& bound.store.lookup(scope, name) == m.store.lookup(function.declaration_env, name)
        }),
{
    let made = m.store.created(Some(function.declaration_env));
    let scope = made.last_generated_id;
    lemma_new_scope_sees_parent(m.store, function.declaration_env, name);
    lemma_bind_parameters_frame(function.parameters, args, 0, true, scope, made, scope, name);
}

/// A call expression whose callee is no member expression and has a
/// function of the language as its value is a call of that function:
/// the scope of the call expression is where the callee and the arguments
/// are evaluated, and has no other part in the call.
pub proof fn lemma_call_runs_the_function(
    callee: Node,
    arguments: Vec<Arc<Node>>,
    env: EnvironmentId,
    m: MachineView,
    fuel: nat,
    function: FunctionView,
    args: Seq<ValueView>,
)
    requires
        !(callee is MemberExpression),
        eval(callee, env, m, fuel).outcome == Ok::<ValueView, ErrorView>(
            ValueView::Function(function),
        ),
        eval_array(
            arguments,
            0,
            Seq::empty(),
            env,
            eval(callee, env, m, fuel).state,
            fuel,
        ).outcome == Ok::<ValueView, ErrorView>(ValueView::Array(args)),
    ensures
        eval_call(callee, arguments, env, m, fuel) == call_function(
            function,
            args,
            eval_array(arguments, 0, Seq::empty(), env, eval(callee, env, m, fuel).state, fuel).state,
            fuel,
        ),
{
    let called = ValueView::Function(function);
    let a = eval(callee, env, m, fuel);
    let b = eval_array(arguments, 0, Seq::empty(), env, a.state, fuel);
    assert(eval_call(callee, arguments, env, m, fuel) == apply_to_arguments(
        called,
        arguments,
        env,
        a.state,
        fuel,
    ));
    assert(apply_to_arguments(called, arguments, env, a.state, fuel) == apply(
        called,
        args,
        env,
        b.state,
        fuel,
    ));
    assert(apply(called, args, env, b.state, fuel) == call_function(function, args, b.state, fuel));
}

/// A call expression whose callee is a member of an object, named by an
/// identifier, where the object holds a function of the language under that
/// name, is a call of that function as a method.
pub proof fn lemma_call_runs_the_method(
    callee: Node,
    object: Node,
    property: Node,
    arguments: Vec<Arc<Node>>,
    env: EnvironmentId,
    m: MachineView,
    fuel: nat,
    entries: Seq<(Seq<char>, ValueView)>,
    function: FunctionView,
    args: Seq<ValueView>,
)
    requires
        callee is MemberExpression,
        *callee->MemberExpression_0 == object,
        *callee->MemberExpression_1 == property,
        property is Identifier,
        eval(object, env, m, fuel).outcome == Ok::<ValueView, ErrorView>(
            ValueView::Object(entries),
        ),
        lookup(entries, property->Identifier_0@) == Some(
            ValueView::Function(function),
        ),
        eval_array(
            arguments,
            0,
            Seq::empty(),
            env,
            eval(object, env, m, fuel).state,
            fuel,
        ).outcome == Ok::<ValueView, ErrorView>(ValueView::Array(args)),
    ensures
        eval_call(callee, arguments, env, m, fuel) == call_method(
            object,
            entries,
            function,
            args,
            env,
            eval_array(
                arguments,
                0,
                Seq::empty(),
                env,
                eval(object, env, m, fuel).state,
                fuel,
            ).state,
            fuel,
        ),
{
}

/// A call expression whose callee is a member of any other kind (the member
/// of a value that is no object, or a member that no identifier names),
/// where that member is a function of the language, is a call of that
/// function.
pub proof fn lemma_call_runs_the_member(
    callee: Node,
    object: Node,
    property: Node,
    arguments: Vec<Arc<Node>>,
    env: EnvironmentId,
    m: MachineView,
    fuel: nat,
    target: ValueView,
    key: Seq<char>,
    function: FunctionView,
    args: Seq<ValueView>,
)
    requires
        callee is MemberExpression,
        *callee->MemberExpression_0 == object,
        *callee->MemberExpression_1 == property,
        eval(object, env, m, fuel).outcome == Ok::<ValueView, ErrorView>(
            target,
        ),
        !(target is Object && property is Identifier),
        eval_key(
            property,
            callee->MemberExpression_2,
            false,
            env,
            eval(object, env, m, fuel).state,
            fuel,
        ).outcome == Ok::<Seq<char>, ErrorView>(key),
        member_of(
            target,
            key,
            env,
            eval_key(
                property,
                callee->MemberExpression_2,
                false,
                env,
                eval(object, env, m, fuel).state,
                fuel,
            ).state.store,
        ) == Ok::<ValueView, ErrorView>(ValueView::Function(function)),
        eval_array(
            arguments,
            0,
            Seq::empty(),
            env,
            eval_key(
                property,
                callee->MemberExpression_2,
                false,
                env,
                eval(object, env, m, fuel).state,
                fuel,
            ).state,
            fuel,
        ).outcome == Ok::<ValueView, ErrorView>(ValueView::Array(args)),
    ensures
        eval_call(callee, arguments, env, m, fuel) == call_function(
            function,
            args,
            eval_array(
                arguments,
                0,
                Seq::empty(),
                env,
                eval_key(
                    property,
                    callee->MemberExpression_2,
                    false,
                    env,
                    eval(object, env, m, fuel).state,
                    fuel,
                ).state,
                fuel,
            ).state,
            fuel,
        ),
{
    let called = ValueView::Function(function);
    let a = eval(object, env, m, fuel);
    let k = eval_key(
        property,
        callee->MemberExpression_2,
        false,
        env,
        a.state,
        fuel,
    );
    let b = eval_array(arguments, 0, Seq::empty(), env, k.state, fuel);
    assert(eval_call(callee, arguments, env, m, fuel) == apply_member(
        target,
        key,
        arguments,
        env,
        k.state,
        fuel,
    ));
    assert(apply_member(target, key, arguments, env, k.state, fuel) == apply_to_arguments(
        called,
        arguments,
        env,
        k.state,
        fuel,
    ));
    assert(apply_to_arguments(called, arguments, env, k.state, fuel) == apply(
        called,
        args,
        env,
        b.state,
        fuel,
    ));
    assert(apply(called, args, env, b.state, fuel) == call_function(function, args, b.state, fuel));
}

/// A method resolves its free names where it was declared, not where it is
/// called from.
///
/// The body of a function that is called as a method runs in a new scope
/// whose parent is the scope of the function's declaration. There a name
/// that is neither `self` nor a parameter of the function is found as the
/// scope of the declaration finds it; the scope of the call has no part in
/// it.
pub proof fn lemma_method_resolves_in_declaration_scope(
    entries: Seq<(Seq<char>, ValueView)>,
    function: FunctionView,
    args: Seq<ValueView>,
    m: MachineView,
    name: Seq<char>,
)
    requires
        m.store.wf(),
        create(m.store, function.declaration_env) is Ok,
        name != "self"@,
        forall|j: int| 0 <= j < function.parameters.len() ==> (#[trigger] function.parameters[j]).name
            != name,
    ensures
        ({
            let made = create(m.store, function.declaration_env)->Ok_0;
            let scope = made.last_generated_id;
            let with_self = made.declare_outcome(scope, "self"@, ValueView::Object(entries), true);
            &&& made.scopes[scope].parent == Some(function.declaration_env)
            &&& with_self is Ok
            &&& bind_parameters(
                function.parameters,
                args,
                0,
                true,
                scope,
                with_self->Ok_0,
            ).store.lookup(scope, name) == m.store.lookup(function.declaration_env, name)
        }),
{
    let made = m.store.created(Some(function.declaration_env));
    let scope = made.last_generated_id;
    lemma_new_scope_sees_parent(m.store, function.declaration_env, name);
    let with_self = made.declare_outcome(scope, "self"@, ValueView::Object(entries), true);
    lemma_declared_frame(made, scope, "self"@, ValueView::Object(entries), true, scope, name);
    lemma_bind_parameters_frame(
        function.parameters,
        args,
        0,
        true,
        scope,
        with_self->Ok_0,
        scope,
        name,
    );
}

/// Whether the scope `env` leaves the member `length` of an array alone: it
/// sees nothing under the name `Array`, or a class that has no instance
/// method `length`.
pub open spec fn leaves_length(s: ScopeStateView, env: EnvironmentId) -> bool {
    &&& s.scopes.contains_key(env)
    &&& match s.lookup(env, "Array"@) {
        None => true,
        Some(ValueView::Class(c)) => !has_method(c.methods, "length"@, false),
        Some(_) => false,
    }
}

/// The member `length` of an array is the number of its elements: of an
/// array that was made with `n` elements and had `k` more appended, `n + k`.
/// This holds in every scope that leaves the member alone.
pub proof fn lemma_member_length_counts_appended(
    items: Seq<ValueView>,
    appended: Seq<ValueView>,
    env: EnvironmentId,
    s: ScopeStateView,
)
    requires
        items.len() + appended.len() <= isize::MAX,
        leaves_length(s, env),
    ensures
        member_of(ValueView::Array(items + appended), "length"@, env, s) == Ok::<
            ValueView,
            ErrorView,
        >(ValueView::Integer((items.len() + appended.len()) as int)),
{
    lemma_length_counts_appended(items, appended);
}

/// The expression `a.length`, where `a` has an array as its value, has the
/// number of the elements of that array as its value, in every scope that
/// leaves the member alone.
pub proof fn lemma_length_expression_counts_elements(
    object: Node,
    property: Node,
    env: EnvironmentId,
    m: MachineView,
    fuel: nat,
    items: Seq<ValueView>,
)
    requires
        property matches Node::Identifier(name) && name@ == "length"@,
        eval(object, env, m, fuel).outcome == Ok::<ValueView, ErrorView>(ValueView::Array(items)),
        items.len() <= isize::MAX,
        leaves_length(eval(object, env, m, fuel).state.store, env),
    ensures
        eval_member(object, property, false, env, m, fuel) == done(
            ValueView::Integer(items.len() as int),
            eval(object, env, m, fuel).state,
        ),
{
    let a = eval(object, env, m, fuel);
    assert(items + Seq::<ValueView>::empty() =~= items);
    lemma_member_length_counts_appended(items, Seq::empty(), env, a.state.store);
    assert(eval_key(property, false, false, env, a.state, fuel) == done(
        property->Identifier_0@,
        a.state,
    ));
}

/// A compound assignment to an identifier gives what the assignment of the
/// binary expression of the identifier and the right side gives: `x op= e`
/// and `x = x op e` end with the same result and the same store, for every
/// operator, every right side, every store and every depth.
pub proof fn lemma_compound_assignment_desugars(
    short: Node,
    long: Node,
    name: Seq<char>,
    operator: AssignmentOperator,
    binary: BinaryOperator,
    env: EnvironmentId,
    s: MachineView,
    fuel: nat,
)
    requires
        binary_operator_of(operator) == Some(binary),
        short matches Node::AssignmentExpression(target, o, _) && o == operator && (
        *target matches Node::Identifier(x) && x@ == name),
        long matches Node::AssignmentExpression(target, o, right) && o == AssignmentOperator::Equals
            && (*target matches Node::Identifier(x) && x@ == name) && (
        *right matches Node::BinaryExpression(l, b, r) && b == binary && (
        *l matches Node::Identifier(x) && x@ == name) && *r == *short->AssignmentExpression_2),
    ensures
        eval(short, env, s, fuel) == eval(long, env, s, fuel),
{
    if fuel > 0 {
        let f = (fuel - 1) as nat;
        let e = *short->AssignmentExpression_2;
        let target = *short->AssignmentExpression_0;
        let long_target = *long->AssignmentExpression_0;
        let sum = *long->AssignmentExpression_2;
        let left = *sum->BinaryExpression_0;
        assert(eval(short, env, s, fuel) == eval_assignment(target, operator, e, env, s, f));
        assert(eval(long, env, s, fuel) == eval_assignment(
            long_target,
            AssignmentOperator::Equals,
            sum,
            env,
            s,
            f,
        ));
        let read = read_operand(name, env, s, f);
        let combined = compound(read, binary, e, env, f);
        let plain = eval(sum, env, s, f);
        assert(combined == plain) by {
            if f == 0 {
            } else {
                let g = (f - 1) as nat;
                assert(plain == eval_binary(left, binary, e, env, s, g));
                assert(eval_binary(left, binary, e, env, s, g) == operate(
                    eval(left, env, s, g),
                    binary,
                    e,
                    env,
                    g,
                ));
                assert(combined == operate(read, binary, e, env, g));
                if g == 0 {
                    assert(eval(left, env, s, g) == read);
                } else {
                    assert(eval(left, env, s, g) == eval_identifier(name, env, s));
                    assert(read == eval_identifier(name, env, s));
                }
            }
        }
    }
}

/// An assignment of the language to a constant fails with
/// `ReassignConstant`: where the right side has a value and the scope of the
/// assignment then sees the name as a constant, the store stays as the right
/// side left it.
pub proof fn lemma_assignment_to_constant_fails(
    target: Node,
    name: Seq<char>,
    right: Node,
    env: EnvironmentId,
    s: MachineView,
    fuel: nat,
)
    requires
        target matches Node::Identifier(x) && x@ == name,
        eval(right, env, s, fuel).outcome is Ok,
        eval(right, env, s, fuel).state.store.scopes.contains_key(env),
        eval(right, env, s, fuel).state.store.sees_constant(env, name),
    ensures
        eval_assignment(target, AssignmentOperator::Equals, right, env, s, fuel) == failed::<
            ValueView,
        >(ErrorView::ReassignConstant(name), eval(right, env, s, fuel).state),
{
}

} // verus!
