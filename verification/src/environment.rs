//! The store of scopes. A scope binds names to values, marks some of them
//! constant and may have a parent; a name is resolved along the parents.

use crate::entries::distinct_keys;
use crate::entries::has_key;
use crate::entries::inserted;
use crate::entries::lemma_absent;
use crate::entries::lemma_distinct_inserted;
use crate::entries::lemma_first_index_unique;
use crate::entries::lemma_lookup_inserted;
use crate::entries::value_of;
use crate::runtime::error::ErrorView;
use crate::runtime::error::InterpreterError;
use crate::values::clone_value;
use crate::values::entries_view;
use crate::values::find_entry;
use crate::values::Value;
use crate::values::ValueView;
use std::collections::HashMap;
use vstd::prelude::*;

verus! {

pub type EnvironmentId = u64;

/// The model of a scope.
pub struct EnvironmentView {
    pub id: EnvironmentId,
    pub parent: Option<EnvironmentId>,
    pub variables: Seq<(Seq<char>, ValueView)>,
    pub constants: Set<Seq<char>>,
}

impl EnvironmentView {
    /// No name is bound twice.
    pub open spec fn wf(self) -> bool {
        distinct_keys(self.variables)
    }

    /// The scope binds `name` itself.
    pub open spec fn binds(self, name: Seq<char>) -> bool {
        has_key(self.variables, name)
    }

    /// The value that the scope itself binds `name` to.
    pub open spec fn value(self, name: Seq<char>) -> ValueView {
        value_of(self.variables, name)
    }

    /// The scope after `name` has been declared in it.
    pub open spec fn declared(self, name: Seq<char>, value: ValueView, is_constant: bool) -> Self {
        EnvironmentView {
            id: self.id,
            parent: self.parent,
            variables: self.variables.push((name, value)),
            constants: if is_constant {
                self.constants.insert(name)
            } else {
                self.constants
            },
        }
    }

    /// The scope after the value of `name`, which it binds, has been replaced.
    pub open spec fn assigned(self, name: Seq<char>, value: ValueView) -> Self {
        EnvironmentView {
            id: self.id,
            parent: self.parent,
            variables: inserted(self.variables, name, value),
            constants: self.constants,
        }
    }
}

/// The model of the store.
pub struct ScopeStateView {
    pub scopes: Map<EnvironmentId, EnvironmentView>,
    pub last_generated_id: EnvironmentId,
}

impl ScopeStateView {
    /// The scope `id` is stored under its own identifier, which was
    /// generated; its parent is in the store and older than the scope; it
    /// binds no name twice.
    pub open spec fn scope_ok(self, id: EnvironmentId) -> bool {
        &&& 1 <= id <= self.last_generated_id
        &&& self.scopes[id].id == id
        &&& self.scopes[id].wf()
        &&& match self.scopes[id].parent {
            Some(p) => p < id && self.scopes.contains_key(p),
            None => true,
        }
    }

    /// Every scope of the store is in order: see `scope_ok`.
    pub open spec fn wf(self) -> bool {
        forall|id: EnvironmentId| #[trigger] self.scopes.contains_key(id) ==> self.scope_ok(id)
    }

    /// The nearest scope that binds `name`, from `env` along the parents.
    pub open spec fn resolve(self, env: EnvironmentId, name: Seq<char>) -> Option<EnvironmentId>
        decreases env,
    {
        if !self.scopes.contains_key(env) {
            None
        } else if self.scopes[env].binds(name) {
            Some(env)
        } else {
            match self.scopes[env].parent {
                Some(p) => if p < env {
                    self.resolve(p, name)
                } else {
                    None
                },
                None => None,
            }
        }
    }

    /// The value of `name` as seen from `env`.
    pub open spec fn lookup(self, env: EnvironmentId, name: Seq<char>) -> Option<ValueView> {
        match self.resolve(env, name) {
            Some(scope) => Some(self.scopes[scope].value(name)),
            None => None,
        }
    }

    /// `scope` is `env` or one of its ancestors.
    pub open spec fn on_chain(self, env: EnvironmentId, scope: EnvironmentId) -> bool
        decreases env,
    {
        if !self.scopes.contains_key(env) {
            false
        } else if env == scope {
            true
        } else {
            match self.scopes[env].parent {
                Some(p) => p < env && self.on_chain(p, scope),
                None => false,
            }
        }
    }

    /// `name` is constant where `env` sees it.
    pub open spec fn sees_constant(self, env: EnvironmentId, name: Seq<char>) -> bool {
        match self.resolve(env, name) {
            Some(scope) => self.scopes[scope].constants.contains(name),
            None => false,
        }
    }

    /// The store after a scope with the parent `parent` has been added.
    pub open spec fn created(self, parent: Option<EnvironmentId>) -> Self {
        let id = (self.last_generated_id + 1) as EnvironmentId;
        ScopeStateView {
            scopes: self.scopes.insert(
                id,
                EnvironmentView { id, parent, variables: Seq::empty(), constants: Set::empty() },
            ),
            last_generated_id: id,
        }
    }

    /// The store after `name` has been declared in the scope `env`.
    pub open spec fn declared(
        self,
        env: EnvironmentId,
        name: Seq<char>,
        value: ValueView,
        is_constant: bool,
    ) -> Self {
        ScopeStateView {
            scopes: self.scopes.insert(env, self.scopes[env].declared(name, value, is_constant)),
            last_generated_id: self.last_generated_id,
        }
    }

    /// The store after the value of `name` has been replaced in `scope`.
    pub open spec fn assigned(self, scope: EnvironmentId, name: Seq<char>, value: ValueView) -> Self {
        ScopeStateView {
            scopes: self.scopes.insert(scope, self.scopes[scope].assigned(name, value)),
            last_generated_id: self.last_generated_id,
        }
    }

    /// The outcome of a declaration of `name` in the scope `env`: the error,
    /// or the store after it.
    pub open spec fn declare_outcome(
        self,
        env: EnvironmentId,
        name: Seq<char>,
        value: ValueView,
        is_constant: bool,
    ) -> Result<Self, ErrorView> {
        if !self.scopes.contains_key(env) {
            Err(ErrorView::UnresolvedEnvironment(env))
        } else if self.scopes[env].binds(name) {
            Err(ErrorView::VariableDeclarationExist(name))
        } else {
            Ok(self.declared(env, name, value, is_constant))
        }
    }

    /// Every scope of `self` is a scope of `later`, and no identifier that
    /// `self` has given out is free again.
    pub open spec fn persists_in(self, later: Self) -> bool {
        &&& self.last_generated_id <= later.last_generated_id
        &&& forall|id: EnvironmentId| #[trigger]
            self.scopes.contains_key(id) ==> later.scopes.contains_key(id)
    }

    /// The outcome of an assignment to `name` from `env`: the error, or the
    /// store after it.
    pub open spec fn assign_outcome(
        self,
        env: EnvironmentId,
        name: Seq<char>,
        value: ValueView,
        ignore_constant: bool,
    ) -> Result<Self, ErrorView> {
        match self.resolve(env, name) {
            None => Err(ErrorView::UnresolvedVariable(name)),
            Some(scope) => if self.scopes[scope].constants.contains(name) && !ignore_constant {
                Err(ErrorView::ReassignConstant(name))
            } else {
                Ok(self.assigned(scope, name, value))
            },
        }
    }
}

/// A scope.
#[derive(Debug)]
pub struct Environment {
    pub id: EnvironmentId,
    pub parent: Option<EnvironmentId>,
    pub variables: Vec<(String, Value)>,
    pub constants: Vec<String>,
}

/// The names that a list holds.
pub open spec fn names_of(names: Vec<String>) -> Set<Seq<char>> {
    Set::new(|n: Seq<char>| exists|i: int| 0 <= i < names.len() && (#[trigger] names[i])@ == n)
}

impl View for Environment {
    type V = EnvironmentView;

    open spec fn view(&self) -> EnvironmentView {
        EnvironmentView {
            id: self.id,
            parent: self.parent,
            variables: entries_view(self.variables),
            constants: names_of(self.constants),
        }
    }
}

/// The store of scopes.
#[derive(Debug)]
pub struct ScopeState {
    pub scopes: HashMap<EnvironmentId, Environment>,
    pub last_generated_id: EnvironmentId,
}

impl View for ScopeState {
    type V = ScopeStateView;

    open spec fn view(&self) -> ScopeStateView {
        ScopeStateView {
            scopes: Map::new(
                |id: EnvironmentId| self.scopes@.contains_key(id),
                |id: EnvironmentId| self.scopes@[id]@,
            ),
            last_generated_id: self.last_generated_id,
        }
    }
}

/// Calls `HashMap::get_mut`. Taken on trust: the reference is to the scope
/// stored under `id`, if there is one; what is written through it is what the
/// map then holds under `id`; nothing else in the map changes.
#[verifier::external_body]
fn scope_entry_mut(scopes: &mut HashMap<EnvironmentId, Environment>, id: EnvironmentId) -> (r:
    Option<&mut Environment>)
    ensures
        match r {
            Some(e) => old(scopes)@.contains_key(id) && *e == old(scopes)@[id] && final(scopes)@
                == old(scopes)@.insert(id, *final(e)),
            None => !old(scopes)@.contains_key(id) && final(scopes)@ == old(scopes)@,
        },
{
    scopes.get_mut(&id)
}

/// Whether `names` holds `name`.
fn holds_name(names: &Vec<String>, name: &String) -> (r: bool)
    ensures
        r == names_of(*names).contains(name@),
{
    let mut i: usize = 0;
    while i < names.len()
        invariant
            i <= names.len(),
            forall|j: int| 0 <= j < i ==> (#[trigger] names[j])@ != name@,
        decreases names.len() - i,
    {
        if names[i] == *name {
            return true;
        }
        i = i + 1;
    }
    false
}

impl ScopeState {
    /// See [`ScopeStateView::wf`].
    pub open spec fn wf(&self) -> bool {
        self@.wf()
    }

    /// A store without scopes.
    pub fn new() -> (r: Self)
        ensures
            r@.scopes == Map::<EnvironmentId, EnvironmentView>::empty(),
            r@.last_generated_id == 0,
            r.wf(),
    {
        let r = ScopeState { scopes: HashMap::new(), last_generated_id: 0 };
        assert(r@.scopes =~= Map::<EnvironmentId, EnvironmentView>::empty());
        r
    }

    /// The next identifier. Identifiers grow by one and are never given twice.
    pub fn generate_scope_id(&mut self) -> (r: EnvironmentId)
        requires
            old(self).last_generated_id < u64::MAX,
        ensures
            r == old(self).last_generated_id + 1,
            final(self).last_generated_id == r,
            final(self).scopes == old(self).scopes,
    {
        self.last_generated_id += 1;
        self.last_generated_id
    }

    /// The scope stored under `id`, if there is one.
    pub fn get_scope(&self, id: EnvironmentId) -> (r: Option<&Environment>)
        ensures
            match r {
                Some(e) => self.scopes@.contains_key(id) && *e == self.scopes@[id],
                None => !self.scopes@.contains_key(id),
            },
            r is Some == self@.scopes.contains_key(id),
    {
        broadcast use vstd::std_specs::hash::group_hash_axioms;

        self.scopes.get(&id)
    }

    /// The scope stored under `id`, if there is one, to be changed in place.
    /// The store is what it was but for what is written to the scope.
    pub fn get_scope_mut(&mut self, id: EnvironmentId) -> (r: Option<&mut Environment>)
        ensures
            match r {
                Some(e) => old(self).scopes@.contains_key(id) && *e == old(self).scopes@[id]
                    && final(self).scopes@ == old(self).scopes@.insert(id, *final(e)),
                None => !old(self).scopes@.contains_key(id) && final(self).scopes@ == old(
                    self,
                ).scopes@,
            },
            final(self).last_generated_id == old(self).last_generated_id,
    {
        scope_entry_mut(&mut self.scopes, id)
    }

    /// Adds an empty scope with the parent `parent_env` and gives its
    /// identifier.
    pub fn create_environment(&mut self, parent_env: Option<EnvironmentId>) -> (r: EnvironmentId)
        requires
            old(self).wf(),
            old(self).last_generated_id < u64::MAX,
            parent_env matches Some(p) ==> old(self)@.scopes.contains_key(p),
        ensures
            final(self)@ == old(self)@.created(parent_env),
            r == old(self).last_generated_id + 1,
            final(self).wf(),
    {
        let env = Environment::new(parent_env);
        let env_id = self.append_environment(env);
        assert(self@.scopes =~= old(self)@.created(parent_env).scopes);
        env_id
    }

    /// Stores `environment` under a new identifier, which it also writes into
    /// the scope, and gives the identifier.
    pub fn append_environment(&mut self, environment: Environment) -> (r: EnvironmentId)
        requires
            old(self).wf(),
            old(self).last_generated_id < u64::MAX,
            environment@.wf(),
            environment.parent matches Some(p) ==> old(self)@.scopes.contains_key(p),
        ensures
            r == old(self).last_generated_id + 1,
            final(self)@.last_generated_id == r,
            final(self)@.scopes == old(self)@.scopes.insert(
                r,
                EnvironmentView {
                    id: r,
                    parent: environment@.parent,
                    variables: environment@.variables,
                    constants: environment@.constants,
                },
            ),
            final(self).wf(),
    {
        broadcast use vstd::std_specs::hash::group_hash_axioms;

        let mut environment = environment;
        let id = self.generate_scope_id();
        environment.id = id;
        let ghost stored = environment@;
        self.scopes.insert(id, environment);
        assert(self@.scopes =~= old(self)@.scopes.insert(id, stored));
        assert(self.wf()) by {
            assert forall|k: EnvironmentId| #[trigger]
                self@.scopes.contains_key(k) implies self@.scope_ok(k) by {
                if k != id {
                    assert(old(self)@.scopes.contains_key(k));
                    assert(old(self)@.scope_ok(k));
                } else {
                    match stored.parent {
                        Some(p) => {
                            assert(old(self)@.scopes.contains_key(p));
                        },
                        None => {},
                    }
                }
            }
        }
        id
    }

    /// Replaces the value of `variable_name` in the nearest scope that binds
    /// it, as seen from `env_id`, and gives a copy of the value.
    pub fn assign_variable(
        &mut self,
        variable_name: String,
        value: Value,
        env_id: EnvironmentId,
        ignore_constant: bool,
    ) -> (r: Result<Value, InterpreterError>)
        requires
            old(self).wf(),
            old(self)@.scopes.contains_key(env_id),
        ensures
            match old(self)@.assign_outcome(env_id, variable_name@, value@, ignore_constant) {
                Ok(after) => r is Ok && r->Ok_0@ == value@ && final(self)@ == after,
                Err(e) => r is Err && r->Err_0@ == e && final(self)@ == old(self)@,
            },
            final(self).wf(),
    {
        let scope_id = match self.resolve_mut(env_id, variable_name.clone()) {
            Ok(id) => id,
            Err(e) => {
                return Err(e);
            },
        };
        proof {
            lemma_resolve_binds(self@, env_id, variable_name@);
        }
        let ghost before = self@;
        let is_constant = match self.get_scope(scope_id) {
            Some(scope) => holds_name(&scope.constants, &variable_name),
            None => false,
        };
        if is_constant && !ignore_constant {
            return Err(InterpreterError::ReassignConstant(variable_name));
        }
        let result = clone_value(&value);
        match self.get_scope_mut(scope_id) {
            Some(scope) => {
                match find_entry(&scope.variables, &variable_name) {
                    Some(i) => {
                        proof {
                            lemma_first_index_unique(
                                entries_view(scope.variables),
                                variable_name@,
                                i as int,
                            );
                        }
                        let ghost old_vars = entries_view(scope.variables);
                        scope.variables[i] = (variable_name, value);
                        assert(entries_view(scope.variables) =~= inserted(
                            old_vars,
                            variable_name@,
                            value@,
                        ));
                    },
                    None => {
                        proof {
                            lemma_absent(entries_view(scope.variables), variable_name@);
                        }
                    },
                }
            },
            None => {},
        }
        assert(self@.scopes =~= before.assigned(scope_id, variable_name@, value@).scopes);
        assert(self.wf()) by {
            assert forall|k: EnvironmentId| #[trigger]
                self@.scopes.contains_key(k) implies self@.scope_ok(k) by {
                assert(before.scopes.contains_key(k));
                assert(before.scope_ok(k));
                if k == scope_id {
                    lemma_distinct_inserted(before.scopes[k].variables, variable_name@, value@);
                }
            }
        }
        Ok(result)
    }

    /// Binds `name` in the scope `env` and gives a copy of the value.
    pub fn declare_in(&mut self, env: EnvironmentId, name: String, value: Value, is_constant: bool) -> (r:
        Result<Value, InterpreterError>)
        requires
            old(self).wf(),
        ensures
            match old(self)@.declare_outcome(env, name@, value@, is_constant) {
                Ok(after) => r is Ok && r->Ok_0@ == value@ && final(self)@ == after,
                Err(e) => r is Err && r->Err_0@ == e && final(self)@ == old(self)@,
            },
            final(self).wf(),
            old(self)@.persists_in(final(self)@),
    {
        let ghost before = self@;
        let result = match self.get_scope_mut(env) {
            Some(scope) => scope.declare_variable(name, value, is_constant),
            None => {
                assert(self@.scopes =~= before.scopes);
                return Err(InterpreterError::UnresolvedEnvironment(env));
            },
        };
        proof {
            if before.scopes[env].binds(name@) {
                assert(self@.scopes =~= before.scopes);
            } else {
                assert(self@.scopes =~= before.declared(env, name@, value@, is_constant).scopes);
            }
            assert forall|k: EnvironmentId| #[trigger]
                self@.scopes.contains_key(k) implies self@.scope_ok(k) by {
                assert(before.scopes.contains_key(k));
                assert(before.scope_ok(k));
            }
        }
        result
    }

    /// The value of `name` as seen from the scope `env`.
    pub fn lookup_in(&self, env: EnvironmentId, name: &String) -> (r: Result<&Value, InterpreterError>)
        requires
            self.wf(),
        ensures
            !self@.scopes.contains_key(env) ==> r is Err && r->Err_0@
                == ErrorView::UnresolvedEnvironment(env),
            self@.scopes.contains_key(env) ==> match self@.lookup(env, name@) {
                Some(v) => r is Ok && r->Ok_0@ == v,
                None => r is Err && r->Err_0@ == ErrorView::UnresolvedVariable(name@),
            },
    {
        match self.get_scope(env) {
            Some(scope) => {
                proof {
                    lemma_scope_lookup(self@, env, name@);
                    assert(scope@ == self@.scopes[env]);
                }
                match scope.find(name, self) {
                    Some(v) => Ok(v),
                    None => Err(InterpreterError::UnresolvedVariable(name.clone())),
                }
            },
            None => Err(InterpreterError::UnresolvedEnvironment(env)),
        }
    }

    /// Replaces the value of `name` where the scope `env` sees it.
    pub fn assign_in(
        &mut self,
        env: EnvironmentId,
        name: String,
        value: Value,
        ignore_constant: bool,
    ) -> (r: Result<Value, InterpreterError>)
        requires
            old(self).wf(),
        ensures
            !old(self)@.scopes.contains_key(env) ==> r is Err && r->Err_0@
                == ErrorView::UnresolvedEnvironment(env) && final(self)@ == old(self)@,
            old(self)@.scopes.contains_key(env) ==> match old(self)@.assign_outcome(
                env,
                name@,
                value@,
                ignore_constant,
            ) {
                Ok(after) => r is Ok && r->Ok_0@ == value@ && final(self)@ == after,
                Err(e) => r is Err && r->Err_0@ == e && final(self)@ == old(self)@,
            },
            final(self).wf(),
            old(self)@.persists_in(final(self)@),
    {
        if self.get_scope(env).is_none() {
            return Err(InterpreterError::UnresolvedEnvironment(env));
        }
        proof {
            lemma_resolve_binds(self@, env, name@);
        }
        self.assign_variable(name, value, env, ignore_constant)
    }

    /// The nearest scope that binds `variable_name`, as seen from `env_id`.
    pub fn resolve_mut(&mut self, env_id: EnvironmentId, variable_name: String) -> (r: Result<
        EnvironmentId,
        InterpreterError,
    >)
        requires
            old(self).wf(),
            old(self)@.scopes.contains_key(env_id),
        ensures
            *final(self) == *old(self),
            match old(self)@.resolve(env_id, variable_name@) {
                Some(scope) => r == Ok::<EnvironmentId, InterpreterError>(scope),
                None => r is Err && r->Err_0@ == ErrorView::UnresolvedVariable(variable_name@),
            },
    {
        match self.get_scope(env_id) {
            Some(scope) => scope.resolve(variable_name, self),
            None => Err(InterpreterError::UnresolvedEnvironment(env_id)),
        }
    }
}

/// What a scope of the store sees under a name is what the store finds from
/// that scope.
pub proof fn lemma_scope_lookup(s: ScopeStateView, env: EnvironmentId, name: Seq<char>)
    requires
        s.wf(),
        s.scopes.contains_key(env),
    ensures
        s.lookup(env, name) == (if s.scopes[env].binds(name) {
            Some(s.scopes[env].value(name))
        } else {
            match s.scopes[env].parent {
                Some(p) => s.lookup(p, name),
                None => None,
            }
        }),
{
}

/// A resolved name is bound in the scope it resolves to, which is in the
/// store, on the chain of the scope the search began in.
pub proof fn lemma_resolve_binds(s: ScopeStateView, env: EnvironmentId, name: Seq<char>)
    ensures
        s.resolve(env, name) matches Some(scope) ==> s.scopes.contains_key(scope)
            && s.scopes[scope].binds(name) && s.on_chain(env, scope) && scope <= env,
    decreases env,
{
    if s.scopes.contains_key(env) && !s.scopes[env].binds(name) {
        match s.scopes[env].parent {
            Some(p) => {
                if p < env {
                    lemma_resolve_binds(s, p, name);
                }
            },
            None => {},
        }
    }
}

/// A lookup finds a value exactly when some scope on the parent chain of the
/// scope it starts from binds the name.
pub proof fn lemma_lookup_iff_bound_on_chain(s: ScopeStateView, env: EnvironmentId, name: Seq<char>)
    ensures
        s.lookup(env, name) is Some <==> exists|scope: EnvironmentId|
            s.on_chain(env, scope) && #[trigger] s.scopes[scope].binds(name),
    decreases env,
{
    if s.scopes.contains_key(env) {
        if s.scopes[env].binds(name) {
            assert(s.on_chain(env, env) && s.scopes[env].binds(name));
        } else {
            match s.scopes[env].parent {
                Some(p) => {
                    if p < env {
                        lemma_lookup_iff_bound_on_chain(s, p, name);
                        if s.lookup(p, name) is Some {
                            let scope = choose|scope: EnvironmentId|
                                s.on_chain(p, scope) && #[trigger] s.scopes[scope].binds(name);
                            assert(s.on_chain(env, scope) && s.scopes[scope].binds(name));
                        }
                        if exists|scope: EnvironmentId|
                            s.on_chain(env, scope) && #[trigger] s.scopes[scope].binds(name) {
                            let scope = choose|scope: EnvironmentId|
                                s.on_chain(env, scope) && #[trigger] s.scopes[scope].binds(name);
                            assert(s.on_chain(p, scope) && s.scopes[scope].binds(name));
                        }
                    }
                },
                None => {},
            }
        }
    }
}

/// An assignment to a name that is constant where the assigning scope sees
/// it fails with `ReassignConstant`, however far up the chain the constant
/// was declared, unless the caller asks to ignore constness.
pub proof fn lemma_constant_is_protected(
    s: ScopeStateView,
    env: EnvironmentId,
    name: Seq<char>,
    value: ValueView,
)
    requires
        s.sees_constant(env, name),
    ensures
        s.assign_outcome(env, name, value, false) == Err::<ScopeStateView, ErrorView>(
            ErrorView::ReassignConstant(name),
        ),
{
}

/// A name declared constant in a scope is constant for every scope that
/// resolves the name to that scope.
pub proof fn lemma_declared_constant_is_seen(
    s: ScopeStateView,
    scope: EnvironmentId,
    name: Seq<char>,
    value: ValueView,
    env: EnvironmentId,
)
    requires
        s.scopes.contains_key(scope),
        s.declared(scope, name, value, true).resolve(env, name) == Some(scope),
    ensures
        s.declared(scope, name, value, true).sees_constant(env, name),
{
}

/// The scope of a call sees what the scope of the function's declaration
/// sees: a new scope whose parent is `parent` finds under every name what
/// `parent` found before the scope was made. The scope that the call comes
/// from has no part in it.
pub proof fn lemma_new_scope_sees_parent(s: ScopeStateView, parent: EnvironmentId, name: Seq<char>)
    requires
        s.wf(),
        s.scopes.contains_key(parent),
        s.last_generated_id < u64::MAX,
    ensures
        s.created(Some(parent)).lookup((s.last_generated_id + 1) as EnvironmentId, name)
            == s.lookup(parent, name),
        s.created(Some(parent)).resolve((s.last_generated_id + 1) as EnvironmentId, name)
            == s.resolve(parent, name),
{
    let id = (s.last_generated_id + 1) as EnvironmentId;
    let after = s.created(Some(parent));
    lemma_absent(after.scopes[id].variables, name);
    lemma_created_frame(s, Some(parent), parent, name);
}

/// Adding a scope changes nothing for the scopes that were there.
pub proof fn lemma_created_frame(
    s: ScopeStateView,
    parent: Option<EnvironmentId>,
    env: EnvironmentId,
    name: Seq<char>,
)
    requires
        s.wf(),
        s.scopes.contains_key(env),
        s.last_generated_id < u64::MAX,
    ensures
        s.created(parent).resolve(env, name) == s.resolve(env, name),
        s.created(parent).lookup(env, name) == s.lookup(env, name),
    decreases env,
{
    if !s.scopes[env].binds(name) {
        match s.scopes[env].parent {
            Some(p) => {
                lemma_created_frame(s, parent, p, name);
            },
            None => {},
        }
    }
    lemma_resolve_binds(s, env, name);
}

/// Declaring a name in a scope changes what is seen under that name only:
/// every other name is found as before, from every scope.
pub proof fn lemma_declared_frame(
    s: ScopeStateView,
    scope: EnvironmentId,
    name: Seq<char>,
    value: ValueView,
    is_constant: bool,
    env: EnvironmentId,
    other: Seq<char>,
)
    requires
        s.scopes.contains_key(scope),
        !s.scopes[scope].binds(name),
        other != name,
    ensures
        s.declared(scope, name, value, is_constant).resolve(env, other) == s.resolve(env, other),
        s.declared(scope, name, value, is_constant).lookup(env, other) == s.lookup(env, other),
    decreases env,
{
    let after = s.declared(scope, name, value, is_constant);
    lemma_absent(s.scopes[scope].variables, name);
    lemma_lookup_inserted(s.scopes[scope].variables, name, value, other);
    assert(inserted(s.scopes[scope].variables, name, value) == s.scopes[scope].variables.push(
        (name, value),
    ));
    if s.scopes.contains_key(env) {
        let binds_before = s.scopes[env].binds(other);
        let binds_after = after.scopes[env].binds(other);
        if env == scope {
            assert(crate::entries::lookup(after.scopes[env].variables, other)
                == crate::entries::lookup(s.scopes[env].variables, other));
        }
        assert(binds_before == binds_after);
        if !binds_before {
            match s.scopes[env].parent {
                Some(p) => {
                    if p < env {
                        lemma_declared_frame(s, scope, name, value, is_constant, p, other);
                    }
                },
                None => {},
            }
        }
    }
}

/// A name declared in a scope is found there, with the value it was declared
/// with.
pub proof fn lemma_declared_is_found(
    s: ScopeStateView,
    scope: EnvironmentId,
    name: Seq<char>,
    value: ValueView,
    is_constant: bool,
)
    requires
        s.scopes.contains_key(scope),
        !s.scopes[scope].binds(name),
    ensures
        s.declared(scope, name, value, is_constant).lookup(scope, name) == Some(value),
        s.declared(scope, name, value, is_constant).resolve(scope, name) == Some(scope),
{
    lemma_absent(s.scopes[scope].variables, name);
    lemma_lookup_inserted(s.scopes[scope].variables, name, value, name);
    assert(inserted(s.scopes[scope].variables, name, value) == s.scopes[scope].variables.push(
        (name, value),
    ));
}

impl Environment {
    /// An empty scope with the parent `parent_env`. Its identifier is set when
    /// the store takes it.
    pub fn new(parent_env: Option<EnvironmentId>) -> (r: Self)
        ensures
            r@ == (EnvironmentView {
                id: 0,
                parent: parent_env,
                variables: Seq::empty(),
                constants: Set::empty(),
            }),
            r@.wf(),
    {
        let r = Environment {
            id: 0,
            parent: parent_env,
            variables: Vec::new(),
            constants: Vec::new(),
        };
        assert(r@.variables =~= Seq::empty());
        assert(r@.constants =~= Set::empty());
        r
    }

    /// Binds `variable_name` in this scope, where it is not bound yet, and
    /// gives a copy of the value.
    pub fn declare_variable(&mut self, variable_name: String, value: Value, is_constant: bool) -> (r:
        Result<Value, InterpreterError>)
        ensures
            old(self)@.binds(variable_name@) ==> r is Err && r->Err_0@
                == ErrorView::VariableDeclarationExist(variable_name@) && final(self)@ == old(
                self,
            )@,
            !old(self)@.binds(variable_name@) ==> r is Ok && r->Ok_0@ == value@ && final(self)@
                == old(self)@.declared(variable_name@, value@, is_constant),
            old(self)@.wf() ==> final(self)@.wf(),
    {
        match find_entry(&self.variables, &variable_name) {
            Some(i) => {
                proof {
                    lemma_first_index_unique(self@.variables, variable_name@, i as int);
                }
                return Err(InterpreterError::VariableDeclarationExist(variable_name));
            },
            None => {
                proof {
                    lemma_absent(self@.variables, variable_name@);
                }
            },
        }
        let result = clone_value(&value);
        self.variables.push((variable_name.clone(), value));
        if is_constant {
            self.constants.push(variable_name);
            assert(self@.constants =~= old(self)@.constants.insert(variable_name@)) by {
                assert forall|n: Seq<char>| old(self)@.constants.insert(variable_name@).contains(
                    n,
                ) implies self@.constants.contains(n) by {
                    if n == variable_name@ {
                        assert(self.constants[self.constants.len() - 1]@ == n);
                    } else {
                        let i = choose|i: int|
                            0 <= i < old(self).constants.len() && (#[trigger] old(
                                self,
                            ).constants[i])@ == n;
                        assert(self.constants[i]@ == n);
                    }
                }
            }
        }
        assert(self@.variables =~= old(self)@.variables.push((variable_name@, value@)));
        proof {
            if old(self)@.wf() {
                lemma_distinct_inserted(old(self)@.variables, variable_name@, value@);
                assert(self@.variables == inserted(old(self)@.variables, variable_name@, value@));
            }
        }
        Ok(result)
    }

    /// The value of `variable_name` as seen from this scope.
    pub fn lookup_variable(&self, variable_name: String, scope_state: &ScopeState) -> (r: Result<
        Value,
        InterpreterError,
    >)
        requires
            scope_state.wf(),
            self.parent matches Some(p) ==> scope_state@.scopes.contains_key(p),
        ensures
            match self.lookup_spec(variable_name@, scope_state@) {
                Some(v) => r is Ok && r->Ok_0@ == v,
                None => r is Err && r->Err_0@ == ErrorView::UnresolvedVariable(variable_name@),
            },
    {
        match self.find(&variable_name, scope_state) {
            Some(v) => Ok(clone_value(v)),
            None => Err(InterpreterError::UnresolvedVariable(variable_name)),
        }
    }

    /// The value of `variable_name` as seen from this scope, or nothing.
    pub fn lookup_variable_safe(&self, variable_name: String, scope_state: &ScopeState) -> (r:
        Option<Value>)
        requires
            scope_state.wf(),
            self.parent matches Some(p) ==> scope_state@.scopes.contains_key(p),
        ensures
            match self.lookup_spec(variable_name@, scope_state@) {
                Some(v) => r is Some && r->Some_0@ == v,
                None => r is None,
            },
    {
        match self.find(&variable_name, scope_state) {
            Some(v) => Some(clone_value(v)),
            None => None,
        }
    }

    /// What this scope sees under `name`: its own binding, or what its parent
    /// sees in the store.
    pub open spec fn lookup_spec(&self, name: Seq<char>, s: ScopeStateView) -> Option<ValueView> {
        if self@.binds(name) {
            Some(self@.value(name))
        } else {
            match self.parent {
                Some(p) => s.lookup(p, name),
                None => None,
            }
        }
    }

    /// The scope that binds `name` for this scope: itself, or what its parent
    /// resolves to in the store.
    pub open spec fn resolve_spec(&self, name: Seq<char>, s: ScopeStateView) -> Option<
        EnvironmentId,
    > {
        if self@.binds(name) {
            Some(self.id)
        } else {
            match self.parent {
                Some(p) => s.resolve(p, name),
                None => None,
            }
        }
    }

    /// A reference to the value that this scope sees under `variable_name`.
    pub fn find<'a>(&'a self, variable_name: &String, scope_state: &'a ScopeState) -> (r: Option<
        &'a Value,
    >)
        requires
            scope_state.wf(),
            self.parent matches Some(p) ==> scope_state@.scopes.contains_key(p),
        ensures
            match self.lookup_spec(variable_name@, scope_state@) {
                Some(v) => r is Some && r->Some_0@ == v,
                None => r is None,
            },
        decreases
                (match self.parent {
                    Some(p) => p + 1,
                    None => 0,
                }),
    {
        match find_entry(&self.variables, variable_name) {
            Some(i) => {
                proof {
                    lemma_first_index_unique(self@.variables, variable_name@, i as int);
                }
                Some(&self.variables[i].1)
            },
            None => {
                proof {
                    lemma_absent(self@.variables, variable_name@);
                }
                match self.parent {
                    Some(p) => {
                        match scope_state.get_scope(p) {
                            Some(parent_scope) => {
                                assert(scope_state@.scopes.contains_key(p));
                                assert(parent_scope@ == scope_state@.scopes[p]);
                                parent_scope.find(variable_name, scope_state)
                            },
                            None => None,
                        }
                    },
                    None => None,
                }
            },
        }
    }

    /// The nearest scope that binds `variable_name`, from this scope along the
    /// parents.
    pub fn resolve(&self, variable_name: String, scope_state: &ScopeState) -> (r: Result<
        EnvironmentId,
        InterpreterError,
    >)
        requires
            scope_state.wf(),
            self.parent matches Some(p) ==> scope_state@.scopes.contains_key(p),
        ensures
            match self.resolve_spec(variable_name@, scope_state@) {
                Some(scope) => r == Ok::<EnvironmentId, InterpreterError>(scope),
                None => r is Err && r->Err_0@ == ErrorView::UnresolvedVariable(variable_name@),
            },
        decreases
                (match self.parent {
                    Some(p) => p + 1,
                    None => 0,
                }),
    {
        match find_entry(&self.variables, &variable_name) {
            Some(i) => {
                proof {
                    lemma_first_index_unique(self@.variables, variable_name@, i as int);
                }
                return Ok(self.id);
            },
            None => {
                proof {
                    lemma_absent(self@.variables, variable_name@);
                }
            },
        }
        match self.parent {
            None => Err(InterpreterError::UnresolvedVariable(variable_name)),
            Some(p) => {
                match scope_state.get_scope(p) {
                    Some(parent_scope) => {
                        assert(scope_state@.scopes.contains_key(p));
                        assert(parent_scope@ == scope_state@.scopes[p]);
                        parent_scope.resolve(variable_name, scope_state)
                    },
                    None => Err(InterpreterError::UnresolvedVariable(variable_name)),
                }
            },
        }
    }
}

} // verus!
