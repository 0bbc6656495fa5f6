use pl_interpreter::environment::Environment;
use pl_interpreter::environment::ScopeState;
use pl_interpreter::runtime::error::InterpreterError;
use pl_interpreter::values::Value;

fn integer_of(v: &Value) -> isize {
    match v {
        Value::Integer(i) => i.value(),
        other => panic!("no integer: {:?}", other),
    }
}

#[test]
fn created_scope_has_next_identifier() {
    let mut store = ScopeState::new();
    let root = store.create_environment(None);
    let child = store.create_environment(Some(root));
    assert_eq!(root, 1);
    assert_eq!(child, 2);
    assert_eq!(store.last_generated_id, 2);
    assert_eq!(store.generate_scope_id(), 3);
    assert!(store.get_scope(child).is_some());
    assert_eq!(store.get_scope(child).unwrap().parent, Some(root));
    assert_eq!(store.get_scope(child).unwrap().id, child);
    assert!(store.get_scope(7).is_none());
    assert!(store.get_scope_mut(7).is_none());
}

#[test]
fn appended_scope_gets_its_identifier() {
    let mut store = ScopeState::new();
    let root = store.create_environment(None);
    let mut scope = Environment::new(Some(root));
    scope.declare_variable("a".to_string(), Value::integer(1), false).unwrap();
    let id = store.append_environment(scope);
    assert_eq!(id, 2);
    let stored = store.get_scope(id).unwrap();
    assert_eq!(stored.id, 2);
    assert_eq!(integer_of(&stored.lookup_variable("a".to_string(), &store).unwrap()), 1);
}

#[test]
fn declaration_binds_once_per_scope() {
    let mut scope = Environment::new(None);
    let first = scope.declare_variable("x".to_string(), Value::integer(1), false);
    assert_eq!(integer_of(&first.unwrap()), 1);
    let second = scope.declare_variable("x".to_string(), Value::integer(2), false);
    match second {
        Err(InterpreterError::VariableDeclarationExist(name)) => assert_eq!(name, "x"),
        other => panic!("unexpected result: {:?}", other),
    }
    assert_eq!(scope.variables.len(), 1);
}

#[test]
fn lookup_finds_what_the_chain_declares() {
    let mut store = ScopeState::new();
    let root = store.create_environment(None);
    let middle = store.create_environment(Some(root));
    let leaf = store.create_environment(Some(middle));
    let other = store.create_environment(Some(root));
    store.declare_in(root, "a".to_string(), Value::integer(1), false).unwrap();
    store.declare_in(middle, "b".to_string(), Value::integer(2), false).unwrap();
    store.declare_in(leaf, "a".to_string(), Value::integer(3), false).unwrap();
    let from_leaf = store.get_scope(leaf).unwrap();
    assert_eq!(integer_of(&from_leaf.lookup_variable("a".to_string(), &store).unwrap()), 3);
    assert_eq!(integer_of(&from_leaf.lookup_variable("b".to_string(), &store).unwrap()), 2);
    assert_eq!(from_leaf.resolve("a".to_string(), &store).unwrap(), leaf);
    assert_eq!(from_leaf.resolve("b".to_string(), &store).unwrap(), middle);
    let from_other = store.get_scope(other).unwrap();
    assert_eq!(integer_of(&from_other.lookup_variable("a".to_string(), &store).unwrap()), 1);
    assert!(from_other.lookup_variable_safe("b".to_string(), &store).is_none());
    match from_other.lookup_variable("b".to_string(), &store) {
        Err(InterpreterError::UnresolvedVariable(name)) => assert_eq!(name, "b"),
        other => panic!("unexpected result: {:?}", other),
    }
    assert!(matches!(
        from_other.resolve("zz".to_string(), &store),
        Err(InterpreterError::UnresolvedVariable(_))
    ));
    assert_eq!(store.resolve_mut(leaf, "b".to_string()).unwrap(), middle);
}

#[test]
fn assignment_reaches_the_nearest_binding() {
    let mut store = ScopeState::new();
    let root = store.create_environment(None);
    let child = store.create_environment(Some(root));
    store.declare_in(root, "a".to_string(), Value::integer(1), false).unwrap();
    let assigned = store.assign_variable("a".to_string(), Value::integer(9), child, false).unwrap();
    assert_eq!(integer_of(&assigned), 9);
    assert_eq!(integer_of(store.lookup_in(root, &"a".to_string()).unwrap()), 9);
    assert!(store.get_scope(child).unwrap().variables.is_empty());
    match store.assign_variable("nope".to_string(), Value::integer(1), child, false) {
        Err(InterpreterError::UnresolvedVariable(name)) => assert_eq!(name, "nope"),
        other => panic!("unexpected result: {:?}", other),
    }
}

#[test]
fn constants_are_protected_at_every_depth() {
    let mut store = ScopeState::new();
    let root = store.create_environment(None);
    store.declare_in(root, "c".to_string(), Value::integer(1), true).unwrap();
    let mut scope = root;
    for _ in 0..5 {
        scope = store.create_environment(Some(scope));
        match store.assign_variable("c".to_string(), Value::integer(2), scope, false) {
            Err(InterpreterError::ReassignConstant(name)) => assert_eq!(name, "c"),
            other => panic!("unexpected result: {:?}", other),
        }
    }
    assert_eq!(integer_of(store.lookup_in(scope, &"c".to_string()).unwrap()), 1);
    store.assign_variable("c".to_string(), Value::integer(5), scope, true).unwrap();
    assert_eq!(integer_of(store.lookup_in(scope, &"c".to_string()).unwrap()), 5);
}

#[test]
fn store_operations_name_a_missing_scope() {
    let mut store = ScopeState::new();
    assert!(matches!(
        store.declare_in(4, "a".to_string(), Value::null(), false),
        Err(InterpreterError::UnresolvedEnvironment(4))
    ));
    assert!(matches!(
        store.assign_in(4, "a".to_string(), Value::null(), false),
        Err(InterpreterError::UnresolvedEnvironment(4))
    ));
    assert!(matches!(
        store.lookup_in(4, &"a".to_string()),
        Err(InterpreterError::UnresolvedEnvironment(4))
    ));
}

#[test]
fn scope_can_be_changed_in_place() {
    let mut store = ScopeState::new();
    let root = store.create_environment(None);
    store
        .get_scope_mut(root)
        .unwrap()
        .declare_variable("a".to_string(), Value::integer(4), true)
        .unwrap();
    assert_eq!(integer_of(store.lookup_in(root, &"a".to_string()).unwrap()), 4);
    assert_eq!(store.get_scope(root).unwrap().constants, vec!["a".to_string()]);
}
