use std::collections::HashMap;

use cairo_core::compiler::{CompilationError, EditStateError, ReferencesError};
use cairo_core::sierra::edit_state::{put_results, take_args};
use cairo_core::sierra::ids::VarId;

fn state_of(entries: &[(u64, &str)]) -> HashMap<u64, String> {
    entries.iter().map(|(id, value)| (*id, value.to_string())).collect()
}

fn var(id: u64) -> VarId {
    VarId { id }
}

#[test]
fn taking_arguments_removes_them_from_the_state() {
    let state = state_of(&[(1, "a"), (2, "b"), (3, "c")]);
    let (rest, values) = take_args(state, &vec![var(3), var(1)]).unwrap();
    assert_eq!(values, vec!["c".to_string(), "a".to_string()]);
    assert_eq!(rest, state_of(&[(2, "b")]));
    let (same, none) = take_args(rest, &vec![]).unwrap();
    assert!(none.is_empty());
    assert_eq!(same, state_of(&[(2, "b")]));
}

#[test]
fn missing_reference() {
    // A return of the variable 2 where a statement has bound no variable 2.
    let state = state_of(&[(1, "a")]);
    let error = take_args(state, &vec![var(2)]).err().unwrap();
    assert_eq!(error, EditStateError::MissingReference(var(2)));
    let compilation = CompilationError::ReferencesError(ReferencesError::EditStateError(error));
    assert_eq!(compilation.to_string(), "missing reference 2");
    assert_eq!(
        take_args(HashMap::<u64, String>::new(), &vec![var(2)]).err(),
        Some(EditStateError::MissingReference(var(2)))
    );
}

#[test]
fn the_first_missing_reference_is_reported() {
    let state = state_of(&[(1, "a"), (2, "b")]);
    assert_eq!(
        take_args(state.clone(), &vec![var(1), var(5), var(7)]).err(),
        Some(EditStateError::MissingReference(var(5)))
    );
    // A variable can be taken once.
    assert_eq!(
        take_args(state, &vec![var(2), var(1), var(2)]).err(),
        Some(EditStateError::MissingReference(var(2)))
    );
}

#[test]
fn putting_results_adds_them_to_the_state() {
    let state = state_of(&[(1, "a")]);
    let next =
        put_results(state, vec![(var(4), "d".to_string()), (var(2), "b".to_string())]).unwrap();
    assert_eq!(next, state_of(&[(1, "a"), (2, "b"), (4, "d")]));
    assert_eq!(put_results(next.clone(), vec![]).unwrap(), next);
}

#[test]
fn variable_override() {
    let state = state_of(&[(1, "a"), (2, "b")]);
    assert_eq!(
        put_results(state.clone(), vec![(var(3), "c".to_string()), (var(2), "x".to_string())])
            .err(),
        Some(EditStateError::VariableOverride(var(2)))
    );
    assert_eq!(
        put_results(state, vec![(var(3), "c".to_string()), (var(3), "x".to_string())]).err(),
        Some(EditStateError::VariableOverride(var(3)))
    );
}

#[test]
fn a_taken_variable_can_be_bound_again() {
    let state = state_of(&[(1, "a")]);
    let (rest, values) = take_args(state, &vec![var(1)]).unwrap();
    let next = put_results(rest, vec![(var(1), format!("{}!", values[0]))]).unwrap();
    assert_eq!(next, state_of(&[(1, "a!")]));
}
