use abi_dispatch::assignments::{assign, SemanticError, Target, Visit};

#[test]
fn assignment_without_target_analyses_nothing() {
    assert_eq!(assign(&vec![]), Ok(vec![]));
}

#[test]
fn assignment_to_a_name_analyses_target_then_value() {
    assert_eq!(assign(&vec![Target::Name]), Ok(vec![Visit::Target, Visit::Value]));
}

#[test]
fn assignment_to_a_subscript_analyses_base_value_and_index() {
    assert_eq!(
        assign(&vec![Target::Subscript]),
        Ok(vec![Visit::Subscripted, Visit::Value, Visit::Index])
    );
}

#[test]
fn assignment_to_anything_else_is_rejected() {
    assert_eq!(assign(&vec![Target::Other]), Err(SemanticError::UnassignableExpression));
}
