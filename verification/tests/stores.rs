//! Tests of the typed story-variable stores and the generic data ops.

use cyoa::script_lib::{
    get_data, get_flag, get_int, init_ctxt, new_data, set_data, set_flag, set_int, ScriptErr,
};
use cyoa::value::{StructVal, Val};

#[test]
fn set_int_then_get_int_returns_the_value() {
    let ctx = init_ctxt();
    let ctx = set_int(vec![ctx, Val::Str("gold".to_string()), Val::Int(10)]).unwrap();
    let r = get_int(vec![ctx, Val::Str("gold".to_string())]).unwrap();
    assert!(matches!(r, Val::Int(10)));
}

#[test]
fn set_int_overwrites_an_existing_value() {
    let ctx = init_ctxt();
    let ctx = set_int(vec![ctx, Val::Str("gold".to_string()), Val::Int(10)]).unwrap();
    let ctx = set_int(vec![ctx, Val::Str("gold".to_string()), Val::Int(3)]).unwrap();
    let r = get_int(vec![ctx, Val::Str("gold".to_string())]).unwrap();
    assert!(matches!(r, Val::Int(3)));
}

#[test]
fn get_int_of_a_name_never_set_is_an_error_not_zero() {
    let ctx = init_ctxt();
    let r = get_int(vec![ctx, Val::Str("silver".to_string())]);
    match r {
        Err(ScriptErr::UnknownName(n)) => assert_eq!(n, "silver"),
        _ => panic!("expected an unknown-name error"),
    }
}

#[test]
fn stores_are_segregated_by_kind() {
    let ctx = init_ctxt();
    let ctx = set_int(vec![ctx, Val::Str("gold".to_string()), Val::Int(10)]).unwrap();
    let r = get_flag(vec![ctx, Val::Str("gold".to_string())]);
    assert!(matches!(r, Err(ScriptErr::UnknownName(_))));
}

#[test]
fn set_flag_then_get_flag_round_trips() {
    let ctx = init_ctxt();
    let ctx = set_flag(vec![ctx, Val::Str("met_guard".to_string()), Val::Bool(true)]).unwrap();
    let r = get_flag(vec![ctx, Val::Str("met_guard".to_string())]).unwrap();
    assert!(matches!(r, Val::Bool(true)));
}

#[test]
fn set_int_rejects_a_non_integer_value() {
    let ctx = init_ctxt();
    let r = set_int(vec![ctx, Val::Str("gold".to_string()), Val::Str("lots".to_string())]);
    assert!(matches!(r, Err(ScriptErr::WrongKind)));
}

#[test]
fn get_flag_rejects_a_stored_value_of_the_wrong_kind() {
    // Hand-build a context whose flag store holds a string: reading it
    // as a flag is a kind violation, not a coercion.
    let mut flags = StructVal::new();
    flags.set_field("odd".to_string(), Val::Str("yes".to_string()));
    let mut ctx = StructVal::new();
    ctx.set_field("flags".to_string(), Val::Struct(flags));
    let r = get_flag(vec![Val::Struct(ctx), Val::Str("odd".to_string())]);
    assert!(matches!(r, Err(ScriptErr::WrongKind)));
}

#[test]
fn set_int_needs_its_store_field() {
    let bare = new_data();
    let r = set_int(vec![bare, Val::Str("gold".to_string()), Val::Int(1)]);
    match r {
        Err(ScriptErr::MissingField(n)) => assert_eq!(n, "ints"),
        _ => panic!("expected a missing-field error"),
    }
}

#[test]
fn set_data_and_get_data_round_trip_any_kind() {
    let store = new_data();
    let store = set_data(vec![store, Val::Str("k".to_string()), Val::Bool(false)]).unwrap();
    let r = get_data(vec![store, Val::Str("k".to_string())]).unwrap();
    assert!(matches!(r, Val::Bool(false)));
}

#[test]
fn get_data_of_an_unknown_name_is_an_error() {
    let store = new_data();
    let r = get_data(vec![store, Val::Str("missing".to_string())]);
    assert!(matches!(r, Err(ScriptErr::UnknownName(_))));
}
