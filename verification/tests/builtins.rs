//! Tests of the builtin bridge functions on host-built values.

use cyoa::game::Context;
use cyoa::script_lib::{
    choice, clear_choices, init_ctxt, new_data, set_state, ScriptErr, STATE_END, STATE_RUN,
};
use cyoa::value::Val;

/// A function handle for tests: queried from a real engine over a
/// trivial module.
fn test_handle() -> smpl::interpreter::FnHandle {
    let parsed =
        smpl::parse_module(smpl::UnparsedModule::anonymous("mod m;\nfn f(a: int) -> int {\nreturn a;\n}"))
            .unwrap();
    let module = smpl::interpreter::VmModule::new(parsed);
    let vm = smpl::interpreter::AVM::new(smpl::interpreter::Std::std(), vec![module]).unwrap();
    vm.query_module("m", "f").unwrap().unwrap()
}

#[test]
fn clear_then_choices_returns_all_in_call_order() {
    let h = test_handle();
    let ctx = init_ctxt();
    let ctx = clear_choices(vec![ctx]).unwrap();
    let ctx = choice(vec![ctx, Val::Function(h), Val::Str("Go left".to_string())]).unwrap();
    let ctx = choice(vec![ctx, Val::Function(h), Val::Str("Go right".to_string())]).unwrap();
    let ctx = choice(vec![ctx, Val::Function(h), Val::Str("Stay".to_string())]).unwrap();
    let ctx = Context::from_value(ctx).unwrap();
    let cs = ctx.choices().unwrap();
    assert_eq!(cs.len(), 3);
    assert_eq!(cs[0].display(), "Go left");
    assert_eq!(cs[1].display(), "Go right");
    assert_eq!(cs[2].display(), "Stay");
}

#[test]
fn clear_choices_empties_a_populated_list() {
    let h = test_handle();
    let ctx = init_ctxt();
    let ctx = choice(vec![ctx, Val::Function(h), Val::Str("One".to_string())]).unwrap();
    let ctx = clear_choices(vec![ctx]).unwrap();
    let ctx = Context::from_value(ctx).unwrap();
    let cs = ctx.choices().unwrap();
    assert_eq!(cs.len(), 0);
}

#[test]
fn choice_rejects_wrong_kind_display() {
    let h = test_handle();
    let ctx = init_ctxt();
    let r = choice(vec![ctx, Val::Function(h), Val::Int(3)]);
    assert!(matches!(r, Err(ScriptErr::WrongKind)));
}

#[test]
fn choice_rejects_wrong_kind_handler() {
    let ctx = init_ctxt();
    let r = choice(vec![ctx, Val::Int(0), Val::Str("x".to_string())]);
    assert!(matches!(r, Err(ScriptErr::WrongKind)));
}

#[test]
fn choice_rejects_wrong_argument_count() {
    let ctx = init_ctxt();
    let r = choice(vec![ctx]);
    assert!(matches!(r, Err(ScriptErr::ArgCount)));
}

#[test]
fn clear_choices_needs_the_list_field() {
    let bare = new_data();
    let r = clear_choices(vec![bare]);
    match r {
        Err(ScriptErr::MissingField(n)) => assert_eq!(n, "choice_list"),
        other => panic!("expected a missing-field error, got {:?}", other.is_ok()),
    }
}

#[test]
fn set_state_overwrites_the_phase() {
    let ctx = init_ctxt();
    let ctx = Context::from_value(set_state(vec![ctx, Val::Int(STATE_END)]).unwrap()).unwrap();
    assert_eq!(ctx.state().unwrap(), STATE_END);
}

#[test]
fn set_state_rejects_a_non_integer_phase() {
    let ctx = init_ctxt();
    let r = set_state(vec![ctx, Val::Str("end".to_string())]);
    assert!(matches!(r, Err(ScriptErr::WrongKind)));
}

#[test]
fn zero_state_context_is_running_with_no_choices() {
    let ctx = Context::from_value(init_ctxt()).unwrap();
    assert_eq!(ctx.state().unwrap(), STATE_RUN);
    assert_eq!(ctx.choices().unwrap().len(), 0);
}

#[test]
fn host_set_state_wrapper_writes_the_field() {
    let mut ctx = Context::from_value(init_ctxt()).unwrap();
    ctx.set_state(STATE_END);
    assert_eq!(ctx.state().unwrap(), STATE_END);
}
