//! The trusted boundary to the `smpl` scripting engine.
//!
//! Everything the library asks of the engine goes through the items here:
//! parsing guest source, building the virtual machine, looking up and
//! running guest functions, and converting values across the boundary.
//! What a guest function returns depends on the loaded scripts, so the
//! evaluation wrappers promise nothing about their results; the verified
//! functions that receive those results state what happens for every
//! possible value.
//!
//! The library's verified functions are proved free of panics; that
//! guarantee stops at this boundary.  The engine aborts the process on
//! certain defective story content instead of returning an error: a
//! malformed source that reaches an unfinished parser path, an integer
//! literal beyond the engine's range, a module importing the same
//! type-declaring module twice, a story-declared builtin that no native
//! function backs, or a guest-side fault such as an indexing error.
//! Such authoring defects are fatal by design, and every shape of them
//! that the engine's public surface lets the host detect beforehand is
//! rejected with a descriptive error first (see
//! [`crate::game::GameInstance::new`]); the remainder live in syntax-tree
//! and interpreter internals this crate cannot reach.

use vstd::prelude::*;

use crate::script_lib::{
    choice, clear_choices, get_flag, get_float, get_int, set_flag, set_float, set_int, set_state,
    ScriptErr,
};
use crate::value::{StructVal, Val};

verus! {

#[verifier::external_type_specification]
#[verifier::external_body]
pub struct ExFnHandle(smpl::interpreter::FnHandle);

#[verifier::external_type_specification]
#[verifier::external_body]
pub struct ExEngineValue(smpl::interpreter::Value);

#[verifier::external_type_specification]
#[verifier::external_body]
pub struct ExEngineStruct(smpl::interpreter::Struct);

#[verifier::external_type_specification]
#[verifier::external_body]
pub struct ExAvm(smpl::interpreter::AVM);

#[verifier::external_type_specification]
#[verifier::external_body]
pub struct ExVmModule(smpl::interpreter::VmModule);

#[verifier::external_type_specification]
#[verifier::external_body]
pub struct ExParsedModule(smpl::ParsedModule);

#[verifier::external_type_specification]
#[verifier::external_body]
pub struct ExFailureError(failure::Error);

/// An engine float, carried through the host opaquely.
///
/// Holds an engine `Value` whose variant is always `Float`; it is built
/// only by [`from_engine`] and handed back to the engine unchanged, so no
/// float arithmetic ever happens host-side.
pub struct EngineFloat {
    pub(crate) raw: smpl::interpreter::Value,
}

/// Relies on smpl's `Value` constructors: rebuilds the engine form of a
/// host value, one variant at a time; a float moves back as the engine
/// value it arrived as.
#[verifier::external_body]
pub(crate) fn to_engine(v: Val) -> smpl::interpreter::Value {
    match v {
        Val::Int(i) => smpl::interpreter::Value::Int(i),
        Val::Float(f) => f.raw,
        Val::Bool(b) => smpl::interpreter::Value::Bool(b),
        Val::Str(s) => smpl::interpreter::Value::String(s),
        Val::Array(vs) => smpl::interpreter::Value::Array(
            vs.into_iter().map(
                |e| std::rc::Rc::new(std::cell::RefCell::new(to_engine(e))),
            ).collect(),
        ),
        Val::Struct(s) => smpl::interpreter::Value::Struct(to_engine_struct(s)),
        Val::Function(h) => smpl::interpreter::Value::Function(h),
        Val::Unit => smpl::interpreter::Value::Unit,
    }
}

/// Relies on smpl's `Struct::new` and `Struct::set_field`: rebuilds the
/// engine form of a host record, field by field.
#[verifier::external_body]
pub(crate) fn to_engine_struct(s: StructVal) -> smpl::interpreter::Struct {
    let mut out = smpl::interpreter::Struct::new();
    for (name, v) in s.fields.into_iter() {
        out.set_field(name, to_engine(v));
    }
    out
}

/// Relies on smpl's `Value` being the eight-variant enum its source
/// shows: converts an engine value into the host form, one variant at a
/// time; a float is kept opaquely as the engine value it is.
#[verifier::external_body]
pub(crate) fn from_engine(v: smpl::interpreter::Value) -> Val {
    match v {
        smpl::interpreter::Value::Int(i) => Val::Int(i),
        f @ smpl::interpreter::Value::Float(_) => Val::Float(EngineFloat { raw: f }),
        smpl::interpreter::Value::Bool(b) => Val::Bool(b),
        smpl::interpreter::Value::String(s) => Val::Str(s),
        smpl::interpreter::Value::Array(vs) => Val::Array(
            vs.into_iter().map(|c| from_engine((*c.borrow()).clone())).collect(),
        ),
        smpl::interpreter::Value::Struct(s) => Val::Struct(from_engine_struct(s)),
        smpl::interpreter::Value::Function(h) => Val::Function(h),
        smpl::interpreter::Value::Unit => Val::Unit,
    }
}

/// Relies on smpl's `Struct::fields`: converts an engine record into the
/// host form, field by field (engine records have unique field names).
#[verifier::external_body]
pub(crate) fn from_engine_struct(s: smpl::interpreter::Struct) -> StructVal {
    let mut out = StructVal::new();
    for (name, cell) in s.fields() {
        out.set_field(name.to_string(), from_engine((*cell.borrow()).clone()));
    }
    out
}

/// Whether the engine's parser accepts this guest source; parsing is
/// deterministic, so acceptance is a function of the source text alone.
pub uninterp spec fn parse_ok(s: Seq<char>) -> bool;

/// Relies on smpl's `parse_module`: parses one module of guest source,
/// reporting the engine's diagnostic on failure; success depends on the
/// source text alone, and the contract speaks of the calls that return.
/// On some malformed sources the parser aborts the process instead of
/// reporting (an unexpected top-level token reaches an unfinished
/// grammar path; an integer literal beyond the engine's range fails in
/// its tokenizer): an authoring error surfacing loudly, never as
/// silently wrong state, and not expressible as a precondition here.
#[verifier::external_body]
pub(crate) fn parse_script(src: &str) -> (r: Result<smpl::ParsedModule, String>)
    ensures
        r is Ok <==> parse_ok(src@),
{
    smpl::parse_module(smpl::UnparsedModule::anonymous(src)).map_err(|e| format!("{:?}", e))
}

/// Relies on smpl's `ParsedModule` exposing the parsed syntax tree, whose
/// first component is the declared module name: returns that name, or
/// `None` for a source without a `mod` declaration.
#[verifier::external_body]
pub(crate) fn module_name(m: &smpl::ParsedModule) -> Option<String> {
    m.module.0.as_ref().map(|n| n.data().0.clone())
}

/// Relies on smpl's `VmModule::new`: wraps a parsed module for the VM,
/// with no builtins bound.
#[verifier::external_body]
pub(crate) fn vm_module_of(m: smpl::ParsedModule) -> smpl::interpreter::VmModule {
    smpl::interpreter::VmModule::new(m)
}

/// Relies on smpl's `AVM::new` with the engine's standard library:
/// builds the virtual machine from the given modules, reporting the
/// engine's diagnostic on failure.  Two caveats its source shows: of two
/// modules sharing a declared name the engine silently keeps one and
/// drops the other, so callers must reject duplicates first (as
/// [`crate::game::GameInstance::new`] does); and a module importing the
/// same type-declaring module twice aborts the process during import
/// resolution, which cannot be checked host-side because the engine's
/// public surface does not expose a module's import list.
#[verifier::external_body]
pub(crate) fn avm_new(
    modules: Vec<smpl::interpreter::VmModule>,
) -> Result<smpl::interpreter::AVM, String> {
    smpl::interpreter::AVM::new(smpl::interpreter::Std::std(), modules).map_err(
        |e| format!("Failed to start VM.\n{:?}", e),
    )
}

/// Relies on smpl's `AVM::query_module`: looks a guest function up by
/// module and function name; `Ok(None)` when the module exists but the
/// function does not, `Err` when the module does not exist.
#[verifier::external_body]
pub(crate) fn query_entry(
    vm: &smpl::interpreter::AVM,
    module: &str,
    name: &str,
) -> Result<Option<smpl::interpreter::FnHandle>, String> {
    vm.query_module(module, name)
}

/// Relies on smpl's `AVM::eval_fn_args_sync`: runs a guest function to
/// completion on the given argument and converts the result.  What comes
/// back depends on the loaded scripts, so nothing is promised of it.
/// The interpreter aborts the process on guest-side faults (an
/// out-of-bounds index, a value of an unexpected kind, a story-declared
/// builtin with no native binding) and never returns from a looping
/// handler; those defects in story content are fatal by design and lie
/// beyond this library's no-panic guarantee.
#[verifier::external_body]
pub(crate) fn eval_fn(
    vm: &smpl::interpreter::AVM,
    f: smpl::interpreter::FnHandle,
    arg: Option<Val>,
) -> Result<Val, String> {
    let args = arg.map(|v| vec![to_engine(v)]);
    match vm.eval_fn_args_sync(f, args) {
        Ok(v) => Ok(from_engine(v)),
        Err(e) => Err(format!("{:?}", e)),
    }
}

/// Which builtin a guest call names.
#[derive(Clone, Copy)]
pub enum BuiltinKind {
    Choice,
    ClearChoices,
    SetState,
    SetFlag,
    SetInt,
    SetFloat,
    GetFlag,
    GetInt,
    GetFloat,
}

/// Run the named builtin on an already-converted argument list.
pub fn call_builtin(k: BuiltinKind, args: Vec<Val>) -> (r: Result<Val, ScriptErr>) {
    match k {
        BuiltinKind::Choice => choice(args),
        BuiltinKind::ClearChoices => clear_choices(args),
        BuiltinKind::SetState => set_state(args),
        BuiltinKind::SetFlag => set_flag(args),
        BuiltinKind::SetInt => set_int(args),
        BuiltinKind::SetFloat => set_float(args),
        BuiltinKind::GetFlag => get_flag(args),
        BuiltinKind::GetInt => get_int(args),
        BuiltinKind::GetFloat => get_float(args),
    }
}

/// Relies on smpl handing a builtin its evaluated arguments in call
/// order (`None` for a call without arguments): converts each into the
/// host form.
#[verifier::external_body]
fn args_from_engine(args: Option<Vec<smpl::interpreter::Value>>) -> Vec<Val> {
    args.unwrap_or_default().into_iter().map(from_engine).collect()
}

/// Relies on `failure::err_msg`: wraps a diagnostic as the error type the
/// engine expects of a failing builtin.
#[verifier::external_body]
fn engine_error(msg: String) -> failure::Error {
    failure::err_msg(msg)
}

/// Convert a guest call's arguments off the engine boundary, run the
/// named verified builtin, and convert its result back; a violation
/// becomes an evaluation error carrying the builtin's diagnostic.
fn dispatch_builtin(
    k: BuiltinKind,
    args: Option<Vec<smpl::interpreter::Value>>,
) -> Result<smpl::interpreter::Value, failure::Error> {
    let conv = args_from_engine(args);
    match call_builtin(k, conv) {
        Ok(v) => Ok(to_engine(v)),
        Err(e) => Err(engine_error(e.message())),
    }
}

/// The `choice` builtin as the engine calls it.
fn choice_shim(
    args: Option<Vec<smpl::interpreter::Value>>,
) -> Result<smpl::interpreter::Value, failure::Error> {
    dispatch_builtin(BuiltinKind::Choice, args)
}

/// The `clear_choices` builtin as the engine calls it.
fn clear_choices_shim(
    args: Option<Vec<smpl::interpreter::Value>>,
) -> Result<smpl::interpreter::Value, failure::Error> {
    dispatch_builtin(BuiltinKind::ClearChoices, args)
}

/// The `set_state` builtin as the engine calls it.
fn set_state_shim(
    args: Option<Vec<smpl::interpreter::Value>>,
) -> Result<smpl::interpreter::Value, failure::Error> {
    dispatch_builtin(BuiltinKind::SetState, args)
}

/// The `set_flag` builtin as the engine calls it.
fn set_flag_shim(
    args: Option<Vec<smpl::interpreter::Value>>,
) -> Result<smpl::interpreter::Value, failure::Error> {
    dispatch_builtin(BuiltinKind::SetFlag, args)
}

/// The `set_int` builtin as the engine calls it.
fn set_int_shim(
    args: Option<Vec<smpl::interpreter::Value>>,
) -> Result<smpl::interpreter::Value, failure::Error> {
    dispatch_builtin(BuiltinKind::SetInt, args)
}

/// The `set_float` builtin as the engine calls it.
fn set_float_shim(
    args: Option<Vec<smpl::interpreter::Value>>,
) -> Result<smpl::interpreter::Value, failure::Error> {
    dispatch_builtin(BuiltinKind::SetFloat, args)
}

/// The `get_flag` builtin as the engine calls it.
fn get_flag_shim(
    args: Option<Vec<smpl::interpreter::Value>>,
) -> Result<smpl::interpreter::Value, failure::Error> {
    dispatch_builtin(BuiltinKind::GetFlag, args)
}

/// The `get_int` builtin as the engine calls it.
fn get_int_shim(
    args: Option<Vec<smpl::interpreter::Value>>,
) -> Result<smpl::interpreter::Value, failure::Error> {
    dispatch_builtin(BuiltinKind::GetInt, args)
}

/// The `get_float` builtin as the engine calls it.
fn get_float_shim(
    args: Option<Vec<smpl::interpreter::Value>>,
) -> Result<smpl::interpreter::Value, failure::Error> {
    dispatch_builtin(BuiltinKind::GetFloat, args)
}

/// The guest source of the runtime-library module: the `Context` and
/// `Choice` record shapes and the builtin surface that stories call.
pub const RT_LIB: &'static str = "mod rt;

struct Context {
    state: int,
    display: String,
}

struct Choice {
    display: String,
}

builtin fn choice(UNCHECKED) -> Context;
builtin fn clear_choices(c: Context) -> Context;
builtin fn set_state(UNCHECKED) -> Context;
builtin fn set_flag(UNCHECKED) -> Context;
builtin fn set_int(UNCHECKED) -> Context;
builtin fn set_float(UNCHECKED) -> Context;
builtin fn get_flag(UNCHECKED) -> bool;
builtin fn get_int(UNCHECKED) -> int;
builtin fn get_float(UNCHECKED) -> float;
";

/// The runtime-library module, with each declared builtin bound to its
/// native implementation.  Relies on smpl's `parse_module`,
/// `VmModule::new` and `add_builtin`; the embedded source is fixed and
/// parses.
#[verifier::external_body]
pub fn rt_vm_module() -> smpl::interpreter::VmModule {
    let parsed = smpl::parse_module(smpl::UnparsedModule::anonymous(RT_LIB)).unwrap();
    smpl::interpreter::VmModule::new(parsed)
        .add_builtin("choice", choice_shim)
        .add_builtin("clear_choices", clear_choices_shim)
        .add_builtin("set_state", set_state_shim)
        .add_builtin("set_flag", set_flag_shim)
        .add_builtin("set_int", set_int_shim)
        .add_builtin("set_float", set_float_shim)
        .add_builtin("get_flag", get_flag_shim)
        .add_builtin("get_int", get_int_shim)
        .add_builtin("get_float", get_float_shim)
}

} // verus!
