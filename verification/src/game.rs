//! The game instance and the typed host wrappers over the guest context.
//!
//! A [`GameInstance`] owns the script-engine handle and the single live
//! [`Context`].  The context is never duplicated: when a choice handler
//! runs, the context is moved out of the instance (a placeholder takes
//! its place), handed to the guest, and the handler's returned record
//! becomes the new live context.

use vstd::prelude::*;

use crate::assets::{AssetErr, StoryAssets};
use crate::engine;
use crate::script_lib::{
    choice_list_key, display_key, handle_key, init_ctxt, state_key, ScriptErr,
};
use crate::value::{
    lemma_vals_view, rec_lookup, rec_set, vals_view, GuestVal, StructVal, Val,
};

verus! {

/// Name of the module that must hold a story's entry function.
pub const MAIN_MODULE: &'static str = "main";
/// Name of a story's entry function.
pub const INIT_FN: &'static str = "start";

/// A failure while building or driving a game.
#[derive(Debug)]
pub enum GameErr {
    /// The story's assets could not be loaded.
    AssetErr(AssetErr),
    /// The engine failed, or story content broke the scripting contract.
    ScriptErr(String),
}

impl GameErr {
    /// A human-readable diagnostic for this failure, naming what failed.
    pub fn message(&self) -> (r: String)
        ensures
            self matches GameErr::AssetErr(AssetErr::ScriptErr(s)) ==> r@ == "Script error:\n"@
                + s@,
            self matches GameErr::ScriptErr(s) ==> r@ == "Script Error: "@ + s@,
    {
        match self {
            GameErr::AssetErr(e) => e.message(),
            GameErr::ScriptErr(s) => "Script Error: ".to_owned().concat(s.as_str()),
        }
    }
}

impl From<AssetErr> for GameErr {
    fn from(e: AssetErr) -> (r: GameErr) {
        GameErr::AssetErr(e)
    }
}

impl vstd::std_specs::convert::FromSpecImpl<AssetErr> for GameErr {
    open spec fn obeys_from_spec() -> bool {
        true
    }

    open spec fn from_spec(e: AssetErr) -> GameErr {
        GameErr::AssetErr(e)
    }
}

/// A well-formed choice-list entry: a record whose `handle` field is a
/// function and whose `display` field is a string.
pub open spec fn choice_entry_ok(v: GuestVal) -> bool {
    &&& v is Rec
    &&& rec_lookup(v->Rec_0, handle_key()) matches Some(h) && h is Fun
    &&& rec_lookup(v->Rec_0, display_key()) matches Some(d) && d is Str
}

/// A well-formed choice list: the context's list field is present, is an
/// array, and every element is a well-formed choice-list entry.
pub open spec fn choices_list_ok(cfs: Seq<(Seq<char>, GuestVal)>) -> bool {
    &&& rec_lookup(cfs, choice_list_key()) matches Some(lv) && lv is Arr
    &&& forall|i: int|
        0 <= i < rec_lookup(cfs, choice_list_key())->Some_0->Arr_0.len() ==> choice_entry_ok(
            #[trigger] rec_lookup(cfs, choice_list_key())->Some_0->Arr_0[i],
        )
}

/// The single piece of narrative state threaded through a playthrough:
/// a guest record holding the phase ordinal, the choice list, the display
/// text and the typed story-variable stores.
pub struct Context(pub(crate) StructVal);

impl View for Context {
    type V = Seq<(Seq<char>, GuestVal)>;

    open(crate) spec fn view(&self) -> Seq<(Seq<char>, GuestVal)> {
        self.0@
    }
}

impl Context {
    /// Wrap a guest value as a context.  The value must be a record; any
    /// other kind is a script-contract violation.
    pub fn from_value(v: Val) -> (r: Result<Context, ScriptErr>)
        ensures
            v@ is Rec <==> r is Ok,
            r matches Ok(c) ==> c@ == v@->Rec_0,
    {
        match v {
            Val::Struct(s) => Ok(Context(s)),
            _ => Err(ScriptErr::WrongKind),
        }
    }

    /// The current phase ordinal.  The field must exist and be an
    /// integer; anything else is a script-contract violation.
    pub fn state(&self) -> (r: Result<i32, ScriptErr>)
        ensures
            rec_lookup(self@, state_key()) matches Some(GuestVal::Int(i)) ==> r == Ok::<
                i32,
                ScriptErr,
            >(i),
            rec_lookup(self@, state_key()) is None ==> (r matches Err(ScriptErr::MissingField(n))
                && n@ == state_key()),
            (rec_lookup(self@, state_key()) matches Some(v) && !(v is Int)) ==> r matches Err(
                ScriptErr::WrongKind,
            ),
    {
        let key = "state".to_owned();
        match self.0.get_field(&key) {
            Some(Val::Int(i)) => Ok(*i),
            Some(_) => Err(ScriptErr::WrongKind),
            None => Err(ScriptErr::MissingField(key)),
        }
    }

    /// Overwrite the phase field.
    pub fn set_state(&mut self, state: i32)
        ensures
            final(self)@ == rec_set(old(self)@, state_key(), GuestVal::Int(state)),
    {
        self.0.set_field("state".to_owned(), Val::Int(state));
    }

    /// Materialize the choice list as host-side [`Choice`] wrappers, a
    /// fresh read snapshot in presentation order.  The list must exist,
    /// be an array, and hold well-formed choice records.
    pub fn choices(&self) -> (r: Result<Vec<Choice>, ScriptErr>)
        ensures
            r is Ok <==> choices_list_ok(self@),
            r matches Ok(cs) ==> (rec_lookup(self@, choice_list_key()) matches Some(
                GuestVal::Arr(l),
            ) && cs@.len() == l.len() && (forall|i: int|
                0 <= i < l.len() ==> rec_lookup((#[trigger] l[i])->Rec_0, handle_key()) == Some(
                    GuestVal::Fun(cs@[i].spec_handle()),
                ) && rec_lookup(l[i]->Rec_0, display_key()) == Some(
                    GuestVal::Str(cs@[i].spec_display()),
                ))),
            rec_lookup(self@, choice_list_key()) is None ==> (r matches Err(
                ScriptErr::MissingField(n),
            ) && n@ == choice_list_key()),
            (rec_lookup(self@, choice_list_key()) matches Some(v) && !(v is Arr)) ==> r matches Err(
                ScriptErr::WrongKind,
            ),
    {
        let key = "choice_list".to_owned();
        let vs = match self.0.get_field(&key) {
            Some(Val::Array(vs)) => vs,
            Some(_) => { return Err(ScriptErr::WrongKind); },
            None => { return Err(ScriptErr::MissingField(key)); },
        };
        proof {
            lemma_vals_view(vs@);
        }
        let ghost l = vals_view(vs@);
        let mut out: Vec<Choice> = Vec::new();
        let n = vs.len();
        let mut i: usize = 0;
        while i < n
            invariant
                rec_lookup(self@, choice_list_key()) == Some(GuestVal::Arr(l)),
                n == vs@.len(),
                l == vals_view(vs@),
                l.len() == n,
                forall|j: int| 0 <= j < n ==> l[j] == vs@[j]@,
                i <= n,
                out@.len() == i,
                forall|j: int| 0 <= j < i ==> choice_entry_ok(#[trigger] l[j]),
                forall|j: int|
                    0 <= j < i ==> rec_lookup((#[trigger] l[j])->Rec_0, handle_key()) == Some(
                        GuestVal::Fun(out@[j].spec_handle()),
                    ) && rec_lookup(l[j]->Rec_0, display_key()) == Some(
                        GuestVal::Str(out@[j].spec_display()),
                    ),
            decreases n - i,
        {
            let c = match Choice::from_entry(&vs[i]) {
                Ok(c) => c,
                Err(e) => {
                    proof {
                        assert(l[i as int] == vs@[i as int]@);
                        assert(!choice_entry_ok(l[i as int]));
                    }
                    return Err(e);
                },
            };
            out.push(c);
            i += 1;
        }
        Ok(out)
    }
}

/// One presented option: the label shown to the player and the guest
/// handler to invoke when it is selected.
pub struct Choice {
    pub(crate) display: String,
    pub(crate) handle: smpl::interpreter::FnHandle,
}

impl Choice {
    /// The label of this choice.
    pub open(crate) spec fn spec_display(&self) -> Seq<char> {
        self.display@
    }

    /// The handler of this choice.
    pub open(crate) spec fn spec_handle(&self) -> smpl::interpreter::FnHandle {
        self.handle
    }

    /// Extract one choice-list entry: it must be a record whose `handle`
    /// field is a function and whose `display` field is a string.
    fn from_entry(v: &Val) -> (r: Result<Choice, ScriptErr>)
        ensures
            ({
                &&& v@ matches GuestVal::Rec(fs)
                &&& rec_lookup(fs, handle_key()) matches Some(h) && h is Fun
                &&& rec_lookup(fs, display_key()) matches Some(d) && d is Str
            }) <==> r is Ok,
            r matches Ok(c) ==> ({
                &&& Some(GuestVal::Fun(c.spec_handle())) == rec_lookup(v@->Rec_0, handle_key())
                &&& Some(GuestVal::Str(c.spec_display())) == rec_lookup(v@->Rec_0, display_key())
            }),
    {
        let s = match v {
            Val::Struct(s) => s,
            _ => { return Err(ScriptErr::WrongKind); },
        };
        let handle_name = "handle".to_owned();
        let display_name = "display".to_owned();
        let h = match s.get_field(&handle_name) {
            Some(Val::Function(h)) => *h,
            Some(_) => { return Err(ScriptErr::WrongKind); },
            None => { return Err(ScriptErr::MissingField(handle_name)); },
        };
        let d = match s.get_field(&display_name) {
            Some(Val::Str(d)) => d.clone(),
            Some(_) => { return Err(ScriptErr::WrongKind); },
            None => { return Err(ScriptErr::MissingField(display_name)); },
        };
        Ok(Choice { display: d, handle: h })
    }

    /// The label shown to the player.
    pub fn display(&self) -> (r: String)
        ensures
            r@ == self.spec_display(),
    {
        self.display.clone()
    }

    /// The guest handler invoked when this choice is selected.
    pub fn handle(&self) -> (r: smpl::interpreter::FnHandle)
        ensures
            r == self.spec_handle(),
    {
        self.handle
    }
}

/// Whether `n` is already among `names`.
fn name_taken(names: &Vec<String>, n: &String) -> (r: bool)
    ensures
        r <==> exists|i: int| 0 <= i < names@.len() && (#[trigger] names@[i])@ == n@,
{
    let mut i: usize = 0;
    while i < names.len()
        invariant
            i <= names@.len(),
            forall|j: int| 0 <= j < i ==> (#[trigger] names@[j])@ != n@,
        decreases names@.len() - i,
    {
        if names[i] == *n {
            return true;
        }
        i += 1;
    }
    false
}

/// A loaded story: the engine handle plus the single live context.
pub struct GameInstance {
    pub(crate) vm: smpl::interpreter::AVM,
    pub(crate) context: Context,
}

impl GameInstance {
    /// The engine handle this instance owns.
    pub open(crate) spec fn spec_vm(&self) -> smpl::interpreter::AVM {
        self.vm
    }

    /// The live context of this instance.
    pub open(crate) spec fn spec_context(&self) -> Context {
        self.context
    }

    /// Load a story's parsed script modules together with the
    /// runtime-library module, start the engine, and run the story's
    /// entry function (`start` in module `main`) on a zero-state context.
    /// The entry function's returned record becomes the live context; any
    /// other returned kind is a script-contract violation.  Every failure
    /// is reported as a descriptive script error: two story modules
    /// sharing a declared name, or one reusing the name of the runtime
    /// module or of an engine-library module, is rejected here, because
    /// the engine silently shadows the earlier of two same-named modules
    /// and a story module would be dropped without a word.
    pub fn new(assets: StoryAssets) -> (r: Result<GameInstance, GameErr>)
        ensures
            r is Err ==> r matches Err(GameErr::ScriptErr(_)),
    {
        let mut scripts = assets.scripts;
        let mut modules: Vec<smpl::interpreter::VmModule> = Vec::new();
        let mut names: Vec<String> = Vec::new();
        names.push("rt".to_owned());
        names.push("log".to_owned());
        names.push("math".to_owned());
        names.push("str".to_owned());
        names.push("convert".to_owned());
        names.push("err".to_owned());
        while scripts.len() > 0
            decreases scripts.len(),
        {
            let m = scripts.remove(0);
            match engine::module_name(&m) {
                Some(n) => {
                    if name_taken(&names, &n) {
                        return Err(
                            GameErr::ScriptErr(
                                "module name already taken: ".to_owned().concat(n.as_str()),
                            ),
                        );
                    }
                    names.push(n);
                },
                None => (),
            }
            modules.push(engine::vm_module_of(m));
        }
        modules.push(crate::script_lib::vm_module());
        let vm = match engine::avm_new(modules) {
            Ok(vm) => vm,
            Err(e) => { return Err(GameErr::ScriptErr(e)); },
        };
        let init = match engine::query_entry(&vm, MAIN_MODULE, INIT_FN) {
            Ok(Some(f)) => f,
            Ok(None) => {
                return Err(
                    GameErr::ScriptErr("Failed to find start in module main".to_owned()),
                );
            },
            Err(e) => { return Err(GameErr::ScriptErr(e)); },
        };
        let ctx0 = init_ctxt();
        let result = match engine::eval_fn(&vm, init, Some(ctx0)) {
            Ok(v) => v,
            Err(e) => { return Err(GameErr::ScriptErr(e)); },
        };
        let mut instance = GameInstance { vm, context: Context(StructVal::new()) };
        match instance.install_context(result) {
            Ok(()) => Ok(instance),
            Err(e) => Err(e),
        }
    }

    /// The live context.
    pub fn context(&self) -> (r: &Context)
        ensures
            *r == self.spec_context(),
    {
        &self.context
    }

    /// The live context, for host-side mutation.
    pub fn context_mut(&mut self) -> (r: &mut Context)
        ensures
            *r == old(self).spec_context(),
            final(self).spec_context() == *final(r),
            final(self).spec_vm() == old(self).spec_vm(),
    {
        &mut self.context
    }

    /// Install a handler's returned value as the new live context.  The
    /// value must be a record; anything else is a script-contract
    /// violation that leaves the live context untouched.
    pub fn install_context(&mut self, v: Val) -> (r: Result<(), GameErr>)
        ensures
            v@ is Rec ==> r is Ok && final(self).spec_context()@ == v@->Rec_0
                && final(self).spec_vm() == old(self).spec_vm(),
            !(v@ is Rec) ==> (r matches Err(GameErr::ScriptErr(_)) && *final(self) == *old(self)),
    {
        match v {
            Val::Struct(s) => {
                self.context = Context(s);
                Ok(())
            },
            _ => Err(GameErr::ScriptErr("handler should return a context".to_owned())),
        }
    }

    /// Invoke a choice's handler on the live context and install its
    /// return value as the new live context.  The context is moved out
    /// for the duration of the call (a placeholder takes its place), so
    /// nothing can read stale narrative state while the handler runs; on
    /// failure the placeholder, an empty record, is what remains.
    pub fn execute_choice(&mut self, choice: &Choice) -> (r: Result<(), GameErr>)
        ensures
            final(self).spec_vm() == old(self).spec_vm(),
            r is Err ==> final(self).spec_context()@ == Seq::<(Seq<char>, GuestVal)>::empty(),
            r matches Err(e) ==> e matches GameErr::ScriptErr(_),
    {
        let h = choice.handle();
        let mut taken = Context(StructVal::new());
        core::mem::swap(&mut taken, &mut self.context);
        proof {
            crate::value::lemma_pairs_view(taken.0.fields@);
        }
        let result = match engine::eval_fn(&self.vm, h, Some(Val::Struct(taken.0))) {
            Ok(v) => v,
            Err(e) => {
                proof {
                    crate::value::lemma_pairs_view(self.context.0.fields@);
                }
                return Err(GameErr::ScriptErr(e));
            },
        };
        proof {
            crate::value::lemma_pairs_view(self.context.0.fields@);
        }
        self.install_context(result)
    }
}

} // verus!
