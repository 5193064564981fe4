//! The builtin bridge: native implementations of the functions that guest
//! scripts call to mutate narrative state.
//!
//! Every builtin receives the ordered argument list the guest call
//! produced, with the context first and extra arguments after it, checks
//! the kind of each argument, and returns the new authoritative context
//! value.  A wrong argument kind, a missing context field, or a read of a
//! story variable that was never set is a script-contract violation: the
//! builtin reports it as a [`ScriptErr`], which the driver treats as
//! fatal (no retry, no silent coercion).

use vstd::prelude::*;

use crate::value::{
    rec_lookup, rec_set, first_key_index, lemma_first_key_index, lemma_rec_lookup_set,
    lemma_rec_set_shape, GuestVal, StructVal, Val,
};

verus! {

/// Phase ordinal for a story that is still running and presenting choices.
pub const STATE_RUN: i32 = 0;
/// Phase ordinal for a story that has reached its end.
pub const STATE_END: i32 = 1;

/// Name of the context field holding the phase ordinal.
pub open spec fn state_key() -> Seq<char> {
    "state"@
}

/// Name of the context field holding the current choice list.
pub open spec fn choice_list_key() -> Seq<char> {
    "choice_list"@
}

/// Name of the context field holding the display text of the current
/// story beat, and of the choice field holding the label shown to the
/// player.
pub open spec fn display_key() -> Seq<char> {
    "display"@
}

/// Name of the context field holding the boolean story-variable store.
pub open spec fn flags_key() -> Seq<char> {
    "flags"@
}

/// Name of the context field holding the integer story-variable store.
pub open spec fn ints_key() -> Seq<char> {
    "ints"@
}

/// Name of the context field holding the float story-variable store.
pub open spec fn floats_key() -> Seq<char> {
    "floats"@
}

/// Name of the choice field holding the handler function reference.
pub open spec fn handle_key() -> Seq<char> {
    "handle"@
}

/// A script-contract violation observed by a builtin or a wrapper.
#[derive(Debug)]
pub enum ScriptErr {
    /// A builtin was called with the wrong number of arguments.
    ArgCount,
    /// An argument or a stored value had the wrong guest-value kind.
    WrongKind,
    /// The context lacks a field the builtin needs.
    MissingField(String),
    /// A typed-store read of a name that was never set.
    UnknownName(String),
}

impl ScriptErr {
    /// A human-readable diagnostic for this violation, naming the
    /// offending field or story variable where one is involved.
    pub fn message(&self) -> (r: String)
        ensures
            self matches ScriptErr::ArgCount ==> r@ == "wrong number of arguments to a builtin"@,
            self matches ScriptErr::WrongKind ==> r@
                == "argument or field of the wrong guest-value kind"@,
            self matches ScriptErr::MissingField(n) ==> r@ == "context is missing the field "@
                + n@,
            self matches ScriptErr::UnknownName(n) ==> r@ == "story variable was never set: "@
                + n@,
    {
        match self {
            ScriptErr::ArgCount => "wrong number of arguments to a builtin".to_owned(),
            ScriptErr::WrongKind => "argument or field of the wrong guest-value kind".to_owned(),
            ScriptErr::MissingField(n) => "context is missing the field ".to_owned().concat(
                n.as_str(),
            ),
            ScriptErr::UnknownName(n) => "story variable was never set: ".to_owned().concat(
                n.as_str(),
            ),
        }
    }
}

/// The six context field names are pairwise distinct, and the two choice
/// field names differ from each other.
pub proof fn lemma_field_names_distinct()
    ensures
        state_key() != choice_list_key(),
        state_key() != display_key(),
        state_key() != flags_key(),
        state_key() != ints_key(),
        state_key() != floats_key(),
        choice_list_key() != display_key(),
        choice_list_key() != flags_key(),
        choice_list_key() != ints_key(),
        choice_list_key() != floats_key(),
        display_key() != flags_key(),
        display_key() != ints_key(),
        display_key() != floats_key(),
        flags_key() != ints_key(),
        flags_key() != floats_key(),
        ints_key() != floats_key(),
        handle_key() != display_key(),
{
    reveal_strlit("state");
    reveal_strlit("choice_list");
    reveal_strlit("display");
    reveal_strlit("flags");
    reveal_strlit("ints");
    reveal_strlit("floats");
    reveal_strlit("handle");
    assert("state"@.len() == 5);
    assert("choice_list"@.len() == 11);
    assert("display"@.len() == 7);
    assert("flags"@.len() == 5);
    assert("ints"@.len() == 4);
    assert("floats"@.len() == 6);
    assert("handle"@.len() == 6);
    assert("state"@[0] == 's' && "flags"@[0] == 'f');
    assert("floats"@[0] == 'f' && "handle"@[0] == 'h');
}

/// An empty story-variable store, as `new_data` hands it to scripts.
pub fn new_data() -> (r: Val)
    ensures
        r@ == GuestVal::Rec(Seq::<(Seq<char>, GuestVal)>::empty()),
{
    Val::Struct(StructVal::new())
}

/// The well-formed arguments of `set_data`: a store record, a string
/// name, and an arbitrary value to bind.
pub open spec fn set_data_args_ok(args: Seq<Val>) -> bool {
    &&& args.len() == 3
    &&& args[0]@ is Rec
    &&& args[1]@ is Str
}

/// The record `set_data` returns on well-formed arguments.
pub open spec fn set_data_output(args: Seq<Val>) -> GuestVal
    recommends
        set_data_args_ok(args),
{
    GuestVal::Rec(rec_set(args[0]@->Rec_0, args[1]@->Str_0, args[2]@))
}

/// Upsert `name -> value` into a store record: `set_data(store, name, value)`.
pub fn set_data(args: Vec<Val>) -> (r: Result<Val, ScriptErr>)
    ensures
        set_data_args_ok(args@) ==> (r matches Ok(out) && out@ == set_data_output(args@)),
        args@.len() != 3 ==> r matches Err(ScriptErr::ArgCount),
        args@.len() == 3 && !(args@[1]@ is Str) ==> r matches Err(ScriptErr::WrongKind),
        args@.len() == 3 && args@[1]@ is Str && !(args@[0]@ is Rec) ==> r matches Err(
            ScriptErr::WrongKind,
        ),
{
    let mut args = args;
    if args.len() != 3 {
        return Err(ScriptErr::ArgCount);
    }
    let value = args.pop().unwrap();
    let name_v = args.pop().unwrap();
    let store_v = args.pop().unwrap();
    let name = match name_v {
        Val::Str(s) => s,
        _ => { return Err(ScriptErr::WrongKind); },
    };
    let mut store = match store_v {
        Val::Struct(s) => s,
        _ => { return Err(ScriptErr::WrongKind); },
    };
    store.set_field(name, value);
    Ok(Val::Struct(store))
}

/// The well-formed arguments of `get_data`: a store record and a string
/// name that is bound in it.
pub open spec fn get_data_args_ok(args: Seq<Val>) -> bool {
    &&& args.len() == 2
    &&& args[0]@ is Rec
    &&& args[1]@ is Str
    &&& rec_lookup(args[0]@->Rec_0, args[1]@->Str_0) is Some
}

/// Read `name` out of a store record: `get_data(store, name)`.  Reading a
/// name that was never set is a script-contract violation, not a default.
pub fn get_data(args: Vec<Val>) -> (r: Result<Val, ScriptErr>)
    ensures
        get_data_args_ok(args@) ==> (r matches Ok(out) && Some(out@) == rec_lookup(
            args@[0]@->Rec_0,
            args@[1]@->Str_0,
        )),
        args@.len() != 2 ==> r matches Err(ScriptErr::ArgCount),
        args@.len() == 2 && !(args@[1]@ is Str) ==> r matches Err(ScriptErr::WrongKind),
        args@.len() == 2 && args@[1]@ is Str && !(args@[0]@ is Rec) ==> r matches Err(
            ScriptErr::WrongKind,
        ),
        args@.len() == 2 && args@[1]@ is Str && args@[0]@ is Rec && rec_lookup(
            args@[0]@->Rec_0,
            args@[1]@->Str_0,
        ) is None ==> (r matches Err(ScriptErr::UnknownName(n)) && n@ == args@[1]@->Str_0),
{
    let mut args = args;
    if args.len() != 2 {
        return Err(ScriptErr::ArgCount);
    }
    let name_v = args.pop().unwrap();
    let store_v = args.pop().unwrap();
    let name = match name_v {
        Val::Str(s) => s,
        _ => { return Err(ScriptErr::WrongKind); },
    };
    let mut store = match store_v {
        Val::Struct(s) => s,
        _ => { return Err(ScriptErr::WrongKind); },
    };
    match store.take_field(&name) {
        Some(v) => Ok(v),
        None => Err(ScriptErr::UnknownName(name)),
    }
}

/// The fields of a freshly constructed, zero-state context: phase
/// `Running`, empty choice list, empty display text, empty typed stores.
pub open spec fn init_ctxt_fields() -> Seq<(Seq<char>, GuestVal)> {
    rec_set(
        rec_set(
            rec_set(
                rec_set(
                    rec_set(
                        rec_set(
                            Seq::empty(),
                            state_key(),
                            GuestVal::Int(STATE_RUN),
                        ),
                        choice_list_key(),
                        GuestVal::Arr(Seq::empty()),
                    ),
                    display_key(),
                    GuestVal::Str(Seq::empty()),
                ),
                flags_key(),
                GuestVal::Rec(Seq::empty()),
            ),
            ints_key(),
            GuestVal::Rec(Seq::empty()),
        ),
        floats_key(),
        GuestVal::Rec(Seq::empty()),
    )
}

/// The zero-state context value.
pub open spec fn init_ctxt_view() -> GuestVal {
    GuestVal::Rec(init_ctxt_fields())
}

/// What each field of the zero-state context holds.
pub proof fn lemma_init_ctxt_lookups()
    ensures
        rec_lookup(init_ctxt_fields(), state_key()) == Some(GuestVal::Int(STATE_RUN)),
        rec_lookup(init_ctxt_fields(), choice_list_key()) == Some(
            GuestVal::Arr(Seq::empty()),
        ),
        rec_lookup(init_ctxt_fields(), display_key()) == Some(GuestVal::Str(Seq::empty())),
        rec_lookup(init_ctxt_fields(), flags_key()) == Some(GuestVal::Rec(Seq::empty())),
        rec_lookup(init_ctxt_fields(), ints_key()) == Some(GuestVal::Rec(Seq::empty())),
        rec_lookup(init_ctxt_fields(), floats_key()) == Some(GuestVal::Rec(Seq::empty())),
{
    lemma_field_names_distinct();
    let e = Seq::<(Seq<char>, GuestVal)>::empty();
    let s1 = rec_set(e, state_key(), GuestVal::Int(STATE_RUN));
    let s2 = rec_set(s1, choice_list_key(), GuestVal::Arr(Seq::empty()));
    let s3 = rec_set(s2, display_key(), GuestVal::Str(Seq::empty()));
    let s4 = rec_set(s3, flags_key(), GuestVal::Rec(Seq::empty()));
    let s5 = rec_set(s4, ints_key(), GuestVal::Rec(Seq::empty()));
    lemma_rec_lookup_set(e, state_key(), GuestVal::Int(STATE_RUN), state_key());
    lemma_rec_lookup_set(s1, choice_list_key(), GuestVal::Arr(Seq::empty()), state_key());
    lemma_rec_lookup_set(s2, display_key(), GuestVal::Str(Seq::empty()), state_key());
    lemma_rec_lookup_set(s3, flags_key(), GuestVal::Rec(Seq::empty()), state_key());
    lemma_rec_lookup_set(s4, ints_key(), GuestVal::Rec(Seq::empty()), state_key());
    lemma_rec_lookup_set(s5, floats_key(), GuestVal::Rec(Seq::empty()), state_key());
    lemma_rec_lookup_set(s1, choice_list_key(), GuestVal::Arr(Seq::empty()), choice_list_key());
    lemma_rec_lookup_set(s2, display_key(), GuestVal::Str(Seq::empty()), choice_list_key());
    lemma_rec_lookup_set(s3, flags_key(), GuestVal::Rec(Seq::empty()), choice_list_key());
    lemma_rec_lookup_set(s4, ints_key(), GuestVal::Rec(Seq::empty()), choice_list_key());
    lemma_rec_lookup_set(s5, floats_key(), GuestVal::Rec(Seq::empty()), choice_list_key());
    lemma_rec_lookup_set(s2, display_key(), GuestVal::Str(Seq::empty()), display_key());
    lemma_rec_lookup_set(s3, flags_key(), GuestVal::Rec(Seq::empty()), display_key());
    lemma_rec_lookup_set(s4, ints_key(), GuestVal::Rec(Seq::empty()), display_key());
    lemma_rec_lookup_set(s5, floats_key(), GuestVal::Rec(Seq::empty()), display_key());
    lemma_rec_lookup_set(s3, flags_key(), GuestVal::Rec(Seq::empty()), flags_key());
    lemma_rec_lookup_set(s4, ints_key(), GuestVal::Rec(Seq::empty()), flags_key());
    lemma_rec_lookup_set(s5, floats_key(), GuestVal::Rec(Seq::empty()), flags_key());
    lemma_rec_lookup_set(s4, ints_key(), GuestVal::Rec(Seq::empty()), ints_key());
    lemma_rec_lookup_set(s5, floats_key(), GuestVal::Rec(Seq::empty()), ints_key());
    lemma_rec_lookup_set(s5, floats_key(), GuestVal::Rec(Seq::empty()), floats_key());
}

/// Construct the zero-state context handed to a story's entry function.
pub fn init_ctxt() -> (r: Val)
    ensures
        r@ == init_ctxt_view(),
{
    let mut ctx = StructVal::new();
    ctx.set_field("state".to_owned(), Val::Int(STATE_RUN));
    ctx.set_field("choice_list".to_owned(), Val::Array(Vec::new()));
    ctx.set_field("display".to_owned(), Val::Str("".to_owned()));
    ctx.set_field("flags".to_owned(), Val::Struct(StructVal::new()));
    ctx.set_field("ints".to_owned(), Val::Struct(StructVal::new()));
    ctx.set_field("floats".to_owned(), Val::Struct(StructVal::new()));
    proof {
        reveal_strlit("");
        assert(""@ =~= Seq::<char>::empty());
        assert(crate::value::vals_view(Seq::<Val>::empty()) == Seq::<GuestVal>::empty());
    }
    Val::Struct(ctx)
}

/// The well-formed arguments of `set_state`: a context record and an
/// integer phase ordinal.
pub open spec fn set_state_args_ok(args: Seq<Val>) -> bool {
    &&& args.len() == 2
    &&& args[0]@ is Rec
    &&& args[1]@ is Int
}

/// The context `set_state` returns on well-formed arguments.
pub open spec fn set_state_output(args: Seq<Val>) -> GuestVal
    recommends
        set_state_args_ok(args),
{
    GuestVal::Rec(rec_set(args[0]@->Rec_0, state_key(), args[1]@))
}

/// Overwrite the context's phase field: `set_state(context, new_state)`.
/// The only sanctioned way scripts request an end-of-story transition.
pub fn set_state(args: Vec<Val>) -> (r: Result<Val, ScriptErr>)
    ensures
        set_state_args_ok(args@) ==> (r matches Ok(out) && out@ == set_state_output(args@)),
        args@.len() != 2 ==> r matches Err(ScriptErr::ArgCount),
        args@.len() == 2 && !(args@[1]@ is Int) ==> r matches Err(ScriptErr::WrongKind),
        args@.len() == 2 && args@[1]@ is Int && !(args@[0]@ is Rec) ==> r matches Err(
            ScriptErr::WrongKind,
        ),
{
    let mut args = args;
    if args.len() != 2 {
        return Err(ScriptErr::ArgCount);
    }
    let state_v = args.pop().unwrap();
    let ctx_v = args.pop().unwrap();
    match &state_v {
        Val::Int(_) => (),
        _ => { return Err(ScriptErr::WrongKind); },
    }
    let mut ctx = match ctx_v {
        Val::Struct(s) => s,
        _ => { return Err(ScriptErr::WrongKind); },
    };
    ctx.set_field("state".to_owned(), state_v);
    Ok(Val::Struct(ctx))
}

/// The well-formed arguments of `clear_choices`: a context record whose
/// choice list is present and is an array.
pub open spec fn clear_choices_args_ok(args: Seq<Val>) -> bool {
    &&& args.len() == 1
    &&& args[0]@ is Rec
    &&& rec_lookup(args[0]@->Rec_0, choice_list_key()) matches Some(l) && l is Arr
}

/// The context `clear_choices` returns on well-formed arguments.
pub open spec fn clear_choices_output(args: Seq<Val>) -> GuestVal
    recommends
        clear_choices_args_ok(args),
{
    GuestVal::Rec(rec_set(args[0]@->Rec_0, choice_list_key(), GuestVal::Arr(Seq::empty())))
}

/// Empty the context's choice list: `clear_choices(context)`.  Called
/// before a narrative step re-populates the list, so stale options never
/// leak into the next decision point.
pub fn clear_choices(args: Vec<Val>) -> (r: Result<Val, ScriptErr>)
    ensures
        clear_choices_args_ok(args@) ==> (r matches Ok(out) && out@ == clear_choices_output(
            args@,
        )),
        args@.len() != 1 ==> r matches Err(ScriptErr::ArgCount),
        args@.len() == 1 && !(args@[0]@ is Rec) ==> r matches Err(ScriptErr::WrongKind),
        args@.len() == 1 && args@[0]@ is Rec && rec_lookup(args@[0]@->Rec_0, choice_list_key())
            is None ==> (r matches Err(ScriptErr::MissingField(n)) && n@ == choice_list_key()),
        args@.len() == 1 && args@[0]@ is Rec && (rec_lookup(args@[0]@->Rec_0, choice_list_key())
            matches Some(l) && !(l is Arr)) ==> r matches Err(ScriptErr::WrongKind),
{
    let mut args = args;
    if args.len() != 1 {
        return Err(ScriptErr::ArgCount);
    }
    let ctx_v = args.pop().unwrap();
    let mut ctx = match ctx_v {
        Val::Struct(s) => s,
        _ => { return Err(ScriptErr::WrongKind); },
    };
    let key = "choice_list".to_owned();
    proof {
        lemma_first_key_index(ctx@, choice_list_key());
        lemma_rec_set_shape(ctx@, choice_list_key(), GuestVal::Arr(Seq::empty()));
    }
    let i = match ctx.find_field(&key) {
        Some(i) => i,
        None => { return Err(ScriptErr::MissingField(key)); },
    };
    let old_list = ctx.swap_field_value(i, Val::Array(Vec::new()));
    match old_list {
        Val::Array(_) => {
            proof {
                assert(crate::value::vals_view(Seq::<Val>::empty()) == Seq::<GuestVal>::empty());
            }
            Ok(Val::Struct(ctx))
        },
        _ => Err(ScriptErr::WrongKind),
    }
}

/// One entry of the choice list: a record pairing the handler function
/// with the label shown to the player.
pub open spec fn choice_entry(h: smpl::interpreter::FnHandle, d: Seq<char>) -> GuestVal {
    GuestVal::Rec(seq![(handle_key(), GuestVal::Fun(h)), (display_key(), GuestVal::Str(d))])
}

/// The well-formed arguments of `choice`: a context record whose choice
/// list is present and is an array, a handler function, and a label.
pub open spec fn choice_args_ok(args: Seq<Val>) -> bool {
    &&& args.len() == 3
    &&& args[0]@ is Rec
    &&& args[1]@ is Fun
    &&& args[2]@ is Str
    &&& rec_lookup(args[0]@->Rec_0, choice_list_key()) matches Some(l) && l is Arr
}

/// The context `choice` returns on well-formed arguments: the same
/// context with one entry appended to the choice list.
pub open spec fn choice_output(args: Seq<Val>) -> GuestVal
    recommends
        choice_args_ok(args),
{
    let cfs = args[0]@->Rec_0;
    let lst = rec_lookup(cfs, choice_list_key())->Some_0->Arr_0;
    GuestVal::Rec(
        rec_set(
            cfs,
            choice_list_key(),
            GuestVal::Arr(lst.push(choice_entry(args[1]@->Fun_0, args[2]@->Str_0))),
        ),
    )
}

/// Append one choice to the context's choice list:
/// `choice(context, handler, display)`.  Call order is display order.
pub fn choice(args: Vec<Val>) -> (r: Result<Val, ScriptErr>)
    ensures
        choice_args_ok(args@) ==> (r matches Ok(out) && out@ == choice_output(args@)),
        args@.len() != 3 ==> r matches Err(ScriptErr::ArgCount),
        args@.len() == 3 && !(args@[2]@ is Str) ==> r matches Err(ScriptErr::WrongKind),
        args@.len() == 3 && args@[2]@ is Str && !(args@[1]@ is Fun) ==> r matches Err(
            ScriptErr::WrongKind,
        ),
        args@.len() == 3 && args@[2]@ is Str && args@[1]@ is Fun && !(args@[0]@ is Rec)
            ==> r matches Err(ScriptErr::WrongKind),
        args@.len() == 3 && args@[2]@ is Str && args@[1]@ is Fun && args@[0]@ is Rec && rec_lookup(
            args@[0]@->Rec_0,
            choice_list_key(),
        ) is None ==> (r matches Err(ScriptErr::MissingField(n)) && n@ == choice_list_key()),
        args@.len() == 3 && args@[2]@ is Str && args@[1]@ is Fun && args@[0]@ is Rec && (
        rec_lookup(args@[0]@->Rec_0, choice_list_key()) matches Some(l) && !(l is Arr))
            ==> r matches Err(ScriptErr::WrongKind),
{
    let ghost a0 = args@;
    let mut args = args;
    if args.len() != 3 {
        return Err(ScriptErr::ArgCount);
    }
    let display_v = args.pop().unwrap();
    let handler_v = args.pop().unwrap();
    let ctx_v = args.pop().unwrap();
    proof {
        assert(display_v == a0[2]);
        assert(handler_v == a0[1]);
        assert(ctx_v == a0[0]);
    }
    let display = match display_v {
        Val::Str(s) => s,
        _ => { return Err(ScriptErr::WrongKind); },
    };
    let handler = match handler_v {
        Val::Function(h) => h,
        _ => { return Err(ScriptErr::WrongKind); },
    };
    let mut ctx = match ctx_v {
        Val::Struct(s) => s,
        _ => { return Err(ScriptErr::WrongKind); },
    };
    let ghost cfs = ctx@;
    let key = "choice_list".to_owned();
    proof {
        lemma_first_key_index(cfs, choice_list_key());
    }
    let i = match ctx.find_field(&key) {
        Some(i) => i,
        None => { return Err(ScriptErr::MissingField(key)); },
    };
    let old_list = ctx.swap_field_value(i, Val::Unit);
    let mut vs = match old_list {
        Val::Array(vs) => vs,
        _ => { return Err(ScriptErr::WrongKind); },
    };
    let ghost d = display@;
    let mut entry = StructVal::new();
    entry.set_field("handle".to_owned(), Val::Function(handler));
    entry.set_field("display".to_owned(), Val::Str(display));
    proof {
        lemma_field_names_distinct();
        let s1 = rec_set(
            Seq::<(Seq<char>, GuestVal)>::empty(),
            handle_key(),
            GuestVal::Fun(handler),
        );
        assert(s1 =~= seq![(handle_key(), GuestVal::Fun(handler))]);
        lemma_first_key_index(s1, display_key());
        if first_key_index(s1, display_key()) < 1 {
            assert(s1[0].0 == display_key());
        }
        lemma_rec_set_shape(s1, display_key(), GuestVal::Str(d));
        assert(entry@ == s1.push((display_key(), GuestVal::Str(d))));
        assert(entry@ =~= choice_entry(handler, d)->Rec_0);
        crate::value::lemma_vals_view(vs@);
    }
    let ghost old_vs = crate::value::vals_view(vs@);
    vs.push(Val::Struct(entry));
    proof {
        crate::value::lemma_vals_view(vs@);
        assert(crate::value::vals_view(vs@) =~= old_vs.push(choice_entry(handler, d)));
    }
    let _ = ctx.swap_field_value(i, Val::Array(vs));
    proof {
        lemma_rec_set_shape(cfs, choice_list_key(), GuestVal::Arr(
            old_vs.push(choice_entry(handler, d)),
        ));
        assert(ctx@ =~= rec_set(
            cfs,
            choice_list_key(),
            GuestVal::Arr(old_vs.push(choice_entry(handler, d))),
        ));
        assert(d == a0[2]@->Str_0);
        assert(old_vs == rec_lookup(cfs, choice_list_key())->Some_0->Arr_0);
    }
    Ok(Val::Struct(ctx))
}

/// Which typed story-variable store a builtin addresses.
#[derive(Clone, Copy)]
pub enum StoreKind {
    Flag,
    Int,
    Float,
}

/// The context field name of the given typed store.
pub open spec fn store_field_key(k: StoreKind) -> Seq<char> {
    match k {
        StoreKind::Flag => flags_key(),
        StoreKind::Int => ints_key(),
        StoreKind::Float => floats_key(),
    }
}

/// Whether a value has the kind the given typed store holds.
pub open spec fn store_kind_ok(k: StoreKind, v: GuestVal) -> bool {
    match k {
        StoreKind::Flag => v is Bool,
        StoreKind::Int => v is Int,
        StoreKind::Float => v is Float,
    }
}

/// The context field name of the given typed store, as an owned string.
fn store_field_name(k: StoreKind) -> (r: String)
    ensures
        r@ == store_field_key(k),
{
    match k {
        StoreKind::Flag => "flags".to_owned(),
        StoreKind::Int => "ints".to_owned(),
        StoreKind::Float => "floats".to_owned(),
    }
}

/// The well-formed arguments of a typed-store set: a context record whose
/// store field is present and is a record, a string name, and a value of
/// the store's kind.
pub open spec fn set_store_args_ok(k: StoreKind, args: Seq<Val>) -> bool {
    &&& args.len() == 3
    &&& args[0]@ is Rec
    &&& args[1]@ is Str
    &&& store_kind_ok(k, args[2]@)
    &&& rec_lookup(args[0]@->Rec_0, store_field_key(k)) matches Some(s) && s is Rec
}

/// The context a typed-store set returns on well-formed arguments: the
/// same context with `name -> value` upserted into the store.
pub open spec fn set_store_output(k: StoreKind, args: Seq<Val>) -> GuestVal
    recommends
        set_store_args_ok(k, args),
{
    let cfs = args[0]@->Rec_0;
    let sfs = rec_lookup(cfs, store_field_key(k))->Some_0->Rec_0;
    GuestVal::Rec(
        rec_set(
            cfs,
            store_field_key(k),
            GuestVal::Rec(rec_set(sfs, args[1]@->Str_0, args[2]@)),
        ),
    )
}

/// Upsert a typed story variable: `(context, name, value)`.  Creates the
/// entry if absent, overwrites if present; no separate declare step.
pub fn set_store(k: StoreKind, args: Vec<Val>) -> (r: Result<Val, ScriptErr>)
    ensures
        set_store_args_ok(k, args@) ==> (r matches Ok(out) && out@ == set_store_output(k, args@)),
        args@.len() != 3 ==> r matches Err(ScriptErr::ArgCount),
        args@.len() == 3 && !store_kind_ok(k, args@[2]@) ==> r matches Err(ScriptErr::WrongKind),
        args@.len() == 3 && store_kind_ok(k, args@[2]@) && !(args@[1]@ is Str) ==> r matches Err(
            ScriptErr::WrongKind,
        ),
        args@.len() == 3 && store_kind_ok(k, args@[2]@) && args@[1]@ is Str && !(args@[0]@ is Rec)
            ==> r matches Err(ScriptErr::WrongKind),
        args@.len() == 3 && store_kind_ok(k, args@[2]@) && args@[1]@ is Str && args@[0]@ is Rec
            && rec_lookup(args@[0]@->Rec_0, store_field_key(k)) is None ==> (r matches Err(
            ScriptErr::MissingField(n),
        ) && n@ == store_field_key(k)),
        args@.len() == 3 && store_kind_ok(k, args@[2]@) && args@[1]@ is Str && args@[0]@ is Rec
            && (rec_lookup(args@[0]@->Rec_0, store_field_key(k)) matches Some(s) && !(s is Rec))
            ==> r matches Err(ScriptErr::WrongKind),
{
    let ghost a0 = args@;
    let mut args = args;
    if args.len() != 3 {
        return Err(ScriptErr::ArgCount);
    }
    let value = args.pop().unwrap();
    let name_v = args.pop().unwrap();
    let ctx_v = args.pop().unwrap();
    proof {
        assert(value == a0[2]);
        assert(name_v == a0[1]);
        assert(ctx_v == a0[0]);
    }
    let kind_ok: bool = match (k, &value) {
        (StoreKind::Flag, Val::Bool(_)) => true,
        (StoreKind::Int, Val::Int(_)) => true,
        (StoreKind::Float, Val::Float(_)) => true,
        _ => false,
    };
    if !kind_ok {
        return Err(ScriptErr::WrongKind);
    }
    let name = match name_v {
        Val::Str(s) => s,
        _ => { return Err(ScriptErr::WrongKind); },
    };
    let mut ctx = match ctx_v {
        Val::Struct(s) => s,
        _ => { return Err(ScriptErr::WrongKind); },
    };
    let ghost cfs = ctx@;
    let key = store_field_name(k);
    proof {
        lemma_first_key_index(cfs, store_field_key(k));
    }
    let i = match ctx.find_field(&key) {
        Some(i) => i,
        None => { return Err(ScriptErr::MissingField(key)); },
    };
    let old_store = ctx.swap_field_value(i, Val::Unit);
    let mut store = match old_store {
        Val::Struct(s) => s,
        _ => { return Err(ScriptErr::WrongKind); },
    };
    let ghost sfs = store@;
    store.set_field(name, value);
    let _ = ctx.swap_field_value(i, Val::Struct(store));
    proof {
        lemma_rec_set_shape(cfs, store_field_key(k), GuestVal::Rec(rec_set(sfs, a0[1]@->Str_0, a0[2]@)));
        assert(ctx@ =~= rec_set(
            cfs,
            store_field_key(k),
            GuestVal::Rec(rec_set(sfs, a0[1]@->Str_0, a0[2]@)),
        ));
        assert(sfs == rec_lookup(cfs, store_field_key(k))->Some_0->Rec_0);
    }
    Ok(Val::Struct(ctx))
}

/// The well-formed arguments of a typed-store get: a context record whose
/// store field is present and is a record, and a name bound in the store
/// to a value of the store's kind.
pub open spec fn get_store_args_ok(k: StoreKind, args: Seq<Val>) -> bool {
    &&& args.len() == 2
    &&& args[0]@ is Rec
    &&& args[1]@ is Str
    &&& rec_lookup(args[0]@->Rec_0, store_field_key(k)) matches Some(s) && s is Rec
    &&& rec_lookup(
        rec_lookup(args[0]@->Rec_0, store_field_key(k))->Some_0->Rec_0,
        args[1]@->Str_0,
    ) matches Some(v) && store_kind_ok(k, v)
}

/// Read a typed story variable: `(context, name)`.  Reading a name that
/// was never set is a script-contract violation, not a default value.
pub fn get_store(k: StoreKind, args: Vec<Val>) -> (r: Result<Val, ScriptErr>)
    ensures
        get_store_args_ok(k, args@) ==> (r matches Ok(out) && Some(out@) == rec_lookup(
            rec_lookup(args@[0]@->Rec_0, store_field_key(k))->Some_0->Rec_0,
            args@[1]@->Str_0,
        )),
        args@.len() != 2 ==> r matches Err(ScriptErr::ArgCount),
        args@.len() == 2 && !(args@[1]@ is Str) ==> r matches Err(ScriptErr::WrongKind),
        args@.len() == 2 && args@[1]@ is Str && !(args@[0]@ is Rec) ==> r matches Err(
            ScriptErr::WrongKind,
        ),
        args@.len() == 2 && args@[1]@ is Str && args@[0]@ is Rec && rec_lookup(
            args@[0]@->Rec_0,
            store_field_key(k),
        ) is None ==> (r matches Err(ScriptErr::MissingField(n)) && n@ == store_field_key(k)),
        args@.len() == 2 && args@[1]@ is Str && args@[0]@ is Rec && (rec_lookup(
            args@[0]@->Rec_0,
            store_field_key(k),
        ) matches Some(s) && !(s is Rec)) ==> r matches Err(ScriptErr::WrongKind),
        args@.len() == 2 && args@[1]@ is Str && args@[0]@ is Rec && rec_lookup(
            args@[0]@->Rec_0,
            store_field_key(k),
        ) is Some && rec_lookup(args@[0]@->Rec_0, store_field_key(k))->Some_0 is Rec
            && rec_lookup(
            rec_lookup(args@[0]@->Rec_0, store_field_key(k))->Some_0->Rec_0,
            args@[1]@->Str_0,
        ) is None ==> (r matches Err(ScriptErr::UnknownName(n)) && n@ == args@[1]@->Str_0),
        args@.len() == 2 && args@[1]@ is Str && args@[0]@ is Rec && rec_lookup(
            args@[0]@->Rec_0,
            store_field_key(k),
        ) is Some && rec_lookup(args@[0]@->Rec_0, store_field_key(k))->Some_0 is Rec
            && rec_lookup(
            rec_lookup(args@[0]@->Rec_0, store_field_key(k))->Some_0->Rec_0,
            args@[1]@->Str_0,
        ) is Some && !store_kind_ok(
            k,
            rec_lookup(
                rec_lookup(args@[0]@->Rec_0, store_field_key(k))->Some_0->Rec_0,
                args@[1]@->Str_0,
            )->Some_0,
        ) ==> r matches Err(ScriptErr::WrongKind),
{
    let ghost a0 = args@;
    let mut args = args;
    if args.len() != 2 {
        return Err(ScriptErr::ArgCount);
    }
    let name_v = args.pop().unwrap();
    let ctx_v = args.pop().unwrap();
    proof {
        assert(name_v == a0[1]);
        assert(ctx_v == a0[0]);
    }
    let name = match name_v {
        Val::Str(s) => s,
        _ => { return Err(ScriptErr::WrongKind); },
    };
    let mut ctx = match ctx_v {
        Val::Struct(s) => s,
        _ => { return Err(ScriptErr::WrongKind); },
    };
    let key = store_field_name(k);
    let store_v = match ctx.take_field(&key) {
        Some(v) => v,
        None => { return Err(ScriptErr::MissingField(key)); },
    };
    let mut store = match store_v {
        Val::Struct(s) => s,
        _ => { return Err(ScriptErr::WrongKind); },
    };
    let found = match store.take_field(&name) {
        Some(v) => v,
        None => { return Err(ScriptErr::UnknownName(name)); },
    };
    let kind_ok: bool = match (k, &found) {
        (StoreKind::Flag, Val::Bool(_)) => true,
        (StoreKind::Int, Val::Int(_)) => true,
        (StoreKind::Float, Val::Float(_)) => true,
        _ => false,
    };
    if !kind_ok {
        return Err(ScriptErr::WrongKind);
    }
    Ok(found)
}

/// Upsert a boolean story flag: `set_flag(context, name, value)`.
pub fn set_flag(args: Vec<Val>) -> (r: Result<Val, ScriptErr>)
    ensures
        set_store_args_ok(StoreKind::Flag, args@) ==> (r matches Ok(out) && out@
            == set_store_output(StoreKind::Flag, args@)),
        !set_store_args_ok(StoreKind::Flag, args@) ==> r is Err,
{
    set_store(StoreKind::Flag, args)
}

/// Upsert an integer story variable: `set_int(context, name, value)`.
pub fn set_int(args: Vec<Val>) -> (r: Result<Val, ScriptErr>)
    ensures
        set_store_args_ok(StoreKind::Int, args@) ==> (r matches Ok(out) && out@
            == set_store_output(StoreKind::Int, args@)),
        !set_store_args_ok(StoreKind::Int, args@) ==> r is Err,
{
    set_store(StoreKind::Int, args)
}

/// Upsert a float story variable: `set_float(context, name, value)`.
pub fn set_float(args: Vec<Val>) -> (r: Result<Val, ScriptErr>)
    ensures
        set_store_args_ok(StoreKind::Float, args@) ==> (r matches Ok(out) && out@
            == set_store_output(StoreKind::Float, args@)),
        !set_store_args_ok(StoreKind::Float, args@) ==> r is Err,
{
    set_store(StoreKind::Float, args)
}

/// Read a boolean story flag: `get_flag(context, name)`.
pub fn get_flag(args: Vec<Val>) -> (r: Result<Val, ScriptErr>)
    ensures
        get_store_args_ok(StoreKind::Flag, args@) ==> (r matches Ok(out) && Some(out@)
            == rec_lookup(
            rec_lookup(args@[0]@->Rec_0, store_field_key(StoreKind::Flag))->Some_0->Rec_0,
            args@[1]@->Str_0,
        )),
        !get_store_args_ok(StoreKind::Flag, args@) ==> r is Err,
{
    get_store(StoreKind::Flag, args)
}

/// Read an integer story variable: `get_int(context, name)`.
pub fn get_int(args: Vec<Val>) -> (r: Result<Val, ScriptErr>)
    ensures
        get_store_args_ok(StoreKind::Int, args@) ==> (r matches Ok(out) && Some(out@)
            == rec_lookup(
            rec_lookup(args@[0]@->Rec_0, store_field_key(StoreKind::Int))->Some_0->Rec_0,
            args@[1]@->Str_0,
        )),
        !get_store_args_ok(StoreKind::Int, args@) ==> r is Err,
{
    get_store(StoreKind::Int, args)
}

/// Read a float story variable: `get_float(context, name)`.
pub fn get_float(args: Vec<Val>) -> (r: Result<Val, ScriptErr>)
    ensures
        get_store_args_ok(StoreKind::Float, args@) ==> (r matches Ok(out) && Some(out@)
            == rec_lookup(
            rec_lookup(args@[0]@->Rec_0, store_field_key(StoreKind::Float))->Some_0->Rec_0,
            args@[1]@->Str_0,
        )),
        !get_store_args_ok(StoreKind::Float, args@) ==> r is Err,
{
    get_store(StoreKind::Float, args)
}

/// The choice list after appending each of `items` in turn with the
/// `choice` builtin: each step pushes one entry onto the list.
pub open spec fn apply_choices(
    cfs: Seq<(Seq<char>, GuestVal)>,
    items: Seq<(smpl::interpreter::FnHandle, Seq<char>)>,
) -> Seq<(Seq<char>, GuestVal)>
    decreases items.len(),
{
    if items.len() == 0 {
        cfs
    } else {
        let prev = apply_choices(cfs, items.drop_last());
        let lst = rec_lookup(prev, choice_list_key())->Some_0->Arr_0;
        rec_set(
            prev,
            choice_list_key(),
            GuestVal::Arr(lst.push(choice_entry(items.last().0, items.last().1))),
        )
    }
}

/// Law: for every context and every sequence of `choice` calls made after
/// one `clear_choices` call, the choice list afterward holds exactly one
/// entry per call, in call order, pairing each handler with its label.
pub proof fn lemma_choices_in_call_order(
    cfs: Seq<(Seq<char>, GuestVal)>,
    items: Seq<(smpl::interpreter::FnHandle, Seq<char>)>,
)
    ensures
        rec_lookup(
            apply_choices(rec_set(cfs, choice_list_key(), GuestVal::Arr(Seq::empty())), items),
            choice_list_key(),
        ) == Some(
            GuestVal::Arr(Seq::new(items.len(), |i: int| choice_entry(items[i].0, items[i].1))),
        ),
    decreases items.len(),
{
    let cleared = rec_set(cfs, choice_list_key(), GuestVal::Arr(Seq::empty()));
    if items.len() == 0 {
        lemma_rec_lookup_set(cfs, choice_list_key(), GuestVal::Arr(Seq::empty()), choice_list_key());
        assert(Seq::new(0, |i: int| choice_entry(items[i].0, items[i].1)) =~= Seq::<
            GuestVal,
        >::empty());
    } else {
        lemma_choices_in_call_order(cfs, items.drop_last());
        let prev = apply_choices(cleared, items.drop_last());
        let prev_list = Seq::new(
            items.drop_last().len(),
            |i: int| choice_entry(items.drop_last()[i].0, items.drop_last()[i].1),
        );
        let lst = rec_lookup(prev, choice_list_key())->Some_0->Arr_0;
        assert(lst == prev_list);
        lemma_rec_lookup_set(
            prev,
            choice_list_key(),
            GuestVal::Arr(lst.push(choice_entry(items.last().0, items.last().1))),
            choice_list_key(),
        );
        assert(lst.push(choice_entry(items.last().0, items.last().1)) =~= Seq::new(
            items.len(),
            |i: int| choice_entry(items[i].0, items[i].1),
        ));
    }
}

/// Law: upserting a typed story variable and reading the same name back
/// through the same store yields exactly the value set, while every other
/// name in that store is left unchanged.
pub proof fn lemma_store_round_trip(
    k: StoreKind,
    cfs: Seq<(Seq<char>, GuestVal)>,
    name: Seq<char>,
    v: GuestVal,
    other: Seq<char>,
)
    requires
        rec_lookup(cfs, store_field_key(k)) matches Some(s) && s is Rec,
        store_kind_ok(k, v),
    ensures
        ({
            let sfs = rec_lookup(cfs, store_field_key(k))->Some_0->Rec_0;
            let out = rec_set(cfs, store_field_key(k), GuestVal::Rec(rec_set(sfs, name, v)));
            &&& rec_lookup(out, store_field_key(k)) == Some(GuestVal::Rec(rec_set(sfs, name, v)))
            &&& rec_lookup(rec_set(sfs, name, v), name) == Some(v)
            &&& (other != name ==> rec_lookup(rec_set(sfs, name, v), other) == rec_lookup(
                sfs,
                other,
            ))
        }),
{
    let sfs = rec_lookup(cfs, store_field_key(k))->Some_0->Rec_0;
    lemma_rec_lookup_set(
        cfs,
        store_field_key(k),
        GuestVal::Rec(rec_set(sfs, name, v)),
        store_field_key(k),
    );
    lemma_rec_lookup_set(sfs, name, v, other);
}

/// The runtime-library module handed to the engine alongside a story's
/// own scripts: the guest-visible record shapes and builtin surface.
pub fn vm_module() -> (r: smpl::interpreter::VmModule) {
    crate::engine::rt_vm_module()
}

} // verus!
