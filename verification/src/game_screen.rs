//! The driver: a strictly synchronous request/response cycle over the
//! live context.
//!
//! Each step reads the current phase.  While the story is running, the
//! current choice list is presented and a selection is solicited (both by
//! the caller, which owns rendering and input); a valid selection runs
//! the chosen handler, an out-of-range or invalid one re-prompts without
//! touching any state, and an explicit quit ends the loop.  The `Ended`
//! phase ends the loop normally; any other phase ordinal is an
//! unreachable-state error.

use vstd::prelude::*;

use crate::game::{choices_list_ok, Choice, GameErr, GameInstance};
use crate::input::InputResult;
use crate::script_lib::{choice_list_key, state_key, STATE_END, STATE_RUN};
use crate::value::{rec_lookup, GuestVal};

verus! {

/// What one resolved player input means for the driver loop.
pub enum Decision {
    /// A handler ran; present the next story beat.
    Continue,
    /// The input did not select a choice; ask again.
    Reprompt,
    /// The player asked to leave the story.
    Quit,
}

/// The driver-relevant reading of a context's phase field.
pub enum Phase {
    /// The story is accepting and dispatching choices.
    Running,
    /// The story is over; the loop exits.
    Ended,
}

/// Read and classify the context's phase: `Running` and `Ended` are the
/// only recognized ordinals; a missing field, a non-integer field, or
/// any other ordinal is a fatal script-contract violation, never a
/// default.
pub fn read_phase(ctx: &crate::game::Context) -> (r: Result<Phase, GameErr>)
    ensures
        r == Ok::<Phase, GameErr>(Phase::Running) <==> rec_lookup(ctx@, state_key()) == Some(
            GuestVal::Int(STATE_RUN),
        ),
        r == Ok::<Phase, GameErr>(Phase::Ended) <==> rec_lookup(ctx@, state_key()) == Some(
            GuestVal::Int(STATE_END),
        ),
        r matches Err(e) ==> e matches GameErr::ScriptErr(_),
{
    match ctx.state() {
        Ok(s) => {
            if s == STATE_RUN {
                Ok(Phase::Running)
            } else if s == STATE_END {
                Ok(Phase::Ended)
            } else {
                Err(GameErr::ScriptErr("Unknown state".to_owned()))
            }
        },
        Err(e) => Err(GameErr::ScriptErr(e.message())),
    }
}

/// Check a selection against the number of presented choices.
pub fn validate_selection(n: i64, len: usize) -> (r: Option<usize>)
    ensures
        r is Some <==> 0 <= n < len,
        r matches Some(i) ==> i == n,
{
    if n < 0 {
        return None;
    }
    if (n as u64) < (len as u64) {
        Some(n as usize)
    } else {
        None
    }
}

/// Resolve one player input against the current choice list: quit ends
/// the loop, an invalid or out-of-range input re-prompts and leaves the
/// whole instance untouched, and a valid selection runs that choice's
/// handler.
pub fn game_iteration(gi: &mut GameInstance, input: &InputResult<i64>) -> (r: Result<
    Decision,
    GameErr,
>)
    ensures
        final(gi).spec_vm() == old(gi).spec_vm(),
        r matches Err(e) ==> e matches GameErr::ScriptErr(_),
        !choices_list_ok(old(gi).spec_context()@) ==> r is Err && *final(gi) == *old(gi),
        choices_list_ok(old(gi).spec_context()@) && input is Quit ==> r == Ok::<
            Decision,
            GameErr,
        >(Decision::Quit) && *final(gi) == *old(gi),
        choices_list_ok(old(gi).spec_context()@) && (input matches InputResult::Invalid(_)) ==> r
            == Ok::<Decision, GameErr>(Decision::Reprompt) && *final(gi) == *old(gi),
        choices_list_ok(old(gi).spec_context()@) && (input matches InputResult::Item(sel) && !(0
            <= *sel < rec_lookup(
            old(gi).spec_context()@,
            choice_list_key(),
        )->Some_0->Arr_0.len())) ==> r == Ok::<Decision, GameErr>(Decision::Reprompt) && *final(gi)
            == *old(gi),
        choices_list_ok(old(gi).spec_context()@) && (input matches InputResult::Item(sel) && 0
            <= *sel < rec_lookup(
            old(gi).spec_context()@,
            choice_list_key(),
        )->Some_0->Arr_0.len()) ==> (r matches Ok(d) ==> d == Decision::Continue),
        choices_list_ok(old(gi).spec_context()@) && (input matches InputResult::Item(sel) && 0
            <= *sel < rec_lookup(
            old(gi).spec_context()@,
            choice_list_key(),
        )->Some_0->Arr_0.len()) && r is Err ==> final(gi).spec_context()@ == Seq::<
            (Seq<char>, GuestVal),
        >::empty(),
    {
    let choices: Vec<Choice> = match gi.context().choices() {
        Ok(cs) => cs,
        Err(e) => { return Err(GameErr::ScriptErr(e.message())); },
    };
    match input {
        InputResult::Quit => Ok(Decision::Quit),
        InputResult::Invalid(_) => Ok(Decision::Reprompt),
        InputResult::Item(sel) => {
            match validate_selection(*sel, choices.len()) {
                None => Ok(Decision::Reprompt),
                Some(i) => {
                    let ch = &choices[i];
                    match gi.execute_choice(ch) {
                        Ok(()) => Ok(Decision::Continue),
                        Err(e) => Err(e),
                    }
                },
            }
        },
    }
}

/// The input neither selects one of `len` choices nor quits: it is
/// invalid, or a selection outside `[0, len)`.
pub open spec fn rejected_input(inp: InputResult<i64>, len: int) -> bool {
    ||| inp matches InputResult::Invalid(_)
    ||| (inp matches InputResult::Item(sel) && !(0 <= sel < len))
}

/// Somewhere in `inputs` stands a quit, and every input before it is
/// rejected for a choice list of length `len`.
pub open spec fn quits_after_rejections(inputs: Seq<InputResult<i64>>, len: int) -> bool {
    exists|k: int|
        0 <= k < inputs.len() && ((#[trigger] inputs[k]) matches InputResult::Quit) && (forall|
            j: int,
        |
            0 <= j < k ==> rejected_input(#[trigger] inputs[j], len))
}

/// Drive a story with a pre-resolved sequence of player inputs, one per
/// prompt, until the story ends, the player quits, or the inputs run out
/// (treated as leaving the story).  A context whose phase is the `Ended`
/// ordinal ends the loop at once, with no further handler invoked and
/// the instance untouched; a missing or non-integer phase field, or an
/// ordinal that is neither `Running` nor `Ended`, is a fatal error that
/// also leaves the instance untouched, never a default.  While the story
/// is running, a quit preceded only by rejected inputs, or running out
/// of inputs, ends the loop normally with the instance untouched.
#[verifier::loop_isolation(false)]
pub fn game_screen(gi: &mut GameInstance, inputs: &Vec<InputResult<i64>>) -> (r: Result<
    (),
    GameErr,
>)
    ensures
        final(gi).spec_vm() == old(gi).spec_vm(),
        r matches Err(e) ==> e matches GameErr::ScriptErr(_),
        rec_lookup(old(gi).spec_context()@, state_key()) == Some(GuestVal::Int(STATE_END)) ==> r
            is Ok && *final(gi) == *old(gi),
        rec_lookup(old(gi).spec_context()@, state_key()) is None ==> r is Err && *final(gi)
            == *old(gi),
        (rec_lookup(old(gi).spec_context()@, state_key()) matches Some(v) && !(v is Int)) ==> r
            is Err && *final(gi) == *old(gi),
        (rec_lookup(old(gi).spec_context()@, state_key()) matches Some(GuestVal::Int(s)) && s
            != STATE_RUN && s != STATE_END) ==> r is Err && *final(gi) == *old(gi),
        rec_lookup(old(gi).spec_context()@, state_key()) == Some(GuestVal::Int(STATE_RUN))
            && inputs@.len() == 0 ==> r is Ok && *final(gi) == *old(gi),
        rec_lookup(old(gi).spec_context()@, state_key()) == Some(GuestVal::Int(STATE_RUN))
            && choices_list_ok(old(gi).spec_context()@) && quits_after_rejections(
            inputs@,
            rec_lookup(old(gi).spec_context()@, choice_list_key())->Some_0->Arr_0.len() as int,
        ) ==> r is Ok && *final(gi) == *old(gi),
{
    let ghost running = rec_lookup(old(gi).spec_context()@, state_key()) == Some(
        GuestVal::Int(STATE_RUN),
    );
    let ghost list_len = rec_lookup(
        old(gi).spec_context()@,
        choice_list_key(),
    )->Some_0->Arr_0.len() as int;
    let ghost quitting = running && choices_list_ok(old(gi).spec_context()@)
        && quits_after_rejections(inputs@, list_len);
    let n = inputs.len();
    let mut i: usize = 0;
    proof {
        if quitting {
            assert(inputs@.skip(0) =~= inputs@);
        }
    }
    loop
        invariant
            i <= n,
            n == inputs@.len(),
            gi.spec_vm() == old(gi).spec_vm(),
            i == 0 ==> *gi == *old(gi),
            i > 0 ==> rec_lookup(old(gi).spec_context()@, state_key()) == Some(
                GuestVal::Int(STATE_RUN),
            ),
            quitting ==> *gi == *old(gi) && quits_after_rejections(
                inputs@.skip(i as int),
                list_len,
            ),
        decreases n - i,
    {
        let phase = match read_phase(gi.context()) {
            Ok(p) => p,
            Err(e) => { return Err(e); },
        };
        match phase {
            Phase::Ended => { return Ok(()); },
            Phase::Running => (),
        }
        if i >= n {
            return Ok(());
        }
        let input = &inputs[i];
        let step = game_iteration(gi, input);
        proof {
            if quitting {
                let s1 = inputs@.skip(i as int);
                let k = choose|k: int|
                    0 <= k < s1.len() && ((#[trigger] s1[k]) matches InputResult::Quit) && (forall|
                        j: int,
                    |
                        0 <= j < k ==> rejected_input(#[trigger] s1[j], list_len));
                assert(s1[0] == inputs@[i as int]);
                if k == 0 {
                    assert(step == Ok::<Decision, GameErr>(Decision::Quit));
                } else {
                    assert(rejected_input(s1[0], list_len));
                    assert(step == Ok::<Decision, GameErr>(Decision::Reprompt));
                    let s2 = inputs@.skip(i + 1);
                    assert(s2 =~= s1.drop_first());
                    assert forall|j: int| 0 <= j < k - 1 implies rejected_input(
                        #[trigger] s2[j],
                        list_len,
                    ) by {
                        assert(s2[j] == s1[j + 1]);
                    }
                    assert(s2[k - 1] == s1[k]);
                    assert(quits_after_rejections(s2, list_len));
                }
            }
        }
        i += 1;
        match step {
            Ok(Decision::Quit) => { return Ok(()); },
            Ok(_) => (),
            Err(e) => { return Err(e); },
        }
    }
}

} // verus!
