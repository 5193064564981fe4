//! Host side of a choose-your-own-adventure runtime: a narrative state
//! machine whose story content lives in guest scripts run by the `smpl`
//! scripting engine.  The library owns the guest/host value bridge, the
//! builtin functions that scripts call to mutate narrative state, the
//! typed wrappers over the guest context, and the driver that resolves
//! player selections.
//!
//! A deliberate design decision runs through the whole library: a
//! script-contract violation (a wrong argument kind, a missing context
//! field, a read of a story variable never set, an unrecognized phase
//! ordinal, a handler returning a non-record) is reported as a pinned,
//! descriptive error value, never by unwinding — the library's verified
//! functions are proved free of panics, and the engine's own builtin
//! calling convention likewise reports violations by error return.
//! Fatality is the outermost caller's job: the driver program treats
//! every such error as unrecoverable and stops, so a violation is never
//! retried and never silently coerced, while the verified core keeps an
//! exact account of which input produced which error.

use vstd::prelude::*;

pub mod assets;
pub mod engine;
pub mod game;
pub mod game_screen;
pub mod input;
pub mod library;
pub mod script_lib;
pub mod value;

use crate::assets::StoryAssets;
use crate::game::{GameErr, GameInstance};
use crate::game_screen::game_screen;
use crate::input::InputResult;
use crate::library::StoryHandle;

verus! {

/// Play one story to completion: parse its scripts, start the engine,
/// run the entry function, and drive the choice loop with the given
/// pre-resolved player inputs.  With no story selected there is nothing
/// to do; with one selected, the result is an asset error exactly when
/// some script source fails to parse.
pub fn run(
    story: Option<&StoryHandle>,
    scripts: Vec<String>,
    inputs: &Vec<InputResult<i64>>,
) -> (r: Result<(), GameErr>)
    ensures
        story is None ==> r is Ok,
        story is Some ==> ((r matches Err(GameErr::AssetErr(_))) <==> !(forall|i: int|
            0 <= i < scripts@.len() ==> crate::engine::parse_ok((#[trigger] scripts@[i])@))),
{
    match story {
        Some(_) => {
            let assets = match StoryAssets::load(scripts) {
                Ok(a) => a,
                Err(e) => { return Err(GameErr::from(e)); },
            };
            let mut gi = match GameInstance::new(assets) {
                Ok(g) => g,
                Err(e) => { return Err(e); },
            };
            game_screen(&mut gi, inputs)
        },
        None => Ok(()),
    }
}

} // verus!
