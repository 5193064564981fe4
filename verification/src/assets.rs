//! Story assets: the parsed script modules of one story.
//!
//! Reading script files off the disk is the caller's business; this
//! module takes the script sources as plain strings and parses each one
//! through the engine.

use vstd::prelude::*;

use crate::engine;

verus! {

/// A failure while loading story assets.
#[derive(Debug)]
pub enum AssetErr {
    /// A script failed to parse; the payload is the engine's diagnostic.
    ScriptErr(String),
}

impl AssetErr {
    /// A human-readable diagnostic for this failure, naming what failed.
    pub fn message(&self) -> (r: String)
        ensures
            self matches AssetErr::ScriptErr(s) ==> r@ == "Script error:\n"@ + s@,
    {
        match self {
            AssetErr::ScriptErr(s) => "Script error:\n".to_owned().concat(s.as_str()),
        }
    }
}

/// The parsed script modules of one story.
pub struct StoryAssets {
    pub scripts: Vec<smpl::ParsedModule>,
}

impl StoryAssets {
    /// Parse each script source into a module, in order.  Succeeds if and
    /// only if the engine's parser accepts every source.
    pub fn load(scripts: Vec<String>) -> (r: Result<StoryAssets, AssetErr>)
        ensures
            r is Ok <==> (forall|i: int|
                0 <= i < scripts@.len() ==> engine::parse_ok((#[trigger] scripts@[i])@)),
            r matches Ok(a) ==> a.scripts@.len() == scripts@.len(),
    {
        match load_scripts(scripts) {
            Ok(ms) => Ok(StoryAssets { scripts: ms }),
            Err(e) => Err(e),
        }
    }
}

/// Parse script sources in order, one module per source.  Succeeds if and
/// only if the engine's parser accepts every source; fails with the
/// engine's diagnostic on the first source that does not parse.
#[verifier::loop_isolation(false)]
pub fn load_scripts(scripts: Vec<String>) -> (r: Result<Vec<smpl::ParsedModule>, AssetErr>)
    ensures
        r is Ok <==> (forall|i: int|
            0 <= i < scripts@.len() ==> engine::parse_ok((#[trigger] scripts@[i])@)),
        r matches Ok(ms) ==> ms@.len() == scripts@.len(),
{
    let ghost all = scripts@;
    let mut rest = scripts;
    let mut modules: Vec<smpl::ParsedModule> = Vec::new();
    while rest.len() > 0
        invariant
            modules@.len() + rest@.len() == all.len(),
            rest@ == all.skip(modules@.len() as int),
            forall|j: int| 0 <= j < modules@.len() ==> engine::parse_ok((#[trigger] all[j])@),
        decreases rest.len(),
    {
        let ghost k = modules@.len() as int;
        let src = rest.remove(0);
        proof {
            assert(src == all[k]);
            assert(rest@ =~= all.skip(k + 1));
        }
        match engine::parse_script(src.as_str()) {
            Ok(m) => modules.push(m),
            Err(e) => {
                proof {
                    assert(0 <= k < all.len());
                    assert(!engine::parse_ok((all[k])@));
                    assert(!(forall|i: int|
                        0 <= i < all.len() ==> engine::parse_ok((#[trigger] all[i])@)));
                }
                return Err(AssetErr::ScriptErr(e));
            },
        }
    }
    Ok(modules)
}

} // verus!
