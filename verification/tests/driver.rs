//! End-to-end tests: stories written in guest source, run through the
//! real engine and driven by the verified loop.

use cyoa::assets::StoryAssets;
use cyoa::game::{GameErr, GameInstance};
use cyoa::game_screen::game_screen;
use cyoa::input::InputResult;
use cyoa::library::{Metadata, StoryHandle};
use cyoa::run;
use cyoa::script_lib::{STATE_END, STATE_RUN};

const TWO_CHOICE_STORY: &str = "mod main;

use rt;

fn go_left(c: rt::Context) -> rt::Context {
return c;
}

fn go_right(c: rt::Context) -> rt::Context {
return rt::set_state(c, 1);
}

fn start(c: rt::Context) -> rt::Context {
return rt::choice(rt::choice(rt::clear_choices(c), go_left, \"Go left\"), go_right, \"Go right\");
}
";

const ENDS_AT_ONCE_STORY: &str = "mod main;

use rt;

fn start(c: rt::Context) -> rt::Context {
return rt::set_state(c, 1);
}
";

fn load(script: &str) -> GameInstance {
    let assets = StoryAssets::load(vec![script.to_string()]).unwrap();
    GameInstance::new(assets).unwrap()
}

#[test]
fn entry_function_populates_two_choices() {
    let gi = load(TWO_CHOICE_STORY);
    assert_eq!(gi.context().state().unwrap(), STATE_RUN);
    let cs = gi.context().choices().unwrap();
    assert_eq!(cs.len(), 2);
    assert_eq!(cs[0].display(), "Go left");
    assert_eq!(cs[1].display(), "Go right");
}

#[test]
fn selecting_the_ending_choice_finishes_the_story() {
    let mut gi = load(TWO_CHOICE_STORY);
    game_screen(&mut gi, &vec![InputResult::Item(1)]).unwrap();
    assert_eq!(gi.context().state().unwrap(), STATE_END);
}

#[test]
fn execute_choice_installs_the_handler_result() {
    let mut gi = load(TWO_CHOICE_STORY);
    let cs = gi.context().choices().unwrap();
    gi.execute_choice(&cs[1]).unwrap();
    assert_eq!(gi.context().state().unwrap(), STATE_END);
}

#[test]
fn out_of_range_selections_change_nothing_and_reprompt() {
    let mut gi = load(TWO_CHOICE_STORY);
    game_screen(&mut gi, &vec![InputResult::Item(9), InputResult::Item(-1)]).unwrap();
    assert_eq!(gi.context().state().unwrap(), STATE_RUN);
    assert_eq!(gi.context().choices().unwrap().len(), 2);
}

#[test]
fn invalid_input_reprompts_then_a_valid_selection_runs() {
    let mut gi = load(TWO_CHOICE_STORY);
    let inputs = vec![
        InputResult::Invalid("abc".to_string()),
        InputResult::Item(7),
        InputResult::Item(1),
    ];
    game_screen(&mut gi, &inputs).unwrap();
    assert_eq!(gi.context().state().unwrap(), STATE_END);
}

#[test]
fn quit_after_rejected_inputs_changes_nothing() {
    let mut gi = load(TWO_CHOICE_STORY);
    let inputs = vec![
        InputResult::Item(9),
        InputResult::Invalid("x".to_string()),
        InputResult::Quit,
    ];
    game_screen(&mut gi, &inputs).unwrap();
    assert_eq!(gi.context().state().unwrap(), STATE_RUN);
    assert_eq!(gi.context().choices().unwrap().len(), 2);
}

#[test]
fn quit_leaves_the_loop_without_ending_the_story() {
    let mut gi = load(TWO_CHOICE_STORY);
    game_screen(&mut gi, &vec![InputResult::Quit]).unwrap();
    assert_eq!(gi.context().state().unwrap(), STATE_RUN);
}

#[test]
fn an_ended_context_stops_the_loop_before_any_handler() {
    let mut gi = load(ENDS_AT_ONCE_STORY);
    assert_eq!(gi.context().state().unwrap(), STATE_END);
    game_screen(&mut gi, &vec![InputResult::Item(0)]).unwrap();
    assert_eq!(gi.context().state().unwrap(), STATE_END);
}

#[test]
fn floats_round_trip_through_the_context_opaquely() {
    let story = "mod main;

use rt;

fn dive(c: rt::Context) -> rt::Context {
if (rt::get_float(c, \"depth\") == 2.5) {
return rt::set_state(c, 1);
} else {
return c;
}
}

fn start(c: rt::Context) -> rt::Context {
let c2 = rt::set_float(c, \"depth\", 2.5);
return rt::choice(rt::clear_choices(c2), dive, \"Dive\");
}
";
    let mut gi = load(story);
    game_screen(&mut gi, &vec![InputResult::Item(0)]).unwrap();
    assert_eq!(gi.context().state().unwrap(), STATE_END);
}

#[test]
fn guest_ints_round_trip_through_the_stores() {
    let story = "mod main;

use rt;

fn pay(c: rt::Context) -> rt::Context {
if (rt::get_int(c, \"gold\") == 10) {
return rt::set_state(c, 1);
} else {
return c;
}
}

fn start(c: rt::Context) -> rt::Context {
let c2 = rt::set_int(c, \"gold\", 10);
return rt::choice(rt::clear_choices(c2), pay, \"Pay\");
}
";
    let mut gi = load(story);
    game_screen(&mut gi, &vec![InputResult::Item(0)]).unwrap();
    assert_eq!(gi.context().state().unwrap(), STATE_END);
}

#[test]
fn reading_an_unset_variable_from_a_script_is_fatal() {
    let story = "mod main;

use rt;

fn start(c: rt::Context) -> rt::Context {
return rt::set_state(c, rt::get_int(c, \"nope\"));
}
";
    let assets = StoryAssets::load(vec![story.to_string()]).unwrap();
    let r = GameInstance::new(assets);
    assert!(matches!(r, Err(GameErr::ScriptErr(_))));
}

#[test]
fn two_modules_sharing_a_name_are_rejected() {
    let a = "mod main;

fn start(a: int) -> int {
return a;
}
";
    let b = "mod main;

fn other(a: int) -> int {
return a;
}
";
    let assets = StoryAssets::load(vec![a.to_string(), b.to_string()]).unwrap();
    let r = GameInstance::new(assets);
    assert!(matches!(r, Err(GameErr::ScriptErr(_))));
}

#[test]
fn a_story_module_may_not_reuse_the_runtime_module_name() {
    let a = "mod rt;

fn f(a: int) -> int {
return a;
}
";
    let assets = StoryAssets::load(vec![a.to_string()]).unwrap();
    let r = GameInstance::new(assets);
    assert!(matches!(r, Err(GameErr::ScriptErr(_))));
}

#[test]
fn a_script_without_a_module_declaration_is_rejected() {
    let a = "fn start(a: int) -> int {
return a;
}
";
    let assets = StoryAssets::load(vec![a.to_string()]).unwrap();
    let r = GameInstance::new(assets);
    assert!(matches!(r, Err(GameErr::ScriptErr(_))));
}

#[test]
fn an_unparsable_script_fails_at_load() {
    let r = StoryAssets::load(vec!["mod main fn broken".to_string()]);
    assert!(r.is_err());
}

#[test]
fn a_story_without_an_entry_function_fails() {
    let story = "mod elsewhere;

fn begin(a: int) -> int {
return a;
}
";
    let assets = StoryAssets::load(vec![story.to_string()]).unwrap();
    let r = GameInstance::new(assets);
    assert!(matches!(r, Err(GameErr::ScriptErr(_))));
}

#[test]
fn an_entry_function_returning_a_non_record_is_fatal() {
    let story = "mod main;

fn start(a: int) -> int {
return 3;
}
";
    let assets = StoryAssets::load(vec![story.to_string()]).unwrap();
    let r = GameInstance::new(assets);
    assert!(matches!(r, Err(GameErr::ScriptErr(_))));
}

#[test]
fn an_unknown_phase_ordinal_is_a_fatal_error() {
    let story = "mod main;

use rt;

fn start(c: rt::Context) -> rt::Context {
return rt::set_state(c, 7);
}
";
    let mut gi = load(story);
    let r = game_screen(&mut gi, &vec![InputResult::Item(0)]);
    assert!(matches!(r, Err(GameErr::ScriptErr(_))));
}

#[test]
fn scripts_set_display_text_by_plain_field_assignment() {
    let story = "mod main;

use rt;

fn start(c: rt::Context) -> rt::Context {
let c2 = rt::set_state(c, 1);
c2.display = \"The end.\";
return c2;
}
";
    let mut gi = load(story);
    game_screen(&mut gi, &vec![]).unwrap();
    assert_eq!(gi.context().state().unwrap(), STATE_END);
}

#[test]
fn run_plays_a_story_end_to_end() {
    let handle = StoryHandle {
        root: "library/demo".to_string(),
        metadata: Metadata {
            name: "Demo".to_string(),
            author: None,
            version: "1.0".to_string(),
            notes: None,
            main: "main".to_string(),
        },
    };
    let inputs = vec![InputResult::Item(1)];
    run(Some(&handle), vec![TWO_CHOICE_STORY.to_string()], &inputs).unwrap();
}

#[test]
fn run_surfaces_a_load_failure_as_an_asset_error() {
    let handle = StoryHandle {
        root: "library/broken".to_string(),
        metadata: Metadata {
            name: "Broken".to_string(),
            author: None,
            version: "1.0".to_string(),
            notes: None,
            main: "main".to_string(),
        },
    };
    let r = run(Some(&handle), vec!["mod main fn broken".to_string()], &vec![]);
    assert!(matches!(r, Err(GameErr::AssetErr(_))));
}

#[test]
fn run_without_a_story_does_nothing() {
    run(None, vec![], &vec![]).unwrap();
}
