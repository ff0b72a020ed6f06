//! The persistent single-base state.
//!
//! The base is stored as `{"base": "<absolute path>"}` in the file
//! `<state dir>/zed-anydiff/state.json`, where the state directory is the
//! `ZED_ANYDIFF_STATE_DIR` override when it is set and the OS cache directory
//! otherwise. Loading, saving and clearing are written as short exchanges:
//! each function here returns the next file operation to perform (an `Effect`)
//! or the final result, and takes the outcome of the previous operation.

use vstd::prelude::*;
use crate::effect::{
    done_model, effect_result, read_model, text_result, unit_result, Effect, EffectModel,
    FailureModel, IoFailure,
};
use crate::json::{
    json_encode_str, json_from_str, json_str_member, json_str_members, json_string_literal,
    json_text, object_text,
};
use crate::paths::{joined_path, path_join};
use crate::text::{concat, concat3};

verus! {

/// The directory, inside the state directory, that holds the state file.
pub const STATE_SUBDIR: &'static str = "zed-anydiff";

/// The name of the state file.
pub const STATE_FILE: &'static str = "state.json";

/// The key under which the base path is stored.
pub const BASE_KEY: &'static str = "base";

/// The error when no state directory can be found.
pub const NO_CACHE_DIR: &'static str = "could not determine the OS cache directory";

/// The directory that holds the state file, for the state directory `dir`.
pub open spec fn subdir_of(dir: Seq<char>) -> Seq<char> {
    joined_path(dir, STATE_SUBDIR@)
}

/// The state file, for the state directory `dir`.
pub open spec fn state_file_of(dir: Seq<char>) -> Seq<char> {
    joined_path(subdir_of(dir), STATE_FILE@)
}

/// Trusted: `dirs::cache_dir()`, the OS cache directory, as a string. It
/// depends on the environment (`XDG_CACHE_HOME`, `HOME`, the OS), so nothing
/// is claimed of the result.
#[verifier::external_body]
fn os_cache_dir() -> (r: Option<String>) {
    match dirs::cache_dir() {
        Some(p) => Some(p.to_string_lossy().into_owned()),
        None => None,
    }
}

/// The state directory, given the override `dir_override` (the value of
/// `ZED_ANYDIFF_STATE_DIR`) and the OS cache directory `cache`: the override
/// when it is set, otherwise the OS cache directory, or an error when that
/// cannot be determined either.
pub open spec fn chosen_state_dir(dir_override: Option<Seq<char>>, cache: Option<Seq<char>>) -> Result<
    Seq<char>,
    Seq<char>,
> {
    match dir_override {
        Some(d) => Ok(d),
        None => match cache {
            Some(c) => Ok(c),
            None => Err(NO_CACHE_DIR@),
        },
    }
}

/// The state directory, given the override and the outcome of asking for the
/// OS cache directory (`dirs::cache_dir`, `None` where it cannot be
/// determined).
pub fn choose_state_dir(dir_override: Option<String>, cache: Option<String>) -> (r: Result<
    String,
    String,
>)
    ensures
        text_result(r) == chosen_state_dir(dir_override.deep_view(), cache.deep_view()),
{
    match dir_override {
        Some(d) => Ok(d),
        None => match cache {
            Some(c) => Ok(c),
            None => Err(NO_CACHE_DIR.to_owned()),
        },
    }
}

/// The state directory: `dir_override` (the value of `ZED_ANYDIFF_STATE_DIR`)
/// when it is set, otherwise the OS cache directory (asked for only then), or
/// an error when the OS cache directory cannot be determined. The OS cache
/// directory depends on the environment, so the contract states the choice
/// for whatever the OS reported (`choose_state_dir`).
pub fn state_dir(dir_override: Option<String>) -> (r: Result<String, String>)
    ensures
        exists|cache: Option<Seq<char>>|
            text_result(r) == #[trigger] chosen_state_dir(dir_override.deep_view(), cache),
        dir_override matches Some(d) ==> text_result(r) == Ok::<Seq<char>, Seq<char>>(d@),
        dir_override is None && r is Err ==> text_result(r) == Err::<Seq<char>, Seq<char>>(
            NO_CACHE_DIR@,
        ),
{
    match dir_override {
        Some(d) => choose_state_dir(Some(d), None),
        None => {
            let cache = os_cache_dir();
            let r = choose_state_dir(None, cache);
            assert(text_result(r) == chosen_state_dir(None, cache.deep_view()));
            r
        },
    }
}

/// The directory that holds the state file: `dir` joined with `zed-anydiff`.
pub fn state_subdir_in(dir: &str) -> (r: String)
    ensures
        r@ == subdir_of(dir@),
{
    path_join(dir, STATE_SUBDIR)
}

/// The state file: `dir` joined with `zed-anydiff`, then with `state.json`.
pub fn state_file_in(dir: &str) -> (r: String)
    ensures
        r@ == state_file_of(dir@),
{
    let sub = state_subdir_in(dir);
    path_join(sub.as_str(), STATE_FILE)
}

/// The text of the state file that stores `base`: `{"base":<literal>}`, with
/// the key and the path written as JSON string literals.
pub open spec fn encoded(base: Seq<char>) -> Seq<char> {
    object_text(json_string_literal(BASE_KEY@), json_string_literal(base))
}

/// What the state file `text` holds: the stored base, `None` where the text is
/// JSON without a string member `base`, or an error where it is not JSON.
pub open spec fn parsed(text: Seq<char>) -> Result<Option<Seq<char>>, Seq<char>> {
    base_from(json_text(text))
}

/// The stored base, given what serde_json made of the state file: the string
/// member `base` of the parsed value, `None` where it has none, or an error
/// that carries serde_json's error text.
pub open spec fn base_from(outcome: Result<Map<Seq<char>, Seq<char>>, Seq<char>>) -> Result<
    Option<Seq<char>>,
    Seq<char>,
> {
    match outcome {
        Ok(m) => Ok(
            if m.contains_key(BASE_KEY@) {
                Some(m[BASE_KEY@])
            } else {
                None
            },
        ),
        Err(e) => Err("could not parse state file: "@ + e),
    }
}

/// The value of a loaded base.
pub open spec fn base_result(r: Result<Option<String>, String>) -> Result<
    Option<Seq<char>>,
    Seq<char>,
> {
    match r {
        Ok(b) => Ok(b.deep_view()),
        Err(e) => Err(e@),
    }
}

/// The JSON text that stores `base`. JSON encoding (not string formatting)
/// keeps paths with quotes, backslashes or Unicode intact: the text reads back
/// as exactly `base`.
pub fn encode(base: &str) -> (text: String)
    ensures
        text@ == encoded(base@),
        parsed(text@) == Ok::<Option<Seq<char>>, Seq<char>>(Some(base@)),
{
    let key = json_encode_str(BASE_KEY).unwrap();
    let value = json_encode_str(base).unwrap();
    let head = concat3("{", key.as_str(), ":");
    let text = concat3(head.as_str(), value.as_str(), "}");
    proof {
        reveal_strlit("{");
        reveal_strlit(":");
        reveal_strlit("}");
        assert(text@ =~= encoded(base@));
        assert(json_text(object_text(json_string_literal(BASE_KEY@), value@))->Ok_0 == map![BASE_KEY@ => base@]);
    }
    text
}

/// The value of what serde_json made of a text: the string members of the
/// parsed value, or the error text.
pub open spec fn json_outcome(outcome: Result<serde_json::Value, String>) -> Result<
    Map<Seq<char>, Seq<char>>,
    Seq<char>,
> {
    match outcome {
        Ok(v) => Ok(json_str_members(v)),
        Err(e) => Err(e@),
    }
}

/// Read the stored base from the text of the state file.
pub fn parse(text: &str) -> (r: Result<Option<String>, String>)
    ensures
        base_result(r) == parsed(text@),
{
    base_of(json_from_str(text))
}

/// Read the stored base from what `serde_json::from_str` made of the state
/// file: the parsed value, or the text of its error.
pub fn base_of(outcome: Result<serde_json::Value, String>) -> (r: Result<Option<String>, String>)
    ensures
        base_result(r) == base_from(json_outcome(outcome)),
{
    match outcome {
        Ok(v) => Ok(json_str_member(&v, BASE_KEY)),
        Err(e) => Err(concat("could not parse state file: ", e.as_str())),
    }
}

// Loading.

/// What loading gives once the state file of `dir` was read with outcome
/// `read`: the stored base, `None` where there is no state file, or an error.
pub open spec fn loaded_from(dir: Seq<char>, read: Result<Seq<char>, FailureModel>) -> Result<
    Option<Seq<char>>,
    Seq<char>,
> {
    match read {
        Ok(text) => parsed(text),
        Err(f) => if f.not_found {
            Ok(None)
        } else {
            Err("could not read state file "@ + state_file_of(dir) + ": "@ + f.message)
        },
    }
}

/// The first step of loading from the state directory `dir`: read the state
/// file, or fail with the error that finding the state directory gave.
pub open spec fn load_start(dir: Result<Seq<char>, Seq<char>>) -> Result<EffectModel, Seq<char>> {
    match dir {
        Ok(d) => Ok(EffectModel::Read(state_file_of(d))),
        Err(e) => Err(e),
    }
}

/// Begin loading the stored base, given the outcome of finding the state
/// directory (`state_dir`).
pub fn load(dir: &Result<String, String>) -> (r: Result<Effect, String>)
    ensures
        effect_result(r) == load_start(text_result(*dir)),
{
    match dir {
        Ok(d) => Ok(load_in(d.as_str())),
        Err(e) => Err(e.clone()),
    }
}

/// Begin loading the stored base from the state directory `dir`: read its
/// state file.
pub fn load_in(dir: &str) -> (r: Effect)
    ensures
        r@ == EffectModel::Read(state_file_of(dir@)),
{
    Effect::Read(state_file_in(dir))
}

/// Finish loading from the state directory `dir`, given the outcome of reading
/// its state file. A missing file means "no base set".
pub fn loaded(dir: &str, read: Result<String, IoFailure>) -> (r: Result<Option<String>, String>)
    ensures
        base_result(r) == loaded_from(dir@, read_model(read)),
{
    match read {
        Ok(text) => parse(text.as_str()),
        Err(f) => if f.not_found {
            Ok(None)
        } else {
            let file = state_file_in(dir);
            let head = concat3("could not read state file ", file.as_str(), ": ");
            Err(concat(head.as_str(), f.message.as_str()))
        },
    }
}

// Saving.

/// The first step of saving into the state directory `dir`: create the
/// directory that holds the state file, or fail with the error that finding
/// the state directory gave.
pub open spec fn save_start(dir: Result<Seq<char>, Seq<char>>) -> Result<EffectModel, Seq<char>> {
    match dir {
        Ok(d) => Ok(EffectModel::CreateDir(subdir_of(d))),
        Err(e) => Err(e),
    }
}

/// The step of saving `base` into `dir` after creating its directory with
/// outcome `created`: write the encoded base to the state file, or fail.
pub open spec fn save_next(
    dir: Seq<char>,
    base: Seq<char>,
    created: Result<(), FailureModel>,
) -> Result<EffectModel, Seq<char>> {
    match created {
        Ok(()) => Ok(EffectModel::Write(state_file_of(dir), encoded(base))),
        Err(f) => Err("could not create "@ + subdir_of(dir) + ": "@ + f.message),
    }
}

/// What saving into `dir` gives once the state file was written with outcome
/// `written`.
pub open spec fn saved_from(dir: Seq<char>, written: Result<(), FailureModel>) -> Result<
    (),
    Seq<char>,
> {
    match written {
        Ok(()) => Ok(()),
        Err(f) => Err("could not write state file "@ + state_file_of(dir) + ": "@ + f.message),
    }
}

/// Begin saving a base, given the outcome of finding the state directory
/// (`state_dir`).
pub fn save(dir: &Result<String, String>) -> (r: Result<Effect, String>)
    ensures
        effect_result(r) == save_start(text_result(*dir)),
{
    match dir {
        Ok(d) => Ok(save_in(d.as_str())),
        Err(e) => Err(e.clone()),
    }
}

/// Begin saving a base into the state directory `dir`: create the directory
/// that holds the state file.
pub fn save_in(dir: &str) -> (r: Effect)
    ensures
        r@ == EffectModel::CreateDir(subdir_of(dir@)),
{
    Effect::CreateDir(state_subdir_in(dir))
}

/// Continue saving `base` into `dir` once its directory was created with
/// outcome `created`: write the state file. What is written reads back, through
/// `loaded`, as exactly `base`.
pub fn save_after_create(dir: &str, base: &str, created: Result<(), IoFailure>) -> (r: Result<
    Effect,
    String,
>)
    ensures
        effect_result(r) == save_next(dir@, base@, done_model(created)),
        r matches Ok(Effect::Write(file, text)) ==> {
            &&& file@ == state_file_of(dir@)
            &&& loaded_from(dir@, Ok(text@)) == Ok::<Option<Seq<char>>, Seq<char>>(Some(base@))
        },
{
    match created {
        Ok(()) => Ok(Effect::Write(state_file_in(dir), encode(base))),
        Err(f) => {
            let sub = state_subdir_in(dir);
            let head = concat3("could not create ", sub.as_str(), ": ");
            Err(concat(head.as_str(), f.message.as_str()))
        },
    }
}

/// Finish saving into `dir`, given the outcome of writing the state file.
pub fn save_after_write(dir: &str, written: Result<(), IoFailure>) -> (r: Result<(), String>)
    ensures
        unit_result(r) == saved_from(dir@, done_model(written)),
{
    match written {
        Ok(()) => Ok(()),
        Err(f) => {
            let file = state_file_in(dir);
            let head = concat3("could not write state file ", file.as_str(), ": ");
            Err(concat(head.as_str(), f.message.as_str()))
        },
    }
}

// Clearing.

/// The first step of clearing the state directory `dir`: remove the state
/// file, or fail with the error that finding the state directory gave.
pub open spec fn clear_start(dir: Result<Seq<char>, Seq<char>>) -> Result<EffectModel, Seq<char>> {
    match dir {
        Ok(d) => Ok(EffectModel::Remove(state_file_of(d))),
        Err(e) => Err(e),
    }
}

/// What clearing gives once the state file was removed with outcome
/// `removed`. A missing file is no error: clearing is idempotent.
pub open spec fn cleared_from(removed: Result<(), FailureModel>) -> Result<(), Seq<char>> {
    match removed {
        Ok(()) => Ok(()),
        Err(f) => if f.not_found {
            Ok(())
        } else {
            Err("could not remove state file: "@ + f.message)
        },
    }
}

/// Begin removing the stored base, given the outcome of finding the state
/// directory (`state_dir`).
pub fn clear(dir: &Result<String, String>) -> (r: Result<Effect, String>)
    ensures
        effect_result(r) == clear_start(text_result(*dir)),
{
    match dir {
        Ok(d) => Ok(clear_in(d.as_str())),
        Err(e) => Err(e.clone()),
    }
}

/// Begin removing the stored base from the state directory `dir`: remove its
/// state file.
pub fn clear_in(dir: &str) -> (r: Effect)
    ensures
        r@ == EffectModel::Remove(state_file_of(dir@)),
{
    Effect::Remove(state_file_in(dir))
}

/// Finish removing the stored base, given the outcome of removing the state
/// file.
pub fn cleared(removed: Result<(), IoFailure>) -> (r: Result<(), String>)
    ensures
        unit_result(r) == cleared_from(done_model(removed)),
{
    match removed {
        Ok(()) => Ok(()),
        Err(f) => if f.not_found {
            Ok(())
        } else {
            Err(concat("could not remove state file: ", f.message.as_str()))
        },
    }
}

} // verus!
