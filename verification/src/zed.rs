//! The command line handed to Zed's native diff view.

use vstd::prelude::*;
use crate::effect::{done_model, unit_result, FailureModel, IoFailure};
use crate::text::concat;

verus! {

/// The program that shows the diff.
pub open spec fn zed_program() -> Seq<char> {
    "zed"@
}

/// The flag that asks Zed for its diff view.
pub open spec fn diff_flag() -> Seq<char> {
    "--diff"@
}

/// The argument vector `zed --diff BASE TARGET`, program name first.
pub open spec fn diff_args(base: Seq<char>, target: Seq<char>) -> Seq<Seq<char>> {
    seq![zed_program(), diff_flag(), base, target]
}

/// Build the full `zed --diff BASE TARGET` argument list.
///
/// Both paths are passed through unchanged, as separate arguments, so spaces
/// and non-ASCII characters survive.
pub fn build_diff_args(base: &str, target: &str) -> (args: Vec<String>)
    ensures
        args.deep_view() == diff_args(base@, target@),
        args.deep_view() == seq!["zed"@, "--diff"@, base@, target@],
{
    let mut args: Vec<String> = Vec::new();
    args.push("zed".to_owned());
    args.push("--diff".to_owned());
    args.push(base.to_owned());
    args.push(target.to_owned());
    assert(args.deep_view() =~= diff_args(base@, target@));
    args
}

/// The error when the `zed` program cannot be found.
pub const ZED_NOT_FOUND: &'static str = "Could not find the Zed CLI executable.\n\
     Ensure the `zed` command is installed and available in PATH.";

/// What launching the diff view gives, once Zed was started with outcome
/// `spawned`: success, a hint where the `zed` program was not found, or the
/// failure.
pub open spec fn launched_from(spawned: Result<(), FailureModel>) -> Result<(), Seq<char>> {
    match spawned {
        Ok(()) => Ok(()),
        Err(f) => if f.not_found {
            Err(ZED_NOT_FOUND@)
        } else {
            Err("failed to launch `zed`: "@ + f.message)
        },
    }
}

/// The outcome of launching `zed --diff BASE TARGET` (the arguments of
/// `build_diff_args`), given the outcome of starting the process.
pub fn launch_outcome(spawned: Result<(), IoFailure>) -> (r: Result<(), String>)
    ensures
        unit_result(r) == launched_from(done_model(spawned)),
{
    match spawned {
        Ok(()) => Ok(()),
        Err(f) => if f.not_found {
            Err(ZED_NOT_FOUND.to_owned())
        } else {
            Err(concat("failed to launch `zed`: ", f.message.as_str()))
        },
    }
}

} // verus!
