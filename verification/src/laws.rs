//! Properties of the whole workflow, over the models that the functions'
//! contracts use.

use vstd::prelude::*;
use crate::cli::{awaits, resumed, started, PhaseModel, SessionModel, StepModel, USAGE};
use crate::effect::{EffectModel, FailureModel, ReplyModel};
use crate::state::{
    clear_start, cleared_from, encoded, load_start, loaded_from, save_next,
    state_file_of,
};
use crate::json::{escaping_keeps_plain_text, needs_no_escape};
use crate::paths::joined_path;
use crate::state::BASE_KEY;
use crate::zed::diff_args;

verus! {

/// The phases of `compare`.
pub open spec fn comparing(phase: PhaseModel) -> bool {
    ||| phase is CompareReading
    ||| phase is CompareChecking
    ||| phase is CompareResolving
    ||| phase is CompareLaunching
}

/// The exit code of a step that ends the invocation.
pub open spec fn exit_code(effect: EffectModel) -> Option<i32> {
    match effect {
        EffectModel::Exit(c) => Some(c),
        _ => None,
    }
}

/// Loading reads the very file that saving writes and clearing removes: the
/// state file of the state directory.
pub proof fn store_uses_one_file(dir: Seq<char>, base: Seq<char>)
    ensures
        load_start(Ok(dir)) == Ok::<EffectModel, Seq<char>>(EffectModel::Read(state_file_of(dir))),
        save_next(dir, base, Ok(())) == Ok::<EffectModel, Seq<char>>(
            EffectModel::Write(state_file_of(dir), encoded(base)),
        ),
        clear_start(Ok(dir)) == Ok::<EffectModel, Seq<char>>(EffectModel::Remove(state_file_of(dir))),
{
}

/// A missing state file means "no base set": loading finds no base, and
/// clearing again is no error (clearing is idempotent).
pub proof fn missing_state_file_is_no_base(dir: Seq<char>, failure: FailureModel)
    requires
        failure.not_found,
    ensures
        loaded_from(dir, Err(failure)) == Ok::<Option<Seq<char>>, Seq<char>>(None),
        cleared_from(Err(failure)) == Ok::<(), Seq<char>>(()),
{
}

/// `compare` never changes the stored base: no step of it creates, writes or
/// removes anything, and it stays in `compare` until it ends.
pub proof fn compare_keeps_base(s: SessionModel, reply: ReplyModel)
    requires
        comparing(s.phase),
        awaits(s.phase, reply),
    ensures
        !resumed(s, reply).1.effect.changes_store(),
        comparing(resumed(s, reply).0.phase) || resumed(s, reply).0.phase is Finished,
{
}

/// The first step of `compare` changes nothing on disk either.
pub proof fn compare_starts_without_change(
    args: Seq<Seq<char>>,
    quiet_var: Option<Seq<char>>,
    dir: Result<Seq<char>, Seq<char>>,
)
    requires
        args.len() >= 1,
        args[0] == "compare"@,
    ensures
        !started(args, quiet_var, dir).1.effect.changes_store(),
        comparing(started(args, quiet_var, dir).0.phase) || started(args, quiet_var, dir).0.phase is Finished,
{
    reveal_strlit("base");
    reveal_strlit("compare");
    assert("compare"@.len() != "base"@.len());
}

/// A usage error: no command, an unknown command, or `base` or `compare`
/// without exactly one FILE argument.
pub open spec fn usage_error(args: Seq<Seq<char>>) -> bool {
    ||| args.len() == 0
    ||| !(args[0] == "base"@ || args[0] == "compare"@ || args[0] == "status"@ || args[0]
        == "clear"@)
    ||| (args[0] == "base"@ || args[0] == "compare"@) && args.len() != 2
}

/// Exit code 2 means a usage error: it comes exactly on a usage error, and
/// then the usage text is printed last.
pub proof fn usage_errors_exit_2(
    args: Seq<Seq<char>>,
    quiet_var: Option<Seq<char>>,
    dir: Result<Seq<char>, Seq<char>>,
)
    ensures
        ({
            let step = started(args, quiet_var, dir).1;
            &&& (exit_code(step.effect) == Some(2i32)) == usage_error(args)
            &&& usage_error(args) ==> step.err.last() == USAGE@
        }),
{
    reveal_strlit("base");
    reveal_strlit("compare");
    reveal_strlit("status");
    reveal_strlit("clear");
}

/// Later steps end with 0 (success) or 1 (an operational error), never with
/// the usage-error code; an operational error is always printed, on standard
/// error, whether or not the invocation is quiet.
pub proof fn later_exits_are_0_or_1(s: SessionModel, reply: ReplyModel)
    requires
        awaits(s.phase, reply),
    ensures
        ({
            let step = resumed(s, reply).1;
            &&& exit_code(step.effect) is Some ==> exit_code(step.effect) == Some(0i32)
                || exit_code(step.effect) == Some(1i32)
            &&& exit_code(step.effect) == Some(1i32) ==> step.err.len() > 0
        }),
{
}

/// Quiet mode changes nothing but standard output: the errors, the effects and
/// the next phase are those of a normal invocation. When quiet, the only
/// standard output is that of `status` and `clear`.
pub proof fn quiet_only_silences_success(s: SessionModel, reply: ReplyModel)
    ensures
        ({
            let loud = resumed(SessionModel { quiet: false, ..s }, reply);
            let silent = resumed(SessionModel { quiet: true, ..s }, reply);
            &&& silent.1.err == loud.1.err
            &&& silent.1.effect == loud.1.effect
            &&& silent.0.phase == loud.0.phase
            &&& !(s.phase is StatusReading || s.phase is ClearRemoving) ==> silent.1.out.len() == 0
        }),
{
}

/// The first step does not depend on quiet mode at all, except for the flag it
/// carries.
pub proof fn quiet_does_not_change_start(
    args: Seq<Seq<char>>,
    dir: Result<Seq<char>, Seq<char>>,
    a: Option<Seq<char>>,
    b: Option<Seq<char>>,
)
    ensures
        started(args, a, dir).1 == started(args, b, dir).1,
        started(args, a, dir).0.phase == started(args, b, dir).0.phase,
{
}

/// `base FILE` stores the resolved path of FILE, not the argument as given:
/// once FILE resolves to `resolved` and the directory is created, the state
/// file is written with `resolved`.
pub proof fn base_stores_resolved_path(
    quiet: bool,
    path: Seq<char>,
    dir: Seq<char>,
    resolved: Seq<char>,
)
    ensures
        ({
            let (s1, step1) = resumed(
                SessionModel { phase: PhaseModel::BaseResolving { path, store_dir: Ok(dir) }, quiet },
                ReplyModel::Resolved(Some(resolved)),
            );
            let (s2, step2) = resumed(s1, ReplyModel::Done(Ok(())));
            &&& step1.effect == EffectModel::CreateDir(crate::state::subdir_of(dir))
            &&& step2.effect == EffectModel::Write(state_file_of(dir), encoded(resolved))
        }),
{
}

/// `compare FILE` asks Zed for `zed --diff BASE TARGET` with the stored base
/// and the resolved FILE, in that order.
pub proof fn compare_launches_stored_base(
    quiet: bool,
    base: Seq<char>,
    target: Seq<char>,
    resolved: Seq<char>,
)
    ensures
        resumed(
            SessionModel { phase: PhaseModel::CompareResolving { base, target }, quiet },
            ReplyModel::Resolved(Some(resolved)),
        ).1.effect == EffectModel::Launch(diff_args(base, resolved)),
        resumed(
            SessionModel { phase: PhaseModel::CompareResolving { base, target }, quiet },
            ReplyModel::Resolved(Some(resolved)),
        ).1.effect == EffectModel::Launch(seq!["zed"@, "--diff"@, base, resolved]),
{
}

/// The state file holds `{"base":"<path>"}`: a path with no quote, backslash
/// or control character is stored character for character.
pub proof fn plain_path_is_stored_verbatim(path: Seq<char>)
    requires
        needs_no_escape(path),
    ensures
        encoded(path) == "{\"base\":\""@ + path + "\"}"@,
{
    reveal_strlit("base");
    reveal_strlit("{\"base\":\"");
    reveal_strlit("\"}");
    escaping_keeps_plain_text(path);
    escaping_keeps_plain_text(BASE_KEY@);
    assert(encoded(path) =~= "{\"base\":\""@ + path + "\"}"@);
}

/// The reply that reports the outcome of `effect`.
pub open spec fn answers(effect: EffectModel, reply: ReplyModel) -> bool {
    match effect {
        EffectModel::Resolve(_) => reply is Resolved,
        EffectModel::Read(_) => reply is Read,
        EffectModel::CreateDir(_) => reply is Done,
        EffectModel::Write(_, _) => reply is Done,
        EffectModel::Remove(_) => reply is Done,
        EffectModel::CheckFile(_) => reply is IsFile,
        EffectModel::Launch(_) => reply is Done,
        EffectModel::Exit(_) => false,
    }
}

/// A caller that answers each effect with the reply of its kind always meets
/// what `Session::resume` waits for: after the first step, and after every
/// later one, the next phase awaits exactly such a reply; a step that exits
/// leaves the session finished.
pub proof fn replies_fit_the_protocol(
    args: Seq<Seq<char>>,
    quiet_var: Option<Seq<char>>,
    dir: Result<Seq<char>, Seq<char>>,
    s: SessionModel,
    reply: ReplyModel,
    next: ReplyModel,
)
    ensures
        ({
            let (s1, step1) = started(args, quiet_var, dir);
            &&& answers(step1.effect, next) ==> awaits(s1.phase, next)
            &&& step1.effect is Exit ==> s1.phase is Finished
        }),
        awaits(s.phase, reply) ==> ({
            let (s2, step2) = resumed(s, reply);
            &&& answers(step2.effect, next) ==> awaits(s2.phase, next)
            &&& step2.effect is Exit ==> s2.phase is Finished
        }),
{
}

/// The Zed command line is `zed --diff BASE TARGET`: the program, the flag,
/// then the first path (the base, shown on the left) and the second (the
/// target), each as one argument, whatever the paths are.
pub proof fn diff_args_put_base_before_target(base: Seq<char>, target: Seq<char>)
    ensures
        diff_args(base, target) == seq!["zed"@, "--diff"@, base, target],
        diff_args(base, target).len() == 4,
        diff_args(base, target)[2] == base,
        diff_args(base, target)[3] == target,
{
}

/// `base FILE` first asks for FILE to be resolved, whatever FILE is, and
/// prints nothing yet; the base is only ever taken from that resolution.
pub proof fn base_first_resolves_its_argument(
    args: Seq<Seq<char>>,
    quiet_var: Option<Seq<char>>,
    dir: Result<Seq<char>, Seq<char>>,
)
    requires
        args.len() == 2,
        args[0] == "base"@,
    ensures
        started(args, quiet_var, dir).1 == (StepModel {
            out: seq![],
            err: seq![],
            effect: EffectModel::Resolve(args[1]),
        }),
        started(args, quiet_var, dir).0.phase == (PhaseModel::BaseResolving {
            path: args[1],
            store_dir: dir,
        }),
{
    assert(args.drop_first() =~= seq![args[1]]);
}

/// A FILE that cannot be resolved is an error (exit 1) naming FILE, and
/// nothing is stored.
pub proof fn base_rejects_unresolvable_file(
    quiet: bool,
    path: Seq<char>,
    dir: Result<Seq<char>, Seq<char>>,
)
    ensures
        resumed(
            SessionModel { phase: PhaseModel::BaseResolving { path, store_dir: dir }, quiet },
            ReplyModel::Resolved(None),
        ) == (SessionModel { phase: PhaseModel::Finished, quiet }, StepModel {
            out: seq![],
            err: seq!["Error: "@ + ("Base"@ + " file does not exist or is not accessible: "@ + path)],
            effect: EffectModel::Exit(1),
        }),
{
}

/// `status` prints the loaded base, whatever characters it holds, as
/// `Base: <path>` and exits 0; `Base: not set` exactly when there is no base;
/// a failed load is an error with exit 1.
pub proof fn status_prints_loaded_base(
    quiet: bool,
    dir: Seq<char>,
    read: Result<Seq<char>, FailureModel>,
)
    ensures
        ({
            let (s, step) = resumed(
                SessionModel { phase: PhaseModel::StatusReading { dir }, quiet },
                ReplyModel::Read(read),
            );
            &&& s.phase is Finished
            &&& match loaded_from(dir, read) {
                Ok(Some(b)) => step == (StepModel {
                    out: seq!["Base: "@ + b],
                    err: seq![],
                    effect: EffectModel::Exit(0),
                }),
                Ok(None) => step == (StepModel {
                    out: seq!["Base: not set"@],
                    err: seq![],
                    effect: EffectModel::Exit(0),
                }),
                Err(e) => step == (StepModel {
                    out: seq![],
                    err: seq!["Error: "@ + e],
                    effect: EffectModel::Exit(1),
                }),
            }
        }),
{
}

/// `status` reads `<state dir>/zed-anydiff/state.json`.
pub proof fn status_reads_the_state_file(
    args: Seq<Seq<char>>,
    quiet_var: Option<Seq<char>>,
    dir: Seq<char>,
)
    requires
        args.len() >= 1,
        args[0] == "status"@,
    ensures
        started(args, quiet_var, Ok(dir)).1.effect == EffectModel::Read(
            joined_path(joined_path(dir, "zed-anydiff"@), "state.json"@),
        ),
        started(args, quiet_var, Ok(dir)).0.phase == (PhaseModel::StatusReading { dir }),
{
    reveal_strlit("base");
    reveal_strlit("compare");
    reveal_strlit("status");
    assert("status"@.len() != "base"@.len());
    assert("status"@.len() != "compare"@.len());
}

/// `clear`, once the state directory is known, always asks for
/// `<state dir>/zed-anydiff/state.json` to be removed before it can report
/// anything.
pub proof fn clear_removes_the_state_file(
    args: Seq<Seq<char>>,
    quiet_var: Option<Seq<char>>,
    dir: Seq<char>,
)
    requires
        args.len() >= 1,
        args[0] == "clear"@,
    ensures
        started(args, quiet_var, Ok(dir)).1 == (StepModel {
            out: seq![],
            err: seq![],
            effect: EffectModel::Remove(joined_path(joined_path(dir, "zed-anydiff"@), "state.json"@)),
        }),
        started(args, quiet_var, Ok(dir)).0.phase is ClearRemoving,
{
    reveal_strlit("base");
    reveal_strlit("compare");
    reveal_strlit("status");
    reveal_strlit("clear");
    assert("clear"@.len() != "compare"@.len());
    assert("clear"@ != "base"@) by {
        assert("clear"@[0] != "base"@[0]);
    }
    assert("clear"@.len() != "status"@.len());
}

/// Once the removal is done, or the file was already missing, `clear` prints
/// `Base: cleared` and exits 0; any other failure is an error with exit 1.
pub proof fn clear_reports_removal(quiet: bool, removed: Result<(), FailureModel>)
    ensures
        ({
            let step = resumed(
                SessionModel { phase: PhaseModel::ClearRemoving, quiet },
                ReplyModel::Done(removed),
            ).1;
            match removed {
                Err(f) if !f.not_found => step == (StepModel {
                    out: seq![],
                    err: seq!["Error: "@ + ("could not remove state file: "@ + f.message)],
                    effect: EffectModel::Exit(1),
                }),
                _ => step == (StepModel {
                    out: seq!["Base: cleared"@],
                    err: seq![],
                    effect: EffectModel::Exit(0),
                }),
            }
        }),
{
}

} // verus!
