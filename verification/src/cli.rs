//! Command parsing and dispatch.
//!
//! Commands:
//!
//!     zed-anydiff base FILE      persist FILE as the base
//!     zed-anydiff compare FILE   launch `zed --diff BASE FILE` (base retained)
//!     zed-anydiff status         show the current base
//!     zed-anydiff clear          clear the stored base
//!
//! One invocation is a `Session`: `run` starts it from the command line, and
//! each `Session::resume` takes the outcome of the effect the previous step
//! asked for. Every step says which lines to print (standard output first,
//! then standard error) and what to do next, ending with the exit code:
//! 0 for success, 1 for an operational error, 2 for a usage error.

use vstd::prelude::*;
use crate::effect::{Effect, EffectModel, Reply, ReplyModel, text_result};
use crate::state::{
    clear, clear_start, cleared, cleared_from, load, load_start, loaded,
    loaded_from, save, save_after_create, save_after_write, save_next, save_start, saved_from,
};
use crate::text::{concat, concat3, eq_ignore_ascii_case, same_text, same_text_ignore_ascii_case};
use crate::zed::{build_diff_args, diff_args, launch_outcome, launched_from};

verus! {

/// The usage text.
pub const USAGE: &'static str = "Usage: zed-anydiff <base|compare|status|clear>\n\n\
                     base FILE      persist FILE as the base\n\
                     compare FILE   launch zed --diff BASE FILE (base retained)\n\
                     status         show the current base\n\
                     clear          clear the stored base";

// The arguments.

/// The one FILE argument of `base` and `compare`, or what is wrong with the
/// arguments.
pub open spec fn single_path(rest: Seq<Seq<char>>) -> Result<Seq<char>, Seq<char>> {
    if rest.len() == 0 {
        Err("missing FILE argument"@)
    } else if rest.len() == 1 {
        Ok(rest[0])
    } else {
        Err("expected exactly one FILE argument"@)
    }
}

/// The one FILE argument of `base` and `compare`.
pub fn require_single_path(rest: &[String]) -> (r: Result<String, String>)
    ensures
        text_result(r) == single_path(rest.deep_view()),
{
    if rest.len() == 0 {
        Err("missing FILE argument".to_owned())
    } else if rest.len() == 1 {
        Ok(rest[0].clone())
    } else {
        Err("expected exactly one FILE argument".to_owned())
    }
}

/// Whether the value of `ZED_ANYDIFF_QUIET` asks for quiet output: `1`,
/// `yes`, or `true` in any ASCII case. Unset means not quiet.
pub open spec fn quiet_value(value: Option<Seq<char>>) -> bool {
    match value {
        Some(v) => v == "1"@ || v == "yes"@ || eq_ignore_ascii_case(v, "true"@),
        None => false,
    }
}

/// Whether the invocation was requested quietly, e.g. by a Zed task that sets
/// `ZED_ANYDIFF_QUIET=1` in its `env`, given the variable's value. Quiet
/// output drops the success messages of `base` and `compare`; errors are
/// always printed.
pub fn quiet(value: &Option<String>) -> (r: bool)
    ensures
        r == quiet_value(value.deep_view()),
{
    match value {
        Some(v) => same_text(v.as_str(), "1") || same_text(v.as_str(), "yes")
            || same_text_ignore_ascii_case(v.as_str(), "true"),
        None => false,
    }
}

/// A user-supplied path resolved to an absolute, normalised path: `resolved`
/// when the OS could resolve it, else an error naming the path, with `label`
/// ("Base" or "Target") in front.
pub open spec fn canonicalized(path: Seq<char>, label: Seq<char>, resolved: Option<Seq<char>>) -> Result<
    Seq<char>,
    Seq<char>,
> {
    match resolved {
        Some(p) => Ok(p),
        None => Err(label + " file does not exist or is not accessible: "@ + path),
    }
}

/// Resolve a user-supplied path, given what the OS resolved it to
/// (`std::fs::canonicalize`, `None` where that failed).
pub fn canonicalize(path: &str, label: &str, resolved: Option<String>) -> (r: Result<
    String,
    String,
>)
    ensures
        text_result(r) == canonicalized(path@, label@, resolved.deep_view()),
{
    match resolved {
        Some(p) => Ok(p),
        None => Err(concat3(label, " file does not exist or is not accessible: ", path)),
    }
}

// The session.

/// Where an invocation stands, waiting for the outcome of an effect.
pub enum Phase {
    /// `base`: waiting for `path` to be resolved; `store_dir` is the outcome of
    /// finding the state directory.
    BaseResolving { path: String, store_dir: Result<String, String> },
    /// `base`: waiting for the directory of the state file in `dir` to be created.
    BaseCreating { dir: String, base: String },
    /// `base`: waiting for the state file in `dir` to be written.
    BaseWriting { dir: String, base: String },
    /// `compare`: waiting for the state file in `dir` to be read.
    CompareReading { dir: String, target: String },
    /// `compare`: waiting to learn whether the stored `base` is still a file.
    CompareChecking { base: String, target: String },
    /// `compare`: waiting for `target` to be resolved.
    CompareResolving { base: String, target: String },
    /// `compare`: waiting for Zed to start.
    CompareLaunching,
    /// `status`: waiting for the state file in `dir` to be read.
    StatusReading { dir: String },
    /// `clear`: waiting for the state file to be removed.
    ClearRemoving,
    /// The invocation is over.
    Finished,
}

/// The mathematical value of a `Phase`.
pub enum PhaseModel {
    BaseResolving { path: Seq<char>, store_dir: Result<Seq<char>, Seq<char>> },
    BaseCreating { dir: Seq<char>, base: Seq<char> },
    BaseWriting { dir: Seq<char>, base: Seq<char> },
    CompareReading { dir: Seq<char>, target: Seq<char> },
    CompareChecking { base: Seq<char>, target: Seq<char> },
    CompareResolving { base: Seq<char>, target: Seq<char> },
    CompareLaunching,
    StatusReading { dir: Seq<char> },
    ClearRemoving,
    Finished,
}

impl View for Phase {
    type V = PhaseModel;

    open spec fn view(&self) -> PhaseModel {
        match self {
            Phase::BaseResolving { path, store_dir } => PhaseModel::BaseResolving {
                path: path@,
                store_dir: text_result(*store_dir),
            },
            Phase::BaseCreating { dir, base } => PhaseModel::BaseCreating { dir: dir@, base: base@ },
            Phase::BaseWriting { dir, base } => PhaseModel::BaseWriting { dir: dir@, base: base@ },
            Phase::CompareReading { dir, target } => PhaseModel::CompareReading {
                dir: dir@,
                target: target@,
            },
            Phase::CompareChecking { base, target } => PhaseModel::CompareChecking {
                base: base@,
                target: target@,
            },
            Phase::CompareResolving { base, target } => PhaseModel::CompareResolving {
                base: base@,
                target: target@,
            },
            Phase::CompareLaunching => PhaseModel::CompareLaunching,
            Phase::StatusReading { dir } => PhaseModel::StatusReading { dir: dir@ },
            Phase::ClearRemoving => PhaseModel::ClearRemoving,
            Phase::Finished => PhaseModel::Finished,
        }
    }
}

/// One invocation of the command line.
pub struct Session {
    pub phase: Phase,
    /// Success messages of `base` and `compare` are dropped.
    pub quiet: bool,
}

/// The mathematical value of a `Session`.
pub struct SessionModel {
    pub phase: PhaseModel,
    pub quiet: bool,
}

impl View for Session {
    type V = SessionModel;

    open spec fn view(&self) -> SessionModel {
        SessionModel { phase: self.phase@, quiet: self.quiet }
    }
}

/// What one step of a session asks for: print `out` to standard output and
/// `err` to standard error, one line each, then perform `effect`.
pub struct Step {
    pub out: Vec<String>,
    pub err: Vec<String>,
    pub effect: Effect,
}

/// The mathematical value of a `Step`.
pub struct StepModel {
    pub out: Seq<Seq<char>>,
    pub err: Seq<Seq<char>>,
    pub effect: EffectModel,
}

impl View for Step {
    type V = StepModel;

    open spec fn view(&self) -> StepModel {
        StepModel { out: self.out.deep_view(), err: self.err.deep_view(), effect: self.effect@ }
    }
}

/// The reply that each phase waits for.
pub open spec fn awaits(phase: PhaseModel, reply: ReplyModel) -> bool {
    match phase {
        PhaseModel::BaseResolving { .. } => reply is Resolved,
        PhaseModel::BaseCreating { .. } => reply is Done,
        PhaseModel::BaseWriting { .. } => reply is Done,
        PhaseModel::CompareReading { .. } => reply is Read,
        PhaseModel::CompareChecking { .. } => reply is IsFile,
        PhaseModel::CompareResolving { .. } => reply is Resolved,
        PhaseModel::CompareLaunching => reply is Done,
        PhaseModel::StatusReading { .. } => reply is Read,
        PhaseModel::ClearRemoving => reply is Done,
        PhaseModel::Finished => false,
    }
}

/// An error line.
pub open spec fn error_line(e: Seq<char>) -> Seq<char> {
    "Error: "@ + e
}

/// The hint printed when there is no usable base.
pub open spec fn no_base_hint() -> Seq<Seq<char>> {
    seq!["Run:"@, "  zed-anydiff base <FILE>"@]
}

/// End the invocation after printing `out` and `err`, with exit code `code`.
pub open spec fn ending(quiet: bool, out: Seq<Seq<char>>, err: Seq<Seq<char>>, code: i32) -> (
    SessionModel,
    StepModel,
) {
    (
        SessionModel { phase: PhaseModel::Finished, quiet },
        StepModel { out, err, effect: EffectModel::Exit(code) },
    )
}

/// End the invocation with the error `e` and exit code 1.
pub open spec fn failing(quiet: bool, e: Seq<char>) -> (SessionModel, StepModel) {
    ending(quiet, seq![], seq![error_line(e)], 1)
}

/// Go on to `phase`, after printing `out`, by performing `effect`.
pub open spec fn moving(quiet: bool, phase: PhaseModel, out: Seq<Seq<char>>, effect: EffectModel) -> (
    SessionModel,
    StepModel,
) {
    (SessionModel { phase, quiet }, StepModel { out, err: seq![], effect })
}

/// The first step of `base FILE` (`rest` holds the arguments after `base`).
pub open spec fn base_started(
    quiet: bool,
    rest: Seq<Seq<char>>,
    dir: Result<Seq<char>, Seq<char>>,
) -> (SessionModel, StepModel) {
    match single_path(rest) {
        Err(e) => ending(quiet, seq![], seq![error_line(e), USAGE@], 2),
        Ok(p) => moving(
            quiet,
            PhaseModel::BaseResolving { path: p, store_dir: dir },
            seq![],
            EffectModel::Resolve(p),
        ),
    }
}

/// The first step of `compare FILE`.
pub open spec fn compare_started(
    quiet: bool,
    rest: Seq<Seq<char>>,
    dir: Result<Seq<char>, Seq<char>>,
) -> (SessionModel, StepModel) {
    match single_path(rest) {
        Err(e) => ending(quiet, seq![], seq![error_line(e), USAGE@], 2),
        Ok(p) => match load_start(dir) {
            Err(e) => failing(quiet, e),
            Ok(effect) => moving(
                quiet,
                PhaseModel::CompareReading { dir: dir->Ok_0, target: p },
                seq![],
                effect,
            ),
        },
    }
}

/// The first step of `status`.
pub open spec fn status_started(quiet: bool, dir: Result<Seq<char>, Seq<char>>) -> (
    SessionModel,
    StepModel,
) {
    match load_start(dir) {
        Err(e) => failing(quiet, e),
        Ok(effect) => moving(quiet, PhaseModel::StatusReading { dir: dir->Ok_0 }, seq![], effect),
    }
}

/// The first step of `clear`.
pub open spec fn clear_started(quiet: bool, dir: Result<Seq<char>, Seq<char>>) -> (
    SessionModel,
    StepModel,
) {
    match clear_start(dir) {
        Err(e) => failing(quiet, e),
        Ok(effect) => moving(quiet, PhaseModel::ClearRemoving, seq![], effect),
    }
}

/// The first step of an invocation with the arguments `args` (without the
/// program name), the value `quiet_var` of `ZED_ANYDIFF_QUIET`, and the
/// outcome `dir` of finding the state directory (`state::state_dir`).
pub open spec fn started(
    args: Seq<Seq<char>>,
    quiet_var: Option<Seq<char>>,
    dir: Result<Seq<char>, Seq<char>>,
) -> (SessionModel, StepModel) {
    let q = quiet_value(quiet_var);
    if args.len() == 0 {
        ending(q, seq![], seq![USAGE@], 2)
    } else {
        let command = args[0];
        let rest = args.drop_first();
        if command == "base"@ {
            base_started(q, rest, dir)
        } else if command == "compare"@ {
            compare_started(q, rest, dir)
        } else if command == "status"@ {
            status_started(q, dir)
        } else if command == "clear"@ {
            clear_started(q, dir)
        } else {
            ending(q, seq![], seq!["Unknown command: "@ + command, USAGE@], 2)
        }
    }
}

/// The next step of session `s` once the effect it asked for had outcome
/// `reply`.
pub open spec fn resumed(s: SessionModel, reply: ReplyModel) -> (SessionModel, StepModel) {
    let q = s.quiet;
    match s.phase {
        PhaseModel::BaseResolving { path, store_dir } => match canonicalized(
            path,
            "Base"@,
            reply->Resolved_0,
        ) {
            Err(e) => failing(q, e),
            Ok(base) => match save_start(store_dir) {
                Err(e) => failing(q, e),
                Ok(effect) => moving(
                    q,
                    PhaseModel::BaseCreating { dir: store_dir->Ok_0, base },
                    seq![],
                    effect,
                ),
            },
        },
        PhaseModel::BaseCreating { dir, base } => match save_next(dir, base, reply->Done_0) {
            Err(e) => failing(q, e),
            Ok(effect) => moving(q, PhaseModel::BaseWriting { dir, base }, seq![], effect),
        },
        PhaseModel::BaseWriting { dir, base } => match saved_from(dir, reply->Done_0) {
            Err(e) => failing(q, e),
            Ok(()) => ending(
                q,
                if q {
                    seq![]
                } else {
                    seq!["Base file: "@ + base]
                },
                seq![],
                0,
            ),
        },
        PhaseModel::CompareReading { dir, target } => match loaded_from(dir, reply->Read_0) {
            Err(e) => failing(q, e),
            Ok(None) => ending(q, seq![], seq![error_line("no base file selected."@)] + no_base_hint(), 1),
            Ok(Some(base)) => moving(
                q,
                PhaseModel::CompareChecking { base, target },
                seq![],
                EffectModel::CheckFile(base),
            ),
        },
        PhaseModel::CompareChecking { base, target } => if reply->IsFile_0 {
            moving(q, PhaseModel::CompareResolving { base, target }, seq![], EffectModel::Resolve(target))
        } else {
            ending(
                q,
                seq![],
                seq![error_line("base file no longer exists: "@ + base)] + no_base_hint(),
                1,
            )
        },
        PhaseModel::CompareResolving { base, target } => match canonicalized(
            target,
            "Target"@,
            reply->Resolved_0,
        ) {
            Err(e) => failing(q, e),
            Ok(t) => moving(
                q,
                PhaseModel::CompareLaunching,
                if q {
                    seq![]
                } else {
                    seq!["Comparing:"@, "  base:   "@ + base, "  target: "@ + t]
                },
                EffectModel::Launch(diff_args(base, t)),
            ),
        },
        PhaseModel::CompareLaunching => match launched_from(reply->Done_0) {
            Err(e) => failing(q, e),
            Ok(()) => ending(q, seq![], seq![], 0),
        },
        PhaseModel::StatusReading { dir } => match loaded_from(dir, reply->Read_0) {
            Err(e) => failing(q, e),
            Ok(None) => ending(q, seq!["Base: not set"@], seq![], 0),
            Ok(Some(base)) => ending(q, seq!["Base: "@ + base], seq![], 0),
        },
        PhaseModel::ClearRemoving => match cleared_from(reply->Done_0) {
            Err(e) => failing(q, e),
            Ok(()) => ending(q, seq!["Base: cleared"@], seq![], 0),
        },
        PhaseModel::Finished => ending(q, seq![], seq![], 0),
    }
}

// Building steps.

fn no_lines() -> (v: Vec<String>)
    ensures
        v.deep_view() == Seq::<Seq<char>>::empty(),
{
    let v: Vec<String> = Vec::new();
    assert(v.deep_view() =~= Seq::<Seq<char>>::empty());
    v
}

fn one_line(a: String) -> (v: Vec<String>)
    ensures
        v.deep_view() == seq![a@],
{
    let mut v: Vec<String> = Vec::new();
    v.push(a);
    assert(v.deep_view() =~= seq![a@]);
    v
}

fn two_lines(a: String, b: String) -> (v: Vec<String>)
    ensures
        v.deep_view() == seq![a@, b@],
{
    let mut v: Vec<String> = Vec::new();
    v.push(a);
    v.push(b);
    assert(v.deep_view() =~= seq![a@, b@]);
    v
}

fn three_lines(a: String, b: String, c: String) -> (v: Vec<String>)
    ensures
        v.deep_view() == seq![a@, b@, c@],
{
    let mut v: Vec<String> = Vec::new();
    v.push(a);
    v.push(b);
    v.push(c);
    assert(v.deep_view() =~= seq![a@, b@, c@]);
    v
}

/// The error line for `e`.
fn error_text(e: &str) -> (r: String)
    ensures
        r@ == error_line(e@),
{
    concat("Error: ", e)
}

/// The error lines `e`, then the hint to set a base.
fn with_no_base_hint(e: String) -> (v: Vec<String>)
    ensures
        v.deep_view() == seq![e@] + no_base_hint(),
{
    let v = three_lines(e, "Run:".to_owned(), "  zed-anydiff base <FILE>".to_owned());
    assert(v.deep_view() =~= seq![e@] + no_base_hint());
    v
}

fn end_with(quiet: bool, out: Vec<String>, err: Vec<String>, code: i32) -> (r: (Session, Step))
    ensures
        (r.0@, r.1@) == ending(quiet, out.deep_view(), err.deep_view(), code),
{
    (Session { phase: Phase::Finished, quiet }, Step { out, err, effect: Effect::Exit(code) })
}

fn fail_with(quiet: bool, e: String) -> (r: (Session, Step))
    ensures
        (r.0@, r.1@) == failing(quiet, e@),
{
    end_with(quiet, no_lines(), one_line(error_text(e.as_str())), 1)
}

fn move_to(quiet: bool, phase: Phase, out: Vec<String>, effect: Effect) -> (r: (Session, Step))
    ensures
        (r.0@, r.1@) == moving(quiet, phase@, out.deep_view(), effect@),
{
    (Session { phase, quiet }, Step { out, err: no_lines(), effect })
}

// Starting.

fn base_start(quiet: bool, rest: &[String], dir: Result<String, String>) -> (r: (Session, Step))
    ensures
        (r.0@, r.1@) == base_started(quiet, rest.deep_view(), text_result(dir)),
{
    match require_single_path(rest) {
        Err(e) => end_with(quiet, no_lines(), two_lines(error_text(e.as_str()), USAGE.to_owned()), 2),
        Ok(p) => {
            let effect = Effect::Resolve(p.clone());
            move_to(quiet, Phase::BaseResolving { path: p, store_dir: dir }, no_lines(), effect)
        },
    }
}

fn compare_start(quiet: bool, rest: &[String], dir: Result<String, String>) -> (r: (
    Session,
    Step,
))
    ensures
        (r.0@, r.1@) == compare_started(quiet, rest.deep_view(), text_result(dir)),
{
    match require_single_path(rest) {
        Err(e) => end_with(quiet, no_lines(), two_lines(error_text(e.as_str()), USAGE.to_owned()), 2),
        Ok(p) => match load(&dir) {
            Err(e) => fail_with(quiet, e),
            Ok(effect) => {
                let d = dir.unwrap();
                move_to(quiet, Phase::CompareReading { dir: d, target: p }, no_lines(), effect)
            },
        },
    }
}

fn status_start(quiet: bool, dir: Result<String, String>) -> (r: (Session, Step))
    ensures
        (r.0@, r.1@) == status_started(quiet, text_result(dir)),
{
    match load(&dir) {
        Err(e) => fail_with(quiet, e),
        Ok(effect) => {
            let d = dir.unwrap();
            move_to(quiet, Phase::StatusReading { dir: d }, no_lines(), effect)
        },
    }
}

fn clear_start_step(quiet: bool, dir: Result<String, String>) -> (r: (Session, Step))
    ensures
        (r.0@, r.1@) == clear_started(quiet, text_result(dir)),
{
    match clear(&dir) {
        Err(e) => fail_with(quiet, e),
        Ok(effect) => move_to(quiet, Phase::ClearRemoving, no_lines(), effect),
    }
}

/// Start one invocation with the arguments `args` (without the program name),
/// the value `quiet_var` of `ZED_ANYDIFF_QUIET` (`None` when unset), and the
/// outcome `dir` of finding the state directory (`state::state_dir`). No
/// arguments, or an unknown command, end at once with the usage text and exit
/// code 2.
pub fn run(args: &[String], quiet_var: &Option<String>, dir: Result<String, String>) -> (r: (
    Session,
    Step,
))
    ensures
        (r.0@, r.1@) == started(args.deep_view(), quiet_var.deep_view(), text_result(dir)),
{
    let q = quiet(quiet_var);
    if args.len() == 0 {
        return end_with(q, no_lines(), one_line(USAGE.to_owned()), 2);
    }
    let command = args[0].as_str();
    let rest = vstd::slice::slice_subrange(args, 1, args.len());
    assert(rest.deep_view() =~= args.deep_view().drop_first());
    if same_text(command, "base") {
        base_start(q, rest, dir)
    } else if same_text(command, "compare") {
        compare_start(q, rest, dir)
    } else if same_text(command, "status") {
        status_start(q, dir)
    } else if same_text(command, "clear") {
        clear_start_step(q, dir)
    } else {
        let unknown = concat("Unknown command: ", command);
        end_with(q, no_lines(), two_lines(unknown, USAGE.to_owned()), 2)
    }
}

// Resuming.

impl Session {
    /// The next step of this session, once the effect that the last step asked
    /// for had outcome `reply`.
    pub fn resume(self, reply: Reply) -> (r: (Session, Step))
        requires
            awaits(self@.phase, reply@),
        ensures
            (r.0@, r.1@) == resumed(self@, reply@),
    {
        let q = self.quiet;
        match self.phase {
            Phase::BaseResolving { path, store_dir } => {
                let resolved = match reply {
                    Reply::Resolved(res) => res,
                    _ => { proof { assert(false); } None },
                };
                match canonicalize(path.as_str(), "Base", resolved) {
                    Err(e) => fail_with(q, e),
                    Ok(base) => match save(&store_dir) {
                        Err(e) => fail_with(q, e),
                        Ok(effect) => {
                            let d = store_dir.unwrap();
                            move_to(q, Phase::BaseCreating { dir: d, base }, no_lines(), effect)
                        },
                    },
                }
            },
            Phase::BaseCreating { dir, base } => {
                let created = match reply {
                    Reply::Done(res) => res,
                    _ => { proof { assert(false); } Ok(()) },
                };
                match save_after_create(dir.as_str(), base.as_str(), created) {
                    Err(e) => fail_with(q, e),
                    Ok(effect) => move_to(q, Phase::BaseWriting { dir, base }, no_lines(), effect),
                }
            },
            Phase::BaseWriting { dir, base } => {
                let written = match reply {
                    Reply::Done(res) => res,
                    _ => { proof { assert(false); } Ok(()) },
                };
                match save_after_write(dir.as_str(), written) {
                    Err(e) => fail_with(q, e),
                    Ok(()) => {
                        let out = if q {
                            no_lines()
                        } else {
                            one_line(concat("Base file: ", base.as_str()))
                        };
                        end_with(q, out, no_lines(), 0)
                    },
                }
            },
            Phase::CompareReading { dir, target } => {
                let read = match reply {
                    Reply::Read(res) => res,
                    _ => { proof { assert(false); } Ok(String::new()) },
                };
                match loaded(dir.as_str(), read) {
                    Err(e) => fail_with(q, e),
                    Ok(None) => end_with(
                        q,
                        no_lines(),
                        with_no_base_hint(error_text("no base file selected.")),
                        1,
                    ),
                    Ok(Some(base)) => {
                        let effect = Effect::CheckFile(base.clone());
                        move_to(q, Phase::CompareChecking { base, target }, no_lines(), effect)
                    },
                }
            },
            Phase::CompareChecking { base, target } => {
                let is_file = match reply {
                    Reply::IsFile(b) => b,
                    _ => { proof { assert(false); } false },
                };
                if is_file {
                    let effect = Effect::Resolve(target.clone());
                    move_to(q, Phase::CompareResolving { base, target }, no_lines(), effect)
                } else {
                    let gone = concat("base file no longer exists: ", base.as_str());
                    end_with(q, no_lines(), with_no_base_hint(error_text(gone.as_str())), 1)
                }
            },
            Phase::CompareResolving { base, target } => {
                let resolved = match reply {
                    Reply::Resolved(res) => res,
                    _ => { proof { assert(false); } None },
                };
                match canonicalize(target.as_str(), "Target", resolved) {
                    Err(e) => fail_with(q, e),
                    Ok(t) => {
                        let out = if q {
                            no_lines()
                        } else {
                            three_lines(
                                "Comparing:".to_owned(),
                                concat("  base:   ", base.as_str()),
                                concat("  target: ", t.as_str()),
                            )
                        };
                        let args = build_diff_args(base.as_str(), t.as_str());
                        move_to(q, Phase::CompareLaunching, out, Effect::Launch(args))
                    },
                }
            },
            Phase::CompareLaunching => {
                let spawned = match reply {
                    Reply::Done(res) => res,
                    _ => { proof { assert(false); } Ok(()) },
                };
                match launch_outcome(spawned) {
                    Err(e) => fail_with(q, e),
                    Ok(()) => end_with(q, no_lines(), no_lines(), 0),
                }
            },
            Phase::StatusReading { dir } => {
                let read = match reply {
                    Reply::Read(res) => res,
                    _ => { proof { assert(false); } Ok(String::new()) },
                };
                match loaded(dir.as_str(), read) {
                    Err(e) => fail_with(q, e),
                    Ok(None) => end_with(q, one_line("Base: not set".to_owned()), no_lines(), 0),
                    Ok(Some(base)) => end_with(
                        q,
                        one_line(concat("Base: ", base.as_str())),
                        no_lines(),
                        0,
                    ),
                }
            },
            Phase::ClearRemoving => {
                let removed = match reply {
                    Reply::Done(res) => res,
                    _ => { proof { assert(false); } Ok(()) },
                };
                match cleared(removed) {
                    Err(e) => fail_with(q, e),
                    Ok(()) => end_with(q, one_line("Base: cleared".to_owned()), no_lines(), 0),
                }
            },
            Phase::Finished => end_with(q, no_lines(), no_lines(), 0),
        }
    }
}

} // verus!
