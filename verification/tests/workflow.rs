use std::collections::{BTreeMap, BTreeSet};
use std::path::Path;

use zed_anydiff::cli::{quiet, run};
use zed_anydiff::effect::{Effect, IoFailure, Reply};
use zed_anydiff::state::{
    base_of, clear_in, cleared, load_in, loaded, parse, save_after_create, save_after_write, save_in,
    choose_state_dir, state_dir, state_file_in, NO_CACHE_DIR,
};

/// A stand-in for the file system and the `zed` program: regular files with
/// their text, created directories, and what was launched.
struct World {
    files: BTreeMap<String, String>,
    dirs: BTreeSet<String>,
    zed_installed: bool,
    launched: Vec<Vec<String>>,
    out: Vec<String>,
    err: Vec<String>,
}

fn not_found() -> IoFailure {
    IoFailure { not_found: true, message: "No such file or directory (os error 2)".to_string() }
}

impl World {
    fn new() -> World {
        World {
            files: BTreeMap::new(),
            dirs: BTreeSet::new(),
            zed_installed: true,
            launched: Vec::new(),
            out: Vec::new(),
            err: Vec::new(),
        }
    }

    fn file(&mut self, path: &str, content: &str) -> String {
        self.files.insert(path.to_string(), content.to_string());
        path.to_string()
    }

    /// Perform one effect other than `Exit`.
    fn perform(&mut self, effect: Effect) -> Reply {
        match effect {
            Effect::Resolve(p) => {
                Reply::Resolved(if self.files.contains_key(&p) { Some(p) } else { None })
            }
            Effect::Read(p) => Reply::Read(match self.files.get(&p) {
                Some(t) => Ok(t.clone()),
                None => Err(not_found()),
            }),
            Effect::CreateDir(p) => {
                self.dirs.insert(p);
                Reply::Done(Ok(()))
            }
            Effect::Write(p, t) => {
                self.files.insert(p, t);
                Reply::Done(Ok(()))
            }
            Effect::Remove(p) => Reply::Done(match self.files.remove(&p) {
                Some(_) => Ok(()),
                None => Err(not_found()),
            }),
            Effect::CheckFile(p) => Reply::IsFile(self.files.contains_key(&p)),
            Effect::Launch(a) => {
                if self.zed_installed {
                    self.launched.push(a);
                    Reply::Done(Ok(()))
                } else {
                    Reply::Done(Err(not_found()))
                }
            }
            Effect::Exit(_) => panic!("exit is not performed"),
        }
    }

    /// Run one invocation to its end and return its exit code.
    fn invoke(&mut self, args: &[&str], quiet_var: Option<&str>, dir: &str) -> i32 {
        let args: Vec<String> = args.iter().map(|s| s.to_string()).collect();
        let quiet_var = quiet_var.map(|s| s.to_string());
        let (mut session, mut step) = run(&args, &quiet_var, Ok(dir.to_string()));
        loop {
            self.out.extend(step.out);
            self.err.extend(step.err);
            let reply = match step.effect {
                Effect::Exit(code) => return code,
                other => self.perform(other),
            };
            let (next, next_step) = session.resume(reply);
            session = next;
            step = next_step;
        }
    }

    fn save_in(&mut self, dir: &str, base: &str) -> Result<(), String> {
        let created = match self.perform(save_in(dir)) {
            Reply::Done(r) => r,
            _ => panic!("unexpected reply"),
        };
        let write = save_after_create(dir, base, created)?;
        let written = match self.perform(write) {
            Reply::Done(r) => r,
            _ => panic!("unexpected reply"),
        };
        save_after_write(dir, written)
    }

    fn load_in(&mut self, dir: &str) -> Result<Option<String>, String> {
        let read = match self.perform(load_in(dir)) {
            Reply::Read(r) => r,
            _ => panic!("unexpected reply"),
        };
        loaded(dir, read)
    }

    fn clear_in(&mut self, dir: &str) -> Result<(), String> {
        let removed = match self.perform(clear_in(dir)) {
            Reply::Done(r) => r,
            _ => panic!("unexpected reply"),
        };
        cleared(removed)
    }
}

const DIR: &str = "/tmp/zed-anydiff-test";

// The state store.

#[test]
fn state_file_lives_in_os_cache_subdir() {
    let dir = Path::new(DIR);
    assert_eq!(
        state_file_in(DIR),
        dir.join("zed-anydiff").join("state.json").to_string_lossy().into_owned()
    );
}

#[test]
fn save_then_load_round_trips() {
    let mut w = World::new();
    let base = "C:\\Users\\me\\src\\foo.c";
    w.save_in(DIR, base).unwrap();
    assert_eq!(w.load_in(DIR).unwrap(), Some(base.to_string()));
}

#[test]
fn save_then_load_with_spaces_and_unicode() {
    let mut w = World::new();
    let base = "D:\\repo 1\\файл.txt";
    w.save_in(DIR, base).unwrap();
    assert_eq!(w.load_in(DIR).unwrap(), Some(base.to_string()));
}

#[test]
fn save_then_load_with_quote_in_path() {
    let mut w = World::new();
    let base = "C:\\Users\\me\\src\\foo \"quoted\".txt";
    w.save_in(DIR, base).unwrap();
    assert_eq!(w.load_in(DIR).unwrap(), Some(base.to_string()));
}

#[test]
fn load_without_state_file_is_none() {
    let mut w = World::new();
    assert_eq!(w.load_in(DIR).unwrap(), None);
}

#[test]
fn load_with_corrupt_state_file_errors() {
    let mut w = World::new();
    w.file(&state_file_in(DIR), "not json");
    assert!(w.load_in(DIR).is_err());
}

#[test]
fn clear_removes_state() {
    let mut w = World::new();
    w.save_in(DIR, "/a/foo.c").unwrap();
    w.clear_in(DIR).unwrap();
    assert_eq!(w.load_in(DIR).unwrap(), None);
}

#[test]
fn clear_is_idempotent() {
    let mut w = World::new();
    w.clear_in(DIR).unwrap();
    w.clear_in(DIR).unwrap();
    assert_eq!(w.load_in(DIR).unwrap(), None);
}

#[test]
fn saved_text_is_a_json_object_with_base() {
    let mut w = World::new();
    w.save_in(DIR, "C:\\a \"b\".txt").unwrap();
    assert_eq!(
        w.files.get(&state_file_in(DIR)).unwrap(),
        "{\"base\":\"C:\\\\a \\\"b\\\".txt\"}"
    );
    assert!(w.dirs.contains(&Path::new(DIR).join("zed-anydiff").to_string_lossy().into_owned()));
}

#[test]
fn parse_reads_only_a_string_base() {
    assert_eq!(parse("{\"base\": \"/x/y.c\", \"other\": 1}"), Ok(Some("/x/y.c".to_string())));
    assert_eq!(parse("{\"base\": 5}"), Ok(None));
    assert_eq!(parse("{}"), Ok(None));
    assert_eq!(parse("[\"base\"]"), Ok(None));
    assert_eq!(parse("null"), Ok(None));
    let e = parse("not json").unwrap_err();
    assert!(e.starts_with("could not parse state file: "));
    assert!(e.len() > "could not parse state file: ".len());
}

#[test]
fn unreadable_state_file_is_reported() {
    let failure = IoFailure { not_found: false, message: "Permission denied (os error 13)".to_string() };
    let expected = format!("could not read state file {}: Permission denied (os error 13)", state_file_in(DIR));
    assert_eq!(loaded(DIR, Err(failure)), Err(expected));
}

#[test]
fn failed_writes_are_reported() {
    let failure = IoFailure { not_found: false, message: "Read-only file system (os error 30)".to_string() };
    let sub = Path::new(DIR).join("zed-anydiff").to_string_lossy().into_owned();
    match save_after_create(DIR, "/a", Err(failure)) {
        Err(e) => assert_eq!(e, format!("could not create {}: Read-only file system (os error 30)", sub)),
        Ok(_) => panic!("expected an error"),
    }
    let failure = IoFailure { not_found: true, message: "gone".to_string() };
    assert_eq!(
        save_after_write(DIR, Err(failure)),
        Err(format!("could not write state file {}: gone", state_file_in(DIR)))
    );
    let failure = IoFailure { not_found: false, message: "busy".to_string() };
    assert_eq!(cleared(Err(failure)), Err("could not remove state file: busy".to_string()));
}

// The command line.

fn load_base(w: &mut World) -> Option<String> {
    w.load_in(DIR).unwrap()
}

#[test]
fn base_persists_and_status_reports_it() {
    let mut w = World::new();
    let foo = w.file("/sandbox/foo.c", "a");
    assert_eq!(w.invoke(&["base", &foo], None, DIR), 0);
    assert_eq!(load_base(&mut w), Some(foo.clone()));
    assert_eq!(w.invoke(&["status"], None, DIR), 0);
    assert_eq!(w.out.last().unwrap(), &format!("Base: {}", foo));
}

#[test]
fn base_with_spaces_and_unicode() {
    let mut w = World::new();
    let path = w.file("/sandbox/файл with space.txt", "a");
    assert_eq!(w.invoke(&["base", &path], None, DIR), 0);
    assert_eq!(load_base(&mut w), Some(path));
}

#[test]
fn base_missing_file_errors() {
    let mut w = World::new();
    let missing = "/sandbox/does-not-exist.c";
    assert_eq!(w.invoke(&["base", missing], None, DIR), 1);
    assert_eq!(load_base(&mut w), None);
    assert_eq!(
        w.err,
        vec![format!("Error: Base file does not exist or is not accessible: {}", missing)]
    );
}

#[test]
fn compare_without_base_errors() {
    let mut w = World::new();
    let bar = w.file("/sandbox/bar.c", "b");
    assert_eq!(w.invoke(&["compare", &bar], None, DIR), 1);
    assert_eq!(
        w.err,
        vec![
            "Error: no base file selected.".to_string(),
            "Run:".to_string(),
            "  zed-anydiff base <FILE>".to_string()
        ]
    );
}

#[test]
fn compare_with_missing_target_errors() {
    let mut w = World::new();
    let foo = w.file("/sandbox/foo.c", "a");
    w.invoke(&["base", &foo], None, DIR);
    let missing = "/sandbox/nope.c";
    assert_eq!(w.invoke(&["compare", missing], None, DIR), 1);
    assert!(w.launched.is_empty());
}

#[test]
fn compare_with_deleted_base_errors() {
    let mut w = World::new();
    let foo = w.file("/sandbox/foo.c", "a");
    w.invoke(&["base", &foo], None, DIR);
    w.files.remove(&foo);
    let bar = w.file("/sandbox/bar.c", "b");
    assert_eq!(w.invoke(&["compare", &bar], None, DIR), 1);
    assert_eq!(w.err[0], format!("Error: base file no longer exists: {}", foo));
}

#[test]
fn compare_without_zed_reports_missing_executable() {
    let mut w = World::new();
    let foo = w.file("/sandbox/foo.c", "a");
    let bar = w.file("/sandbox/bar.c", "b");
    w.invoke(&["base", &foo], None, DIR);
    w.zed_installed = false;
    let code = w.invoke(&["compare", &bar], None, DIR);
    assert_eq!(code, 1);
    assert_eq!(
        w.err.last().unwrap(),
        "Error: Could not find the Zed CLI executable.\nEnsure the `zed` command is installed and available in PATH."
    );
}

#[test]
fn clear_removes_base() {
    let mut w = World::new();
    let foo = w.file("/sandbox/foo.c", "a");
    w.invoke(&["base", &foo], None, DIR);
    assert_eq!(w.invoke(&["clear"], None, DIR), 0);
    assert_eq!(load_base(&mut w), None);
}

#[test]
fn quiet_flag_is_respected() {
    let mut w = World::new();
    let foo = w.file("/sandbox/foo.c", "a");
    assert!(!quiet(&None));
    assert!(quiet(&Some("1".to_string())));
    assert_eq!(w.invoke(&["base", &foo], Some("1"), DIR), 0);
    assert_eq!(load_base(&mut w), Some(foo));
    assert!(w.out.is_empty());
}

#[test]
fn unknown_command_exits_2() {
    let mut w = World::new();
    assert_eq!(w.invoke(&["frobnicate"], None, DIR), 2);
    assert_eq!(w.invoke(&[], None, DIR), 2);
}

#[test]
fn quiet_values() {
    assert!(quiet(&Some("true".to_string())));
    assert!(quiet(&Some("TRUE".to_string())));
    assert!(quiet(&Some("True".to_string())));
    assert!(quiet(&Some("yes".to_string())));
    assert!(!quiet(&Some("Yes".to_string())));
    assert!(!quiet(&Some("YES".to_string())));
    assert!(!quiet(&Some("no".to_string())));
    assert!(!quiet(&Some("0".to_string())));
    assert!(!quiet(&Some("".to_string())));
    assert!(!quiet(&Some("truee".to_string())));
}

#[test]
fn compare_launches_zed_with_base_then_target() {
    let mut w = World::new();
    let foo = w.file("/sandbox/foo.c", "a");
    let bar = w.file("/sandbox/bar.c", "b");
    w.invoke(&["base", &foo], None, DIR);
    assert_eq!(w.out, vec![format!("Base file: {}", foo)]);
    w.out.clear();
    assert_eq!(w.invoke(&["compare", &bar], None, DIR), 0);
    assert_eq!(
        w.launched,
        vec![vec!["zed".to_string(), "--diff".to_string(), foo.clone(), bar.clone()]]
    );
    assert_eq!(
        w.out,
        vec!["Comparing:".to_string(), format!("  base:   {}", foo), format!("  target: {}", bar)]
    );
    // The base is retained for further comparisons.
    assert_eq!(load_base(&mut w), Some(foo.clone()));
    assert_eq!(w.invoke(&["compare", &bar], Some("1"), DIR), 0);
    assert_eq!(w.launched.len(), 2);
}

#[test]
fn usage_errors_print_usage() {
    let mut w = World::new();
    assert_eq!(w.invoke(&["frobnicate"], None, DIR), 2);
    assert_eq!(w.err[0], "Unknown command: frobnicate");
    assert!(w.err[1].starts_with("Usage: zed-anydiff <base|compare|status|clear>\n\nbase FILE"));
    let mut w = World::new();
    assert_eq!(w.invoke(&["base"], None, DIR), 2);
    assert_eq!(w.err[0], "Error: missing FILE argument");
    assert!(w.err[1].starts_with("Usage: "));
    let mut w = World::new();
    assert_eq!(w.invoke(&["compare", "a", "b"], None, DIR), 2);
    assert_eq!(w.err[0], "Error: expected exactly one FILE argument");
}

#[test]
fn status_and_clear_report() {
    let mut w = World::new();
    assert_eq!(w.invoke(&["status"], None, DIR), 0);
    assert_eq!(w.out, vec!["Base: not set".to_string()]);
    assert_eq!(w.invoke(&["clear"], Some("1"), DIR), 0);
    assert_eq!(w.out, vec!["Base: not set".to_string(), "Base: cleared".to_string()]);
}

#[test]
fn unknown_state_dir_is_reported() {
    let args = vec!["status".to_string()];
    let (_, step) = run(&args, &None, Err("could not determine the OS cache directory".to_string()));
    assert_eq!(step.err, vec!["Error: could not determine the OS cache directory".to_string()]);
    assert!(matches!(step.effect, Effect::Exit(1)));
}

#[test]
fn state_dir_prefers_the_override() {
    assert_eq!(state_dir(Some("/custom/state".to_string())), Ok("/custom/state".to_string()));
    match state_dir(None) {
        Ok(d) => assert!(!d.is_empty()),
        Err(e) => assert_eq!(e, NO_CACHE_DIR),
    }
}

#[test]
fn state_dir_choice() {
    assert_eq!(
        choose_state_dir(Some("/o".to_string()), Some("/c".to_string())),
        Ok("/o".to_string())
    );
    assert_eq!(choose_state_dir(None, Some("/c".to_string())), Ok("/c".to_string()));
    assert_eq!(choose_state_dir(None, None), Err(NO_CACHE_DIR.to_string()));
}

#[test]
fn control_characters_are_escaped_in_the_state_file() {
    let mut w = World::new();
    w.save_in(DIR, "a\tb\u{1}c/d").unwrap();
    assert_eq!(w.files.get(&state_file_in(DIR)).unwrap(), "{\"base\":\"a\\tb\\u0001c/d\"}");
    assert_eq!(w.load_in(DIR).unwrap(), Some("a\tb\u{1}c/d".to_string()));
}

#[test]
fn base_of_reads_the_parse_outcome() {
    assert_eq!(
        base_of(Err("expected value at line 1 column 1".to_string())),
        Err("could not parse state file: expected value at line 1 column 1".to_string())
    );
    assert_eq!(base_of(Ok(serde_json::Value::Null)), Ok(None));
    assert_eq!(base_of(Ok(serde_json::Value::String("base".to_string()))), Ok(None));
    let object: serde_json::Value = serde_json::from_str("{\"base\": \"/x/y.c\"}").unwrap();
    assert_eq!(base_of(Ok(object)), Ok(Some("/x/y.c".to_string())));
    let wrong: serde_json::Value = serde_json::from_str("{\"base\": true}").unwrap();
    assert_eq!(base_of(Ok(wrong)), Ok(None));
}
