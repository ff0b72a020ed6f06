use zed_anydiff::effect::IoFailure;
use zed_anydiff::zed::{build_diff_args, launch_outcome, ZED_NOT_FOUND};

#[test]
fn builds_diff_args_in_order() {
    let args = build_diff_args("/a/foo.c", "/b/bar.c");
    assert_eq!(
        args,
        vec![
            "zed".to_string(),
            "--diff".to_string(),
            "/a/foo.c".to_string(),
            "/b/bar.c".to_string()
        ]
    );
}

#[test]
fn builds_diff_args_with_spaces_and_unicode() {
    let args = build_diff_args("D:\\repo 1\\файл.txt", "C:\\temp\\바라.txt");
    assert_eq!(
        args,
        vec![
            "zed".to_string(),
            "--diff".to_string(),
            "D:\\repo 1\\файл.txt".to_string(),
            "C:\\temp\\바라.txt".to_string(),
        ]
    );
}

#[test]
fn launch_success_is_ok() {
    assert_eq!(launch_outcome(Ok(())), Ok(()));
}

#[test]
fn launch_without_zed_explains_path() {
    let failure = IoFailure { not_found: true, message: "No such file or directory (os error 2)".to_string() };
    let r = launch_outcome(Err(failure));
    assert_eq!(r, Err(ZED_NOT_FOUND.to_string()));
    assert_eq!(
        ZED_NOT_FOUND,
        "Could not find the Zed CLI executable.\nEnsure the `zed` command is installed and available in PATH."
    );
}

#[test]
fn launch_other_failure_is_reported() {
    let failure = IoFailure { not_found: false, message: "Permission denied (os error 13)".to_string() };
    assert_eq!(
        launch_outcome(Err(failure)),
        Err("failed to launch `zed`: Permission denied (os error 13)".to_string())
    );
}
