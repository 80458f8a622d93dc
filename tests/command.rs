use tidb_installer::command::{
    background, background_exit_code, default_running_command, recover_on_startup,
    reset_background, tail, update_running_command, ExitCodeError, RunningCommand,
    StatusArtifacts,
};
use tidb_installer::record::{exit_code_value, invocation_record, invocation_tokens};

fn strings(xs: &[&str]) -> Vec<String> {
    xs.iter().map(|s| s.to_string()).collect()
}

fn store(
    invocation: Option<&str>,
    stdout: Option<&str>,
    stderr: Option<&str>,
    exit_code: Option<&str>,
) -> StatusArtifacts {
    StatusArtifacts {
        invocation: invocation.map(|s| s.to_string()),
        stdout: stdout.map(|s| s.to_string()),
        stderr: stderr.map(|s| s.to_string()),
        exit_code: exit_code.map(|s| s.to_string()),
    }
}

#[test]
fn launch_records_invocation() {
    let mut s = store(Some("old"), Some("x"), Some("y"), Some("3"));
    let r = background(&mut s, "deploy".to_string());
    assert_eq!(s.invocation, Some("just deploy".to_string()));
    assert_eq!(s.stdout, None);
    assert_eq!(s.stderr, None);
    assert_eq!(s.exit_code, None);
    assert_eq!(r, default_running_command(strings(&["just", "deploy"])));
    let polled = update_running_command(&s).unwrap().unwrap();
    assert_eq!(polled.command, strings(&["just", "deploy"]));
}

#[test]
fn reset_twice_leaves_nothing() {
    let mut s = store(Some("just a"), Some("out"), Some("err"), Some("0"));
    reset_background(&mut s);
    reset_background(&mut s);
    assert_eq!(s, StatusArtifacts::new());
    assert_eq!(update_running_command(&s), Ok(None));
}

#[test]
fn tail_of_missing_record_is_empty() {
    assert_eq!(tail(&None), "");
    assert_eq!(tail(&Some("line\n".to_string())), "line\n");
}

#[test]
fn exit_code_not_found() {
    let s = store(Some("just a"), None, None, None);
    assert_eq!(background_exit_code(&s), Err(ExitCodeError::NotFound));
}

#[test]
fn exit_code_corrupt() {
    let s = store(Some("just a"), None, None, Some("done"));
    assert_eq!(background_exit_code(&s), Err(ExitCodeError::Corrupt("done".to_string())));
    let s = store(None, None, None, Some(""));
    assert_eq!(background_exit_code(&s), Err(ExitCodeError::Corrupt("".to_string())));
    let s = store(None, None, None, Some("2147483648"));
    assert_eq!(
        background_exit_code(&s),
        Err(ExitCodeError::Corrupt("2147483648".to_string()))
    );
}

#[test]
fn exit_code_values() {
    for v in [0, 1, -1, 127, i32::MAX, i32::MIN] {
        let s = store(None, None, None, Some(&v.to_string()));
        assert_eq!(background_exit_code(&s), Ok(v));
    }
    assert_eq!(exit_code_value("+7"), Some(7));
    assert_eq!(exit_code_value("-"), None);
    assert_eq!(exit_code_value("1 "), None);
}

#[test]
fn failed_job_without_diagnostic() {
    let s = store(Some("just deploy"), Some("building"), Some(""), Some("1"));
    let r = update_running_command(&s).unwrap().unwrap();
    assert_eq!(r.exit_code, Some(1));
    assert_eq!(r.error, "error running command");
    assert_eq!(r.output, "building");
    let s = store(Some("just deploy"), Some("building"), None, Some("2"));
    assert_eq!(update_running_command(&s).unwrap().unwrap().error, "error running command");
}

#[test]
fn failed_job_with_diagnostic() {
    let s = store(Some("just deploy"), Some("building"), Some("boom"), Some("1"));
    let r = update_running_command(&s).unwrap().unwrap();
    assert_eq!(r.exit_code, Some(1));
    assert_eq!(r.error, "");
}

#[test]
fn poll_before_any_launch() {
    assert_eq!(update_running_command(&StatusArtifacts::new()), Ok(None));
}

#[test]
fn poll_right_after_launch() {
    let mut s = StatusArtifacts::new();
    background(&mut s, "deploy".to_string());
    let r = update_running_command(&s).unwrap().unwrap();
    assert_eq!(
        r,
        RunningCommand {
            command: strings(&["just", "deploy"]),
            output: String::new(),
            error: String::new(),
            exit_code: None,
        }
    );
}

#[test]
fn poll_after_success() {
    let s = store(Some("just deploy"), Some("all done\n"), Some(""), Some("0"));
    let r = update_running_command(&s).unwrap().unwrap();
    assert_eq!(r.exit_code, Some(0));
    assert_eq!(r.error, "");
    assert_eq!(r.output, "all done\n");
}

#[test]
fn poll_with_corrupt_exit_code() {
    let s = store(Some("just deploy"), Some("x"), Some(""), Some("??"));
    assert_eq!(
        update_running_command(&s),
        Err(ExitCodeError::Corrupt("??".to_string()))
    );
    let s = store(None, None, None, Some("??"));
    assert_eq!(update_running_command(&s), Ok(None));
}

#[test]
fn startup_keeps_finished_run() {
    let mut s = store(Some("just a"), Some("o"), None, Some("0"));
    let before = s.clone();
    assert!(!recover_on_startup(&mut s));
    assert_eq!(s, before);
}

#[test]
fn startup_clears_interrupted_run() {
    let mut s = store(Some("just a"), Some("o"), None, None);
    assert!(recover_on_startup(&mut s));
    assert_eq!(s, StatusArtifacts::new());
    let mut s = store(Some("just a"), Some("o"), None, Some("x"));
    assert!(recover_on_startup(&mut s));
    assert_eq!(s, StatusArtifacts::new());
}

#[test]
fn invocation_join_and_split() {
    assert_eq!(invocation_record(&strings(&["just", "deploy", "now"])), "just deploy now");
    assert_eq!(invocation_record(&Vec::new()), "");
    assert_eq!(invocation_tokens("just deploy"), strings(&["just", "deploy"]));
    assert_eq!(invocation_tokens("a  b "), strings(&["a", "", "b", ""]));
    assert_eq!(invocation_tokens(""), strings(&[""]));
}

#[test]
fn launch_with_empty_recipe() {
    let mut s = StatusArtifacts::new();
    background(&mut s, String::new());
    assert_eq!(s.invocation, Some("just ".to_string()));
    assert_eq!(update_running_command(&s).unwrap().unwrap().command, strings(&["just", ""]));
}
