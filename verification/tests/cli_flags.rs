use marshal::cli::{
    assign_on, extract_all_flag, extract_explain_flag, extract_json_flag, extract_on_flag,
    OutputFormat,
};
use marshal::commands::ws::clone::{child_clone_failed, workspace_clone_failed};
use marshal::commands::ws::log::log_of_empty_repo;
use marshal::text::{contains_str, prefix_bytes};

fn v(items: &[&str]) -> Vec<String> {
    items.iter().map(|s| s.to_string()).collect()
}

#[test]
fn json_flag_is_accepted_anywhere() {
    let (f1, rest1) = extract_json_flag(&v(&["--json", "config", "list"]));
    let (f2, rest2) = extract_json_flag(&v(&["config", "list", "--json"]));
    let (f3, rest3) = extract_json_flag(&v(&["config", "--json", "list", "--json"]));
    assert_eq!(f1, OutputFormat::Json);
    assert_eq!(f2, OutputFormat::Json);
    assert_eq!(f3, OutputFormat::Json);
    assert_eq!(rest1, v(&["config", "list"]));
    assert_eq!(rest1, rest2);
    assert_eq!(rest1, rest3);
    let (f4, rest4) = extract_json_flag(&v(&["config", "list"]));
    assert_eq!(f4, OutputFormat::Human);
    assert_eq!(rest4, v(&["config", "list"]));
}

#[test]
fn all_and_explain_flags_are_stripped() {
    let (all, rest) = extract_all_flag(&v(&["status", "--all"]));
    assert!(all);
    assert_eq!(rest, v(&["status"]));
    let (explain, rest) = extract_explain_flag(&v(&["--explain", "reset"]));
    assert!(explain);
    assert_eq!(rest, v(&["reset"]));
    let (explain, rest) = extract_explain_flag(&v(&["reset"]));
    assert!(!explain);
    assert_eq!(rest, v(&["reset"]));
}

#[test]
fn on_flag_in_both_forms() {
    let (on, rest) = extract_on_flag(&v(&["status", "--on", "svc-a"])).unwrap();
    assert_eq!(on.as_deref(), Some("svc-a"));
    assert_eq!(rest, v(&["status"]));
    let (on, rest) = extract_on_flag(&v(&["--on=svc-b", "log", "-n", "3"])).unwrap();
    assert_eq!(on.as_deref(), Some("svc-b"));
    assert_eq!(rest, v(&["log", "-n", "3"]));
    let (on, _) = extract_on_flag(&v(&["log"])).unwrap();
    assert!(on.is_none());
}

#[test]
fn on_flag_errors() {
    assert_eq!(
        extract_on_flag(&v(&["status", "--on"])),
        Err("'--on' expects a value (e.g. `--on service-a`)".to_string())
    );
    assert_eq!(
        extract_on_flag(&v(&["--on", "a", "--on=b"])),
        Err("'--on' specified more than once".to_string())
    );
    assert_eq!(
        extract_on_flag(&v(&["--on="])),
        Err("'--on' expects a non-empty repo name".to_string())
    );
    let mut slot = None;
    assert!(assign_on(&mut slot, "x").is_ok());
    assert_eq!(slot.as_deref(), Some("x"));
}

#[test]
fn clone_failure_messages() {
    assert_eq!(
        workspace_clone_failed("git@x:ws.git", "ws", Some(128)),
        "ws clone: workspace clone failed (`git clone git@x:ws.git ws` exited with status 128). \
         Verify the URL, your network, and credentials."
    );
    assert_eq!(child_clone_failed(None, "  "), "git clone exited with status ?");
    assert_eq!(
        child_clone_failed(Some(-1), " fatal: repository not found \n"),
        "git clone exited with status -1: fatal: repository not found"
    );
}

#[test]
fn empty_repository_logs_are_recognised() {
    assert!(log_of_empty_repo(
        "fatal: your current branch 'main' does not have any commits yet"
    ));
    assert!(log_of_empty_repo("fatal: bad default revision 'HEAD'"));
    assert!(!log_of_empty_repo("fatal: not a git repository"));
    assert!(contains_str("abc", ""));
    assert!(!contains_str("", "a"));
}

#[test]
fn prefix_bytes_takes_whole_characters_for_any_bound() {
    assert_eq!(prefix_bytes("héllo", 2), "h");
    assert_eq!(prefix_bytes("héllo", 3), "hé");
    assert_eq!(prefix_bytes("héllo", 1000), "héllo");
    assert_eq!(prefix_bytes("héllo", usize::MAX), "héllo");
}
