use marshal::commands::ws::{add, branch, clone, commit, init, log, reset, restore, switch, unstage};

fn os(strings: &[&str]) -> Vec<String> {
    strings.iter().map(|s| s.to_string()).collect()
}

// ── ws add ──────────────────────────────────────────────────────────

#[test]
fn add_parse_args_accepts_one_repo() {
    let r = add::parse_args(&os(&["service-a"])).unwrap();
    assert_eq!(r, "service-a");
}

#[test]
fn add_parse_args_rejects_missing() {
    let err = add::parse_args(&vec![]).unwrap_err();
    assert!(err.contains("missing required <repo>"));
}

#[test]
fn add_parse_args_rejects_two_positionals() {
    let err = add::parse_args(&os(&["a", "b"])).unwrap_err();
    assert!(err.contains("too many positional"));
}

#[test]
fn add_parse_args_rejects_unknown_flag() {
    let err = add::parse_args(&os(&["--bogus"])).unwrap_err();
    assert!(err.contains("unexpected flag"));
}

// ── ws branch ───────────────────────────────────────────────────────

#[test]
fn parse_args_accepts_one_name() {
    let n = branch::parse_args(&os(&["feature/payments"])).unwrap();
    assert_eq!(n, "feature/payments");
}

#[test]
fn branch_parse_args_rejects_missing() {
    let err = branch::parse_args(&vec![]).unwrap_err();
    assert!(err.contains("missing required <name>"));
}

#[test]
fn branch_parse_args_rejects_two_positionals() {
    let err = branch::parse_args(&os(&["a", "b"])).unwrap_err();
    assert!(err.contains("too many positional"));
}

#[test]
fn branch_parse_args_rejects_unknown_flag() {
    let err = branch::parse_args(&os(&["--bogus"])).unwrap_err();
    assert!(err.contains("unexpected flag"));
}

// ── ws unstage ──────────────────────────────────────────────────────

#[test]
fn unstage_parse_args_accepts_one_repo() {
    assert_eq!(unstage::parse_args(&os(&["alpha"])).unwrap(), "alpha");
}

#[test]
fn unstage_parse_args_rejects_missing() {
    let err = unstage::parse_args(&vec![]).unwrap_err();
    assert!(err.contains("missing required <repo>"));
}

#[test]
fn unstage_parse_args_rejects_two_positionals() {
    let err = unstage::parse_args(&os(&["a", "b"])).unwrap_err();
    assert!(err.contains("too many positional"));
}

#[test]
fn unstage_parse_args_rejects_unknown_flag() {
    let err = unstage::parse_args(&os(&["--bogus"])).unwrap_err();
    assert!(err.contains("unexpected flag"));
}

// ── ws reset ────────────────────────────────────────────────────────

#[test]
fn empty_args_is_accepted() {
    assert!(reset::reject_positional(&vec![]).is_ok());
}

#[test]
fn rejects_positional_with_unstage_hint() {
    let msg = reset::reject_positional(&os(&["alpha"])).unwrap_err();
    assert!(msg.contains("'alpha'"));
    assert!(msg.contains("ws unstage alpha"));
}

#[test]
fn rejects_unknown_flag() {
    let msg = reset::reject_positional(&os(&["--bogus"])).unwrap_err();
    assert!(msg.contains("'--bogus'"));
    assert!(msg.contains("--explain"));
}

// ── ws clone ────────────────────────────────────────────────────────

#[test]
fn clone_parse_args_minimal() {
    let p = clone::parse_args(&os(&["git@x:repo.git"])).unwrap();
    assert_eq!(p.url, "git@x:repo.git");
    assert!(p.dest.is_none());
    assert!(!p.no_children);
}

#[test]
fn parse_args_url_and_dest() {
    let p = clone::parse_args(&os(&["git@x:repo.git", "my-dir"])).unwrap();
    assert_eq!(p.url, "git@x:repo.git");
    assert_eq!(p.dest.as_deref(), Some("my-dir"));
}

#[test]
fn parse_args_no_children_flag() {
    let p = clone::parse_args(&os(&["git@x:repo.git", "--no-children"])).unwrap();
    assert!(p.no_children);
}

#[test]
fn parse_args_rejects_missing_url() {
    let err = clone::parse_args(&vec![]).unwrap_err();
    assert!(err.contains("missing required <url>"));
}

#[test]
fn clone_parse_args_rejects_unknown_flag() {
    let err = clone::parse_args(&os(&["--bogus"])).unwrap_err();
    assert!(err.contains("unexpected flag"));
}

#[test]
fn parse_args_rejects_third_positional() {
    let err = clone::parse_args(&os(&["a", "b", "c"])).unwrap_err();
    assert!(err.contains("too many positional"));
}

// ── ws commit ───────────────────────────────────────────────────────

#[test]
fn parse_args_no_message_is_editor_mode() {
    let p = commit::parse_args(&vec![]).unwrap();
    assert!(p.message.is_none());
}

#[test]
fn parse_args_short_message_flag() {
    let p = commit::parse_args(&os(&["-m", "release v2.4.8"])).unwrap();
    assert_eq!(p.message.as_deref(), Some("release v2.4.8"));
}

#[test]
fn parse_args_long_message_flag_separated() {
    let p = commit::parse_args(&os(&["--message", "hello"])).unwrap();
    assert_eq!(p.message.as_deref(), Some("hello"));
}

#[test]
fn parse_args_long_message_flag_equals_form() {
    let p = commit::parse_args(&os(&["--message=hello"])).unwrap();
    assert_eq!(p.message.as_deref(), Some("hello"));
}

#[test]
fn parse_args_rejects_duplicate_message() {
    let err = commit::parse_args(&os(&["-m", "a", "-m", "b"])).unwrap_err();
    assert!(err.contains("more than once"));
}

#[test]
fn parse_args_rejects_empty_message() {
    let err = commit::parse_args(&os(&["-m", ""])).unwrap_err();
    assert!(err.contains("cannot be empty"));
}

#[test]
fn parse_args_rejects_dangling_m() {
    let err = commit::parse_args(&os(&["-m"])).unwrap_err();
    assert!(err.contains("expects a value"));
}

#[test]
fn commit_parse_args_rejects_unknown_flag() {
    let err = commit::parse_args(&os(&["--bogus"])).unwrap_err();
    assert!(err.contains("unexpected flag"));
}

#[test]
fn parse_args_rejects_positional_with_add_hint() {
    let msg = commit::parse_args(&os(&["alpha"])).unwrap_err();
    assert!(msg.contains("'alpha'"));
    assert!(msg.contains("ws add"));
}

// ── ws init ─────────────────────────────────────────────────────────

#[test]
fn parse_args_empty() {
    let p = init::parse_args(&vec![]).unwrap();
    assert!(p.name.is_none());
    assert!(p.default_branch.is_none());
    assert!(!p.force);
}

#[test]
fn parse_args_supports_separated_and_equals_forms() {
    let p = init::parse_args(&os(&["--name", "foo", "--default-branch=develop"])).unwrap();
    assert_eq!(p.name.as_deref(), Some("foo"));
    assert_eq!(p.default_branch.as_deref(), Some("develop"));
    assert!(!p.force);
}

#[test]
fn parse_args_force_is_boolean() {
    let p = init::parse_args(&os(&["--force"])).unwrap();
    assert!(p.force);
}

#[test]
fn parse_args_rejects_duplicate_flags() {
    let err = init::parse_args(&os(&["--name", "a", "--name", "b"])).unwrap_err();
    assert!(err.contains("more than once"));
}

#[test]
fn init_parse_args_rejects_unknown_flag() {
    let err = init::parse_args(&os(&["--bogus"])).unwrap_err();
    assert!(err.contains("unexpected argument"));
}

#[test]
fn parse_args_rejects_dangling_value() {
    let err = init::parse_args(&os(&["--name"])).unwrap_err();
    assert!(err.contains("expects a value"));
}

// ── ws log ──────────────────────────────────────────────────────────

#[test]
fn parse_empty_yields_default() {
    let p = log::parse_args(&vec![]).unwrap();
    assert!(p.limit.is_none());
}

#[test]
fn parse_n_with_separated_value() {
    let p = log::parse_args(&os(&["-n", "5"])).unwrap();
    assert_eq!(p.limit, Some(5));
}

#[test]
fn parse_n_with_attached_value() {
    let p = log::parse_args(&os(&["-n10"])).unwrap();
    assert_eq!(p.limit, Some(10));
}

#[test]
fn parse_limit_with_equals() {
    let p = log::parse_args(&os(&["--limit=42"])).unwrap();
    assert_eq!(p.limit, Some(42));
}

#[test]
fn parse_limit_separated() {
    let p = log::parse_args(&os(&["--limit", "7"])).unwrap();
    assert_eq!(p.limit, Some(7));
}

#[test]
fn parse_rejects_unknown_flag() {
    let err = log::parse_args(&os(&["--bogus"])).unwrap_err();
    assert!(err.contains("unexpected argument"));
}

#[test]
fn parse_rejects_non_integer_limit() {
    let err = log::parse_args(&os(&["-n", "abc"])).unwrap_err();
    assert!(err.contains("non-negative integer"));
}

#[test]
fn parse_rejects_double_limit() {
    let err = log::parse_args(&os(&["-n", "5", "--limit", "10"])).unwrap_err();
    assert!(err.contains("more than once"));
}

// ── ws restore ──────────────────────────────────────────────────────

#[test]
fn restore_parse_args_minimal() {
    let p = restore::parse_args(&os(&["alpha"])).unwrap();
    assert_eq!(p.repo_name.as_deref(), Some("alpha"));
    assert!(!p.auto_stash);
    assert!(!p.discard);
}

#[test]
fn restore_parse_args_auto_stash() {
    let p = restore::parse_args(&os(&["alpha", "--auto-stash"])).unwrap();
    assert!(p.auto_stash);
    assert_eq!(p.repo_name.as_deref(), Some("alpha"));
}

#[test]
fn restore_parse_args_discard() {
    let p = restore::parse_args(&os(&["alpha", "--discard-changes"])).unwrap();
    assert!(p.discard);
}

#[test]
fn parse_args_no_positional_is_ok() {
    let p = restore::parse_args(&vec![]).unwrap();
    assert!(p.repo_name.is_none());
    assert!(!p.auto_stash);
    assert!(!p.discard);
}

#[test]
fn parse_args_no_positional_with_auto_stash() {
    let p = restore::parse_args(&os(&["--auto-stash"])).unwrap();
    assert!(p.repo_name.is_none());
    assert!(p.auto_stash);
}

#[test]
fn restore_parse_args_rejects_both_resolution_flags() {
    let err = restore::parse_args(&os(&["alpha", "--auto-stash", "--discard-changes"])).unwrap_err();
    assert!(err.contains("mutually exclusive"));
}

#[test]
fn restore_parse_args_rejects_two_positionals() {
    let err = restore::parse_args(&os(&["a", "b"])).unwrap_err();
    assert!(err.contains("too many positional"));
}

#[test]
fn restore_parse_args_rejects_unknown_flag() {
    let err = restore::parse_args(&os(&["alpha", "--bogus"])).unwrap_err();
    assert!(err.contains("unexpected flag"));
}

#[test]
fn parse_args_does_not_recognise_all_flag() {
    let err = restore::parse_args(&os(&["--all"])).unwrap_err();
    assert!(err.contains("unexpected flag"));
}

// ── ws switch ───────────────────────────────────────────────────────

#[test]
fn switch_parse_args_minimal() {
    let p = switch::parse_args(&os(&["main"])).unwrap();
    assert_eq!(p.target, "main");
    assert!(!p.create);
    assert!(!p.auto_stash);
    assert!(!p.discard);
}

#[test]
fn parse_args_create_short() {
    let p = switch::parse_args(&os(&["-c", "feature/x"])).unwrap();
    assert!(p.create);
    assert_eq!(p.target, "feature/x");
}

#[test]
fn parse_args_create_long() {
    let p = switch::parse_args(&os(&["--create", "feature/x"])).unwrap();
    assert!(p.create);
}

#[test]
fn switch_parse_args_auto_stash() {
    let p = switch::parse_args(&os(&["main", "--auto-stash"])).unwrap();
    assert!(p.auto_stash);
}

#[test]
fn switch_parse_args_discard() {
    let p = switch::parse_args(&os(&["main", "--discard-changes"])).unwrap();
    assert!(p.discard);
}

#[test]
fn switch_parse_args_rejects_both_resolution_flags() {
    let err = switch::parse_args(&os(&["main", "--auto-stash", "--discard-changes"])).unwrap_err();
    assert!(err.contains("mutually exclusive"));
}

#[test]
fn switch_parse_args_rejects_missing() {
    let err = switch::parse_args(&vec![]).unwrap_err();
    assert!(err.contains("missing required <name>"));
}

#[test]
fn switch_parse_args_rejects_two_positionals() {
    let err = switch::parse_args(&os(&["a", "b"])).unwrap_err();
    assert!(err.contains("too many positional"));
}

#[test]
fn switch_parse_args_rejects_unknown_flag() {
    let err = switch::parse_args(&os(&["main", "--bogus"])).unwrap_err();
    assert!(err.contains("unexpected flag"));
}

#[test]
fn parse_args_rejects_duplicate_create() {
    let err = switch::parse_args(&os(&["-c", "foo", "--create"])).unwrap_err();
    assert!(err.contains("more than once"));
}
