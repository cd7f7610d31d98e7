use marshal::commands::ws::clone::{basename_from_url, parse_progress};
use marshal::commands::ws::commit::{build_explain_plan, first_line};
use marshal::commands::ws::init::configured_branch;
use marshal::commands::ws::log::format_short_date;
use marshal::commands::ws::obstacles::{resolution, resolution_steps, Resolution};
use marshal::commands::ws::status::{is_boring, staging_drifts};
use marshal::commands::ws::switch::state_file_absent;
use marshal::context::{
    ancestors, file_name, find_workspace_root, identify_child_repo, LOCAL_DIR, MANIFEST_FILE,
    STATE_FILE, WORKSPACE_MARKER,
};
use marshal::git::porcelain::{BranchInfo, InProgressOp, RepoState, WorkingTreeInfo};
use marshal::text::short_sha;
use marshal::workspace::manifest::{child_repo_path, repo_relative_path, RepoEntry};
use marshal::workspace::preflight::{blocking_obstacles, obstacles, Obstacle};
use marshal::workspace::staged::{RepoStaged, StagedDeclaration};
use marshal::workspace::state::{self, StateChange, StateDeclaration};

fn entry(name: &str, path: Option<&str>) -> RepoEntry {
    RepoEntry {
        name: name.to_string(),
        url: "x".to_string(),
        kind: None,
        path: path.map(str::to_string),
    }
}

// ── short SHAs ──────────────────────────────────────────────────────

#[test]
fn add_short_sha_truncates_to_seven() {
    assert_eq!(short_sha("abc123def456"), "abc123d");
}

#[test]
fn short_sha_handles_already_short_input() {
    assert_eq!(short_sha("abc"), "abc");
}

#[test]
fn branch_short_sha_truncates_to_seven() {
    assert_eq!(short_sha("abcdef1234567890"), "abcdef1");
}

#[test]
fn branch_short_sha_handles_short_input() {
    assert_eq!(short_sha("abc"), "abc");
}

#[test]
fn commit_short_sha_truncates_to_seven() {
    assert_eq!(short_sha("abcdef1234567890"), "abcdef1");
}

#[test]
fn reset_short_sha_truncates_to_seven() {
    assert_eq!(short_sha("abcdef1234567890"), "abcdef1");
}

#[test]
fn reset_short_sha_handles_short_input() {
    assert_eq!(short_sha("abc"), "abc");
}

#[test]
fn short_sha_counts_bytes_not_characters() {
    // Seven bytes: "ab" + 'é' (2 bytes) + "cde"; the cut stays on a
    // character boundary.
    assert_eq!(short_sha("abécdefgh"), "abécde");
    // 'é' straddles byte 7: the prefix stops before it.
    assert_eq!(short_sha("abcdeféz"), "abcdef");
}

// ── repo paths ──────────────────────────────────────────────────────

#[test]
fn child_repo_path_defaults_to_src_layout() {
    let p = child_repo_path("/ws", &entry("alpha", None));
    assert_eq!(p, "/ws/src/alpha");
}

#[test]
fn child_repo_path_honours_explicit_path() {
    let p = child_repo_path("/ws", &entry("alpha", Some("services/alpha")));
    assert_eq!(p, "/ws/services/alpha");
}

#[test]
fn repo_relative_path_defaults_to_src() {
    assert_eq!(repo_relative_path(&entry("alpha", None)), "src/alpha");
}

#[test]
fn repo_relative_path_honours_explicit_path() {
    assert_eq!(
        repo_relative_path(&entry("alpha", Some("services/alpha"))),
        "services/alpha"
    );
}

#[test]
fn repo_relative_path_treats_empty_path_as_default() {
    assert_eq!(repo_relative_path(&entry("alpha", Some(""))), "src/alpha");
}

// ── ws clone helpers ────────────────────────────────────────────────

#[test]
fn basename_from_https_with_dot_git() {
    assert_eq!(basename_from_url("https://github.com/org/repo.git"), "repo");
}

#[test]
fn basename_from_https_without_dot_git() {
    assert_eq!(basename_from_url("https://github.com/org/repo"), "repo");
}

#[test]
fn basename_from_ssh_form() {
    assert_eq!(basename_from_url("git@github.com:org/repo.git"), "repo");
}

#[test]
fn basename_from_trailing_slash() {
    assert_eq!(basename_from_url("https://host/foo/bar/"), "bar");
}

#[test]
fn basename_from_file_url() {
    assert_eq!(basename_from_url("file:///tmp/abc/source.git"), "source");
}

#[test]
fn parse_progress_receiving_objects() {
    let r = parse_progress("Receiving objects:  50% (10/20)").unwrap();
    assert_eq!(r.0, "Receiving objects");
    assert_eq!(r.1, 10);
    assert_eq!(r.2, 20);
}

#[test]
fn parse_progress_strips_remote_prefix() {
    let r = parse_progress("remote: Counting objects:  25% (5/20)").unwrap();
    assert_eq!(r.0, "Counting objects");
    assert_eq!(r.1, 5);
    assert_eq!(r.2, 20);
}

#[test]
fn parse_progress_with_trailing_data() {
    let r = parse_progress("Receiving objects: 100% (50/50), 1.20 KiB | 0 bytes/s, done.").unwrap();
    assert_eq!(r.1, 50);
    assert_eq!(r.2, 50);
}

#[test]
fn parse_progress_resolving_deltas_done() {
    let r = parse_progress("Resolving deltas: 100% (10/10), done.").unwrap();
    assert_eq!(r.0, "Resolving deltas");
}

#[test]
fn parse_progress_counting_done_form() {
    let r = parse_progress("remote: Counting objects: 42, done.").unwrap();
    assert_eq!(r.0, "Counting objects");
    assert_eq!(r.1, 42);
    assert_eq!(r.2, 42);
}

#[test]
fn parse_progress_unknown_line_returns_none() {
    assert!(parse_progress("Cloning into 'x'...").is_none());
    assert!(parse_progress("remote: Total 50 (delta 0), reused 0").is_none());
    assert!(parse_progress("").is_none());
}

// ── ws commit helpers ───────────────────────────────────────────────

#[test]
fn first_line_grabs_one_line_only() {
    assert_eq!(first_line("hello\n\nbody text"), "hello");
    assert_eq!(first_line("  trim me  "), "trim me");
    assert_eq!(first_line(""), "");
}

#[test]
fn commit_plan_quotes_the_message() {
    let plan = build_explain_plan("/ws", ".workspace/state.toml", Some("say \"hi\""));
    assert_eq!(plan.len(), 8);
    assert_eq!(
        plan[6],
        "git -C /ws commit -m \"say \\\"hi\\\"\" -- .workspace/state.toml"
    );
    let plan = build_explain_plan("/ws", ".workspace/state.toml", None);
    assert_eq!(
        plan[6],
        "git -C /ws commit -- .workspace/state.toml  (opens $EDITOR for the commit message)"
    );
}

// ── ws switch helpers ───────────────────────────────────────────────

#[test]
fn state_file_absence_is_read_case_insensitively() {
    assert!(state_file_absent(
        "fatal: path '.workspace/state.toml' does not exist in 'feat/x'"
    ));
    assert!(state_file_absent("FATAL: Path '.workspace/state.toml' Exists On Disk, But Not In 'main'"));
    assert!(!state_file_absent("fatal: invalid object name 'nope'."));
}

// ── ws log helpers ──────────────────────────────────────────────────

#[test]
fn format_short_date_trims_iso_to_minute() {
    assert_eq!(format_short_date("2026-04-27T15:33:21+00:00"), "2026-04-27 15:33");
}

#[test]
fn format_short_date_handles_unexpected_input() {
    assert_eq!(format_short_date("not-iso"), "not-iso");
}

// ── ws diff ─────────────────────────────────────────────────────────

fn state_with(entries: &[(&str, &str)]) -> StateDeclaration {
    let mut d = StateDeclaration::new();
    for (name, branch) in entries {
        d.repos.insert(
            (*name).to_string(),
            state::RepoState {
                branch: (*branch).to_string(),
                commit: None,
            },
        );
    }
    d
}

#[test]
fn no_changes_yields_empty_vec() {
    let head = state_with(&[("a", "main")]);
    let current = state_with(&[("a", "main")]);
    assert!(state::diff_states(&head, &current).is_empty());
}

#[test]
fn additions_when_repo_only_in_current() {
    let head = state_with(&[]);
    let current = state_with(&[("svc", "feat/x")]);
    let changes = state::diff_states(&head, &current);
    assert_eq!(changes.len(), 1);
    assert_eq!(
        changes[0],
        StateChange::Added {
            name: "svc".to_string(),
            branch: "feat/x".to_string(),
        }
    );
}

#[test]
fn removals_when_repo_only_in_head() {
    let head = state_with(&[("svc", "main")]);
    let current = state_with(&[]);
    let changes = state::diff_states(&head, &current);
    assert_eq!(changes.len(), 1);
    assert_eq!(
        changes[0],
        StateChange::Removed {
            name: "svc".to_string(),
            branch: "main".to_string(),
        }
    );
}

#[test]
fn changed_when_branch_differs() {
    let head = state_with(&[("svc", "main")]);
    let current = state_with(&[("svc", "feat/payment")]);
    let changes = state::diff_states(&head, &current);
    assert_eq!(changes.len(), 1);
    assert_eq!(
        changes[0],
        StateChange::Changed {
            name: "svc".to_string(),
            from: "main".to_string(),
            to: "feat/payment".to_string(),
        }
    );
}

#[test]
fn changes_are_sorted_alphabetically() {
    let head = state_with(&[("zeta", "main"), ("alpha", "main")]);
    let current = state_with(&[("zeta", "feat/y"), ("alpha", "feat/x")]);
    let changes = state::diff_states(&head, &current);
    assert_eq!(changes.len(), 2);
    match &changes[0] {
        StateChange::Changed { name, .. } => assert_eq!(name, "alpha"),
        _ => panic!("expected Changed alpha"),
    }
    match &changes[1] {
        StateChange::Changed { name, .. } => assert_eq!(name, "zeta"),
        _ => panic!("expected Changed zeta"),
    }
}

#[test]
fn multiple_change_kinds_in_one_diff() {
    let head = state_with(&[("a", "main"), ("b", "main")]);
    let current = state_with(&[("a", "feat/x"), ("c", "main")]);
    let changes = state::diff_states(&head, &current);
    assert_eq!(changes.len(), 3);
    match &changes[0] {
        StateChange::Changed { name, .. } => assert_eq!(name, "a"),
        _ => panic!("expected Changed for a"),
    }
    match &changes[1] {
        StateChange::Removed { name, .. } => assert_eq!(name, "b"),
        _ => panic!("expected Removed for b"),
    }
    match &changes[2] {
        StateChange::Added { name, .. } => assert_eq!(name, "c"),
        _ => panic!("expected Added for c"),
    }
}

#[test]
fn diff_of_a_declaration_with_itself_is_empty() {
    let d = state_with(&[("x", "main"), ("y", "dev"), ("w", "main")]);
    assert!(state::diff_states(&d, &d).is_empty());
}

// ── staging ─────────────────────────────────────────────────────────

fn snap(branch: &str, commit: &str) -> RepoStaged {
    RepoStaged {
        branch: branch.to_string(),
        commit: commit.to_string(),
    }
}

#[test]
fn stage_then_unstage_leaves_nothing_staged() {
    let mut s = StagedDeclaration::new();
    assert!(s.is_empty());
    assert_eq!(s.stage("alpha".to_string(), snap("main", "abc")), None);
    assert!(!s.is_empty());
    assert_eq!(s.unstage("alpha"), Some(snap("main", "abc")));
    assert!(s.is_empty());
}

#[test]
fn restaging_keeps_the_latest_snapshot() {
    let mut s = StagedDeclaration::new();
    s.stage("alpha".to_string(), snap("main", "abc"));
    let prev = s.stage("alpha".to_string(), snap("feat/x", "def"));
    assert_eq!(prev, Some(snap("main", "abc")));
    assert_eq!(s.get("alpha"), Some(&snap("feat/x", "def")));
    assert_eq!(s.unstage("beta"), None);
    assert_eq!(s.repos.len(), 1);
}

// ── pre-flight obstacles ────────────────────────────────────────────

fn clean_state() -> RepoState {
    RepoState {
        branch: BranchInfo {
            name: Some("feat/x".to_string()),
            oid: Some("abc".to_string()),
            ..Default::default()
        },
        working_tree: WorkingTreeInfo::default(),
        in_progress: InProgressOp::Idle,
    }
}

#[test]
fn blocking_obstacles_passes_clean_state() {
    let obs = obstacles(&clean_state());
    assert!(blocking_obstacles(&obs, false, false).is_empty());
}

#[test]
fn blocking_obstacles_blocks_dirty_without_flags() {
    let mut s = clean_state();
    s.working_tree.unstaged = 2;
    let obs = obstacles(&s);
    assert_eq!(blocking_obstacles(&obs, false, false).len(), 1);
}

#[test]
fn blocking_obstacles_clears_dirty_under_auto_stash() {
    let mut s = clean_state();
    s.working_tree.unstaged = 2;
    s.working_tree.untracked = 1;
    let obs = obstacles(&s);
    assert!(blocking_obstacles(&obs, true, false).is_empty());
}

#[test]
fn blocking_obstacles_clears_dirty_under_discard() {
    let mut s = clean_state();
    s.working_tree.staged = 3;
    let obs = obstacles(&s);
    assert!(blocking_obstacles(&obs, false, true).is_empty());
}

#[test]
fn blocking_obstacles_keeps_hard_blocker_even_with_flags() {
    let mut s = clean_state();
    s.in_progress = InProgressOp::Rebase;
    s.working_tree.unstaged = 1;
    let obs = obstacles(&s);
    let blocking = blocking_obstacles(&obs, true, false);
    assert_eq!(blocking.len(), 1);
    assert!(blocking[0].is_hard_blocker());
}

#[test]
fn obstacles_come_in_a_fixed_order() {
    let mut s = clean_state();
    s.in_progress = InProgressOp::Merge;
    s.working_tree.unmerged = 2;
    s.working_tree.staged = 1;
    s.working_tree.untracked = 4;
    assert_eq!(
        obstacles(&s),
        vec![
            Obstacle::InProgress(InProgressOp::Merge),
            Obstacle::Conflicts(2),
            Obstacle::Staged(1),
            Obstacle::Untracked(4),
        ]
    );
}

// ── ws status ───────────────────────────────────────────────────────

fn clean_state_on(branch: &str) -> RepoState {
    RepoState {
        branch: BranchInfo {
            name: Some(branch.to_string()),
            upstream: Some(format!("origin/{branch}")),
            ahead: 0,
            behind: 0,
            ..Default::default()
        },
        working_tree: WorkingTreeInfo::default(),
        in_progress: InProgressOp::Idle,
    }
}

#[test]
fn boring_when_clean_on_declared_branch_and_not_staged() {
    let s = Some(clean_state_on("main"));
    assert!(is_boring(&s, "main", false));
}

#[test]
fn interesting_when_on_wrong_branch() {
    let s = Some(clean_state_on("feat/x"));
    assert!(!is_boring(&s, "main", false));
}

#[test]
fn interesting_when_dirty() {
    let mut rs = clean_state_on("main");
    rs.working_tree.unstaged = 1;
    assert!(!is_boring(&Some(rs), "main", false));
}

#[test]
fn interesting_when_in_progress() {
    let mut rs = clean_state_on("main");
    rs.in_progress = InProgressOp::Rebase;
    assert!(!is_boring(&Some(rs), "main", false));
}

#[test]
fn interesting_when_ahead_or_behind() {
    let mut rs = clean_state_on("main");
    rs.branch.ahead = 1;
    assert!(!is_boring(&Some(rs), "main", false));

    let mut rs2 = clean_state_on("main");
    rs2.branch.behind = 1;
    assert!(!is_boring(&Some(rs2), "main", false));
}

#[test]
fn interesting_when_detached_or_initial() {
    let mut rs = clean_state_on("main");
    rs.branch.is_detached = true;
    rs.branch.name = None;
    assert!(!is_boring(&Some(rs), "main", false));

    let mut rs2 = clean_state_on("main");
    rs2.branch.is_initial = true;
    assert!(!is_boring(&Some(rs2), "main", false));
}

#[test]
fn interesting_when_state_is_missing() {
    assert!(!is_boring(&None, "main", false));
}

#[test]
fn interesting_when_staged_even_if_otherwise_clean() {
    let s = Some(clean_state_on("main"));
    assert!(!is_boring(&s, "main", true));
}

fn state_at(branch: &str, oid: &str) -> RepoState {
    let mut rs = clean_state_on(branch);
    rs.branch.oid = Some(oid.to_string());
    rs
}

#[test]
fn drift_false_when_staging_matches_working() {
    let s = Some(state_at("feat/x", "abc"));
    assert!(!staging_drifts(&snap("feat/x", "abc"), &s));
}

#[test]
fn drift_true_when_branch_differs() {
    let s = Some(state_at("main", "abc"));
    assert!(staging_drifts(&snap("feat/x", "abc"), &s));
}

#[test]
fn drift_true_when_commit_differs() {
    let s = Some(state_at("feat/x", "newcommit"));
    assert!(staging_drifts(&snap("feat/x", "abc"), &s));
}

#[test]
fn drift_false_when_no_working_state_to_compare() {
    assert!(!staging_drifts(&snap("feat/x", "abc"), &None));
}

// ── workspace context ───────────────────────────────────────────────

#[test]
fn workspace_path_constants_have_expected_names() {
    assert_eq!(WORKSPACE_MARKER, ".workspace");
    assert_eq!(MANIFEST_FILE, "manifest.toml");
    assert_eq!(STATE_FILE, "state.toml");
    assert_eq!(LOCAL_DIR, "local");

    let manifest = format!("{WORKSPACE_MARKER}/{MANIFEST_FILE}");
    assert_eq!(file_name(&manifest).unwrap(), MANIFEST_FILE);
    let state = format!("{WORKSPACE_MARKER}/{STATE_FILE}");
    assert_eq!(file_name(&state).unwrap(), STATE_FILE);
}

fn root_among(start: &str, root: &str) -> Option<String> {
    let candidates = ancestors(start);
    let marked: Vec<bool> = candidates.iter().map(|c| c == root).collect();
    find_workspace_root(&candidates, &marked)
}

#[test]
fn detects_workspace_from_root() {
    assert_eq!(root_among("/tmp/ws", "/tmp/ws").as_deref(), Some("/tmp/ws"));
}

#[test]
fn detects_workspace_from_child_directory() {
    let found = root_among("/tmp/ws/src/service-a/deep/path", "/tmp/ws");
    assert_eq!(found.as_deref(), Some("/tmp/ws"));
}

#[test]
fn returns_none_when_no_workspace() {
    assert!(root_among("/tmp/elsewhere", "/tmp/ws").is_none());
}

#[test]
fn ancestors_run_from_the_path_to_the_filesystem_root() {
    assert_eq!(ancestors("/a/b"), vec!["/a/b", "/a", "/"]);
}

#[test]
fn identifies_child_repo_by_convention() {
    let repo = identify_child_repo("/tmp/ws", "/tmp/ws/src/my-service");
    assert_eq!(repo, Some("my-service".to_string()));
    let deeper = identify_child_repo("/tmp/ws", "/tmp/ws/src/my-service/lib/mod");
    assert_eq!(deeper, Some("my-service".to_string()));
}

#[test]
fn no_child_repo_at_workspace_root() {
    assert!(identify_child_repo("/tmp/ws", "/tmp/ws").is_none());
    assert!(identify_child_repo("/tmp/ws", "/tmp/ws/src").is_none());
    assert!(identify_child_repo("/tmp/ws", "/tmp/other/src/x").is_none());
}

#[test]
fn detect_default_branch_falls_back_to_main_or_returns_a_value() {
    let value = configured_branch(&None);
    assert!(!value.is_empty());
    assert_eq!(value, "main");
    assert_eq!(configured_branch(&Some("develop\n".to_string())), "develop");
    assert_eq!(configured_branch(&Some("  \n".to_string())), "main");
}

#[test]
fn resolution_after_a_passed_preflight_is_never_unresolved() {
    let mut s = clean_state();
    s.working_tree.unstaged = 1;
    s.working_tree.untracked = 2;
    let obs = obstacles(&s);
    assert!(blocking_obstacles(&obs, true, false).is_empty());
    assert_eq!(resolution(&obs, true, false), Resolution::Stash);
    assert_eq!(resolution(&obs, true, true), Resolution::Discard);
    assert_eq!(resolution(&obs, false, false), Resolution::Unresolved);
    assert_eq!(resolution(&obstacles(&clean_state()), false, false), Resolution::Nothing);
}

#[test]
fn resolutions_map_to_git_steps() {
    let steps = resolution_steps(Resolution::Discard, "unused");
    let args: Vec<Vec<String>> = steps.iter().map(|s| s.args.clone()).collect();
    assert_eq!(args, vec![vec!["reset".to_string(), "--hard".to_string()], vec!["clean".to_string(), "-fd".to_string()]]);
    let stash = resolution_steps(Resolution::Stash, "marshal/ws-switch: stashed before switching `alpha`");
    assert_eq!(stash.len(), 1);
    assert_eq!(stash[0].label, "git stash push");
    assert_eq!(stash[0].args[4], "marshal/ws-switch: stashed before switching `alpha`");
    assert!(resolution_steps(Resolution::Nothing, "x").is_empty());
}

#[test]
fn drift_false_when_detached_or_initial() {
    let mut rs = state_at("feat/x", "abc");
    rs.branch.name = None;
    rs.branch.is_detached = true;
    assert!(!staging_drifts(&snap("feat/x", "abc"), &Some(rs)));
    let mut rs = state_at("main", "abc");
    rs.branch.is_initial = true;
    assert!(!staging_drifts(&snap("feat/x", "abc"), &Some(rs)));
}

#[test]
fn format_short_date_keeps_a_truncated_timestamp_whole() {
    assert_eq!(format_short_date("2026-04-27T15"), "2026-04-27T15");
    assert_eq!(format_short_date("2026-04-27T"), "2026-04-27T");
}
