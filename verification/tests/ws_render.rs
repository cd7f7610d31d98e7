use marshal::cli::Renderable;
use marshal::commands::ws::commit::{apply_staging, explain_plan_quoted, snapshot_to_cleared};
use marshal::commands::ws::log::{build_log, gather_logs, parse_log_output, LogEntry};
use marshal::commands::ws::restore::format_blocking_error;
use marshal::commands::ws::status::{build_status, describe_repo, status_targets, Inspection};
use marshal::commands::ws::switch::says_file_absent;
use marshal::commands::ws::{context_output, render_explain_plan};
use marshal::git::porcelain::{BranchInfo, InProgressOp, RepoState, WorkingTreeInfo};
use marshal::workspace::manifest::{Manifest, RepoEntry, WorkspaceMeta};
use marshal::workspace::preflight::Obstacle;
use marshal::workspace::staged::{RepoStaged, StagedDeclaration};
use marshal::workspace::state::{self, StateChange, StateDeclaration};

fn manifest() -> Manifest {
    Manifest {
        workspace: WorkspaceMeta {
            name: "demo".to_string(),
            default_branch: "main".to_string(),
        },
        repos: vec![
            RepoEntry {
                name: "alpha".to_string(),
                url: "git@x:alpha.git".to_string(),
                kind: None,
                path: None,
            },
            RepoEntry {
                name: "beta".to_string(),
                url: "git@x:beta.git".to_string(),
                kind: Some("lib".to_string()),
                path: Some("libs/beta".to_string()),
            },
        ],
    }
}

fn declared(entries: &[(&str, &str)]) -> StateDeclaration {
    let mut d = StateDeclaration::new();
    for (name, branch) in entries {
        d.repos.insert(
            name.to_string(),
            state::RepoState {
                branch: branch.to_string(),
                commit: None,
            },
        );
    }
    d
}

fn on_branch(name: &str, oid: &str) -> RepoState {
    RepoState {
        branch: BranchInfo {
            name: Some(name.to_string()),
            oid: Some(oid.to_string()),
            ..Default::default()
        },
        working_tree: WorkingTreeInfo::default(),
        in_progress: InProgressOp::Idle,
    }
}

#[test]
fn context_report_lists_repos_and_pins() {
    let m = manifest();
    let st = declared(&[("beta", "feat/x")]);
    let out = context_output("/ws".to_string(), Some(&m), Some(&st), Some("beta".to_string()), false);
    assert_eq!(
        out.render_human(),
        "Workspace at: /ws\n\
         Workspace name: demo (default branch: main)\n\
         Declared repos (2): alpha, beta\n\
         State declarations:\n\
         \x20 alpha  default\n\
         \x20 beta   on `feat/x`\n\
         Current repo: beta (declared, state declares `feat/x`)\n"
    );
    let bare = context_output("/ws".to_string(), None, None, None, false);
    assert_eq!(
        bare.render_human(),
        "Workspace at: /ws\n\
         (No manifest yet — `.workspace/manifest.toml` does not exist.)\n\
         Current repo: (workspace root)\n"
    );
}

#[test]
fn status_report_describes_each_repo() {
    let m = manifest();
    let st = declared(&[("beta", "feat/x")]);
    let mut staged = StagedDeclaration::new();
    staged.stage(
        "alpha".to_string(),
        RepoStaged {
            branch: "main".to_string(),
            commit: "abcdef1234".to_string(),
        },
    );
    let targets = status_targets("/ws", &m, &None);
    assert_eq!(targets.len(), 2);
    assert_eq!(targets[1].rel_path, "libs/beta");
    assert_eq!(targets[1].abs_path, "/ws/libs/beta");
    let inspections = vec![
        Inspection {
            state: Some(on_branch("main", "abcdef1234")),
            missing: false,
        },
        Inspection {
            state: None,
            missing: true,
        },
    ];
    let out = build_status("/ws", &m, Some(&st), &staged, targets, inspections, false);
    assert!(!out.repos[0].clean_on_declared);
    assert!(!out.repos[0].staging_drifted);
    assert_eq!(out.repos[1].declared_branch, "feat/x");
    assert_eq!(
        out.render_human(),
        "Workspace `demo` (default branch: main) — 2 repos declared\n\
         Root: /ws\n\
         \n\
         \x20 alpha  on `main` — staged at `main`@abcdef1\n\
         \x20 beta   missing on disk (declared `feat/x`, expected at `libs/beta`)\n\
         \n\
         1 repo staged for commit. Run `ws commit` to flush staged → state.toml.\n"
    );
}

#[test]
fn repo_description_joins_every_fact() {
    let m = manifest();
    let mut busy = on_branch("feat/y", "0123456789");
    busy.branch.ahead = 2;
    busy.branch.behind = 1;
    busy.in_progress = InProgressOp::Rebase;
    busy.working_tree = WorkingTreeInfo {
        staged: 1,
        unstaged: 3,
        untracked: 0,
        unmerged: 1,
    };
    let targets = status_targets("/ws", &m, &Some("alpha".to_string()));
    assert_eq!(targets.len(), 1);
    let out = build_status(
        "/ws",
        &m,
        None,
        &StagedDeclaration::new(),
        targets,
        vec![Inspection {
            state: Some(busy),
            missing: false,
        }],
        true,
    );
    assert_eq!(
        describe_repo(&out.repos[0]),
        "on `feat/y` (declared `main`) — rebase in progress — ↑2 ↓1 — 1 conflict, 1 staged, 3 unstaged"
    );
}

#[test]
fn log_timeline_is_newest_first_and_capped() {
    let m = manifest();
    let mut entries = parse_log_output(
        "alpha",
        "aaaaaaaaaa\t2026-04-27T15:33:21+00:00\tAda\tFirst\n\nbad line\n",
    );
    assert_eq!(entries.len(), 1);
    entries.extend(parse_log_output(
        "beta",
        "bbbbbbbbbb\t2026-04-28T09:00:00+00:00\tBob\tSecond\ncccccccccc\t2026-04-26T08:00:00+00:00\tBob\tThird",
    ));
    let out = build_log("/ws", &m, entries, 2, false, Some(2));
    assert_eq!(out.sampled, 3);
    let summaries: Vec<&str> = out.entries.iter().map(|e: &LogEntry| e.summary.as_str()).collect();
    assert_eq!(summaries, vec!["Second", "First"]);
    assert_eq!(
        out.render_human(),
        "Workspace `demo` — recent activity across 2 of 2 repos\n\
         Root: /ws\n\
         \n\
         \x20 2026-04-28 09:00  beta   bbbbbbb  Bob  Second\n\
         \x20 2026-04-27 15:33  alpha  aaaaaaa  Ada  First\n\
         \n\
         Showing top 2. Use `--all` for every commit, `-n <N>` for a different cap, or `cd src/<repo>` for a single repo's log.\n"
    );
}

#[test]
fn restore_refusal_marks_each_obstacle() {
    let obs = vec![Obstacle::Unstaged(2), Obstacle::Untracked(1)];
    let msg = format_blocking_error("alpha", "/ws/src/alpha", &obs, false, false);
    assert_eq!(
        msg,
        "ws restore: cannot restore `alpha` — working state has issues that block the switch.\n\n\
         Detected:\n\
         \x20 ✗ 2 unstaged changes\n\
         \x20 ✗ 1 untracked file\n\
         \n\
         For uncommitted local changes, choose one:\n\
         \x20 - `ws restore <repo> --auto-stash`     stashes everything (recoverable via `git stash pop`).\n\
         \x20 - `ws restore <repo> --discard-changes` resets and cleans (destructive — opt-in).\n\
         \x20 - Or commit/stash by hand inside the child first.\n"
    );
}

#[test]
fn commit_flushes_staging_into_the_declaration() {
    let before = declared(&[("alpha", "main"), ("beta", "feat/x")]);
    let mut staged = StagedDeclaration::new();
    staged.stage(
        "gamma".to_string(),
        RepoStaged {
            branch: "dev".to_string(),
            commit: "c0ffee".to_string(),
        },
    );
    staged.stage(
        "alpha".to_string(),
        RepoStaged {
            branch: "main".to_string(),
            commit: "abc".to_string(),
        },
    );
    let (after, changes) = apply_staging(&before, &staged).unwrap();
    assert_eq!(
        after.get("gamma").map(|r| (r.branch.as_str(), r.commit.as_deref())),
        Some(("dev", Some("c0ffee")))
    );
    assert_eq!(after.get("beta").map(|r| r.branch.as_str()), Some("feat/x"));
    assert_eq!(changes.len(), 2);
    match &changes[0] {
        StateChange::Changed { name, from, to } => {
            assert_eq!((name.as_str(), from.as_str(), to.as_str()), ("alpha", "main", "main"));
        }
        other => panic!("expected alpha to change its pinned commit, got {other:?}"),
    }
    assert_eq!(
        changes[1],
        StateChange::Added {
            name: "gamma".to_string(),
            branch: "dev".to_string(),
        }
    );
    let cleared = snapshot_to_cleared(&staged);
    let names: Vec<&str> = cleared.iter().map(|c| c.name.as_str()).collect();
    assert_eq!(names, vec!["alpha", "gamma"]);
}

#[test]
fn commit_refuses_empty_or_redundant_staging() {
    let before = declared(&[("alpha", "main")]);
    assert_eq!(
        apply_staging(&before, &StagedDeclaration::new()).err(),
        Some("ws commit: nothing staged. Run `ws add <repo>` first, then `ws commit`.".to_string())
    );
}

#[test]
fn quoted_commit_plan_and_explain_rendering() {
    let plan = explain_plan_quoted("/ws", ".workspace/state.toml", Some("\"x\""));
    assert_eq!(plan[6], "git -C /ws commit -m \"x\" -- .workspace/state.toml");
    let text = render_explain_plan("ws reset", &vec!["one".to_string(), "two".to_string()]);
    assert!(text.contains("one"));
    assert!(text.contains("two"));
    assert!(says_file_absent("fatal: path 'x' does not exist in 'main'"));
    assert!(!says_file_absent("FATAL: PATH 'X' DOES NOT EXIST IN 'MAIN'"));
}

#[test]
fn gathered_logs_count_only_repos_with_commits() {
    let a = parse_log_output("alpha", "aaaaaaaaaa\t2026-04-27T15:33:21+00:00\tAda\tFirst");
    let results = vec![Some(a), None, Some(Vec::new())];
    let (entries, with_data) = gather_logs(&results);
    assert_eq!(entries.len(), 1);
    assert_eq!(entries[0].repo, "alpha");
    assert_eq!(entries[0].author, "Ada");
    assert_eq!(with_data, 1);
}

#[test]
fn log_timeline_keeps_equal_keys_in_input_order() {
    let m = manifest();
    let e = |repo: &str, hash: &str, date: &str, summary: &str| LogEntry {
        repo: repo.to_string(),
        hash: hash.to_string(),
        date: date.to_string(),
        author: "Ada".to_string(),
        summary: summary.to_string(),
    };
    let entries = vec![
        e("alpha", "aaa", "2026-04-27T10:00:00+00:00", "one"),
        e("beta", "bbb", "2026-04-28T10:00:00+00:00", "newest"),
        e("alpha", "aaa", "2026-04-27T10:00:00+00:00", "two"),
        e("alpha", "aaa", "2026-04-27T10:00:00+00:00", "three"),
    ];
    let out = build_log("/ws", &m, entries, 2, true, None);
    let summaries: Vec<&str> = out.entries.iter().map(|e: &LogEntry| e.summary.as_str()).collect();
    assert_eq!(summaries, vec!["newest", "one", "two", "three"]);
}
