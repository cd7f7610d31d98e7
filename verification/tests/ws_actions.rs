use marshal::commands::ws::actions::GitAction;
use marshal::commands::ws::obstacles::Resolution;
use marshal::commands::ws::restore;
use marshal::commands::ws::switch;
use marshal::git::porcelain::{BranchInfo, InProgressOp, RepoState, WorkingTreeInfo};

fn state(branch: &str, unstaged: usize) -> RepoState {
    RepoState {
        branch: BranchInfo {
            name: Some(branch.to_string()),
            oid: Some("abc1234".to_string()),
            ..Default::default()
        },
        working_tree: WorkingTreeInfo { unstaged, ..Default::default() },
        in_progress: InProgressOp::Idle,
    }
}

fn plan(name: &str, target: &str) -> switch::ChildPlan {
    switch::ChildPlan {
        name: name.to_string(),
        path: format!("/ws/{name}"),
        target_branch: target.to_string(),
    }
}

fn flat(actions: &[GitAction]) -> Vec<(String, String, String)> {
    actions
        .iter()
        .map(|a| (a.dir.clone(), a.args.join(" "), a.label.clone()))
        .collect()
}

fn row(dir: &str, args: &str, label: &str) -> (String, String, String) {
    (dir.to_string(), args.to_string(), label.to_string())
}

#[test]
fn switch_runs_branch_switch_then_stashes_and_moves_children() {
    let children = vec![
        (plan("a", "feat"), Some(state("main", 2))),
        (plan("b", "feat"), Some(state("feat", 0))),
        (plan("c", "feat"), None),
    ];
    let ws = state("main", 0);
    let actions = switch::switch_actions("/ws", "demo", "feat", true, true, false, &ws, &children).unwrap();
    assert_eq!(
        flat(&actions),
        vec![
            row("/ws", "branch feat", "git branch feat"),
            row("/ws", "switch feat", "git switch feat"),
            row(
                "/ws/a",
                "stash push --include-untracked -m marshal/ws-switch: stashed before switching `a`",
                "git stash push"
            ),
            row("/ws/a", "switch feat", "git switch feat"),
        ]
    );
}

#[test]
fn switch_stashes_the_workspace_repo_under_its_name() {
    let ws = state("main", 1);
    let actions = switch::switch_actions("/ws", "demo", "feat", false, true, false, &ws, &vec![]).unwrap();
    assert_eq!(
        flat(&actions),
        vec![
            row(
                "/ws",
                "stash push --include-untracked -m marshal/ws-switch: stashed before switching workspace `demo`",
                "git stash push"
            ),
            row("/ws", "switch feat", "git switch feat"),
        ]
    );
}

#[test]
fn switch_with_unresolved_changes_runs_nothing() {
    let children = vec![(plan("a", "feat"), Some(state("main", 2)))];
    let ws = state("main", 0);
    let err = switch::switch_actions("/ws", "demo", "feat", false, false, false, &ws, &children).unwrap_err();
    assert!(err.contains("--auto-stash"));
    assert!(err.contains("a"));
}

#[test]
fn switch_from_an_unborn_workspace_is_refused() {
    let mut ws = state("main", 0);
    ws.branch.is_initial = true;
    let err = switch::switch_actions("/ws", "demo", "feat", false, false, false, &ws, &vec![]).unwrap_err();
    assert_eq!(err, switch::initial_workspace("/ws"));
}

#[test]
fn switch_child_summaries_follow_each_child() {
    let children = vec![
        (plan("a", "feat"), Some(state("main", 2))),
        (plan("b", "feat"), Some(state("feat", 0))),
        (plan("c", "feat"), None),
    ];
    let s = switch::child_summaries(&children, false, true);
    assert_eq!(s.len(), 3);
    assert!(!s[0].skipped && s[0].discarded && !s[0].stashed);
    assert_eq!(s[0].from_branch.as_deref(), Some("main"));
    assert!(s[1].skipped && !s[1].discarded);
    assert!(s[2].missing_from_disk && !s[2].skipped);
}

#[test]
fn restore_single_discards_then_switches() {
    let actions = restore::single_actions("/ws/a", "a", "main", Resolution::Discard);
    assert_eq!(
        flat(&actions),
        vec![
            row("/ws/a", "reset --hard", "git reset --hard"),
            row("/ws/a", "clean -fd", "git clean -fd"),
            row("/ws/a", "switch main", "git switch main"),
        ]
    );
}

#[test]
fn restore_single_stash_names_repo_and_branch() {
    let actions = restore::single_actions("/ws/a", "a", "main", Resolution::Stash);
    assert_eq!(
        flat(&actions)[0],
        row(
            "/ws/a",
            "stash push --include-untracked -m marshal/ws-restore: stashed before switching `a` to `main`",
            "git stash push"
        )
    );
    assert_eq!(actions.len(), 2);
}

#[test]
fn restore_child_actions_only_for_children_off_their_branch() {
    let p = restore::ChildPlan {
        name: "a".to_string(),
        path: "/ws/a".to_string(),
        declared_branch: "main".to_string(),
    };
    let aligned = restore::classify(&p, Some(state("main", 3)));
    assert!(restore::child_actions(&p, &aligned, true, false).is_empty());
    let missing = restore::classify(&p, None);
    assert!(restore::child_actions(&p, &missing, true, false).is_empty());
    let off = restore::classify(&p, Some(state("feat", 3)));
    assert_eq!(
        flat(&restore::child_actions(&p, &off, true, false)),
        vec![
            row(
                "/ws/a",
                "stash push --include-untracked -m marshal/ws-restore: stashed before restoring `a` to `main`",
                "git stash push"
            ),
            row("/ws/a", "switch main", "git switch main"),
        ]
    );
}
