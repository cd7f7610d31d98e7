use marshal::commands::what_now::rule::AdviceRule;
use marshal::commands::what_now::rules::branch_state::{DetachedHead, InitialState};
use marshal::commands::what_now::rules::clean::Clean;
use marshal::commands::what_now::rules::conflict::MergeConflict;
use marshal::commands::what_now::rules::in_progress::InProgressOperation;
use marshal::commands::what_now::rules::sync::{Ahead, Behind, Diverged};
use marshal::commands::what_now::rules::uncommitted::{build_title, UncommittedChanges};
use marshal::commands::what_now::{Registry, Rule};
use marshal::git::porcelain::{BranchInfo, InProgressOp, RepoState, WorkingTreeInfo};

fn state_with_unmerged(n: usize, op: InProgressOp) -> RepoState {
    RepoState {
        working_tree: WorkingTreeInfo {
            unmerged: n,
            ..Default::default()
        },
        in_progress: op,
        ..Default::default()
    }
}

fn state_for(op: InProgressOp) -> RepoState {
    RepoState {
        in_progress: op,
        ..Default::default()
    }
}

fn clean_state(ahead: usize, behind: usize, upstream: Option<&str>) -> RepoState {
    RepoState {
        branch: BranchInfo {
            name: Some("main".to_string()),
            ahead,
            behind,
            upstream: upstream.map(str::to_string),
            ..Default::default()
        },
        ..Default::default()
    }
}

fn state_with(staged: usize, unstaged: usize, untracked: usize) -> RepoState {
    RepoState {
        working_tree: WorkingTreeInfo {
            staged,
            unstaged,
            untracked,
            unmerged: 0,
        },
        ..Default::default()
    }
}

#[test]
fn initial_state_fires_only_when_is_initial() {
    let mut s = RepoState::default();
    s.branch.is_initial = true;
    let advice = InitialState.examine(&s).unwrap();
    assert_eq!(advice.rule_id, "initial-state");
    assert!(advice.suggestions[0].contains("git add"));
    assert!(advice.suggestions[1].contains("git commit"));

    s.branch.is_initial = false;
    assert!(InitialState.examine(&s).is_none());
}

#[test]
fn detached_head_fires_only_when_detached() {
    let s = RepoState {
        branch: BranchInfo {
            is_detached: true,
            ..Default::default()
        },
        ..Default::default()
    };
    let advice = DetachedHead.examine(&s).unwrap();
    assert_eq!(advice.rule_id, "detached-head");
    assert!(advice.suggestions[0].contains("git switch -c"));
    assert!(advice.suggestions[1].contains("git switch -"));

    assert!(DetachedHead.examine(&RepoState::default()).is_none());
}

#[test]
fn always_fires_with_appropriate_title() {
    let s = RepoState {
        branch: BranchInfo {
            name: Some("main".to_string()),
            upstream: Some("origin/main".to_string()),
            ..Default::default()
        },
        ..Default::default()
    };
    let advice = Clean.examine(&s).unwrap();
    assert_eq!(advice.rule_id, "clean");
    assert!(advice.title.contains("on `main`"));
    assert!(advice.title.contains("up to date with `origin/main`"));
}

#[test]
fn handles_branch_without_upstream() {
    let s = RepoState {
        branch: BranchInfo {
            name: Some("feat/x".to_string()),
            ..Default::default()
        },
        ..Default::default()
    };
    let advice = Clean.examine(&s).unwrap();
    assert!(advice.title.contains("on `feat/x`"));
    assert!(!advice.title.contains("up to date"));
}

#[test]
fn handles_no_branch_at_all() {
    let advice = Clean.examine(&RepoState::default()).unwrap();
    assert!(advice.title.contains("(no branch)"));
}

#[test]
fn matches_when_unmerged_files_present() {
    let s = state_with_unmerged(2, InProgressOp::Merge);
    let advice = MergeConflict.examine(&s).unwrap();
    assert_eq!(advice.rule_id, "merge-conflict");
    assert!(advice.title.contains("2 files"));
    assert!(advice.suggestions.iter().any(|a| a.contains("git add")));
}

#[test]
fn singular_phrasing_for_one_file() {
    let s = state_with_unmerged(1, InProgressOp::Merge);
    let advice = MergeConflict.examine(&s).unwrap();
    assert!(advice.title.contains("1 file."));
    assert!(advice.title.contains("conflict in"));
}

#[test]
fn abort_command_matches_active_operation() {
    for (op, expected) in [
        (InProgressOp::Merge, "merge --abort"),
        (InProgressOp::Rebase, "rebase --abort"),
        (InProgressOp::CherryPick, "cherry-pick --abort"),
        (InProgressOp::Revert, "revert --abort"),
        (InProgressOp::Idle, "merge --abort"),
    ] {
        let advice = MergeConflict.examine(&state_with_unmerged(1, op)).unwrap();
        assert!(
            advice.suggestions.iter().any(|s| s.contains(expected)),
            "op {op:?} should suggest `{expected}`, got {:?}",
            advice.suggestions
        );
    }
}

#[test]
fn conflict_does_not_fire_on_clean_state() {
    assert!(MergeConflict.examine(&RepoState::default()).is_none());
}

#[test]
fn rebase_yields_continue_skip_abort() {
    let advice = InProgressOperation
        .examine(&state_for(InProgressOp::Rebase))
        .unwrap();
    assert_eq!(advice.rule_id, "rebase-in-progress");
    assert!(advice.suggestions.iter().any(|s| s.contains("--continue")));
    assert!(advice.suggestions.iter().any(|s| s.contains("--skip")));
    assert!(advice.suggestions.iter().any(|s| s.contains("--abort")));
}

#[test]
fn each_op_has_its_own_rule_id() {
    let mut ids = vec![];
    for op in [
        InProgressOp::Rebase,
        InProgressOp::CherryPick,
        InProgressOp::Revert,
        InProgressOp::Bisect,
        InProgressOp::Merge,
    ] {
        ids.push(InProgressOperation.examine(&state_for(op)).unwrap().rule_id);
    }
    let mut sorted = ids.clone();
    sorted.sort();
    sorted.dedup();
    assert_eq!(sorted.len(), ids.len(), "rule_ids collided: {ids:?}");
}

#[test]
fn does_not_fire_when_conflicts_exist() {
    let s = RepoState {
        in_progress: InProgressOp::Rebase,
        working_tree: WorkingTreeInfo {
            unmerged: 1,
            ..Default::default()
        },
        ..Default::default()
    };
    assert!(InProgressOperation.examine(&s).is_none());
}

#[test]
fn in_progress_does_not_fire_on_clean_state() {
    assert!(InProgressOperation
        .examine(&state_for(InProgressOp::Idle))
        .is_none());
}

#[test]
fn diverged_fires_when_both_ahead_and_behind() {
    let s = clean_state(2, 3, Some("origin/main"));
    let advice = Diverged.examine(&s).unwrap();
    assert_eq!(advice.rule_id, "diverged");
    assert!(advice.title.contains("2 ahead"));
    assert!(advice.title.contains("3 behind"));
    assert!(advice
        .suggestions
        .iter()
        .any(|s| s.contains("git pull --rebase")));
}

#[test]
fn diverged_does_not_fire_when_only_one_side_moved() {
    assert!(Diverged
        .examine(&clean_state(2, 0, Some("origin/main")))
        .is_none());
    assert!(Diverged
        .examine(&clean_state(0, 3, Some("origin/main")))
        .is_none());
}

#[test]
fn behind_fires_when_only_behind() {
    let advice = Behind
        .examine(&clean_state(0, 4, Some("origin/main")))
        .unwrap();
    assert_eq!(advice.rule_id, "behind-upstream");
    assert!(advice.title.contains("4 commits"));
    assert!(advice.suggestions[0].contains("git pull --rebase"));
}

#[test]
fn behind_yields_singular_for_one() {
    let advice = Behind
        .examine(&clean_state(0, 1, Some("origin/main")))
        .unwrap();
    assert!(advice.title.contains("1 commit."), "got: {}", advice.title);
}

#[test]
fn behind_does_not_fire_when_also_ahead() {
    assert!(Behind
        .examine(&clean_state(2, 3, Some("origin/main")))
        .is_none());
}

#[test]
fn ahead_with_upstream_yields_simple_push() {
    let advice = Ahead
        .examine(&clean_state(2, 0, Some("origin/main")))
        .unwrap();
    assert_eq!(advice.rule_id, "unpushed-commits");
    assert!(advice.title.contains("Ahead of origin/main"));
    assert_eq!(advice.suggestions, vec!["Push them: `git push`.".to_string()]);
}

#[test]
fn ahead_without_upstream_yields_set_upstream_form() {
    let advice = Ahead.examine(&clean_state(1, 0, None)).unwrap();
    assert_eq!(advice.rule_id, "unpushed-commits-no-upstream");
    assert!(advice.suggestions[0].contains("-u origin main"));
}

#[test]
fn ahead_does_not_fire_when_also_behind() {
    assert!(Ahead
        .examine(&clean_state(2, 3, Some("origin/main")))
        .is_none());
}

#[test]
fn no_sync_rule_fires_with_dirty_working_tree() {
    let s = RepoState {
        branch: BranchInfo {
            ahead: 2,
            ..Default::default()
        },
        working_tree: WorkingTreeInfo {
            unstaged: 1,
            ..Default::default()
        },
        ..Default::default()
    };
    assert!(Diverged.examine(&s).is_none());
    assert!(Behind.examine(&s).is_none());
    assert!(Ahead.examine(&s).is_none());
}

#[test]
fn does_not_fire_on_clean() {
    assert!(UncommittedChanges.examine(&RepoState::default()).is_none());
}

#[test]
fn does_not_fire_when_conflicts_present() {
    let s = RepoState {
        working_tree: WorkingTreeInfo {
            staged: 1,
            unstaged: 0,
            untracked: 0,
            unmerged: 1,
        },
        ..Default::default()
    };
    assert!(UncommittedChanges.examine(&s).is_none());
}

#[test]
fn title_reflects_only_buckets_that_have_files() {
    let advice = UncommittedChanges.examine(&state_with(2, 0, 0)).unwrap();
    assert_eq!(advice.title, "Working tree has 2 staged changes.");
    let advice = UncommittedChanges.examine(&state_with(0, 1, 0)).unwrap();
    assert_eq!(advice.title, "Working tree has 1 unstaged change.");
    let advice = UncommittedChanges.examine(&state_with(2, 1, 3)).unwrap();
    assert_eq!(
        advice.title,
        "Working tree has 2 staged, 1 unstaged, and 3 untracked changes."
    );
}

#[test]
fn uncommitted_title_with_two_buckets() {
    assert_eq!(
        build_title(0, 2, 1),
        "Working tree has 2 unstaged and 1 untracked changes."
    );
}

#[test]
fn suggestions_drop_review_when_only_untracked() {
    let advice = UncommittedChanges.examine(&state_with(0, 0, 2)).unwrap();
    assert!(!advice.suggestions.iter().any(|s| s.contains("git diff")));
    assert!(advice.suggestions.iter().any(|s| s.contains("git add")));
}

#[test]
fn suggestions_drop_staging_when_only_staged() {
    let advice = UncommittedChanges.examine(&state_with(1, 0, 0)).unwrap();
    assert!(!advice.suggestions.iter().any(|s| s.contains("git add")));
    assert!(advice.suggestions.iter().any(|s| s.contains("git commit")));
}

#[test]
fn registry_answers_with_the_first_rule_that_applies() {
    let mut reg = Registry::new();
    for rule in [
        Rule::MergeConflict,
        Rule::InProgress,
        Rule::InitialState,
        Rule::DetachedHead,
        Rule::UncommittedChanges,
        Rule::Diverged,
        Rule::Behind,
        Rule::Ahead,
        Rule::Clean,
    ] {
        reg.register(rule);
    }
    let conflicted = state_with_unmerged(1, InProgressOp::Rebase);
    assert_eq!(reg.examine(&conflicted).unwrap().rule_id, "merge-conflict");
    assert_eq!(reg.examine(&clean_state(0, 2, Some("origin/main"))).unwrap().rule_id, "behind-upstream");
    assert_eq!(reg.examine(&RepoState::default()).unwrap().rule_id, "clean");
    assert!(Registry::new().examine(&RepoState::default()).is_none());
}
