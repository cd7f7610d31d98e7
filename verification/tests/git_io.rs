use marshal::commands::passthrough::{
    clamp_u8, exit_status, retain_chunk, GIT_NOT_FOUND_STATUS, STDERR_CAPTURE_CAP,
};
use marshal::commands::what_now::rules::register_defaults;
use marshal::commands::what_now::Registry;
use marshal::git::porcelain::{InProgressOp, RepoState, WorkingTreeInfo};
use marshal::git::status::{in_progress_from, parse_ab, parse_status, repo_state, GitDirMarkers};

/// Feed `input` through the retention in chunks of at most 4096
/// bytes, as the stderr forwarder reads it.
fn tee(input: &[u8]) -> Vec<u8> {
    let mut buffer = Vec::new();
    for chunk in input.chunks(4096) {
        retain_chunk(&mut buffer, chunk);
    }
    buffer
}

#[test]
fn tee_returns_full_input_under_cap() {
    let input = b"fatal: not a git repository (or any parent up to mount point /)\n";
    let captured = tee(input);
    assert_eq!(captured, input);
}

#[test]
fn tee_caps_buffer_but_consumes_input_fully() {
    let huge: Vec<u8> = (0..(STDERR_CAPTURE_CAP + 1024))
        .map(|i| (i % 256) as u8)
        .collect();
    let captured = tee(&huge);
    assert_eq!(captured.len(), STDERR_CAPTURE_CAP);
    assert_eq!(&captured[..], &huge[..STDERR_CAPTURE_CAP]);
}

#[test]
fn tee_handles_empty_input() {
    let captured = tee(&[]);
    assert!(captured.is_empty());
}

#[test]
fn retention_keeps_the_head_of_a_chunk_that_crosses_the_cap() {
    let mut buffer = vec![7u8; STDERR_CAPTURE_CAP - 2];
    retain_chunk(&mut buffer, &[1, 2, 3, 4]);
    assert_eq!(buffer.len(), STDERR_CAPTURE_CAP);
    assert_eq!(&buffer[STDERR_CAPTURE_CAP - 2..], &[1, 2]);
    retain_chunk(&mut buffer, &[9]);
    assert_eq!(buffer.len(), STDERR_CAPTURE_CAP);
}

#[test]
fn exit_status_follows_git_and_the_signal_convention() {
    assert_eq!(exit_status(Some(0), None), 0);
    assert_eq!(exit_status(Some(128), None), 128);
    assert_eq!(exit_status(Some(300), None), 255);
    assert_eq!(exit_status(Some(-1), None), 0);
    assert_eq!(exit_status(None, Some(9)), 137);
    assert_eq!(exit_status(None, Some(i32::MAX)), 255);
    assert_eq!(exit_status(None, None), 1);
    assert_eq!(clamp_u8(42), 42);
    assert_eq!(GIT_NOT_FOUND_STATUS, 127);
}

const STATUS: &str = "# branch.oid 1234567890abcdef\n\
# branch.head feat/x\n\
# branch.upstream origin/feat/x\n\
# branch.ab +2 -3\n\
1 M. N... 100644 100644 100644 aaa bbb src/a.rs\n\
1 .M N... 100644 100644 100644 aaa bbb src/b.rs\n\
2 RM N... 100644 100644 100644 aaa bbb R100 new.rs\told.rs\n\
u UU N... 100644 100644 100644 100644 aaa bbb ccc conflict.rs\n\
? notes.txt\n\
? scratch/\n";

#[test]
fn porcelain_status_is_read_header_by_header() {
    let (branch, wt) = parse_status(STATUS);
    assert_eq!(branch.name.as_deref(), Some("feat/x"));
    assert_eq!(branch.oid.as_deref(), Some("1234567890abcdef"));
    assert_eq!(branch.upstream.as_deref(), Some("origin/feat/x"));
    assert_eq!((branch.ahead, branch.behind), (2, 3));
    assert!(!branch.is_detached);
    assert!(!branch.is_initial);
    assert_eq!(
        wt,
        WorkingTreeInfo {
            staged: 2,
            unstaged: 2,
            untracked: 2,
            unmerged: 1,
        }
    );
}

#[test]
fn porcelain_markers_mean_absent() {
    let (branch, wt) = parse_status("# branch.oid (initial)\n# branch.head (detached)\n");
    assert!(branch.is_detached);
    assert!(branch.is_initial);
    assert!(branch.name.is_none());
    assert!(branch.oid.is_none());
    assert!(branch.upstream.is_none());
    assert_eq!((branch.ahead, branch.behind), (0, 0));
    assert!(wt.is_clean());
}

#[test]
fn ahead_behind_header_values() {
    assert_eq!(parse_ab("+0 -0"), (0, 0));
    assert_eq!(parse_ab("+10 -1"), (10, 1));
    assert_eq!(parse_ab("garbage"), (0, 0));
}

#[test]
fn operation_markers_pick_one_operation() {
    let none = GitDirMarkers {
        merge_head: false,
        rebase_merge: false,
        rebase_apply: false,
        cherry_pick_head: false,
        revert_head: false,
        bisect_log: false,
    };
    assert_eq!(in_progress_from(&none), InProgressOp::Idle);
    let merge = GitDirMarkers { merge_head: true, ..none };
    assert_eq!(in_progress_from(&merge), InProgressOp::Merge);
    let rebase = GitDirMarkers { rebase_apply: true, merge_head: true, ..none };
    assert_eq!(in_progress_from(&rebase), InProgressOp::Rebase);
    let bisect = GitDirMarkers { bisect_log: true, ..none };
    let state: RepoState = repo_state("# branch.head main\n", &bisect);
    assert_eq!(state.in_progress, InProgressOp::Bisect);
    assert_eq!(state.branch.name.as_deref(), Some("main"));
}

#[test]
fn default_rules_answer_every_state() {
    let mut reg = Registry::new();
    register_defaults(&mut reg);
    let (branch, working_tree) = parse_status(STATUS);
    let dirty = RepoState {
        branch,
        working_tree,
        in_progress: InProgressOp::Idle,
    };
    assert_eq!(reg.examine(&dirty).unwrap().rule_id, "merge-conflict");
    assert_eq!(reg.examine(&RepoState::default()).unwrap().rule_id, "clean");
}
