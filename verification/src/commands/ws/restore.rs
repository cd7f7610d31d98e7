//! `ws restore <repo>` / `ws restore --all` — put children back on
//! their declared branch. Every child that would move is checked
//! first; hard obstacles always refuse, uncommitted changes refuse
//! unless `--auto-stash` or `--discard-changes` says what to do with
//! them. With `--all`, one blocking child stops the whole run before
//! any child is touched; children already on their branch are skipped.
use vstd::prelude::*;
use vstd::string::StringExecFns;
use crate::cli::Renderable;
use crate::commands::ws::obstacles::{child_sections, child_sections_exec, marker_lines, marker_text, report_any,
    report_has_kind, report_view, resolution, resolution_spec, Resolution, resolution_steps_spec};
use crate::commands::ws::{declared_branch, declared_branch_spec, plan_lines, render_explain_plan, unknown_repo_error,
    unknown_repo_msg};
use crate::commands::ws::actions::{actions_view, in_dir, push_resolution, switch_action, switch_in, GitAction};
use crate::git::porcelain::RepoState;
use crate::text::{concat_lines, decimal, decimal_of, lines_text, opt_view, path_join, starts_with, starts_with_spec,
    str_eq, views};
use crate::workspace::manifest::{child_repo_path, first_index, repo_names, repo_rel_path, Manifest, RepoEntry};
use crate::workspace::preflight::{any_hard, any_soft, blocking_obstacles, blocking_spec, is_hard, obstacles,
    obstacles_of, Obstacle};
use crate::workspace::state::StateDeclaration;

verus! {

/// `git ws restore`: `all` is the namespace's `--all` (every child).
pub struct WsRestore {
    pub all: bool,
    pub on: Option<String>,
    pub explain: bool,
}

// ── Arguments ───────────────────────────────────────────────────────

#[derive(Debug)]
pub struct ParsedArgs {
    pub repo_name: Option<String>,
    pub auto_stash: bool,
    pub discard: bool,
}

pub type RestoreScan = (Option<Seq<char>>, bool, bool);

pub open spec fn scan(args: Seq<Seq<char>>) -> Result<RestoreScan, Seq<char>>
    decreases args.len(),
{
    if args.len() == 0 {
        Ok((None, false, false))
    } else {
        match scan(args.drop_last()) {
            Err(e) => Err(e),
            Ok((repo, auto_stash, discard)) => {
                let s = args.last();
                if s == "--auto-stash"@ {
                    if auto_stash {
                        Err("ws restore: '--auto-stash' specified more than once"@)
                    } else {
                        Ok((repo, true, discard))
                    }
                } else if s == "--discard-changes"@ {
                    if discard {
                        Err("ws restore: '--discard-changes' specified more than once"@)
                    } else {
                        Ok((repo, auto_stash, true))
                    }
                } else if starts_with_spec(s, "--"@) {
                    Err("ws restore: unexpected flag '"@ + s
                        + "'. Expected: `ws restore (<repo> | --all) [--auto-stash | --discard-changes]`."@)
                } else if repo is None {
                    Ok((Some(s), auto_stash, discard))
                } else {
                    Err("ws restore: too many positional arguments. Restore one repo per invocation: `ws restore <repo>`, or every declared child with `ws restore --all`."@)
                }
            },
        }
    }
}

pub open spec fn exclusive_flags_msg() -> Seq<char> {
    "ws restore: '--auto-stash' and '--discard-changes' are mutually exclusive. Pick one — preserve work or destroy it."@
}

/// An optional `<repo>` and the two resolution flags, at most one of
/// them. `--all` belongs to the namespace and is refused here.
pub open spec fn parse_args_spec(args: Seq<Seq<char>>) -> Result<RestoreScan, Seq<char>> {
    match scan(args) {
        Err(e) => Err(e),
        Ok((_, true, true)) => Err(exclusive_flags_msg()),
        Ok(st) => Ok(st),
    }
}

proof fn lemma_scan_stops(args: Seq<Seq<char>>, k: int)
    requires
        0 <= k <= args.len(),
        scan(args.take(k)) is Err,
    ensures
        scan(args) == scan(args.take(k)),
    decreases args.len() - k,
{
    if k < args.len() {
        assert(args.take(k + 1).drop_last() =~= args.take(k));
        lemma_scan_stops(args, k + 1);
    } else {
        assert(args.take(k) =~= args);
    }
}

pub open spec fn opt_seq(o: Option<String>) -> Option<Seq<char>> {
    match o {
        Some(s) => Some(s@),
        None => None,
    }
}

pub fn parse_args(args: &Vec<String>) -> (r: Result<ParsedArgs, String>)
    ensures
        match (r, parse_args_spec(views(args@))) {
            (Ok(p), Ok(st)) => opt_seq(p.repo_name) == st.0 && p.auto_stash == st.1 && p.discard == st.2,
            (Err(a), Err(b)) => a@ == b,
            _ => false,
        },
{
    let ghost vs = views(args@);
    let mut repo_name: Option<String> = None;
    let mut auto_stash = false;
    let mut discard = false;
    let mut i: usize = 0;
    while i < args.len()
        invariant
            i <= args.len(),
            vs == views(args@),
            scan(vs.take(i as int)) == Ok::<RestoreScan, Seq<char>>((opt_seq(repo_name), auto_stash, discard)),
        decreases args.len() - i,
    {
        assert(vs.take(i + 1).drop_last() =~= vs.take(i as int));
        let s = args[i].as_str();
        assert(vs.take(i + 1).last() == s@);
        proof {
            reveal_strlit("--auto-stash");
            reveal_strlit("--discard-changes");
        }
        if str_eq(s, "--auto-stash") {
            if auto_stash {
                proof {
                    lemma_scan_stops(vs, i + 1);
                }
                return Err(String::from_str("ws restore: '--auto-stash' specified more than once"));
            }
            auto_stash = true;
        } else if str_eq(s, "--discard-changes") {
            if discard {
                proof {
                    lemma_scan_stops(vs, i + 1);
                }
                return Err(String::from_str("ws restore: '--discard-changes' specified more than once"));
            }
            discard = true;
        } else if starts_with(s, "--") {
            proof {
                lemma_scan_stops(vs, i + 1);
            }
            let mut m = String::from_str("ws restore: unexpected flag '");
            m.append(s);
            m.append("'. Expected: `ws restore (<repo> | --all) [--auto-stash | --discard-changes]`.");
            return Err(m);
        } else if repo_name.is_none() {
            repo_name = Some(String::from_str(s));
        } else {
            proof {
                lemma_scan_stops(vs, i + 1);
            }
            return Err(String::from_str("ws restore: too many positional arguments. Restore one repo per invocation: `ws restore <repo>`, or every declared child with `ws restore --all`."));
        }
        i += 1;
    }
    assert(vs.take(i as int) =~= vs);
    if auto_stash && discard {
        return Err(String::from_str("ws restore: '--auto-stash' and '--discard-changes' are mutually exclusive. Pick one — preserve work or destroy it."));
    }
    Ok(ParsedArgs { repo_name, auto_stash, discard })
}

/// What to restore.
pub enum Target {
    Single(String),
    All,
}

pub open spec fn on_refusal_msg(on: Seq<char>) -> Seq<char> {
    "ws restore: takes a positional <repo> (or --all), not `--on`. Try `ws restore "@ + on + "` instead."@
}

pub open spec fn target_spec(all: bool, repo: Option<Seq<char>>) -> Result<Option<Seq<char>>, Seq<char>> {
    match (all, repo) {
        (true, Some(n)) => Err("ws restore: '--all' and a positional <repo> are mutually exclusive. Use `ws restore "@
            + n + "` to restore just one child, or `ws restore --all` to restore every declared child."@),
        (true, None) => Ok(None),
        (false, Some(n)) => Ok(Some(n)),
        (false, None) => Err("ws restore: missing target. Usage: `ws restore <repo>` (single child) or `ws restore --all` (every declared child) [--auto-stash | --discard-changes]."@),
    }
}

impl WsRestore {
    /// Refuse `--on`, read the arguments, and settle the target.
    pub fn check(&self, args: &Vec<String>) -> (r: Result<(ParsedArgs, Target), String>)
        ensures
            match self.on {
                Some(o) => r matches Err(e) && e@ == on_refusal_msg(o@),
                None => match parse_args_spec(views(args@)) {
                    Err(e) => r matches Err(m) && m@ == e,
                    Ok(st) => match target_spec(self.all, st.0) {
                        Err(e) => r matches Err(m) && m@ == e,
                        Ok(t) => r matches Ok((p, tg)) && p.auto_stash == st.1 && p.discard == st.2 && match (tg, t) {
                            (Target::Single(a), Some(b)) => a@ == b,
                            (Target::All, None) => true,
                            _ => false,
                        },
                    },
                },
            },
    {
        if let Some(on) = &self.on {
            let mut m = String::from_str("ws restore: takes a positional <repo> (or --all), not `--on`. Try `ws restore ");
            m.append(on.as_str());
            m.append("` instead.");
            return Err(m);
        }
        let parsed = match parse_args(args) {
            Ok(p) => p,
            Err(e) => return Err(e),
        };
        let target = match (&parsed.repo_name, self.all) {
            (Some(n), true) => {
                let mut m = String::from_str("ws restore: '--all' and a positional <repo> are mutually exclusive. Use `ws restore ");
                m.append(n.as_str());
                m.append("` to restore just one child, or `ws restore --all` to restore every declared child.");
                return Err(m);
            },
            (None, true) => Target::All,
            (Some(n), false) => Target::Single(n.clone()),
            (None, false) => {
                return Err(String::from_str("ws restore: missing target. Usage: `ws restore <repo>` (single child) or `ws restore --all` (every declared child) [--auto-stash | --discard-changes]."));
            },
        };
        Ok((parsed, target))
    }
}

// ── One repo ────────────────────────────────────────────────────────

pub open spec fn single_plan_spec(abs: Seq<char>, declared: Seq<char>, auto_stash: bool, discard: bool) -> Seq<Seq<char>> {
    seq![
        "git -C "@ + abs + " status --porcelain=v2 --branch  (read working state for pre-flight)"@,
        "evaluate pre-flight obstacles (in-progress op, conflicts, initial-empty, staged/unstaged/untracked changes)"@,
        "abort if any blocking obstacle remains given the requested flags"@,
    ] + (if discard {
        seq!["if the working tree is dirty: git -C "@ + abs + " reset --hard  +  git -C "@ + abs
            + " clean -fd  (--discard-changes)"@]
    } else if auto_stash {
        seq!["if the working tree is dirty: git -C "@ + abs
            + " stash push --include-untracked -m \"marshal/ws-restore: …\"  (--auto-stash)"@]
    } else {
        Seq::empty()
    }) + seq!["git -C "@ + abs + " switch "@ + declared]
}

fn single_plan(abs: &str, declared: &str, auto_stash: bool, discard: bool) -> (r: Vec<String>)
    ensures
        views(r@) == single_plan_spec(abs@, declared@, auto_stash, discard),
{
    let mut a = String::from_str("git -C ");
    a.append(abs);
    a.append(" status --porcelain=v2 --branch  (read working state for pre-flight)");
    let b = String::from_str("evaluate pre-flight obstacles (in-progress op, conflicts, initial-empty, staged/unstaged/untracked changes)");
    let c = String::from_str("abort if any blocking obstacle remains given the requested flags");
    let mut plan = vec![a, b, c];
    let ghost head = views(plan@);
    if discard {
        let mut d = String::from_str("if the working tree is dirty: git -C ");
        d.append(abs);
        d.append(" reset --hard  +  git -C ");
        d.append(abs);
        d.append(" clean -fd  (--discard-changes)");
        plan.push(d);
    } else if auto_stash {
        let mut d = String::from_str("if the working tree is dirty: git -C ");
        d.append(abs);
        d.append(" stash push --include-untracked -m \"marshal/ws-restore: …\"  (--auto-stash)");
        plan.push(d);
    }
    let mut e = String::from_str("git -C ");
    e.append(abs);
    e.append(" switch ");
    e.append(declared);
    plan.push(e);
    assert(views(plan@) =~= single_plan_spec(abs@, declared@, auto_stash, discard));
    plan
}

/// What single-repo restore does next.
pub enum SingleStart {
    /// `--explain`: the plan.
    Explained(WsRestoreOutput),
    /// Read the child at `abs_path`; it should be on `declared_branch`.
    Inspect { abs_path: String, declared_branch: String },
}

/// Check the repo against the manifest, locate it and find its declared
/// branch; under `--explain` answer with the plan.
pub fn single_start(
    root: &str,
    manifest: &Manifest,
    repo_name: &str,
    state: Option<&StateDeclaration>,
    auto_stash: bool,
    discard: bool,
    explain: bool,
) -> (r: Result<SingleStart, String>)
    ensures
        match first_index(repo_names(manifest.repos@), repo_name@) {
            None => r matches Err(e) && e@ == unknown_repo_msg("ws restore"@, repo_name@, manifest.repos@),
            Some(i) => {
                let abs = path_join(root@, repo_rel_path(manifest.repos@[i]));
                let declared = declared_branch_spec(match state { Some(s) => Some(s.repos@), None => None },
                    manifest.workspace.default_branch@, repo_name@);
                if explain {
                    r matches Ok(SingleStart::Explained(WsRestoreOutput::Single(o)))
                        && o.root@ == root@ && o.repo_name@ == repo_name@ && o.path@ == abs
                        && o.declared_branch@ == declared && o.from_branch is None && o.from_commit is None
                        && o.to_branch@.len() == 0 && o.to_commit is None && !o.stashed && !o.discarded
                        && o.obstacles@.len() == 0
                        && (o.explain_plan matches Some(p) && views(p@) == single_plan_spec(abs, declared, auto_stash, discard))
                } else {
                    r matches Ok(SingleStart::Inspect { abs_path, declared_branch }) && abs_path@ == abs
                        && declared_branch@ == declared
                }
            },
        },
{
    let repo = match manifest.find_repo(repo_name) {
        Some(r) => r,
        None => return Err(unknown_repo_error("ws restore", repo_name, manifest)),
    };
    let abs = child_repo_path(root, repo);
    let declared = declared_branch(state, manifest.workspace.default_branch.as_str(), repo_name);
    if explain {
        let plan = single_plan(abs.as_str(), declared.as_str(), auto_stash, discard);
        return Ok(SingleStart::Explained(WsRestoreOutput::Single(WsRestoreSingleOutput {
            root: String::from_str(root),
            repo_name: String::from_str(repo_name),
            path: abs,
            declared_branch: declared,
            from_branch: None,
            from_commit: None,
            to_branch: String::new(),
            to_commit: None,
            stashed: false,
            discarded: false,
            obstacles: Vec::new(),
            explain_plan: Some(plan),
        })));
    }
    Ok(SingleStart::Inspect { abs_path: abs, declared_branch: declared })
}

pub open spec fn missing_child_msg(repo: Seq<char>, abs: Seq<char>) -> Seq<char> {
    "ws restore: child repo `"@ + repo + "` is missing on disk (declared, expected at "@ + abs
        + "). Clone the workspace with `ws clone` first."@
}

pub fn missing_child(repo: &str, abs: &str) -> (r: String)
    ensures
        r@ == missing_child_msg(repo@, abs@),
{
    let mut m = String::from_str("ws restore: child repo `");
    m.append(repo);
    m.append("` is missing on disk (declared, expected at ");
    m.append(abs);
    m.append("). Clone the workspace with `ws clone` first.");
    m
}

pub open spec fn hard_help_single(abs: Seq<char>) -> Seq<char> {
    "Resolve manually in the child repo first ("@ + abs + "):\n"@
        + "  - For an in-progress op: complete it (`git rebase --continue`/etc) or abort it (`git rebase --abort`/etc).\n"@
        + "  - For unresolved conflicts: edit the conflicted files, then `git add` + complete the operation.\n"@
        + "  - For an empty repo: make a first commit before restoring.\n"@
}

pub open spec fn soft_help_single() -> Seq<char> {
    "For uncommitted local changes, choose one:\n"@
        + "  - `ws restore <repo> --auto-stash`     stashes everything (recoverable via `git stash pop`).\n"@
        + "  - `ws restore <repo> --discard-changes` resets and cleans (destructive — opt-in).\n"@
        + "  - Or commit/stash by hand inside the child first.\n"@
}

/// The refusal of a single-repo restore: every obstacle marked, then
/// help for the hard ones and for the soft ones that still block.
pub open spec fn blocking_error_spec(repo: Seq<char>, abs: Seq<char>, obs: Seq<Obstacle>, auto_stash: bool, discard: bool) -> Seq<char> {
    let b = blocking_spec(obs, auto_stash, discard);
    let any_hard = exists|i: int| 0 <= i < b.len() && is_hard(#[trigger] b[i]);
    let any_soft = exists|i: int| 0 <= i < b.len() && !is_hard(#[trigger] b[i]);
    "ws restore: cannot restore `"@ + repo + "` — working state has issues that block the switch.\n\n"@
        + "Detected:\n"@ + marker_text(obs, auto_stash, discard) + "\n"@
        + (if any_hard { hard_help_single(abs) } else { Seq::empty() })
        + (if any_soft { (if any_hard { "\n"@ } else { Seq::empty() }) + soft_help_single() } else { Seq::empty() })
}

pub fn format_blocking_error(repo: &str, abs: &str, obs: &Vec<Obstacle>, auto_stash: bool, discard: bool) -> (r: String)
    ensures
        r@ == blocking_error_spec(repo@, abs@, obs@, auto_stash, discard),
{
    let blocking = blocking_obstacles(obs, auto_stash, discard);
    let mut m = String::from_str("ws restore: cannot restore `");
    m.append(repo);
    m.append("` — working state has issues that block the switch.\n\n");
    m.append("Detected:\n");
    marker_lines(&mut m, obs, auto_stash, discard);
    m.append("\n");
    let h = any_hard(&blocking);
    let s = any_soft(&blocking);
    if h {
        m.append("Resolve manually in the child repo first (");
        m.append(abs);
        m.append("):\n");
        m.append("  - For an in-progress op: complete it (`git rebase --continue`/etc) or abort it (`git rebase --abort`/etc).\n");
        m.append("  - For unresolved conflicts: edit the conflicted files, then `git add` + complete the operation.\n");
        m.append("  - For an empty repo: make a first commit before restoring.\n");
    }
    if s {
        if h {
            m.append("\n");
        }
        m.append("For uncommitted local changes, choose one:\n");
        m.append("  - `ws restore <repo> --auto-stash`     stashes everything (recoverable via `git stash pop`).\n");
        m.append("  - `ws restore <repo> --discard-changes` resets and cleans (destructive — opt-in).\n");
        m.append("  - Or commit/stash by hand inside the child first.\n");
    }
    m
}

/// Pre-flight of one repo: its obstacles and the resolution step, or
/// the refusal when any obstacle still blocks under the flags.
pub fn single_preflight(repo: &str, abs: &str, before: &RepoState, auto_stash: bool, discard: bool) -> (r: Result<(Vec<Obstacle>, Resolution), String>)
    ensures
        blocking_spec(obstacles_of(*before), auto_stash, discard).len() > 0 ==> (r matches Err(e)
            && e@ == blocking_error_spec(repo@, abs@, obstacles_of(*before), auto_stash, discard)),
        blocking_spec(obstacles_of(*before), auto_stash, discard).len() == 0 ==> (r matches Ok((o, res))
            && o@ == obstacles_of(*before) && res == resolution_spec(o@, auto_stash, discard)
            && res != Resolution::Unresolved),
{
    let obs = obstacles(before);
    let blocking = blocking_obstacles(&obs, auto_stash, discard);
    if blocking.len() > 0 {
        return Err(format_blocking_error(repo, abs, &obs, auto_stash, discard));
    }
    proof {
        crate::commands::ws::obstacles::law_preflight_leaves_nothing_unresolved(obs@, auto_stash, discard);
    }
    let res = resolution(&obs, auto_stash, discard);
    Ok((obs, res))
}

/// The message of the stash taken before restoring a repo.
pub open spec fn stash_message_spec(repo: Seq<char>, declared: Seq<char>) -> Seq<char> {
    "marshal/ws-restore: stashed before switching `"@ + repo + "` to `"@ + declared + "`"@
}

pub fn stash_message(repo: &str, declared: &str) -> (r: String)
    ensures
        r@ == stash_message_spec(repo@, declared@),
{
    let mut m = String::from_str("marshal/ws-restore: stashed before switching `");
    m.append(repo);
    m.append("` to `");
    m.append(declared);
    m.append("`");
    m
}

/// The report of a single-repo restore, from the states before and
/// after the switch.
pub fn single_output(
    root: &str,
    repo: &str,
    abs: String,
    declared: String,
    before: &RepoState,
    after: &RepoState,
    resolution: Resolution,
    obstacles: Vec<Obstacle>,
) -> (r: WsRestoreOutput)
    ensures
        r matches WsRestoreOutput::Single(o) && o.root@ == root@ && o.repo_name@ == repo@ && o.path@ == abs@
            && o.declared_branch@ == declared@
            && opt_view(o.from_branch) == opt_view(before.branch.name)
            && opt_view(o.from_commit) == opt_view(before.branch.oid)
            && o.to_branch@ == (match after.branch.name { Some(b) => b@, None => declared@ })
            && opt_view(o.to_commit) == opt_view(after.branch.oid)
            && o.stashed == (resolution == Resolution::Stash)
            && o.discarded == (resolution == Resolution::Discard)
            && o.obstacles@ == obstacles@ && o.explain_plan is None,
{
    let to_branch = match &after.branch.name {
        Some(b) => b.clone(),
        None => declared.clone(),
    };
    WsRestoreOutput::Single(WsRestoreSingleOutput {
        root: String::from_str(root),
        repo_name: String::from_str(repo),
        path: abs,
        declared_branch: declared,
        from_branch: crate::git::porcelain::copy_opt(&before.branch.name),
        from_commit: crate::git::porcelain::copy_opt(&before.branch.oid),
        to_branch,
        to_commit: crate::git::porcelain::copy_opt(&after.branch.oid),
        stashed: resolution == Resolution::Stash,
        discarded: resolution == Resolution::Discard,
        obstacles,
        explain_plan: None,
    })
}

// ── Every child ─────────────────────────────────────────────────────

pub open spec fn all_plan_spec(root: Seq<char>, auto_stash: bool, discard: bool) -> Seq<Seq<char>> {
    seq![
        "read `"@ + root + "/.workspace/manifest.toml` to enumerate declared children"@,
        "read `"@ + root + "/.workspace/state.toml` to compute each child's declared branch"@,
        "for every child on disk: git -C <child> status --porcelain=v2 --branch  (read working state for pre-flight)"@,
        "evaluate pre-flight obstacles per child; abort the entire op if any blocking obstacle remains given the requested flags (atomic refusal — no child mutated)"@,
        "skip-when-aligned: a child already on its declared branch is excluded from the blocker computation and contributes a `skipped: true` summary"@,
    ] + (if discard {
        seq!["for each affected child with a dirty tree: git -C <child> reset --hard  +  git -C <child> clean -fd  (--discard-changes)"@]
    } else if auto_stash {
        seq!["for each affected child with a dirty tree: git -C <child> stash push --include-untracked -m \"marshal/ws-restore: …\"  (--auto-stash)"@]
    } else {
        Seq::empty()
    }) + seq!["for every affected child, in parallel: git -C <child> switch <declared-branch>"@]
}

/// The `--explain` answer of `ws restore --all`.
pub fn all_explained(root: &str, workspace_name: &str, auto_stash: bool, discard: bool) -> (r: WsRestoreOutput)
    ensures
        r matches WsRestoreOutput::All(o) && o.root@ == root@ && o.workspace_name@ == workspace_name@
            && o.children@.len() == 0
            && (o.explain_plan matches Some(p) && views(p@) == all_plan_spec(root@, auto_stash, discard)),
{
    let mut a = String::from_str("read `");
    a.append(root);
    a.append("/.workspace/manifest.toml` to enumerate declared children");
    let mut b = String::from_str("read `");
    b.append(root);
    b.append("/.workspace/state.toml` to compute each child's declared branch");
    let c = String::from_str("for every child on disk: git -C <child> status --porcelain=v2 --branch  (read working state for pre-flight)");
    let d = String::from_str("evaluate pre-flight obstacles per child; abort the entire op if any blocking obstacle remains given the requested flags (atomic refusal — no child mutated)");
    let e = String::from_str("skip-when-aligned: a child already on its declared branch is excluded from the blocker computation and contributes a `skipped: true` summary");
    let mut plan = vec![a, b, c, d, e];
    if discard {
        plan.push(String::from_str("for each affected child with a dirty tree: git -C <child> reset --hard  +  git -C <child> clean -fd  (--discard-changes)"));
    } else if auto_stash {
        plan.push(String::from_str("for each affected child with a dirty tree: git -C <child> stash push --include-untracked -m \"marshal/ws-restore: …\"  (--auto-stash)"));
    }
    plan.push(String::from_str("for every affected child, in parallel: git -C <child> switch <declared-branch>"));
    assert(views(plan@) =~= all_plan_spec(root@, auto_stash, discard));
    WsRestoreOutput::All(WsRestoreAllOutput {
        root: String::from_str(root),
        workspace_name: String::from_str(workspace_name),
        children: Vec::new(),
        explain_plan: Some(plan),
    })
}

/// A declared child, where it lives and the branch it should be on.
pub struct ChildPlan {
    pub name: String,
    pub path: String,
    pub declared_branch: String,
}

pub open spec fn child_plan_is(c: ChildPlan, root: Seq<char>, repo: RepoEntry, state: Option<crate::workspace::state::Decl>, default_branch: Seq<char>) -> bool {
    c.name@ == repo.name@ && c.path@ == path_join(root, repo_rel_path(repo))
        && c.declared_branch@ == declared_branch_spec(state, default_branch, repo.name@)
}

/// One plan per declared child, in manifest order.
pub fn all_children(root: &str, manifest: &Manifest, state: Option<&StateDeclaration>) -> (r: Vec<ChildPlan>)
    ensures
        r@.len() == manifest.repos@.len(),
        forall|i: int| 0 <= i < r@.len() ==> child_plan_is(#[trigger] r@[i], root@, manifest.repos@[i],
            match state { Some(s) => Some(s.repos@), None => None }, manifest.workspace.default_branch@),
{
    let mut r: Vec<ChildPlan> = Vec::new();
    let mut i: usize = 0;
    while i < manifest.repos.len()
        invariant
            i <= manifest.repos.len(),
            r@.len() == i,
            forall|k: int| 0 <= k < i ==> child_plan_is(#[trigger] r@[k], root@, manifest.repos@[k],
                match state { Some(s) => Some(s.repos@), None => None }, manifest.workspace.default_branch@),
        decreases manifest.repos.len() - i,
    {
        let repo = &manifest.repos[i];
        let declared = declared_branch(state, manifest.workspace.default_branch.as_str(), repo.name.as_str());
        r.push(ChildPlan { name: repo.name.clone(), path: child_repo_path(root, repo), declared_branch: declared });
        i += 1;
    }
    r
}

/// A child after pre-flight reading.
pub enum ChildPreflight {
    /// Its directory does not exist.
    Missing,
    /// Already on its declared branch.
    Aligned { state: RepoState },
    /// On another branch: to be switched.
    NeedsRestore { state: RepoState },
}

/// Whether the child is missing, aligned, or to be switched, from what
/// reading its directory gave (`None` when it does not exist).
pub fn classify(plan: &ChildPlan, state: Option<RepoState>) -> (r: ChildPreflight)
    ensures
        match state {
            None => r is Missing,
            Some(st) => if opt_view(st.branch.name) == Some(plan.declared_branch@) {
                r matches ChildPreflight::Aligned { state } && state == st
            } else {
                r matches ChildPreflight::NeedsRestore { state } && state == st
            },
        },
{
    match state {
        None => ChildPreflight::Missing,
        Some(st) => {
            let aligned = match &st.branch.name {
                Some(b) => str_eq(b.as_str(), plan.declared_branch.as_str()),
                None => false,
            };
            if aligned {
                ChildPreflight::Aligned { state: st }
            } else {
                ChildPreflight::NeedsRestore { state: st }
            }
        },
    }
}

/// Per child to be switched that has any obstacle: its name and the
/// obstacles, in manifest order.
pub open spec fn obstacle_report_spec(children: Seq<(ChildPlan, ChildPreflight)>) -> Seq<(Seq<char>, Seq<Obstacle>)>
    decreases children.len(),
{
    if children.len() == 0 {
        Seq::empty()
    } else {
        obstacle_report_spec(children.drop_last()) + match children.last().1 {
            ChildPreflight::NeedsRestore { state } => if obstacles_of(state).len() > 0 {
                seq![(children.last().0.name@, obstacles_of(state))]
            } else {
                Seq::empty()
            },
            _ => Seq::empty(),
        }
    }
}

pub fn obstacle_report(children: &Vec<(ChildPlan, ChildPreflight)>) -> (r: Vec<(String, Vec<Obstacle>)>)
    ensures
        report_view(r@) == obstacle_report_spec(children@),
{
    let mut r: Vec<(String, Vec<Obstacle>)> = Vec::new();
    let mut i: usize = 0;
    while i < children.len()
        invariant
            i <= children.len(),
            report_view(r@) == obstacle_report_spec(children@.take(i as int)),
        decreases children.len() - i,
    {
        assert(children@.take(i + 1).drop_last() =~= children@.take(i as int));
        let (plan, pre) = &children[i];
        match pre {
            ChildPreflight::NeedsRestore { state } => {
                let obs = obstacles(state);
                if obs.len() > 0 {
                    let ghost rb = r@;
                    r.push((plan.name.clone(), obs));
                    assert(report_view(r@) =~= report_view(rb).push((plan.name@, obstacles_of(*state))));
                }
            },
            _ => {},
        }
        i += 1;
        assert(report_view(r@) =~= obstacle_report_spec(children@.take(i as int)));
    }
    assert(children@.take(i as int) =~= children@);
    r
}

pub open spec fn hard_help_all() -> Seq<char> {
    "Hard blockers must be resolved manually before restoring:\n  - For an in-progress op: complete it (`git rebase --continue` / etc) or abort it.\n  - For unresolved conflicts: edit the conflicted files, then `git add` + complete the operation.\n  - For an empty repo: make a first commit before restoring.\n"@
}

pub open spec fn soft_help_all() -> Seq<char> {
    "For uncommitted local changes, choose one (the flag applies to every affected child uniformly):\n  - `ws restore --all --auto-stash`     stashes everywhere (recoverable via `git stash pop` per child).\n  - `ws restore --all --discard-changes` resets and cleans every affected child (destructive — opt-in).\n  - Or commit/stash by hand inside each affected child first.\n"@
}

/// The refusal of `ws restore --all`: a section per blocked child,
/// then help for the hard and for the remaining soft obstacles.
pub open spec fn all_blocking_error_spec(report: Seq<(Seq<char>, Seq<Obstacle>)>, auto_stash: bool, discard: bool) -> Seq<char> {
    let h = report_any(report, auto_stash, discard, true);
    let s = report_any(report, auto_stash, discard, false);
    "ws restore: cannot restore — pre-flight detected obstacles in one or more children.\n"@
        + child_sections(report, auto_stash, discard) + "\n"@
        + (if h { hard_help_all() } else { Seq::empty() })
        + (if s { (if h { "\n"@ } else { Seq::empty() }) + soft_help_all() } else { Seq::empty() })
}

/// Atomic pre-flight of `--all`: nothing, or the refusal naming every
/// blocked child.
pub fn all_preflight(report: &Vec<(String, Vec<Obstacle>)>, auto_stash: bool, discard: bool) -> (r: Result<(), String>)
    ensures
        (report_any(report_view(report@), auto_stash, discard, true)
            || report_any(report_view(report@), auto_stash, discard, false)) ==> (r matches Err(e)
            && e@ == all_blocking_error_spec(report_view(report@), auto_stash, discard)),
        !(report_any(report_view(report@), auto_stash, discard, true)
            || report_any(report_view(report@), auto_stash, discard, false)) ==> r is Ok,
{
    let h = report_has_kind(report, auto_stash, discard, true);
    let s = report_has_kind(report, auto_stash, discard, false);
    if !h && !s {
        return Ok(());
    }
    let mut m = String::from_str("ws restore: cannot restore — pre-flight detected obstacles in one or more children.\n");
    child_sections_exec(&mut m, report, auto_stash, discard);
    m.append("\n");
    if h {
        m.append("Hard blockers must be resolved manually before restoring:\n  - For an in-progress op: complete it (`git rebase --continue` / etc) or abort it.\n  - For unresolved conflicts: edit the conflicted files, then `git add` + complete the operation.\n  - For an empty repo: make a first commit before restoring.\n");
    }
    if s {
        if h {
            m.append("\n");
        }
        m.append("For uncommitted local changes, choose one (the flag applies to every affected child uniformly):\n  - `ws restore --all --auto-stash`     stashes everywhere (recoverable via `git stash pop` per child).\n  - `ws restore --all --discard-changes` resets and cleans every affected child (destructive — opt-in).\n  - Or commit/stash by hand inside each affected child first.\n");
    }
    Err(m)
}

/// The resolution step for a child about to be switched.
pub fn child_resolution(state: &RepoState, auto_stash: bool, discard: bool) -> (r: Resolution)
    ensures
        r == resolution_spec(obstacles_of(*state), auto_stash, discard),
{
    let obs = obstacles(state);
    resolution(&obs, auto_stash, discard)
}

pub open spec fn child_stash_message_spec(name: Seq<char>, declared: Seq<char>) -> Seq<char> {
    "marshal/ws-restore: stashed before restoring `"@ + name + "` to `"@ + declared + "`"@
}

pub fn child_stash_message(plan: &ChildPlan) -> (r: String)
    ensures
        r@ == child_stash_message_spec(plan.name@, plan.declared_branch@),
{
    let mut m = String::from_str("marshal/ws-restore: stashed before restoring `");
    m.append(plan.name.as_str());
    m.append("` to `");
    m.append(plan.declared_branch.as_str());
    m.append("`");
    m
}

/// The summary of one child once it has been handled.
pub fn child_summary(plan: &ChildPlan, pre: &ChildPreflight, resolution: Resolution) -> (r: ChildRestoreSummary)
    ensures
        r.name@ == plan.name@,
        r.path@ == plan.path@,
        r.declared_branch@ == plan.declared_branch@,
        r.to_branch@ == plan.declared_branch@,
        match *pre {
            ChildPreflight::Missing => r.from_branch is None && !r.skipped && r.missing_from_disk && !r.stashed && !r.discarded,
            ChildPreflight::Aligned { state } => opt_view(r.from_branch) == opt_view(state.branch.name) && r.skipped
                && !r.missing_from_disk && !r.stashed && !r.discarded,
            ChildPreflight::NeedsRestore { state } => opt_view(r.from_branch) == opt_view(state.branch.name)
                && !r.skipped && !r.missing_from_disk && r.stashed == (resolution == Resolution::Stash)
                && r.discarded == (resolution == Resolution::Discard),
        },
{
    let (from_branch, skipped, missing, stashed, discarded) = match pre {
        ChildPreflight::Missing => (None, false, true, false, false),
        ChildPreflight::Aligned { state } => (crate::git::porcelain::copy_opt(&state.branch.name), true, false, false, false),
        ChildPreflight::NeedsRestore { state } => (crate::git::porcelain::copy_opt(&state.branch.name), false, false,
            resolution == Resolution::Stash, resolution == Resolution::Discard),
    };
    ChildRestoreSummary {
        name: plan.name.clone(),
        path: plan.path.clone(),
        declared_branch: plan.declared_branch.clone(),
        from_branch,
        to_branch: plan.declared_branch.clone(),
        skipped,
        missing_from_disk: missing,
        stashed,
        discarded,
    }
}

// ── Output ──────────────────────────────────────────────────────────

pub enum WsRestoreOutput {
    Single(WsRestoreSingleOutput),
    All(WsRestoreAllOutput),
}

pub struct WsRestoreSingleOutput {
    pub root: String,
    pub repo_name: String,
    pub path: String,
    pub declared_branch: String,
    pub from_branch: Option<String>,
    pub from_commit: Option<String>,
    /// The branch after the switch; empty under `--explain`.
    pub to_branch: String,
    pub to_commit: Option<String>,
    pub stashed: bool,
    pub discarded: bool,
    /// Every obstacle pre-flight found, blocking or not.
    pub obstacles: Vec<Obstacle>,
    pub explain_plan: Option<Vec<String>>,
}

pub struct WsRestoreAllOutput {
    pub root: String,
    pub workspace_name: String,
    pub children: Vec<ChildRestoreSummary>,
    pub explain_plan: Option<Vec<String>>,
}

pub struct ChildRestoreSummary {
    pub name: String,
    pub path: String,
    pub declared_branch: String,
    pub from_branch: Option<String>,
    pub to_branch: String,
    pub skipped: bool,
    pub missing_from_disk: bool,
    pub stashed: bool,
    pub discarded: bool,
}

pub open spec fn from_label(b: Option<String>) -> Seq<char> {
    match b {
        Some(x) => "`"@ + x@ + "`"@,
        None => "(no branch)"@,
    }
}

pub open spec fn after_lines(stashed: bool, discarded: bool, path: Seq<char>) -> Seq<Seq<char>> {
    (if stashed { seq!["  Local changes were stashed. Run `cd "@ + path + " && git stash pop` to recover."@] } else { Seq::empty() })
    + (if discarded { seq!["  Local changes were discarded (--discard-changes)."@] } else { Seq::empty() })
}

pub open spec fn single_lines(s: WsRestoreSingleOutput) -> Seq<Seq<char>> {
    seq![if opt_view(s.from_branch) == Some(s.to_branch@) {
        "`"@ + s.repo_name@ + "` already on declared branch `"@ + s.to_branch@ + "` — nothing to do."@
    } else {
        "Restored `"@ + s.repo_name@ + "`: "@ + from_label(s.from_branch) + " → `"@ + s.to_branch@ + "`."@
    }] + after_lines(s.stashed, s.discarded, s.path@)
}

pub open spec fn restored_lines(c: ChildRestoreSummary) -> Seq<Seq<char>> {
    seq!["Restored `"@ + c.name@ + "`: "@ + from_label(c.from_branch) + " → `"@ + c.to_branch@ + "`."@]
        + after_lines(c.stashed, c.discarded, c.path@)
}

/// Lines for the children that pass `keep`, in order, `f` lines each.
pub open spec fn restored_block(cs: Seq<ChildRestoreSummary>) -> Seq<Seq<char>>
    decreases cs.len(),
{
    if cs.len() == 0 {
        Seq::empty()
    } else {
        restored_block(cs.drop_last()) + if !cs.last().skipped && !cs.last().missing_from_disk {
            restored_lines(cs.last())
        } else {
            Seq::empty()
        }
    }
}

pub open spec fn skipped_block(cs: Seq<ChildRestoreSummary>) -> Seq<Seq<char>>
    decreases cs.len(),
{
    if cs.len() == 0 {
        Seq::empty()
    } else {
        skipped_block(cs.drop_last()) + if cs.last().skipped {
            seq!["`"@ + cs.last().name@ + "` already on declared branch `"@ + cs.last().to_branch@ + "` — skipped."@]
        } else {
            Seq::empty()
        }
    }
}

pub open spec fn missing_of(cs: Seq<ChildRestoreSummary>) -> Seq<ChildRestoreSummary>
    decreases cs.len(),
{
    if cs.len() == 0 {
        Seq::empty()
    } else if cs.last().missing_from_disk {
        missing_of(cs.drop_last()).push(cs.last())
    } else {
        missing_of(cs.drop_last())
    }
}

pub open spec fn any_restored(cs: Seq<ChildRestoreSummary>) -> bool {
    exists|i: int| 0 <= i < cs.len() && !(#[trigger] cs[i]).skipped && !cs[i].missing_from_disk
}

pub open spec fn any_skipped(cs: Seq<ChildRestoreSummary>) -> bool {
    exists|i: int| 0 <= i < cs.len() && (#[trigger] cs[i]).skipped
}

pub open spec fn all_lines(a: WsRestoreAllOutput) -> Seq<Seq<char>> {
    let cs = a.children@;
    let ms = missing_of(cs);
    if !any_restored(cs) && !any_skipped(cs) && ms.len() == 0 {
        seq!["Workspace `"@ + a.workspace_name@ + "` has no declared children to restore."@]
    } else {
        restored_block(cs) + skipped_block(cs) + if ms.len() > 0 {
            seq![Seq::<char>::empty(), "Note: "@ + decimal_of(ms.len()) + " declared "@
                + (if ms.len() == 1 { "child"@ } else { "children"@ }) + " missing on disk:"@]
            + ms.map_values(|c: ChildRestoreSummary| "  - `"@ + c.name@ + "` (expected at "@ + c.path@ + ")"@)
            + seq!["Run `ws clone` to populate them, or remove them from the manifest."@]
        } else {
            Seq::empty()
        }
    }
}

fn push_all(v: &mut Vec<String>, w: Vec<String>)
    ensures
        views(final(v)@) == views(old(v)@) + views(w@),
{
    let ghost start = views(v@);
    let mut i: usize = 0;
    while i < w.len()
        invariant
            i <= w.len(),
            views(v@) == start + views(w@).take(i as int),
        decreases w.len() - i,
    {
        let ghost vb = v@;
        v.push(w[i].clone());
        assert(views(v@) =~= views(vb).push(w@[i as int]@));
        i += 1;
        assert(views(v@) =~= start + views(w@).take(i as int));
    }
    assert(views(w@).take(i as int) =~= views(w@));
}

fn after_lines_exec(stashed: bool, discarded: bool, path: &str) -> (r: Vec<String>)
    ensures
        views(r@) == after_lines(stashed, discarded, path@),
{
    let mut r: Vec<String> = Vec::new();
    if stashed {
        let mut l = String::from_str("  Local changes were stashed. Run `cd ");
        l.append(path);
        l.append(" && git stash pop` to recover.");
        r.push(l);
    }
    let ghost mid = views(r@);
    if discarded {
        r.push(String::from_str("  Local changes were discarded (--discard-changes)."));
    }
    assert(views(r@) =~= after_lines(stashed, discarded, path@));
    r
}

fn from_label_exec(b: &Option<String>) -> (r: String)
    ensures
        r@ == from_label(*b),
{
    match b {
        Some(x) => {
            let mut l = String::from_str("`");
            l.append(x.as_str());
            l.append("`");
            l
        },
        None => String::from_str("(no branch)"),
    }
}

fn opt_is(o: &Option<String>, s: &str) -> (r: bool)
    ensures
        r == (opt_view(*o) == Some(s@)),
{
    match o {
        Some(x) => str_eq(x.as_str(), s),
        None => false,
    }
}

pub fn render_single(s: &WsRestoreSingleOutput) -> (r: String)
    ensures
        r@ == match s.explain_plan {
            Some(plan) => lines_text(plan_lines("ws restore"@, views(plan@))),
            None => lines_text(single_lines(*s)),
        },
{
    if let Some(plan) = &s.explain_plan {
        return render_explain_plan("ws restore", plan);
    }
    let first = if opt_is(&s.from_branch, s.to_branch.as_str()) {
        let mut l = String::from_str("`");
        l.append(s.repo_name.as_str());
        l.append("` already on declared branch `");
        l.append(s.to_branch.as_str());
        l.append("` — nothing to do.");
        l
    } else {
        let mut l = String::from_str("Restored `");
        l.append(s.repo_name.as_str());
        l.append("`: ");
        l.append(from_label_exec(&s.from_branch).as_str());
        l.append(" → `");
        l.append(s.to_branch.as_str());
        l.append("`.");
        l
    };
    let mut lines = vec![first];
    push_all(&mut lines, after_lines_exec(s.stashed, s.discarded, s.path.as_str()));
    assert(views(lines@) =~= single_lines(*s));
    concat_lines(&lines)
}

pub fn render_all(a: &WsRestoreAllOutput) -> (r: String)
    ensures
        r@ == match a.explain_plan {
            Some(plan) => lines_text(plan_lines("ws restore --all"@, views(plan@))),
            None => lines_text(all_lines(*a)),
        },
{
    if let Some(plan) = &a.explain_plan {
        return render_explain_plan("ws restore --all", plan);
    }
    let ghost cs = a.children@;
    let mut restored: Vec<String> = Vec::new();
    let mut skipped: Vec<String> = Vec::new();
    let mut missing: Vec<String> = Vec::new();
    let mut any_r = false;
    let mut any_s = false;
    let mut n_missing: usize = 0;
    let mut i: usize = 0;
    while i < a.children.len()
        invariant
            i <= cs.len(),
            cs == a.children@,
            views(restored@) == restored_block(cs.take(i as int)),
            views(skipped@) == skipped_block(cs.take(i as int)),
            views(missing@) == missing_of(cs.take(i as int)).map_values(|c: ChildRestoreSummary|
                "  - `"@ + c.name@ + "` (expected at "@ + c.path@ + ")"@),
            n_missing == missing_of(cs.take(i as int)).len(),
            n_missing <= i,
            any_r == any_restored(cs.take(i as int)),
            any_s == any_skipped(cs.take(i as int)),
        decreases cs.len() - i,
    {
        let ghost pre = cs.take(i as int);
        let ghost post = cs.take(i + 1);
        assert(post.drop_last() =~= pre);
        let c = &a.children[i];
        assert(post.last() == *c);
        if !c.skipped && !c.missing_from_disk {
            let mut first = String::from_str("Restored `");
            first.append(c.name.as_str());
            first.append("`: ");
            first.append(from_label_exec(&c.from_branch).as_str());
            first.append(" → `");
            first.append(c.to_branch.as_str());
            first.append("`.");
            let ghost rb = views(restored@);
            restored.push(first);
            push_all(&mut restored, after_lines_exec(c.stashed, c.discarded, c.path.as_str()));
            assert(views(restored@) =~= rb + restored_lines(*c));
            any_r = true;
        }
        if c.skipped {
            let mut l = String::from_str("`");
            l.append(c.name.as_str());
            l.append("` already on declared branch `");
            l.append(c.to_branch.as_str());
            l.append("` — skipped.");
            let ghost sb = views(skipped@);
            skipped.push(l);
            assert(views(skipped@) =~= sb.push(l@));
            any_s = true;
        }
        if c.missing_from_disk {
            let mut l = String::from_str("  - `");
            l.append(c.name.as_str());
            l.append("` (expected at ");
            l.append(c.path.as_str());
            l.append(")");
            let ghost mb = views(missing@);
            missing.push(l);
            assert(views(missing@) =~= mb.push(l@));
            n_missing = n_missing + 1;
        }
        proof {
            assert(any_r == any_restored(post)) by {
                if any_restored(post) && !(!c.skipped && !c.missing_from_disk) {
                    let k = choose|k: int| 0 <= k < post.len() && !(#[trigger] post[k]).skipped && !post[k].missing_from_disk;
                    assert(k < pre.len());
                    assert(pre[k] == post[k]);
                }
                if any_restored(pre) {
                    let k = choose|k: int| 0 <= k < pre.len() && !(#[trigger] pre[k]).skipped && !pre[k].missing_from_disk;
                    assert(post[k] == pre[k]);
                }
                if !c.skipped && !c.missing_from_disk {
                    assert(!post[i as int].skipped && !post[i as int].missing_from_disk);
                }
            }
            assert(any_s == any_skipped(post)) by {
                if any_skipped(post) && !c.skipped {
                    let k = choose|k: int| 0 <= k < post.len() && (#[trigger] post[k]).skipped;
                    assert(k < pre.len());
                    assert(pre[k] == post[k]);
                }
                if any_skipped(pre) {
                    let k = choose|k: int| 0 <= k < pre.len() && (#[trigger] pre[k]).skipped;
                    assert(post[k] == pre[k]);
                }
                if c.skipped {
                    assert(post[i as int].skipped);
                }
            }
        }
        i += 1;
    }
    assert(cs.take(i as int) =~= cs);
    let mut lines: Vec<String> = Vec::new();
    if !any_r && !any_s && n_missing == 0 {
        let mut l = String::from_str("Workspace `");
        l.append(a.workspace_name.as_str());
        l.append("` has no declared children to restore.");
        lines.push(l);
        assert(views(lines@) =~= all_lines(*a));
        return concat_lines(&lines);
    }
    push_all(&mut lines, restored);
    push_all(&mut lines, skipped);
    if n_missing > 0 {
        let ghost lb = views(lines@);
        lines.push(String::new());
        let mut l = String::from_str("Note: ");
        l.append(decimal(n_missing).as_str());
        l.append(" declared ");
        l.append(if n_missing == 1 { "child" } else { "children" });
        l.append(" missing on disk:");
        lines.push(l);
        assert(views(lines@) =~= lb + seq![Seq::<char>::empty(), l@]);
        let ghost before_missing = views(lines@);
        let ghost mv = views(missing@);
        push_all(&mut lines, missing);
        assert(views(lines@) == before_missing + mv);
        let ghost lc = views(lines@);
        lines.push(String::from_str("Run `ws clone` to populate them, or remove them from the manifest."));
        assert(views(lines@) =~= lc.push("Run `ws clone` to populate them, or remove them from the manifest."@));
        assert(views(lines@) =~= lb + seq![Seq::<char>::empty(), l@]
            + missing_of(cs).map_values(|c: ChildRestoreSummary| "  - `"@ + c.name@ + "` (expected at "@ + c.path@ + ")"@)
            + seq!["Run `ws clone` to populate them, or remove them from the manifest."@]);
    }
    assert(views(lines@) =~= all_lines(*a));
    concat_lines(&lines)
}

impl Renderable for WsRestoreOutput {
    open spec fn rendered(&self) -> Seq<char> {
        match self {
            WsRestoreOutput::Single(s) => match s.explain_plan {
                Some(plan) => lines_text(plan_lines("ws restore"@, views(plan@))),
                None => lines_text(single_lines(*s)),
            },
            WsRestoreOutput::All(a) => match a.explain_plan {
                Some(plan) => lines_text(plan_lines("ws restore --all"@, views(plan@))),
                None => lines_text(all_lines(*a)),
            },
        }
    }

    fn render_human(&self) -> (r: String) {
        match self {
            WsRestoreOutput::Single(s) => render_single(s),
            WsRestoreOutput::All(a) => render_all(a),
        }
    }
}

// ── The actions of a restore ────────────────────────────────────────

/// A single-repo restore once pre-flight passed: the resolution's
/// steps, then `git switch` to the declared branch.
pub open spec fn single_actions_spec(abs: Seq<char>, repo: Seq<char>, declared: Seq<char>, resolution: Resolution)
    -> Seq<(Seq<char>, Seq<Seq<char>>, Seq<char>)>
{
    in_dir(abs, resolution_steps_spec(resolution, stash_message_spec(repo, declared))).push(switch_in(abs, declared))
}

pub fn single_actions(abs: &str, repo: &str, declared: &str, resolution: Resolution) -> (r: Vec<GitAction>)
    ensures
        actions_view(r@) == single_actions_spec(abs@, repo@, declared@, resolution),
{
    let mut out: Vec<GitAction> = Vec::new();
    push_resolution(&mut out, abs, resolution, stash_message(repo, declared).as_str());
    let ghost mid = actions_view(out@);
    out.push(switch_action(abs, declared));
    assert(actions_view(out@) =~= mid.push(switch_in(abs@, declared@)));
    out
}

/// One child of `ws restore --all`: nothing unless it needs restoring;
/// then its resolution's steps and the switch to its declared branch.
pub open spec fn child_actions_spec(plan: ChildPlan, pre: ChildPreflight, auto_stash: bool, discard: bool)
    -> Seq<(Seq<char>, Seq<Seq<char>>, Seq<char>)>
{
    match pre {
        ChildPreflight::NeedsRestore { state } =>
            in_dir(plan.path@, resolution_steps_spec(resolution_spec(obstacles_of(state), auto_stash, discard),
                child_stash_message_spec(plan.name@, plan.declared_branch@)))
                .push(switch_in(plan.path@, plan.declared_branch@)),
        _ => Seq::empty(),
    }
}

pub fn child_actions(plan: &ChildPlan, pre: &ChildPreflight, auto_stash: bool, discard: bool) -> (r: Vec<GitAction>)
    ensures
        actions_view(r@) == child_actions_spec(*plan, *pre, auto_stash, discard),
{
    let mut out: Vec<GitAction> = Vec::new();
    match pre {
        ChildPreflight::NeedsRestore { state } => {
            push_resolution(&mut out, plan.path.as_str(), child_resolution(state, auto_stash, discard),
                child_stash_message(plan).as_str());
            let ghost mid = actions_view(out@);
            out.push(switch_action(plan.path.as_str(), plan.declared_branch.as_str()));
            assert(actions_view(out@) =~= mid.push(switch_in(plan.path@, plan.declared_branch@)));
        },
        _ => {
            assert(actions_view(out@) =~= Seq::<(Seq<char>, Seq<Seq<char>>, Seq<char>)>::empty());
        },
    }
    out
}

} // verus!
