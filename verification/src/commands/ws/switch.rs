//! `ws switch [-c] <name>` — move the workspace repo to another
//! workspace branch, then move every child (or only the one named by
//! `--on`) to the branch that branch's state declaration gives it.
//! The workspace repo and every child that would move are checked
//! first; one blocking obstacle anywhere stops the switch before
//! anything moves.
use vstd::prelude::*;
use vstd::string::StringExecFns;
use crate::cli::Renderable;
use crate::commands::ws::obstacles::{child_sections, child_sections_exec, marker_lines, marker_text, report_any,
    report_has_kind, report_view, resolution, resolution_spec, resolution_steps_spec, Resolution};
use crate::commands::ws::actions::{actions_view, branch_action, branch_in, in_dir, push_resolution, switch_action,
    switch_in, GitAction};
use crate::commands::ws::{column_line, column_line_exec, declared_branch, declared_branch_spec, plan_lines,
    render_explain_plan, unknown_repo_msg};
use crate::git::porcelain::RepoState;
use crate::text::{concat_lines, contains_seq, contains_str, decimal, decimal_of, lines_text, max_byte_width, max_width, opt_view, path_join,
    starts_with, starts_with_spec, str_eq, views};
use crate::workspace::manifest::{known_list_spec, repo_names, repo_rel_path, child_repo_path, Manifest, RepoEntry};
use crate::workspace::preflight::{any_hard, any_soft, blocking_obstacles, blocking_spec, is_hard, obstacles,
    obstacles_of, Obstacle};
use crate::workspace::scope::in_scope_spec;
use crate::workspace::state::StateDeclaration;

verus! {

/// `git ws switch`: `on` narrows the children moved to one.
pub struct WsSwitch {
    pub on: Option<String>,
    pub explain: bool,
}

// ── Arguments ───────────────────────────────────────────────────────

#[derive(Debug)]
pub struct ParsedArgs {
    pub target: String,
    pub create: bool,
    pub auto_stash: bool,
    pub discard: bool,
}

pub type SwitchScan = (Option<Seq<char>>, bool, bool, bool);

pub open spec fn scan(args: Seq<Seq<char>>) -> Result<SwitchScan, Seq<char>>
    decreases args.len(),
{
    if args.len() == 0 {
        Ok((None, false, false, false))
    } else {
        match scan(args.drop_last()) {
            Err(e) => Err(e),
            Ok((target, create, auto_stash, discard)) => {
                let s = args.last();
                if s == "--auto-stash"@ {
                    if auto_stash {
                        Err("ws switch: '--auto-stash' specified more than once"@)
                    } else {
                        Ok((target, create, true, discard))
                    }
                } else if s == "--discard-changes"@ {
                    if discard {
                        Err("ws switch: '--discard-changes' specified more than once"@)
                    } else {
                        Ok((target, create, auto_stash, true))
                    }
                } else if s == "-c"@ || s == "--create"@ {
                    if create {
                        Err("ws switch: '"@ + s + "' specified more than once"@)
                    } else {
                        Ok((target, true, auto_stash, discard))
                    }
                } else if starts_with_spec(s, "--"@) || starts_with_spec(s, "-"@) {
                    Err("ws switch: unexpected flag '"@ + s
                        + "'. Expected: `ws switch [-c] <name> [--auto-stash | --discard-changes]`."@)
                } else if target is None {
                    Ok((Some(s), create, auto_stash, discard))
                } else {
                    Err("ws switch: too many positional arguments. Switch one branch per invocation: `ws switch <name>`."@)
                }
            },
        }
    }
}

/// One branch name, `-c`/`--create` at most once, at most one of the
/// two resolution flags.
pub open spec fn parse_args_spec(args: Seq<Seq<char>>) -> Result<SwitchScan, Seq<char>> {
    match scan(args) {
        Err(e) => Err(e),
        Ok((_, _, true, true)) => Err("ws switch: '--auto-stash' and '--discard-changes' are mutually exclusive. Pick one — preserve work or destroy it."@),
        Ok((None, _, _, _)) => Err("ws switch: missing required <name> argument. Usage: `ws switch [-c] <name> [--auto-stash | --discard-changes]`."@),
        Ok(st) => Ok(st),
    }
}

proof fn lemma_scan_stops(args: Seq<Seq<char>>, k: int)
    requires
        0 <= k <= args.len(),
        scan(args.take(k)) is Err,
    ensures
        scan(args) == scan(args.take(k)),
    decreases args.len() - k,
{
    if k < args.len() {
        assert(args.take(k + 1).drop_last() =~= args.take(k));
        lemma_scan_stops(args, k + 1);
    } else {
        assert(args.take(k) =~= args);
    }
}

pub open spec fn opt_seq(o: Option<String>) -> Option<Seq<char>> {
    match o {
        Some(s) => Some(s@),
        None => None,
    }
}

pub fn parse_args(args: &Vec<String>) -> (r: Result<ParsedArgs, String>)
    ensures
        match (r, parse_args_spec(views(args@))) {
            (Ok(p), Ok(st)) => Some(p.target@) == st.0 && p.create == st.1 && p.auto_stash == st.2 && p.discard == st.3,
            (Err(a), Err(b)) => a@ == b,
            _ => false,
        },
{
    let ghost vs = views(args@);
    let mut target: Option<String> = None;
    let mut create = false;
    let mut auto_stash = false;
    let mut discard = false;
    let mut i: usize = 0;
    while i < args.len()
        invariant
            i <= args.len(),
            vs == views(args@),
            scan(vs.take(i as int)) == Ok::<SwitchScan, Seq<char>>((opt_seq(target), create, auto_stash, discard)),
        decreases args.len() - i,
    {
        assert(vs.take(i + 1).drop_last() =~= vs.take(i as int));
        let s = args[i].as_str();
        assert(vs.take(i + 1).last() == s@);
        proof {
            reveal_strlit("--auto-stash");
            reveal_strlit("--discard-changes");
            reveal_strlit("-c");
            reveal_strlit("--create");
        }
        if str_eq(s, "--auto-stash") {
            if auto_stash {
                proof { lemma_scan_stops(vs, i + 1); }
                return Err(String::from_str("ws switch: '--auto-stash' specified more than once"));
            }
            auto_stash = true;
        } else if str_eq(s, "--discard-changes") {
            if discard {
                proof { lemma_scan_stops(vs, i + 1); }
                return Err(String::from_str("ws switch: '--discard-changes' specified more than once"));
            }
            discard = true;
        } else if str_eq(s, "-c") || str_eq(s, "--create") {
            if create {
                proof { lemma_scan_stops(vs, i + 1); }
                let mut m = String::from_str("ws switch: '");
                m.append(s);
                m.append("' specified more than once");
                return Err(m);
            }
            create = true;
        } else if starts_with(s, "--") || starts_with(s, "-") {
            proof { lemma_scan_stops(vs, i + 1); }
            let mut m = String::from_str("ws switch: unexpected flag '");
            m.append(s);
            m.append("'. Expected: `ws switch [-c] <name> [--auto-stash | --discard-changes]`.");
            return Err(m);
        } else if target.is_none() {
            target = Some(String::from_str(s));
        } else {
            proof { lemma_scan_stops(vs, i + 1); }
            return Err(String::from_str("ws switch: too many positional arguments. Switch one branch per invocation: `ws switch <name>`."));
        }
        i += 1;
    }
    assert(vs.take(i as int) =~= vs);
    if auto_stash && discard {
        return Err(String::from_str("ws switch: '--auto-stash' and '--discard-changes' are mutually exclusive. Pick one — preserve work or destroy it."));
    }
    match target {
        Some(t) => Ok(ParsedArgs { target: t, create, auto_stash, discard }),
        None => Err(String::from_str("ws switch: missing required <name> argument. Usage: `ws switch [-c] <name> [--auto-stash | --discard-changes]`.")),
    }
}

impl WsSwitch {
    /// Refuse an `--on` that names no declared repo.
    pub fn check_on(&self, manifest: &Manifest) -> (r: Result<(), String>)
        ensures
            match self.on {
                Some(o) => if repo_names(manifest.repos@).contains(o@) {
                    r is Ok
                } else {
                    r matches Err(e) && e@ == unknown_repo_msg("ws switch"@, "--on "@ + o@, manifest.repos@)
                },
                None => r is Ok,
            },
    {
        match &self.on {
            None => Ok(()),
            Some(o) => {
                let scope = crate::workspace::scope::resolve("ws switch", Some(o.as_str()), manifest, None,
                    crate::workspace::scope::ScopePolicy::FullWorkspace);
                match scope {
                    Ok(_) => Ok(()),
                    Err(e) => {
                        proof {
                            reveal_strlit(": '--on ");
                            reveal_strlit(": '");
                            reveal_strlit("--on ");
                        }
                        assert(e@ == "ws switch"@ + ": '--on "@ + o@ + "' does not match any repo declared in the manifest.\n  "@
                            + known_list_spec(manifest.repos@));
                        assert(e@ =~= unknown_repo_msg("ws switch"@, "--on "@ + o@, manifest.repos@));
                        Err(e)
                    },
                }
            },
        }
    }
}

// ── Plan ────────────────────────────────────────────────────────────

pub open spec fn switch_plan_spec(root: Seq<char>, target: Seq<char>, create: bool, auto_stash: bool, discard: bool, on: Option<Seq<char>>) -> Seq<Seq<char>> {
    seq![
        "git -C "@ + root + " show "@ + target
            + ":.workspace/state.toml  (read state.toml on the target branch — collapses to empty when the file does not exist there)"@,
        "compute per-child target branch (state.toml entry, falling back to manifest default)"@,
        "read porcelain status of the workspace-repo + each affected child (in-scope per --on)"@,
        "evaluate pre-flight obstacles uniformly; abort if any blocker remains given the flags"@,
    ] + (if discard {
        seq!["if any affected repo is dirty: git reset --hard + git clean -fd (--discard-changes)"@]
    } else if auto_stash {
        seq!["if any affected repo is dirty: git stash push --include-untracked (--auto-stash)"@]
    } else {
        Seq::empty()
    }) + (if create {
        seq!["git -C "@ + root + " branch "@ + target + "  (create the workspace branch from current HEAD)"@]
    } else {
        Seq::empty()
    }) + seq![
        "git -C "@ + root + " switch "@ + target,
        match on {
            Some(f) => "for the child matching --on `"@ + f + "` only: git -C <child> switch <declared-branch>"@,
            None => "for every affected declared child: git -C <child> switch <declared-branch>"@,
        },
    ]
}

pub fn build_explain_plan(root: &str, target: &str, create: bool, auto_stash: bool, discard: bool, on: Option<&str>) -> (r: Vec<String>)
    ensures
        views(r@) == switch_plan_spec(root@, target@, create, auto_stash, discard,
            match on { Some(f) => Some(f@), None => None }),
{
    let mut a = String::from_str("git -C ");
    a.append(root);
    a.append(" show ");
    a.append(target);
    a.append(":.workspace/state.toml  (read state.toml on the target branch — collapses to empty when the file does not exist there)");
    let b = String::from_str("compute per-child target branch (state.toml entry, falling back to manifest default)");
    let c = String::from_str("read porcelain status of the workspace-repo + each affected child (in-scope per --on)");
    let d = String::from_str("evaluate pre-flight obstacles uniformly; abort if any blocker remains given the flags");
    let mut plan = vec![a, b, c, d];
    let ghost p0 = views(plan@);
    if discard {
        plan.push(String::from_str("if any affected repo is dirty: git reset --hard + git clean -fd (--discard-changes)"));
    } else if auto_stash {
        plan.push(String::from_str("if any affected repo is dirty: git stash push --include-untracked (--auto-stash)"));
    }
    let ghost p1 = views(plan@);
    if create {
        let mut e = String::from_str("git -C ");
        e.append(root);
        e.append(" branch ");
        e.append(target);
        e.append("  (create the workspace branch from current HEAD)");
        plan.push(e);
    }
    let ghost p2 = views(plan@);
    let mut f = String::from_str("git -C ");
    f.append(root);
    f.append(" switch ");
    f.append(target);
    plan.push(f);
    let g = match on {
        Some(name) => {
            let mut g = String::from_str("for the child matching --on `");
            g.append(name);
            g.append("` only: git -C <child> switch <declared-branch>");
            g
        },
        None => String::from_str("for every affected declared child: git -C <child> switch <declared-branch>"),
    };
    plan.push(g);
    assert(views(plan@) =~= switch_plan_spec(root@, target@, create, auto_stash, discard,
        match on { Some(f) => Some(f@), None => None }));
    plan
}

/// The `--explain` answer of `ws switch`.
pub fn switch_explained(root: &str, workspace_name: &str, parsed: ParsedArgs, on: Option<&str>) -> (r: WsSwitchOutput)
    ensures
        r.root@ == root@,
        r.workspace_name@ == workspace_name@,
        r.target_branch@ == parsed.target@,
        r.workspace == default_summary(),
        r.children@.len() == 0,
        r.explain_plan matches Some(p) && views(p@) == switch_plan_spec(root@, parsed.target@, parsed.create,
            parsed.auto_stash, parsed.discard, match on { Some(f) => Some(f@), None => None }),
{
    let plan = build_explain_plan(root, parsed.target.as_str(), parsed.create, parsed.auto_stash, parsed.discard, on);
    WsSwitchOutput {
        root: String::from_str(root),
        workspace_name: String::from_str(workspace_name),
        target_branch: parsed.target,
        workspace: WorkspaceSwitchSummary::default(),
        children: Vec::new(),
        explain_plan: Some(plan),
    }
}

// ── Reading the target branch's declaration ─────────────────────────

/// What `str::to_lowercase` returns for a string.
pub uninterp spec fn lowercase_spec(s: Seq<char>) -> Seq<char>;

/// Trusted: calls `str::to_lowercase`. The result is only named, as a
/// function of the text: Unicode's lowercase mapping is table-driven and
/// nothing here states what it gives for a particular character.
#[verifier::external_body]
fn to_lowercase(s: &str) -> (r: String)
    ensures
        r@ == lowercase_spec(s@),
{
    s.to_lowercase()
}

/// Lower-cased `git show` stderr that says the path is absent on the
/// branch (rather than that the branch does not resolve).
pub open spec fn absent_file_wording(lowered: Seq<char>) -> bool {
    contains_seq(lowered, "does not exist in"@) || contains_seq(lowered, "did not match"@)
        || contains_seq(lowered, "does not match"@) || contains_seq(lowered, "exists on disk, but not in"@)
}

/// Whether lower-cased stderr of `git show` reports a missing path.
pub fn says_file_absent(lowered: &str) -> (r: bool)
    ensures
        r == absent_file_wording(lowered@),
{
    contains_str(lowered, "does not exist in") || contains_str(lowered, "did not match")
        || contains_str(lowered, "does not match") || contains_str(lowered, "exists on disk, but not in")
}

/// `git show <branch>:.workspace/state.toml` failed because the file is
/// absent on that branch (an empty declaration), not because the branch
/// does not resolve; judged from git's lower-cased stderr.
pub open spec fn state_file_absent_spec(stderr: Seq<char>) -> bool {
    absent_file_wording(lowercase_spec(stderr))
}

pub fn state_file_absent(stderr: &str) -> (r: bool)
    ensures
        r == state_file_absent_spec(stderr@),
{
    let l = to_lowercase(stderr);
    says_file_absent(l.as_str())
}

pub open spec fn state_read_failed_msg(target: Seq<char>) -> Seq<char> {
    "ws switch: failed to read state.toml on `"@ + target
        + "`. Verify the branch exists locally or in `origin` (run `git fetch` if you expect it to track a remote branch). To create a new workspace branch from here, use `ws switch -c "@
        + target + "`."@
}

pub fn state_read_failed(target: &str) -> (r: String)
    ensures
        r@ == state_read_failed_msg(target@),
{
    let mut m = String::from_str("ws switch: failed to read state.toml on `");
    m.append(target);
    m.append("`. Verify the branch exists locally or in `origin` (run `git fetch` if you expect it to track a remote branch). To create a new workspace branch from here, use `ws switch -c ");
    m.append(target);
    m.append("`.");
    m
}

// ── Children ────────────────────────────────────────────────────────

/// A child to materialise and the branch it should end on.
pub struct ChildPlan {
    pub name: String,
    pub path: String,
    pub target_branch: String,
}

pub open spec fn on_view(on: Option<String>) -> Option<Seq<char>> {
    match on {
        Some(o) => Some(o@),
        None => None,
    }
}

/// The children `--on` lets through, in manifest order.
pub open spec fn kept(repos: Seq<RepoEntry>, on: Option<Seq<char>>) -> Seq<RepoEntry>
    decreases repos.len(),
{
    if repos.len() == 0 {
        Seq::empty()
    } else if in_scope_spec(on, repos.last().name@) {
        kept(repos.drop_last(), on).push(repos.last())
    } else {
        kept(repos.drop_last(), on)
    }
}

pub open spec fn child_plan_is(c: ChildPlan, root: Seq<char>, repo: RepoEntry, target: crate::workspace::state::Decl, default_branch: Seq<char>) -> bool {
    c.name@ == repo.name@ && c.path@ == path_join(root, repo_rel_path(repo))
        && c.target_branch@ == declared_branch_spec(Some(target), default_branch, repo.name@)
}

/// Each kept child and the branch the target declaration gives it.
pub fn switch_children(root: &str, manifest: &Manifest, target: &StateDeclaration, on: &Option<String>) -> (r: Vec<ChildPlan>)
    ensures
        r@.len() == kept(manifest.repos@, on_view(*on)).len(),
        forall|i: int| 0 <= i < r@.len() ==> child_plan_is(#[trigger] r@[i], root@,
            kept(manifest.repos@, on_view(*on))[i], target.repos@, manifest.workspace.default_branch@),
{
    let ghost ov = on_view(*on);
    let mut r: Vec<ChildPlan> = Vec::new();
    let mut i: usize = 0;
    while i < manifest.repos.len()
        invariant
            i <= manifest.repos.len(),
            ov == on_view(*on),
            r@.len() == kept(manifest.repos@.take(i as int), ov).len(),
            forall|k: int| 0 <= k < r@.len() ==> child_plan_is(#[trigger] r@[k], root@,
                kept(manifest.repos@.take(i as int), ov)[k], target.repos@, manifest.workspace.default_branch@),
        decreases manifest.repos.len() - i,
    {
        assert(manifest.repos@.take(i + 1).drop_last() =~= manifest.repos@.take(i as int));
        let repo = &manifest.repos[i];
        if crate::workspace::scope::in_scope(on, repo.name.as_str()) {
            let tb = declared_branch(Some(target), manifest.workspace.default_branch.as_str(), repo.name.as_str());
            r.push(ChildPlan { name: repo.name.clone(), path: child_repo_path(root, repo), target_branch: tb });
        }
        i += 1;
    }
    assert(manifest.repos@.take(i as int) =~= manifest.repos@);
    r
}

pub open spec fn initial_workspace_msg(root: Seq<char>) -> Seq<char> {
    "ws switch: workspace-repo at "@ + root
        + " has no commits yet. There is nothing to switch from. Make a first commit and declare some state with `ws add` + `ws commit`, then re-run."@
}

pub fn initial_workspace(root: &str) -> (r: String)
    ensures
        r@ == initial_workspace_msg(root@),
{
    let mut m = String::from_str("ws switch: workspace-repo at ");
    m.append(root);
    m.append(" has no commits yet. There is nothing to switch from. Make a first commit and declare some state with `ws add` + `ws commit`, then re-run.");
    m
}

/// A child moves when it is on disk and not already on its target.
pub open spec fn needs_switch(c: ChildPlan, state: Option<RepoState>) -> bool {
    match state {
        Some(st) => opt_view(st.branch.name) != Some(c.target_branch@),
        None => false,
    }
}

/// Per child that moves and has any obstacle: its name and obstacles.
pub open spec fn child_report_spec(children: Seq<(ChildPlan, Option<RepoState>)>) -> Seq<(Seq<char>, Seq<Obstacle>)>
    decreases children.len(),
{
    if children.len() == 0 {
        Seq::empty()
    } else {
        child_report_spec(children.drop_last()) + match children.last().1 {
            Some(st) => if needs_switch(children.last().0, Some(st)) && obstacles_of(st).len() > 0 {
                seq![(children.last().0.name@, obstacles_of(st))]
            } else {
                Seq::empty()
            },
            None => Seq::empty(),
        }
    }
}

/// Whether the child is on disk and not yet on its target branch.
pub fn switches(c: &ChildPlan, state: &Option<RepoState>) -> (r: bool)
    ensures
        r == needs_switch(*c, *state),
{
    match state {
        Some(st) => match &st.branch.name {
            Some(b) => !str_eq(b.as_str(), c.target_branch.as_str()),
            None => true,
        },
        None => false,
    }
}

/// The child on disk at position `i` is not on its target branch and has
/// obstacles: exactly the children the pre-flight report lists.
pub open spec fn moving_with_obstacles(children: Seq<(ChildPlan, Option<RepoState>)>, i: int) -> bool {
    &&& children[i].1 is Some
    &&& opt_view(children[i].1->0.branch.name) != Some(children[i].0.target_branch@)
    &&& obstacles_of(children[i].1->0).len() > 0
}

/// A child the pre-flight report of a switch lists: its name and its
/// obstacles.
pub open spec fn reported(children: Seq<(ChildPlan, Option<RepoState>)>, i: int) -> (Seq<char>, Seq<Obstacle>) {
    (children[i].0.name@, obstacles_of(children[i].1->0))
}

/// The report entry `e` is the child at position `i`.
pub open spec fn reports_child(e: (Seq<char>, Seq<Obstacle>), children: Seq<(ChildPlan, Option<RepoState>)>, i: int) -> bool {
    e == reported(children, i)
}

/// The pre-flight report of a switch lists a child only when it is on
/// disk, not already on its target branch, and has obstacles: each entry
/// is such a child's name with exactly its obstacles.
pub proof fn law_report_lists_only_moving_children(children: Seq<(ChildPlan, Option<RepoState>)>, k: int)
    requires
        0 <= k < child_report_spec(children).len(),
    ensures
        exists|i: int| 0 <= i < children.len() && #[trigger] moving_with_obstacles(children, i)
            && reports_child(child_report_spec(children)[k], children, i),
    decreases children.len(),
{
    let pre = children.drop_last();
    let r = child_report_spec(children);
    let rp = child_report_spec(pre);
    let n = children.len() - 1;
    if k < rp.len() {
        law_report_lists_only_moving_children(pre, k);
        assert(r[k] == rp[k]);
        let i = choose|i: int| 0 <= i < pre.len() && #[trigger] moving_with_obstacles(pre, i)
            && reports_child(rp[k], pre, i);
        assert(pre[i] == children[i]);
        assert(moving_with_obstacles(children, i));
        assert(reports_child(r[k], children, i));
    } else {
        assert(children.last() == children[n]);
        assert(moving_with_obstacles(children, n));
        assert(reports_child(r[k], children, n));
    }
}

/// Every child on disk, not on its target branch and with obstacles is in
/// the pre-flight report.
pub proof fn law_report_lists_every_blocked_child(children: Seq<(ChildPlan, Option<RepoState>)>, i: int)
    requires
        0 <= i < children.len(),
        moving_with_obstacles(children, i),
    ensures
        exists|k: int| 0 <= k < child_report_spec(children).len() && #[trigger] child_report_spec(children)[k] == reported(children, i),
    decreases children.len(),
{
    let pre = children.drop_last();
    let r = child_report_spec(children);
    let rp = child_report_spec(pre);
    let n = children.len() - 1;
    assert(children.last() == children[n]);
    if i < n {
        assert(pre[i] == children[i]);
        law_report_lists_every_blocked_child(pre, i);
        let k = choose|k: int| 0 <= k < rp.len() && #[trigger] rp[k] == reported(pre, i);
        assert(r[k] == rp[k]);
    } else {
        assert(r[rp.len() as int] == reported(children, n));
    }
}

/// When no child that would move has obstacles, the report is empty:
/// children already on their target branch never block a switch.
pub proof fn law_report_empty_without_blocked_moving_child(children: Seq<(ChildPlan, Option<RepoState>)>)
    requires
        forall|i: int| 0 <= i < children.len() ==> !#[trigger] moving_with_obstacles(children, i),
    ensures
        child_report_spec(children).len() == 0,
    decreases children.len(),
{
    if children.len() > 0 {
        let pre = children.drop_last();
        let n = children.len() - 1;
        assert(children.last() == children[n]);
        assert(!moving_with_obstacles(children, n));
        assert forall|i: int| 0 <= i < pre.len() implies !#[trigger] moving_with_obstacles(pre, i) by {
            assert(pre[i] == children[i]);
            assert(!moving_with_obstacles(children, i));
        }
        law_report_empty_without_blocked_moving_child(pre);
    }
}

pub fn child_report(children: &Vec<(ChildPlan, Option<RepoState>)>) -> (r: Vec<(String, Vec<Obstacle>)>)
    ensures
        report_view(r@) == child_report_spec(children@),
        forall|k: int| #![trigger report_view(r@)[k]] 0 <= k < r@.len() ==> exists|i: int| 0 <= i < children@.len()
            && #[trigger] moving_with_obstacles(children@, i) && reports_child(report_view(r@)[k], children@, i),
        (forall|i: int| 0 <= i < children@.len() ==> !#[trigger] moving_with_obstacles(children@, i)) ==> r@.len() == 0,
{
    proof {
        if forall|i: int| 0 <= i < children@.len() ==> !#[trigger] moving_with_obstacles(children@, i) {
            law_report_empty_without_blocked_moving_child(children@);
        }
    }
    let mut r: Vec<(String, Vec<Obstacle>)> = Vec::new();
    let mut i: usize = 0;
    while i < children.len()
        invariant
            i <= children.len(),
            report_view(r@) == child_report_spec(children@.take(i as int)),
        decreases children.len() - i,
    {
        assert(children@.take(i + 1).drop_last() =~= children@.take(i as int));
        let (plan, state) = &children[i];
        if switches(plan, state) {
            match state {
                Some(st) => {
                    let obs = obstacles(st);
                    if obs.len() > 0 {
                        let ghost rb = r@;
                        r.push((plan.name.clone(), obs));
                        assert(report_view(r@) =~= report_view(rb).push((plan.name@, obstacles_of(*st))));
                    }
                },
                None => {},
            }
        }
        i += 1;
        assert(report_view(r@) =~= child_report_spec(children@.take(i as int)));
    }
    assert(children@.take(i as int) =~= children@);
    assert forall|k: int| #![trigger report_view(r@)[k]] 0 <= k < r@.len() implies exists|i: int| 0 <= i < children@.len()
        && #[trigger] moving_with_obstacles(children@, i) && reports_child(report_view(r@)[k], children@, i) by {
        law_report_lists_only_moving_children(children@, k);
    }
    r
}

pub open spec fn hard_help() -> Seq<char> {
    "Hard blockers must be resolved manually before switching:\n  - For an in-progress op: complete it (`git rebase --continue` / etc) or abort it.\n  - For unresolved conflicts: edit the conflicted files, then `git add` + complete the operation.\n  - For an empty repo: make a first commit before switching.\n"@
}

pub open spec fn soft_help() -> Seq<char> {
    "For uncommitted local changes, choose one (the flag applies to every affected repo uniformly):\n  - `ws switch <name> --auto-stash`     stashes everywhere (recoverable via `git stash pop` per repo).\n  - `ws switch <name> --discard-changes` resets and cleans every affected repo (destructive — opt-in).\n  - Or commit/stash by hand inside each affected repo first.\n"@
}

pub open spec fn ws_has(obs: Seq<Obstacle>, auto_stash: bool, discard: bool, hard: bool) -> bool {
    let b = blocking_spec(obs, auto_stash, discard);
    exists|j: int| 0 <= j < b.len() && is_hard(#[trigger] b[j]) == hard
}

/// The refusal of a switch: the workspace repo's obstacles when any
/// blocks, a section per blocked child, then help.
pub open spec fn blocking_error_spec(ws: Seq<Obstacle>, children: Seq<(Seq<char>, Seq<Obstacle>)>, auto_stash: bool, discard: bool) -> Seq<char> {
    let h = ws_has(ws, auto_stash, discard, true) || report_any(children, auto_stash, discard, true);
    let s = ws_has(ws, auto_stash, discard, false) || report_any(children, auto_stash, discard, false);
    "ws switch: cannot switch — pre-flight detected obstacles in one or more repos.\n"@
        + (if blocking_spec(ws, auto_stash, discard).len() > 0 {
            "\nWorkspace-repo:\n"@ + marker_text(ws, auto_stash, discard)
        } else {
            Seq::empty()
        })
        + child_sections(children, auto_stash, discard) + "\n"@
        + (if h { hard_help() } else { Seq::empty() })
        + (if s { (if h { "\n"@ } else { Seq::empty() }) + soft_help() } else { Seq::empty() })
}

fn ws_has_exec(obs: &Vec<Obstacle>, auto_stash: bool, discard: bool, hard: bool) -> (r: bool)
    ensures
        r == ws_has(obs@, auto_stash, discard, hard),
{
    let blocking = blocking_obstacles(obs, auto_stash, discard);
    let r = if hard { any_hard(&blocking) } else { any_soft(&blocking) };
    proof {
        let b = blocking_spec(obs@, auto_stash, discard);
        if r {
            if hard {
                let j = choose|j: int| 0 <= j < blocking@.len() && is_hard(#[trigger] blocking@[j]);
                assert(is_hard(b[j]) == hard);
            } else {
                let j = choose|j: int| 0 <= j < blocking@.len() && !is_hard(#[trigger] blocking@[j]);
                assert(is_hard(b[j]) == hard);
            }
        }
        if ws_has(obs@, auto_stash, discard, hard) {
            let j = choose|j: int| 0 <= j < b.len() && is_hard(#[trigger] b[j]) == hard;
            assert(blocking@[j] == b[j]);
        }
    }
    r
}

/// Atomic pre-flight: nothing, or the refusal naming every blocked repo.
pub fn preflight(ws: &Vec<Obstacle>, children: &Vec<(String, Vec<Obstacle>)>, auto_stash: bool, discard: bool) -> (r: Result<(), String>)
    ensures
        ({
            let any = blocking_spec(ws@, auto_stash, discard).len() > 0
                || report_any(report_view(children@), auto_stash, discard, true)
                || report_any(report_view(children@), auto_stash, discard, false);
            &&& any ==> (r matches Err(e) && e@ == blocking_error_spec(ws@, report_view(children@), auto_stash, discard))
            &&& !any ==> r is Ok
        }),
{
    let wsb = blocking_obstacles(ws, auto_stash, discard);
    let ch = report_has_kind(children, auto_stash, discard, true);
    let cs = report_has_kind(children, auto_stash, discard, false);
    if wsb.len() == 0 && !ch && !cs {
        return Ok(());
    }
    let h = ws_has_exec(ws, auto_stash, discard, true) || ch;
    let s = ws_has_exec(ws, auto_stash, discard, false) || cs;
    let mut m = String::from_str("ws switch: cannot switch — pre-flight detected obstacles in one or more repos.\n");
    if wsb.len() > 0 {
        m.append("\nWorkspace-repo:\n");
        marker_lines(&mut m, ws, auto_stash, discard);
    }
    child_sections_exec(&mut m, children, auto_stash, discard);
    m.append("\n");
    if h {
        m.append("Hard blockers must be resolved manually before switching:\n  - For an in-progress op: complete it (`git rebase --continue` / etc) or abort it.\n  - For unresolved conflicts: edit the conflicted files, then `git add` + complete the operation.\n  - For an empty repo: make a first commit before switching.\n");
    }
    if s {
        if h {
            m.append("\n");
        }
        m.append("For uncommitted local changes, choose one (the flag applies to every affected repo uniformly):\n  - `ws switch <name> --auto-stash`     stashes everywhere (recoverable via `git stash pop` per repo).\n  - `ws switch <name> --discard-changes` resets and cleans every affected repo (destructive — opt-in).\n  - Or commit/stash by hand inside each affected repo first.\n");
    }
    Err(m)
}

/// The message of a stash taken before switching the repo `label`
/// names (`workspace `<name>`` or `` `<child>` ``).
pub open spec fn stash_message_spec(label: Seq<char>) -> Seq<char> {
    "marshal/ws-switch: stashed before switching "@ + label
}

pub fn stash_message(label: &str) -> (r: String)
    ensures
        r@ == stash_message_spec(label@),
{
    let mut m = String::from_str("marshal/ws-switch: stashed before switching ");
    m.append(label);
    m
}

/// The resolution step for a repo about to move.
pub fn repo_resolution(state: &RepoState, auto_stash: bool, discard: bool) -> (r: Resolution)
    ensures
        r == resolution_spec(obstacles_of(*state), auto_stash, discard),
{
    let obs = obstacles(state);
    resolution(&obs, auto_stash, discard)
}

/// The summary of one child after materialisation.
/// The summary of one child after its switch, resolved with `resolution`.
pub open spec fn summary_is(r: ChildSwitchSummary, plan: ChildPlan, state: Option<RepoState>, resolution: Resolution) -> bool {
    &&& r.name@ == plan.name@
    &&& r.path@ == plan.path@
    &&& r.to_branch@ == plan.target_branch@
    &&& match state {
        None => r.from_branch is None && !r.skipped && r.missing_from_disk && !r.stashed && !r.discarded,
        Some(st) => opt_view(r.from_branch) == opt_view(st.branch.name) && !r.missing_from_disk
            && r.skipped == !needs_switch(plan, state)
            && (r.skipped ==> !r.stashed && !r.discarded)
            && (!r.skipped ==> r.stashed == (resolution == Resolution::Stash)
                && r.discarded == (resolution == Resolution::Discard)),
    }
}

pub fn child_summary(plan: &ChildPlan, state: &Option<RepoState>, resolution: Resolution) -> (r: ChildSwitchSummary)
    ensures
        r.name@ == plan.name@,
        r.path@ == plan.path@,
        r.to_branch@ == plan.target_branch@,
        match *state {
            None => r.from_branch is None && !r.skipped && r.missing_from_disk && !r.stashed && !r.discarded,
            Some(st) => opt_view(r.from_branch) == opt_view(st.branch.name) && !r.missing_from_disk
                && r.skipped == !needs_switch(*plan, *state)
                && (r.skipped ==> !r.stashed && !r.discarded)
                && (!r.skipped ==> r.stashed == (resolution == Resolution::Stash)
                    && r.discarded == (resolution == Resolution::Discard)),
        },
{
    match state {
        None => ChildSwitchSummary {
            name: plan.name.clone(),
            path: plan.path.clone(),
            from_branch: None,
            to_branch: plan.target_branch.clone(),
            skipped: false,
            missing_from_disk: true,
            stashed: false,
            discarded: false,
        },
        Some(st) => {
            let skipped = !switches(plan, state);
            ChildSwitchSummary {
                name: plan.name.clone(),
                path: plan.path.clone(),
                from_branch: crate::git::porcelain::copy_opt(&st.branch.name),
                to_branch: plan.target_branch.clone(),
                skipped,
                missing_from_disk: false,
                stashed: !skipped && resolution == Resolution::Stash,
                discarded: !skipped && resolution == Resolution::Discard,
            }
        },
    }
}

/// The report of a completed switch.
pub fn switch_output(
    root: &str,
    workspace_name: &str,
    target: String,
    before: &RepoState,
    resolution: Resolution,
    created: bool,
    children: Vec<ChildSwitchSummary>,
) -> (r: WsSwitchOutput)
    ensures
        r.root@ == root@,
        r.workspace_name@ == workspace_name@,
        r.target_branch@ == target@,
        opt_view(r.workspace.from_branch) == opt_view(before.branch.name),
        opt_view(r.workspace.from_commit) == opt_view(before.branch.oid),
        r.workspace.stashed == (resolution == Resolution::Stash),
        r.workspace.discarded == (resolution == Resolution::Discard),
        r.workspace.created_branch == created,
        r.children@ == children@,
        r.explain_plan is None,
{
    WsSwitchOutput {
        root: String::from_str(root),
        workspace_name: String::from_str(workspace_name),
        target_branch: target,
        workspace: WorkspaceSwitchSummary {
            from_branch: crate::git::porcelain::copy_opt(&before.branch.name),
            from_commit: crate::git::porcelain::copy_opt(&before.branch.oid),
            stashed: resolution == Resolution::Stash,
            discarded: resolution == Resolution::Discard,
            created_branch: created,
        },
        children,
        explain_plan: None,
    }
}

// ── Output ──────────────────────────────────────────────────────────

pub struct WsSwitchOutput {
    pub root: String,
    pub workspace_name: String,
    pub target_branch: String,
    pub workspace: WorkspaceSwitchSummary,
    pub children: Vec<ChildSwitchSummary>,
    pub explain_plan: Option<Vec<String>>,
}

pub struct WorkspaceSwitchSummary {
    pub from_branch: Option<String>,
    pub from_commit: Option<String>,
    pub stashed: bool,
    pub discarded: bool,
    pub created_branch: bool,
}

pub open spec fn default_summary() -> WorkspaceSwitchSummary {
    WorkspaceSwitchSummary { from_branch: None, from_commit: None, stashed: false, discarded: false, created_branch: false }
}

impl Default for WorkspaceSwitchSummary {
    fn default() -> (r: Self)
        ensures
            r == default_summary(),
    {
        WorkspaceSwitchSummary { from_branch: None, from_commit: None, stashed: false, discarded: false, created_branch: false }
    }
}

pub struct ChildSwitchSummary {
    pub name: String,
    pub path: String,
    pub from_branch: Option<String>,
    pub to_branch: String,
    /// Already on its target branch.
    pub skipped: bool,
    pub missing_from_disk: bool,
    pub stashed: bool,
    pub discarded: bool,
}

pub open spec fn switched_of(cs: Seq<ChildSwitchSummary>) -> Seq<ChildSwitchSummary>
    decreases cs.len(),
{
    if cs.len() == 0 {
        Seq::empty()
    } else if !cs.last().skipped && !cs.last().missing_from_disk {
        switched_of(cs.drop_last()).push(cs.last())
    } else {
        switched_of(cs.drop_last())
    }
}

pub open spec fn skipped_of(cs: Seq<ChildSwitchSummary>) -> Seq<ChildSwitchSummary>
    decreases cs.len(),
{
    if cs.len() == 0 {
        Seq::empty()
    } else if cs.last().skipped {
        skipped_of(cs.drop_last()).push(cs.last())
    } else {
        skipped_of(cs.drop_last())
    }
}

pub open spec fn missing_of(cs: Seq<ChildSwitchSummary>) -> Seq<ChildSwitchSummary>
    decreases cs.len(),
{
    if cs.len() == 0 {
        Seq::empty()
    } else if cs.last().missing_from_disk {
        missing_of(cs.drop_last()).push(cs.last())
    } else {
        missing_of(cs.drop_last())
    }
}

pub open spec fn switched_line(c: ChildSwitchSummary, pad: nat) -> Seq<char> {
    column_line("  "@, c.name@, pad, (match c.from_branch { Some(b) => "`"@ + b@ + "`"@, None => "(detached)"@ })
        + " → `"@ + c.to_branch@ + "`"@) + (if c.stashed { " — stashed"@ } else { Seq::empty() })
        + (if c.discarded { " — discarded"@ } else { Seq::empty() })
}

pub open spec fn children_lines(cs: Seq<ChildSwitchSummary>) -> Seq<Seq<char>> {
    let sw = switched_of(cs);
    let sk = skipped_of(cs);
    let ms = missing_of(cs);
    seq![Seq::<char>::empty()]
    + (if sw.len() > 0 {
        seq!["Children switched:"@] + sw.map_values(|c: ChildSwitchSummary|
            switched_line(c, max_width(sw.map_values(|x: ChildSwitchSummary| x.name@))))
    } else { Seq::empty() })
    + (if sk.len() > 0 {
        (if sw.len() > 0 { seq![Seq::<char>::empty()] } else { Seq::empty() })
        + seq!["Children already on target ("@ + decimal_of(sk.len()) + "):"@]
        + sk.map_values(|c: ChildSwitchSummary| "  "@ + c.name@ + " (on `"@ + c.to_branch@ + "`)"@)
    } else { Seq::empty() })
    + (if ms.len() > 0 {
        seq![Seq::<char>::empty(), "Children missing on disk:"@]
        + ms.map_values(|c: ChildSwitchSummary| "  "@ + c.name@ + " (declared `"@ + c.to_branch@ + "`, expected at "@ + c.path@ + ")"@)
        + seq![Seq::<char>::empty(),
            "Run `ws clone <url>` against a workspace URL, or clone the missing child by hand, to materialise the new state."@]
    } else { Seq::empty() })
}

pub open spec fn switch_lines(o: WsSwitchOutput) -> Seq<Seq<char>> {
    let from = match o.workspace.from_branch { Some(b) => "`"@ + b@ + "`"@, None => "(detached HEAD)"@ };
    seq![(if o.workspace.created_branch { "Created and switched workspace `"@ } else { "Switched workspace `"@ })
        + o.workspace_name@ + "` to `"@ + o.target_branch@ + "` (from "@ + from + ")."@]
    + (if o.workspace.stashed {
        seq!["  Workspace-repo: local changes stashed; recover with `cd "@ + o.root@ + " && git stash pop`."@]
    } else { Seq::empty() })
    + (if o.workspace.discarded { seq!["  Workspace-repo: local changes discarded."@] } else { Seq::empty() })
    + if o.children@.len() == 0 {
        seq![Seq::<char>::empty(), "(No declared children to materialise — manifest declares zero repos.)"@]
    } else {
        children_lines(o.children@)
    }
}

fn push_all(v: &mut Vec<String>, w: Vec<String>)
    ensures
        views(final(v)@) == views(old(v)@) + views(w@),
{
    let ghost start = views(v@);
    let mut i: usize = 0;
    while i < w.len()
        invariant
            i <= w.len(),
            views(v@) == start + views(w@).take(i as int),
        decreases w.len() - i,
    {
        let ghost vb = v@;
        v.push(w[i].clone());
        assert(views(v@) =~= views(vb).push(w@[i as int]@));
        i += 1;
        assert(views(v@) =~= start + views(w@).take(i as int));
    }
    assert(views(w@).take(i as int) =~= views(w@));
}

fn partition(cs: &Vec<ChildSwitchSummary>) -> (r: (Vec<&ChildSwitchSummary>, Vec<&ChildSwitchSummary>, Vec<&ChildSwitchSummary>))
    ensures
        r.0@.map_values(|c: &ChildSwitchSummary| *c) == switched_of(cs@),
        r.1@.map_values(|c: &ChildSwitchSummary| *c) == skipped_of(cs@),
        r.2@.map_values(|c: &ChildSwitchSummary| *c) == missing_of(cs@),
{
    let mut sw: Vec<&ChildSwitchSummary> = Vec::new();
    let mut sk: Vec<&ChildSwitchSummary> = Vec::new();
    let mut ms: Vec<&ChildSwitchSummary> = Vec::new();
    let mut i: usize = 0;
    while i < cs.len()
        invariant
            i <= cs.len(),
            sw@.map_values(|c: &ChildSwitchSummary| *c) == switched_of(cs@.take(i as int)),
            sk@.map_values(|c: &ChildSwitchSummary| *c) == skipped_of(cs@.take(i as int)),
            ms@.map_values(|c: &ChildSwitchSummary| *c) == missing_of(cs@.take(i as int)),
        decreases cs.len() - i,
    {
        assert(cs@.take(i + 1).drop_last() =~= cs@.take(i as int));
        let c = &cs[i];
        if !c.skipped && !c.missing_from_disk {
            let ghost b = sw@;
            sw.push(c);
            assert(sw@.map_values(|c: &ChildSwitchSummary| *c) =~= b.map_values(|c: &ChildSwitchSummary| *c).push(*c));
        }
        if c.skipped {
            let ghost b = sk@;
            sk.push(c);
            assert(sk@.map_values(|c: &ChildSwitchSummary| *c) =~= b.map_values(|c: &ChildSwitchSummary| *c).push(*c));
        }
        if c.missing_from_disk {
            let ghost b = ms@;
            ms.push(c);
            assert(ms@.map_values(|c: &ChildSwitchSummary| *c) =~= b.map_values(|c: &ChildSwitchSummary| *c).push(*c));
        }
        i += 1;
    }
    assert(cs@.take(i as int) =~= cs@);
    (sw, sk, ms)
}

fn switched_lines(sw: &Vec<&ChildSwitchSummary>) -> (r: Vec<String>)
    ensures
        views(r@) == sw@.map_values(|c: &ChildSwitchSummary| *c).map_values(|c: ChildSwitchSummary|
            switched_line(c, max_width(sw@.map_values(|c: &ChildSwitchSummary| *c).map_values(|x: ChildSwitchSummary| x.name@)))),
{
    let ghost cs = sw@.map_values(|c: &ChildSwitchSummary| *c);
    let mut names: Vec<String> = Vec::new();
    let mut i: usize = 0;
    while i < sw.len()
        invariant
            i <= sw.len(),
            cs == sw@.map_values(|c: &ChildSwitchSummary| *c),
            views(names@) == cs.map_values(|x: ChildSwitchSummary| x.name@).take(i as int),
        decreases sw.len() - i,
    {
        let ghost nb = views(names@);
        names.push(sw[i].name.clone());
        assert(views(names@) =~= nb.push(cs[i as int].name@));
        i += 1;
        assert(views(names@) =~= cs.map_values(|x: ChildSwitchSummary| x.name@).take(i as int));
    }
    assert(cs.map_values(|x: ChildSwitchSummary| x.name@).take(i as int) =~= cs.map_values(|x: ChildSwitchSummary| x.name@));
    let pad = max_byte_width(&names);
    let ghost want = cs.map_values(|c: ChildSwitchSummary| switched_line(c, pad as nat));
    let mut r: Vec<String> = Vec::new();
    let mut k: usize = 0;
    while k < sw.len()
        invariant
            k <= sw.len(),
            cs == sw@.map_values(|c: &ChildSwitchSummary| *c),
            want == cs.map_values(|c: ChildSwitchSummary| switched_line(c, pad as nat)),
            views(r@) == want.take(k as int),
        decreases sw.len() - k,
    {
        let c = sw[k];
        let mut rest = match &c.from_branch {
            Some(b) => {
                let mut f = String::from_str("`");
                f.append(b.as_str());
                f.append("`");
                f
            },
            None => String::from_str("(detached)"),
        };
        rest.append(" → `");
        rest.append(c.to_branch.as_str());
        rest.append("`");
        let mut line = column_line_exec("  ", c.name.as_str(), pad, rest.as_str());
        let ghost l0 = line@;
        if c.stashed {
            line.append(" — stashed");
        }
        let ghost l1 = line@;
        assert(l1 == l0 + (if c.stashed { " — stashed"@ } else { Seq::<char>::empty() }));
        if c.discarded {
            line.append(" — discarded");
        }
        assert(line@ == l1 + (if c.discarded { " — discarded"@ } else { Seq::<char>::empty() }));
        assert(line@ =~= switched_line(*c, pad as nat));
        let ghost rb = views(r@);
        r.push(line);
        assert(views(r@) =~= rb.push(line@));
        k += 1;
        assert(views(r@) =~= want.take(k as int));
    }
    assert(want.take(k as int) =~= want);
    r
}

fn children_block(cs: &Vec<ChildSwitchSummary>) -> (r: Vec<String>)
    ensures
        views(r@) == children_lines(cs@),
{
    let (sw, sk, ms) = partition(cs);
    let ghost swv = switched_of(cs@);
    let ghost skv = skipped_of(cs@);
    let ghost msv = missing_of(cs@);
    let mut lines: Vec<String> = vec![String::new()];
    let ghost l0 = views(lines@);
    if sw.len() > 0 {
        lines.push(String::from_str("Children switched:"));
        push_all(&mut lines, switched_lines(&sw));
    }
    let ghost l1 = views(lines@);
    assert(l1 == l0 + (if swv.len() > 0 {
        seq!["Children switched:"@] + swv.map_values(|c: ChildSwitchSummary|
            switched_line(c, max_width(swv.map_values(|x: ChildSwitchSummary| x.name@))))
    } else { Seq::<Seq<char>>::empty() }));
    if sk.len() > 0 {
        if sw.len() > 0 {
            lines.push(String::new());
        }
        let mut h = String::from_str("Children already on target (");
        h.append(decimal(sk.len()).as_str());
        h.append("):");
        lines.push(h);
        let ghost before = views(lines@);
        let mut i: usize = 0;
        while i < sk.len()
            invariant
                i <= sk.len(),
                sk@.map_values(|c: &ChildSwitchSummary| *c) == skv,
                views(lines@) == before + skv.map_values(|c: ChildSwitchSummary| "  "@ + c.name@ + " (on `"@ + c.to_branch@ + "`)"@).take(i as int),
            decreases sk.len() - i,
        {
            assert(*sk@[i as int] == skv[i as int]);
            let mut l = String::from_str("  ");
            l.append(sk[i].name.as_str());
            l.append(" (on `");
            l.append(sk[i].to_branch.as_str());
            l.append("`)");
            let ghost lb = views(lines@);
            lines.push(l);
            assert(views(lines@) =~= lb.push(l@));
            i += 1;
            assert(views(lines@) =~= before + skv.map_values(|c: ChildSwitchSummary| "  "@ + c.name@ + " (on `"@ + c.to_branch@ + "`)"@).take(i as int));
        }
        assert(skv.map_values(|c: ChildSwitchSummary| "  "@ + c.name@ + " (on `"@ + c.to_branch@ + "`)"@).take(i as int)
            =~= skv.map_values(|c: ChildSwitchSummary| "  "@ + c.name@ + " (on `"@ + c.to_branch@ + "`)"@));
    }
    let ghost l2 = views(lines@);
    assert(l2 == l1 + (if skv.len() > 0 {
        (if swv.len() > 0 { seq![Seq::<char>::empty()] } else { Seq::<Seq<char>>::empty() })
        + seq!["Children already on target ("@ + decimal_of(skv.len()) + "):"@]
        + skv.map_values(|c: ChildSwitchSummary| "  "@ + c.name@ + " (on `"@ + c.to_branch@ + "`)"@)
    } else { Seq::<Seq<char>>::empty() }));
    if ms.len() > 0 {
        lines.push(String::new());
        lines.push(String::from_str("Children missing on disk:"));
        let ghost before = views(lines@);
        let mut i: usize = 0;
        while i < ms.len()
            invariant
                i <= ms.len(),
                ms@.map_values(|c: &ChildSwitchSummary| *c) == msv,
                views(lines@) == before + msv.map_values(|c: ChildSwitchSummary| "  "@ + c.name@ + " (declared `"@ + c.to_branch@ + "`, expected at "@ + c.path@ + ")"@).take(i as int),
            decreases ms.len() - i,
        {
            assert(*ms@[i as int] == msv[i as int]);
            let mut l = String::from_str("  ");
            l.append(ms[i].name.as_str());
            l.append(" (declared `");
            l.append(ms[i].to_branch.as_str());
            l.append("`, expected at ");
            l.append(ms[i].path.as_str());
            l.append(")");
            let ghost lb = views(lines@);
            lines.push(l);
            assert(views(lines@) =~= lb.push(l@));
            i += 1;
            assert(views(lines@) =~= before + msv.map_values(|c: ChildSwitchSummary| "  "@ + c.name@ + " (declared `"@ + c.to_branch@ + "`, expected at "@ + c.path@ + ")"@).take(i as int));
        }
        assert(msv.map_values(|c: ChildSwitchSummary| "  "@ + c.name@ + " (declared `"@ + c.to_branch@ + "`, expected at "@ + c.path@ + ")"@).take(i as int)
            =~= msv.map_values(|c: ChildSwitchSummary| "  "@ + c.name@ + " (declared `"@ + c.to_branch@ + "`, expected at "@ + c.path@ + ")"@));
        let ghost lb = views(lines@);
        lines.push(String::new());
        lines.push(String::from_str("Run `ws clone <url>` against a workspace URL, or clone the missing child by hand, to materialise the new state."));
        assert(views(lines@) =~= lb + seq![Seq::<char>::empty(),
            "Run `ws clone <url>` against a workspace URL, or clone the missing child by hand, to materialise the new state."@]);
        assert(views(lines@) =~= l2 + (seq![Seq::<char>::empty(), "Children missing on disk:"@]
            + msv.map_values(|c: ChildSwitchSummary| "  "@ + c.name@ + " (declared `"@ + c.to_branch@ + "`, expected at "@ + c.path@ + ")"@)
            + seq![Seq::<char>::empty(),
                "Run `ws clone <url>` against a workspace URL, or clone the missing child by hand, to materialise the new state."@]));
    }
    let ghost l3 = views(lines@);
    assert(l3 == l2 + (if msv.len() > 0 {
        seq![Seq::<char>::empty(), "Children missing on disk:"@]
        + msv.map_values(|c: ChildSwitchSummary| "  "@ + c.name@ + " (declared `"@ + c.to_branch@ + "`, expected at "@ + c.path@ + ")"@)
        + seq![Seq::<char>::empty(),
            "Run `ws clone <url>` against a workspace URL, or clone the missing child by hand, to materialise the new state."@]
    } else { Seq::<Seq<char>>::empty() }));
    assert(views(lines@) =~= children_lines(cs@));
    lines
}

impl Renderable for WsSwitchOutput {
    open spec fn rendered(&self) -> Seq<char> {
        match self.explain_plan {
            Some(plan) => lines_text(plan_lines("ws switch"@, views(plan@))),
            None => lines_text(switch_lines(*self)),
        }
    }

    fn render_human(&self) -> (r: String) {
        if let Some(plan) = &self.explain_plan {
            return render_explain_plan("ws switch", plan);
        }
        let from = match &self.workspace.from_branch {
            Some(b) => {
                let mut f = String::from_str("`");
                f.append(b.as_str());
                f.append("`");
                f
            },
            None => String::from_str("(detached HEAD)"),
        };
        let mut first = String::from_str(if self.workspace.created_branch { "Created and switched workspace `" } else { "Switched workspace `" });
        first.append(self.workspace_name.as_str());
        first.append("` to `");
        first.append(self.target_branch.as_str());
        first.append("` (from ");
        first.append(from.as_str());
        first.append(").");
        let mut lines = vec![first];
        if self.workspace.stashed {
            let mut l = String::from_str("  Workspace-repo: local changes stashed; recover with `cd ");
            l.append(self.root.as_str());
            l.append(" && git stash pop`.");
            lines.push(l);
        }
        let ghost l1 = views(lines@);
        if self.workspace.discarded {
            lines.push(String::from_str("  Workspace-repo: local changes discarded."));
        }
        let ghost l2 = views(lines@);
        assert(l2 == l1 + (if self.workspace.discarded { seq!["  Workspace-repo: local changes discarded."@] } else { Seq::<Seq<char>>::empty() }));
        if self.children.len() == 0 {
            lines.push(String::new());
            lines.push(String::from_str("(No declared children to materialise — manifest declares zero repos.)"));
        } else {
            push_all(&mut lines, children_block(&self.children));
        }
        assert(views(lines@) =~= switch_lines(*self));
        concat_lines(&lines)
    }
}

// ── The actions of a switch ─────────────────────────────────────────

/// The label a repo's stash is recorded under.
pub open spec fn child_label(name: Seq<char>) -> Seq<char> {
    "`"@ + name + "`"@
}

pub open spec fn workspace_label(name: Seq<char>) -> Seq<char> {
    "workspace `"@ + name + "`"@
}

/// Per child that moves, in order: the steps that resolve its
/// obstacles, then `git switch` to its target.
pub open spec fn child_actions_spec(children: Seq<(ChildPlan, Option<RepoState>)>, auto_stash: bool, discard: bool)
    -> Seq<(Seq<char>, Seq<Seq<char>>, Seq<char>)>
    decreases children.len(),
{
    if children.len() == 0 {
        Seq::empty()
    } else {
        let c = children.last();
        child_actions_spec(children.drop_last(), auto_stash, discard) + match c.1 {
            Some(st) => if needs_switch(c.0, Some(st)) {
                in_dir(c.0.path@, resolution_steps_spec(resolution_spec(obstacles_of(st), auto_stash, discard),
                    stash_message_spec(child_label(c.0.name@))))
                    .push(switch_in(c.0.path@, c.0.target_branch@))
            } else {
                Seq::empty()
            },
            None => Seq::empty(),
        }
    }
}

/// Why a switch is refused before anything is touched, if it is: the
/// workspace repo has no commits, or pre-flight finds a blocking
/// obstacle in the workspace repo or in a child that would move.
pub open spec fn switch_refusal(root: Seq<char>, ws_state: RepoState, children: Seq<(ChildPlan, Option<RepoState>)>,
    auto_stash: bool, discard: bool) -> Option<Seq<char>>
{
    let ws = obstacles_of(ws_state);
    let report = child_report_spec(children);
    if ws_state.branch.is_initial {
        Some(initial_workspace_msg(root))
    } else if blocking_spec(ws, auto_stash, discard).len() > 0 || report_any(report, auto_stash, discard, true)
        || report_any(report, auto_stash, discard, false) {
        Some(blocking_error_spec(ws, report, auto_stash, discard))
    } else {
        None
    }
}

/// Everything a switch runs, in order, once every repo has been read:
/// the workspace repo's resolution, the new branch when `-c` asks for
/// one, the workspace switch, then each moving child.
pub open spec fn switch_actions_spec(root: Seq<char>, ws_name: Seq<char>, target: Seq<char>, create: bool,
    auto_stash: bool, discard: bool, ws_state: RepoState, children: Seq<(ChildPlan, Option<RepoState>)>)
    -> Result<Seq<(Seq<char>, Seq<Seq<char>>, Seq<char>)>, Seq<char>>
{
    match switch_refusal(root, ws_state, children, auto_stash, discard) {
        Some(e) => Err(e),
        None => Ok(
            in_dir(root, resolution_steps_spec(resolution_spec(obstacles_of(ws_state), auto_stash, discard),
                stash_message_spec(workspace_label(ws_name))))
            + (if create { seq![branch_in(root, target)] } else { Seq::empty() })
            + seq![switch_in(root, target)]
            + child_actions_spec(children, auto_stash, discard)),
    }
}

fn label_of(prefix: &str, name: &str) -> (r: String)
    ensures
        r@ == prefix@ + name@ + "`"@,
{
    let mut l = String::from_str(prefix);
    l.append(name);
    l.append("`");
    l
}

fn push_child_actions(out: &mut Vec<GitAction>, children: &Vec<(ChildPlan, Option<RepoState>)>, auto_stash: bool, discard: bool)
    ensures
        actions_view(final(out)@) == actions_view(old(out)@) + child_actions_spec(children@, auto_stash, discard),
{
    let ghost start = actions_view(out@);
    let mut i: usize = 0;
    while i < children.len()
        invariant
            i <= children.len(),
            actions_view(out@) == start + child_actions_spec(children@.take(i as int), auto_stash, discard),
        decreases children.len() - i,
    {
        let ghost pre = children@.take(i as int);
        assert(children@.take(i + 1).drop_last() =~= pre);
        assert(children@.take(i + 1).last() == children@[i as int]);
        let plan = &children[i].0;
        let state = &children[i].1;
        if switches(plan, state) {
            match state {
                Some(st) => {
                    let ghost before = actions_view(out@);
                    proof {
                        reveal_strlit("`");
                    }
                    let label = label_of("`", plan.name.as_str());
                    push_resolution(out, plan.path.as_str(), repo_resolution(st, auto_stash, discard),
                        stash_message(label.as_str()).as_str());
                    let ghost mid = actions_view(out@);
                    let a = switch_action(plan.path.as_str(), plan.target_branch.as_str());
                    out.push(a);
                    assert(actions_view(out@) =~= mid.push(switch_in(plan.path@, plan.target_branch@)));
                    assert(actions_view(out@) =~= start + child_actions_spec(children@.take(i + 1), auto_stash, discard));
                },
                None => {},
            }
        } else {
            assert(actions_view(out@) =~= start + child_actions_spec(children@.take(i + 1), auto_stash, discard));
        }
        i += 1;
    }
    assert(children@.take(i as int) =~= children@);
}

/// The actions of a switch from what was read, or its refusal; a
/// refused switch runs nothing.
pub fn switch_actions(
    root: &str,
    ws_name: &str,
    target: &str,
    create: bool,
    auto_stash: bool,
    discard: bool,
    ws_state: &RepoState,
    children: &Vec<(ChildPlan, Option<RepoState>)>,
) -> (r: Result<Vec<GitAction>, String>)
    ensures
        match switch_actions_spec(root@, ws_name@, target@, create, auto_stash, discard, *ws_state, children@) {
            Ok(a) => r matches Ok(v) && actions_view(v@) == a,
            Err(e) => r matches Err(m) && m@ == e,
        },
{
    if ws_state.branch.is_initial {
        return Err(initial_workspace(root));
    }
    let ws = obstacles(ws_state);
    let report = child_report(children);
    match preflight(&ws, &report, auto_stash, discard) {
        Ok(()) => {},
        Err(e) => {
            return Err(e);
        },
    }
    let mut out: Vec<GitAction> = Vec::new();
    proof {
        reveal_strlit("workspace `");
    }
    let label = label_of("workspace `", ws_name);
    push_resolution(&mut out, root, repo_resolution(ws_state, auto_stash, discard), stash_message(label.as_str()).as_str());
    let ghost after_ws = actions_view(out@);
    if create {
        out.push(branch_action(root, target));
    }
    out.push(switch_action(root, target));
    assert(actions_view(out@) =~= after_ws + (if create { seq![branch_in(root@, target@)] } else {
        Seq::<(Seq<char>, Seq<Seq<char>>, Seq<char>)>::empty() }) + seq![switch_in(root@, target@)]);
    push_child_actions(&mut out, children, auto_stash, discard);
    Ok(out)
}

/// The summary of every child once the actions ran: a moving child
/// reports the resolution its own obstacles called for.
pub fn child_summaries(children: &Vec<(ChildPlan, Option<RepoState>)>, auto_stash: bool, discard: bool) -> (r: Vec<ChildSwitchSummary>)
    ensures
        r@.len() == children@.len(),
        forall|i: int| 0 <= i < r@.len() ==> summary_is(#[trigger] r@[i], children@[i].0, children@[i].1,
            match children@[i].1 {
                Some(st) => resolution_spec(obstacles_of(st), auto_stash, discard),
                None => Resolution::Nothing,
            }),
{
    let mut r: Vec<ChildSwitchSummary> = Vec::new();
    let mut i: usize = 0;
    while i < children.len()
        invariant
            i <= children.len(),
            r@.len() == i,
            forall|k: int| 0 <= k < i ==> summary_is(#[trigger] r@[k], children@[k].0, children@[k].1,
                match children@[k].1 {
                    Some(st) => resolution_spec(obstacles_of(st), auto_stash, discard),
                    None => Resolution::Nothing,
                }),
        decreases children.len() - i,
    {
        let res = match &children[i].1 {
            Some(st) => repo_resolution(st, auto_stash, discard),
            None => Resolution::Nothing,
        };
        r.push(child_summary(&children[i].0, &children[i].1, res));
        i += 1;
    }
    r
}

} // verus!
