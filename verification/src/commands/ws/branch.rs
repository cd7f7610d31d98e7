//! `ws branch <name>` — create a workspace branch at the workspace
//! repo's HEAD, without switching to it.
use vstd::prelude::*;
use vstd::string::StringExecFns;
use crate::cli::Renderable;
use crate::commands::ws::{one_positional, one_positional_spec, plan_lines, render_explain_plan,
    PositionalError, PositionalErrorView};
use crate::git::porcelain::RepoState;
use crate::text::{lines_text, opt_view, short_sha, short_sha_spec, views};

verus! {

/// `git ws branch <name>`.
pub struct WsBranch {
    pub on: Option<String>,
    pub explain: bool,
}

pub struct WsBranchOutput {
    pub root: String,
    pub workspace_name: String,
    pub branch_name: String,
    /// The workspace branch it was created from; `None` on a detached HEAD.
    pub from_branch: Option<String>,
    /// The workspace HEAD commit; `None` under `--explain`.
    pub from_commit: Option<String>,
    pub explain_plan: Option<Vec<String>>,
}

pub open spec fn on_refusal_msg(on: Seq<char>) -> Seq<char> {
    "ws branch: takes no `--on` filter. `ws branch` operates on the workspace-repo only — per-child branching is determined by state.toml content on each workspace branch. To create a child branch directly: `cd src/"@
        + on + "` and use plain git."@
}

pub fn on_refusal(on: &str) -> (r: String)
    ensures
        r@ == on_refusal_msg(on@),
{
    let mut m = String::from_str("ws branch: takes no `--on` filter. `ws branch` operates on the workspace-repo only — per-child branching is determined by state.toml content on each workspace branch. To create a child branch directly: `cd src/");
    m.append(on);
    m.append("` and use plain git.");
    m
}

/// `ws branch` takes exactly one positional `<name>`; anything that
/// starts with `-` is refused as a flag.
pub open spec fn parse_args_spec(args: Seq<Seq<char>>) -> Result<Seq<char>, Seq<char>> {
    match one_positional_spec(args, true) {
        Ok(s) => Ok(s),
        Err(PositionalErrorView::Flag(s)) => Err("ws branch: unexpected flag '"@ + s
            + "'. Expected: `ws branch <name>` (with optional --explain)."@),
        Err(PositionalErrorView::TooMany) => Err(
            "ws branch: too many positional arguments. `ws branch` takes exactly one branch name: `ws branch <name>`."@),
        Err(PositionalErrorView::Missing) => Err("ws branch: missing required <name> argument. Usage: `ws branch <name>`."@),
    }
}

pub fn parse_args(args: &Vec<String>) -> (r: Result<String, String>)
    ensures
        match (r, parse_args_spec(views(args@))) {
            (Ok(a), Ok(b)) => a@ == b,
            (Err(a), Err(b)) => a@ == b,
            _ => false,
        },
{
    match one_positional(args, true) {
        Ok(s) => Ok(s),
        Err(PositionalError::Flag(s)) => {
            let mut m = String::from_str("ws branch: unexpected flag '");
            m.append(s.as_str());
            m.append("'. Expected: `ws branch <name>` (with optional --explain).");
            Err(m)
        },
        Err(PositionalError::TooMany) => Err(String::from_str(
            "ws branch: too many positional arguments. `ws branch` takes exactly one branch name: `ws branch <name>`.")),
        Err(PositionalError::Missing) => Err(String::from_str(
            "ws branch: missing required <name> argument. Usage: `ws branch <name>`.")),
    }
}

pub open spec fn branch_plan_spec(root: Seq<char>, name: Seq<char>) -> Seq<Seq<char>> {
    seq![
        "git -C "@ + root + " status --porcelain=v2 --branch  (read workspace HEAD for `from_branch` / `from_commit`)"@,
        "abort if the workspace-repo is initial-empty (nothing to branch from)"@,
        "git -C "@ + root + " branch "@ + name + "  (creates `"@ + name + "` at workspace HEAD; does not switch)"@,
    ]
}

/// The `--explain` answer of `ws branch`.
pub fn branch_explained(root: &str, workspace_name: &str, name: String) -> (r: WsBranchOutput)
    ensures
        r.root@ == root@,
        r.workspace_name@ == workspace_name@,
        r.branch_name@ == name@,
        r.from_branch is None,
        r.from_commit is None,
        r.explain_plan matches Some(p) && views(p@) == branch_plan_spec(root@, name@),
{
    let mut a = String::from_str("git -C ");
    a.append(root);
    a.append(" status --porcelain=v2 --branch  (read workspace HEAD for `from_branch` / `from_commit`)");
    let b = String::from_str("abort if the workspace-repo is initial-empty (nothing to branch from)");
    let mut c = String::from_str("git -C ");
    c.append(root);
    c.append(" branch ");
    c.append(name.as_str());
    c.append("  (creates `");
    c.append(name.as_str());
    c.append("` at workspace HEAD; does not switch)");
    let plan = vec![a, b, c];
    assert(views(plan@) =~= branch_plan_spec(root@, name@));
    WsBranchOutput {
        root: String::from_str(root),
        workspace_name: String::from_str(workspace_name),
        branch_name: name,
        from_branch: None,
        from_commit: None,
        explain_plan: Some(plan),
    }
}

/// Refusal when the workspace repo has no commit to branch from.
pub open spec fn initial_refusal_msg(root: Seq<char>) -> Seq<char> {
    "ws branch: workspace-repo at "@ + root
        + " has no commits yet — there is nothing to branch from. Make a first commit (e.g. `git -C "@ + root
        + " commit ...`) and re-run."@
}

/// The workspace HEAD to branch from: its branch and commit, or the
/// refusal when the workspace repo has no commits.
pub fn branch_source(root: &str, state: &RepoState) -> (r: Result<(Option<String>, Option<String>), String>)
    ensures
        state.branch.is_initial ==> (r matches Err(e) && e@ == initial_refusal_msg(root@)),
        !state.branch.is_initial ==> (r matches Ok((b, c)) && opt_view(b) == opt_view(state.branch.name)
            && opt_view(c) == opt_view(state.branch.oid)),
{
    if state.branch.is_initial {
        let mut m = String::from_str("ws branch: workspace-repo at ");
        m.append(root);
        m.append(" has no commits yet — there is nothing to branch from. Make a first commit (e.g. `git -C ");
        m.append(root);
        m.append(" commit ...`) and re-run.");
        return Err(m);
    }
    Ok((crate::git::porcelain::copy_opt(&state.branch.name), crate::git::porcelain::copy_opt(&state.branch.oid)))
}

pub open spec fn branch_lines(o: WsBranchOutput) -> Seq<Seq<char>> {
    let from_label = match o.from_branch { Some(b) => "`"@ + b@ + "`"@, None => "(detached HEAD)"@ };
    let sha = match o.from_commit { Some(c) => short_sha_spec(c@), None => "??????"@ };
    seq![
        "Created workspace branch `"@ + o.branch_name@ + "` from "@ + from_label + " ("@ + sha + ")."@,
        Seq::<char>::empty(),
        "Switch to it with `ws switch "@ + o.branch_name@ + "` to materialise its state across child repos."@,
    ]
}

impl Renderable for WsBranchOutput {
    open spec fn rendered(&self) -> Seq<char> {
        match self.explain_plan {
            Some(plan) => lines_text(plan_lines("ws branch"@, views(plan@))),
            None => lines_text(branch_lines(*self)),
        }
    }

    fn render_human(&self) -> (r: String) {
        if let Some(plan) = &self.explain_plan {
            return render_explain_plan("ws branch", plan);
        }
        let label = match &self.from_branch {
            Some(b) => {
                let mut l = String::from_str("`");
                l.append(b.as_str());
                l.append("`");
                l
            },
            None => String::from_str("(detached HEAD)"),
        };
        assert(label@ == match self.from_branch { Some(b) => "`"@ + b@ + "`"@, None => "(detached HEAD)"@ });
        let sha = match &self.from_commit {
            Some(c) => short_sha(c.as_str()),
            None => String::from_str("??????"),
        };
        assert(sha@ == match self.from_commit { Some(c) => short_sha_spec(c@), None => "??????"@ });
        let mut a = String::from_str("Created workspace branch `");
        a.append(self.branch_name.as_str());
        a.append("` from ");
        a.append(label.as_str());
        a.append(" (");
        a.append(sha.as_str());
        a.append(").");
        let mut c = String::from_str("Switch to it with `ws switch ");
        c.append(self.branch_name.as_str());
        c.append("` to materialise its state across child repos.");
        let lines = vec![a, String::new(), c];
        assert(views(lines@) =~= branch_lines(*self));
        crate::text::concat_lines(&lines)
    }
}

} // verus!
