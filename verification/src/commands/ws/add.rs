//! `ws add <repo>` — snapshot a child's current `(branch, commit)`
//! into the staging area. Re-staging a repo replaces its snapshot.
use vstd::prelude::*;
use vstd::string::StringExecFns;
use crate::cli::Renderable;
use crate::commands::ws::{one_positional, one_positional_spec, plan_lines, render_explain_plan,
    unknown_repo_error, unknown_repo_msg, PositionalError, PositionalErrorView};
use crate::git::porcelain::RepoState;
use crate::text::{lines_text, opt_view, path_join, short_sha, short_sha_spec, views};
use crate::workspace::manifest::{child_repo_path, first_index, repo_names, repo_rel_path, Manifest};
use crate::workspace::staged::{RepoStaged, StagedDeclaration};

verus! {

/// `git ws add <repo>`.
pub struct WsAdd {
    pub explain: bool,
}

pub struct WsAddOutput {
    pub root: String,
    pub repo_name: String,
    /// The snapshot just staged; `None` under `--explain`.
    pub snapshot: Option<RepoStaged>,
    /// The snapshot it replaced, when the repo was already staged.
    pub previous_snapshot: Option<RepoStaged>,
    pub explain_plan: Option<Vec<String>>,
}

/// `ws add` takes exactly one positional `<repo>` and no flag.
pub open spec fn parse_args_spec(args: Seq<Seq<char>>) -> Result<Seq<char>, Seq<char>> {
    match one_positional_spec(args, false) {
        Ok(s) => Ok(s),
        Err(PositionalErrorView::Flag(s)) => Err("ws add: unexpected flag '"@ + s
            + "'. Expected: `ws add <repo>` (with optional --explain)."@),
        Err(PositionalErrorView::TooMany) => Err(
            "ws add: too many positional arguments. Stage one repo per invocation: `ws add <repo>`."@),
        Err(PositionalErrorView::Missing) => Err("ws add: missing required <repo> argument. Usage: `ws add <repo>`."@),
    }
}

pub fn parse_args(args: &Vec<String>) -> (r: Result<String, String>)
    ensures
        match (r, parse_args_spec(views(args@))) {
            (Ok(a), Ok(b)) => a@ == b,
            (Err(a), Err(b)) => a@ == b,
            _ => false,
        },
{
    match one_positional(args, false) {
        Ok(s) => Ok(s),
        Err(PositionalError::Flag(s)) => {
            let mut m = String::from_str("ws add: unexpected flag '");
            m.append(s.as_str());
            m.append("'. Expected: `ws add <repo>` (with optional --explain).");
            Err(m)
        },
        Err(PositionalError::TooMany) => Err(String::from_str(
            "ws add: too many positional arguments. Stage one repo per invocation: `ws add <repo>`.")),
        Err(PositionalError::Missing) => Err(String::from_str(
            "ws add: missing required <repo> argument. Usage: `ws add <repo>`.")),
    }
}

/// The `--explain` steps of `ws add`.
pub open spec fn add_plan_spec(root: Seq<char>, abs_path: Seq<char>, repo: Seq<char>) -> Seq<Seq<char>> {
    seq![
        "git -C "@ + abs_path + " rev-parse --git-dir"@,
        "git -C "@ + abs_path + " status --porcelain=v2 --branch  (read branch + HEAD oid)"@,
        "load existing `"@ + root + "/.workspace/local/staged.toml` (creating the dir if absent)"@,
        "upsert entry for `"@ + repo + "` with the captured (branch, commit)"@,
        "write `"@ + root + "/.workspace/local/staged.toml` and seed `local/.gitignore` if missing"@,
    ]
}

fn add_plan(root: &str, abs_path: &str, repo: &str) -> (r: Vec<String>)
    ensures
        views(r@) == add_plan_spec(root@, abs_path@, repo@),
{
    let mut a = String::from_str("git -C ");
    a.append(abs_path);
    a.append(" rev-parse --git-dir");
    let mut b = String::from_str("git -C ");
    b.append(abs_path);
    b.append(" status --porcelain=v2 --branch  (read branch + HEAD oid)");
    let mut c = String::from_str("load existing `");
    c.append(root);
    c.append("/.workspace/local/staged.toml` (creating the dir if absent)");
    let mut d = String::from_str("upsert entry for `");
    d.append(repo);
    d.append("` with the captured (branch, commit)");
    let mut e = String::from_str("write `");
    e.append(root);
    e.append("/.workspace/local/staged.toml` and seed `local/.gitignore` if missing");
    let r = vec![a, b, c, d, e];
    assert(views(r@) =~= add_plan_spec(root@, abs_path@, repo@));
    r
}

/// What `ws add` does next once the repo is known.
pub enum AddStart {
    /// `--explain`: the plan, and nothing else.
    Explained(WsAddOutput),
    /// Read the child's state at this path.
    Read { abs_path: String },
}

impl WsAdd {
    /// Check `repo_name` against the manifest and locate the child; under
    /// `--explain`, answer with the plan.
    pub fn start(&self, repo_name: String, root: &str, manifest: &Manifest) -> (r: Result<AddStart, String>)
        ensures
            match first_index(repo_names(manifest.repos@), repo_name@) {
                None => r matches Err(e) && e@ == unknown_repo_msg("ws add"@, repo_name@, manifest.repos@),
                Some(i) => {
                    let abs = path_join(root@, repo_rel_path(manifest.repos@[i]));
                    if self.explain {
                        r matches Ok(AddStart::Explained(o)) && o.root@ == root@ && o.repo_name@ == repo_name@
                            && o.snapshot is None && o.previous_snapshot is None
                            && (o.explain_plan matches Some(p) && views(p@) == add_plan_spec(root@, abs, repo_name@))
                    } else {
                        r matches Ok(AddStart::Read { abs_path }) && abs_path@ == abs
                    }
                },
            },
    {
        let repo = match manifest.find_repo(repo_name.as_str()) {
            Some(r) => r,
            None => return Err(unknown_repo_error("ws add", repo_name.as_str(), manifest)),
        };
        let abs = child_repo_path(root, repo);
        if self.explain {
            let plan = add_plan(root, abs.as_str(), repo_name.as_str());
            return Ok(AddStart::Explained(WsAddOutput {
                root: String::from_str(root),
                repo_name,
                snapshot: None,
                previous_snapshot: None,
                explain_plan: Some(plan),
            }));
        }
        Ok(AddStart::Read { abs_path: abs })
    }
}

/// The refusal when the child's directory does not exist.
pub open spec fn missing_on_disk_msg(repo: Seq<char>, abs_path: Seq<char>) -> Seq<char> {
    "ws add: child repo `"@ + repo + "` is declared but missing on disk (expected at "@ + abs_path
        + "). Clone the workspace with `ws clone` or check the manifest's `path` setting."@
}

pub fn missing_on_disk(repo: &str, abs_path: &str) -> (r: String)
    ensures
        r@ == missing_on_disk_msg(repo@, abs_path@),
{
    let mut m = String::from_str("ws add: child repo `");
    m.append(repo);
    m.append("` is declared but missing on disk (expected at ");
    m.append(abs_path);
    m.append("). Clone the workspace with `ws clone` or check the manifest's `path` setting.");
    m
}

/// The snapshot to stage from a child's state: refused when the repo
/// has no commits, is on a detached HEAD, or has no branch or commit.
pub open spec fn snapshot_spec(repo: Seq<char>, abs_path: Seq<char>, state: RepoState) -> Result<(Seq<char>, Seq<char>), Seq<char>> {
    if state.branch.is_initial {
        Err("ws add: `"@ + repo + "` has no commits yet. Make a first commit in the child repo, then re-run `ws add`."@)
    } else if state.branch.is_detached {
        Err("ws add: `"@ + repo + "` is on detached HEAD. Switch to a branch in the child repo first (`cd "@
            + abs_path + " && git switch <branch>`), then re-run `ws add`."@)
    } else {
        match (opt_view(state.branch.name), opt_view(state.branch.oid)) {
            (None, _) => Err("ws add: `"@ + repo
                + "` has no current branch (porcelain reported neither initial nor detached). This is a marshal bug; please report it."@),
            (Some(_), None) => Err("ws add: porcelain reported no HEAD oid for `"@ + repo
                + "`. This is a marshal bug; please report it."@),
            (Some(b), Some(c)) => Ok((b, c)),
        }
    }
}

/// Staging a repo that is on a branch with commits records that branch
/// and its HEAD commit, and nothing else.
pub proof fn law_snapshot_is_branch_and_head(repo: Seq<char>, abs_path: Seq<char>, state: RepoState)
    requires
        !state.branch.is_initial,
        !state.branch.is_detached,
        state.branch.name is Some,
        state.branch.oid is Some,
    ensures
        snapshot_spec(repo, abs_path, state) == Ok::<(Seq<char>, Seq<char>), Seq<char>>(
            (state.branch.name->0@, state.branch.oid->0@)),
{
}

/// A repo that is detached or has no commit yet cannot be staged.
pub proof fn law_snapshot_needs_a_branch_with_commits(repo: Seq<char>, abs_path: Seq<char>, state: RepoState)
    requires
        state.branch.is_initial || state.branch.is_detached,
    ensures
        snapshot_spec(repo, abs_path, state) is Err,
{
}

pub fn snapshot_of(repo: &str, abs_path: &str, state: &RepoState) -> (r: Result<RepoStaged, String>)
    ensures
        !state.branch.is_initial && !state.branch.is_detached && state.branch.name is Some && state.branch.oid is Some
            ==> (r matches Ok(s) && s.branch@ == state.branch.name->0@ && s.commit@ == state.branch.oid->0@),
        (state.branch.is_initial || state.branch.is_detached) ==> r is Err,
        match (r, snapshot_spec(repo@, abs_path@, *state)) {
            (Ok(a), Ok(b)) => a@ == b,
            (Err(a), Err(b)) => a@ == b,
            _ => false,
        },
{
    if state.branch.is_initial {
        let mut m = String::from_str("ws add: `");
        m.append(repo);
        m.append("` has no commits yet. Make a first commit in the child repo, then re-run `ws add`.");
        return Err(m);
    }
    if state.branch.is_detached {
        let mut m = String::from_str("ws add: `");
        m.append(repo);
        m.append("` is on detached HEAD. Switch to a branch in the child repo first (`cd ");
        m.append(abs_path);
        m.append(" && git switch <branch>`), then re-run `ws add`.");
        return Err(m);
    }
    let branch = match &state.branch.name {
        Some(b) => b.clone(),
        None => {
            let mut m = String::from_str("ws add: `");
            m.append(repo);
            m.append("` has no current branch (porcelain reported neither initial nor detached). This is a marshal bug; please report it.");
            return Err(m);
        },
    };
    let commit = match &state.branch.oid {
        Some(c) => c.clone(),
        None => {
            let mut m = String::from_str("ws add: porcelain reported no HEAD oid for `");
            m.append(repo);
            m.append("`. This is a marshal bug; please report it.");
            return Err(m);
        },
    };
    Ok(RepoStaged { branch, commit })
}

/// Stage `snapshot` for `repo_name` and report what happened.
pub fn stage_snapshot(root: String, repo_name: String, snapshot: RepoStaged, staged: &mut StagedDeclaration) -> (r: WsAddOutput)
    ensures
        final(staged).repos@ == old(staged).repos@.insert(repo_name@, snapshot@),
        r.root@ == root@,
        r.repo_name@ == repo_name@,
        r.snapshot matches Some(s) && s@ == snapshot@,
        match r.previous_snapshot {
            Some(p) => old(staged).repos@.contains_key(repo_name@) && p@ == old(staged).repos@[repo_name@],
            None => !old(staged).repos@.contains_key(repo_name@),
        },
        r.explain_plan is None,
{
    let previous = staged.stage(repo_name.clone(), snapshot.copy());
    WsAddOutput { root, repo_name, snapshot: Some(snapshot), previous_snapshot: previous, explain_plan: None }
}

pub open spec fn add_line(o: WsAddOutput) -> Seq<char> {
    match o.snapshot {
        None => "Staged `"@ + o.repo_name@ + "`."@,
        Some(s) => match o.previous_snapshot {
            None => "Staged `"@ + o.repo_name@ + "` at `"@ + s.branch@ + "`@"@ + short_sha_spec(s.commit@) + " ("@
                + s.commit@ + ")."@,
            Some(p) => "Re-staged `"@ + o.repo_name@ + "` at `"@ + s.branch@ + "`@"@ + short_sha_spec(s.commit@)
                + " (was `"@ + p.branch@ + "`@"@ + short_sha_spec(p.commit@) + ")."@,
        },
    }
}

impl Renderable for WsAddOutput {
    open spec fn rendered(&self) -> Seq<char> {
        match self.explain_plan {
            Some(plan) => lines_text(plan_lines("ws add"@, views(plan@))),
            None => add_line(*self) + "\n"@,
        }
    }

    fn render_human(&self) -> (r: String) {
        if let Some(plan) = &self.explain_plan {
            return render_explain_plan("ws add", plan);
        }
        let mut r = String::new();
        match &self.snapshot {
            None => {
                r.append("Staged `");
                r.append(self.repo_name.as_str());
                r.append("`.");
            },
            Some(s) => {
                let short = short_sha(s.commit.as_str());
                match &self.previous_snapshot {
                    None => {
                        r.append("Staged `");
                        r.append(self.repo_name.as_str());
                        r.append("` at `");
                        r.append(s.branch.as_str());
                        r.append("`@");
                        r.append(short.as_str());
                        r.append(" (");
                        r.append(s.commit.as_str());
                        r.append(").");
                    },
                    Some(p) => {
                        r.append("Re-staged `");
                        r.append(self.repo_name.as_str());
                        r.append("` at `");
                        r.append(s.branch.as_str());
                        r.append("`@");
                        r.append(short.as_str());
                        r.append(" (was `");
                        r.append(p.branch.as_str());
                        r.append("`@");
                        r.append(short_sha(p.commit.as_str()).as_str());
                        r.append(").");
                    },
                }
            },
        }
        r.append("\n");
        r
    }
}

} // verus!
