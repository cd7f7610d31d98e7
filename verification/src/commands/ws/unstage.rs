//! `ws unstage <repo>` — drop a repo's snapshot from the staging
//! area. Unstaging a repo that is not staged succeeds and changes
//! nothing.
use vstd::prelude::*;
use vstd::string::StringExecFns;
use crate::cli::Renderable;
use crate::commands::ws::{one_positional, one_positional_spec, plan_lines, render_explain_plan,
    unknown_repo_error, unknown_repo_msg, PositionalError, PositionalErrorView};
use crate::text::{lines_text, short_sha, short_sha_spec, views};
use crate::workspace::manifest::{first_index, repo_names, Manifest};
use crate::workspace::staged::{RepoStaged, StagedDeclaration};

verus! {

/// `git ws unstage <repo>`.
pub struct WsUnstage {
    pub explain: bool,
}

pub struct WsUnstageOutput {
    pub root: String,
    pub repo_name: String,
    /// The repo had a snapshot, now removed.
    pub was_staged: bool,
    /// The removed snapshot.
    pub removed: Option<RepoStaged>,
    pub explain_plan: Option<Vec<String>>,
}

/// `ws unstage` takes exactly one positional `<repo>` and no flag.
pub open spec fn parse_args_spec(args: Seq<Seq<char>>) -> Result<Seq<char>, Seq<char>> {
    match one_positional_spec(args, false) {
        Ok(s) => Ok(s),
        Err(PositionalErrorView::Flag(s)) => Err("ws unstage: unexpected flag '"@ + s
            + "'. Expected: `ws unstage <repo>` (with optional --explain)."@),
        Err(PositionalErrorView::TooMany) => Err(
            "ws unstage: too many positional arguments. Unstage one repo per invocation: `ws unstage <repo>`."@),
        Err(PositionalErrorView::Missing) => Err(
            "ws unstage: missing required <repo> argument. Usage: `ws unstage <repo>`."@),
    }
}

pub fn parse_args(args: &Vec<String>) -> (r: Result<String, String>)
    ensures
        match (r, parse_args_spec(views(args@))) {
            (Ok(a), Ok(b)) => a@ == b,
            (Err(a), Err(b)) => a@ == b,
            _ => false,
        },
{
    match one_positional(args, false) {
        Ok(s) => Ok(s),
        Err(PositionalError::Flag(s)) => {
            let mut m = String::from_str("ws unstage: unexpected flag '");
            m.append(s.as_str());
            m.append("'. Expected: `ws unstage <repo>` (with optional --explain).");
            Err(m)
        },
        Err(PositionalError::TooMany) => Err(String::from_str(
            "ws unstage: too many positional arguments. Unstage one repo per invocation: `ws unstage <repo>`.")),
        Err(PositionalError::Missing) => Err(String::from_str(
            "ws unstage: missing required <repo> argument. Usage: `ws unstage <repo>`.")),
    }
}

pub open spec fn unstage_plan_spec(root: Seq<char>, repo: Seq<char>) -> Seq<Seq<char>> {
    seq![
        "load `"@ + root + "/.workspace/local/staged.toml` (treat missing as empty)"@,
        "remove the entry for `"@ + repo + "`, if present"@,
        "write `"@ + root + "/.workspace/local/staged.toml` (header + body, even when body is empty)"@,
    ]
}

impl WsUnstage {
    /// Check the repo against the manifest; under `--explain` answer
    /// with the plan, otherwise with `None` (go on and unstage).
    pub fn start(&self, repo_name: &str, root: &str, manifest: &Manifest) -> (r: Result<Option<WsUnstageOutput>, String>)
        ensures
            match first_index(repo_names(manifest.repos@), repo_name@) {
                None => r matches Err(e) && e@ == unknown_repo_msg("ws unstage"@, repo_name@, manifest.repos@),
                Some(_) => if self.explain {
                    r matches Ok(Some(o)) && o.root@ == root@ && o.repo_name@ == repo_name@ && !o.was_staged
                        && o.removed is None
                        && (o.explain_plan matches Some(p) && views(p@) == unstage_plan_spec(root@, repo_name@))
                } else {
                    r matches Ok(None)
                },
            },
    {
        if manifest.find_repo(repo_name).is_none() {
            return Err(unknown_repo_error("ws unstage", repo_name, manifest));
        }
        if self.explain {
            let mut a = String::from_str("load `");
            a.append(root);
            a.append("/.workspace/local/staged.toml` (treat missing as empty)");
            let mut b = String::from_str("remove the entry for `");
            b.append(repo_name);
            b.append("`, if present");
            let mut c = String::from_str("write `");
            c.append(root);
            c.append("/.workspace/local/staged.toml` (header + body, even when body is empty)");
            let plan = vec![a, b, c];
            assert(views(plan@) =~= unstage_plan_spec(root@, repo_name@));
            return Ok(Some(WsUnstageOutput {
                root: String::from_str(root),
                repo_name: String::from_str(repo_name),
                was_staged: false,
                removed: None,
                explain_plan: Some(plan),
            }));
        }
        Ok(None)
    }
}

/// Drop `repo_name` from the staging area and report what was there.
/// The staging area only needs saving when `was_staged` is set.
pub fn unstage_repo(root: String, repo_name: String, staged: &mut StagedDeclaration) -> (r: WsUnstageOutput)
    ensures
        final(staged).repos@ == old(staged).repos@.remove(repo_name@),
        r.root@ == root@,
        r.repo_name@ == repo_name@,
        r.was_staged == old(staged).repos@.contains_key(repo_name@),
        match r.removed {
            Some(p) => old(staged).repos@.contains_key(repo_name@) && p@ == old(staged).repos@[repo_name@],
            None => !old(staged).repos@.contains_key(repo_name@),
        },
        r.explain_plan is None,
{
    let removed = staged.unstage(repo_name.as_str());
    let was_staged = removed.is_some();
    WsUnstageOutput { root, repo_name, was_staged, removed, explain_plan: None }
}

pub open spec fn unstage_line(o: WsUnstageOutput) -> Seq<char> {
    match o.removed {
        Some(p) => "Unstaged `"@ + o.repo_name@ + "` (was `"@ + p.branch@ + "`@"@ + short_sha_spec(p.commit@) + ")."@,
        None => "`"@ + o.repo_name@ + "` was not staged — nothing to do."@,
    }
}

impl Renderable for WsUnstageOutput {
    open spec fn rendered(&self) -> Seq<char> {
        match self.explain_plan {
            Some(plan) => lines_text(plan_lines("ws unstage"@, views(plan@))),
            None => unstage_line(*self) + "\n"@,
        }
    }

    fn render_human(&self) -> (r: String) {
        if let Some(plan) = &self.explain_plan {
            return render_explain_plan("ws unstage", plan);
        }
        let mut r = String::new();
        match &self.removed {
            Some(p) => {
                r.append("Unstaged `");
                r.append(self.repo_name.as_str());
                r.append("` (was `");
                r.append(p.branch.as_str());
                r.append("`@");
                r.append(short_sha(p.commit.as_str()).as_str());
                r.append(").");
            },
            None => {
                r.append("`");
                r.append(self.repo_name.as_str());
                r.append("` was not staged — nothing to do.");
            },
        }
        r.append("\n");
        r
    }
}

} // verus!
