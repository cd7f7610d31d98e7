//! `ws diff` — the changes to the state declaration since the
//! workspace repo's HEAD, told per repo: which repo gained, lost or
//! changed its declared branch.
use vstd::prelude::*;
use vstd::string::StringExecFns;
use crate::cli::Renderable;
use crate::commands::ws::{column_line, column_line_exec, plan_lines, render_explain_plan};
use crate::text::{concat_lines, lines_text, max_byte_width, max_width, views};
use crate::workspace::scope::{in_scope, in_scope_spec};
use crate::workspace::state::{change_name, change_views, diff_states, is_diff, ChangeView, StateChange,
    StateDeclaration};

verus! {

/// `git ws diff`: `on` keeps only the change of one repo.
pub struct WsDiff {
    pub on: Option<String>,
    pub explain: bool,
}

pub struct WorkspaceInfo {
    pub root: String,
    pub name: String,
}

pub struct WsDiffOutput {
    pub workspace: WorkspaceInfo,
    pub changes: Vec<StateChange>,
    pub explain_plan: Option<Vec<String>>,
}

/// `r` with only the changes whose repo is in scope, in order.
pub open spec fn scoped_changes(r: Seq<ChangeView>, scope: Option<Seq<char>>) -> Seq<ChangeView>
    decreases r.len(),
{
    if r.len() == 0 {
        Seq::empty()
    } else if in_scope_spec(scope, change_name(r.last())) {
        scoped_changes(r.drop_last(), scope).push(r.last())
    } else {
        scoped_changes(r.drop_last(), scope)
    }
}

impl WsDiff {
    /// The changes from `head` to `current`, narrowed to the scope when
    /// `--on` was given.
    pub fn changes(&self, head: &StateDeclaration, current: &StateDeclaration, scope: &Option<String>) -> (r: Vec<StateChange>)
        ensures
            exists|all: Seq<ChangeView>| #![auto] is_diff(all, head.repos@, current.repos@) && change_views(r@) == if self.on is Some {
                scoped_changes(all, match scope { Some(s) => Some(s@), None => None })
            } else {
                all
            },
    {
        let all = diff_states(head, current);
        let ghost av = change_views(all@);
        if self.on.is_none() {
            return all;
        }
        let ghost sv = match scope { Some(s) => Some(s@), None => None::<Seq<char>> };
        let mut kept: Vec<StateChange> = Vec::new();
        let mut rest = all;
        let mut i: usize = 0;
        let n = rest.len();
        assert(rest@ =~= all@.skip(0));
        while i < n
            invariant
                i <= n,
                n == av.len(),
                av == change_views(all@),
                rest@ == all@.skip(i as int),
                sv == match scope { Some(s) => Some(s@), None => None::<Seq<char>> },
                change_views(kept@) == scoped_changes(av.take(i as int), sv),
            decreases n - i,
        {
            let c = rest.remove(0);
            assert(c == all@[i as int]);
            assert(rest@ =~= all@.skip(i + 1));
            assert(av.take(i + 1).drop_last() =~= av.take(i as int));
            if in_scope(scope, c.name().as_str()) {
                let ghost kb = kept@;
                kept.push(c);
                assert(change_views(kept@) =~= change_views(kb).push(c@));
            }
            i += 1;
        }
        assert(av.take(i as int) =~= av);
        kept
    }
}

pub open spec fn diff_plan_spec(root: Seq<char>, on: Option<Seq<char>>) -> Seq<Seq<char>> {
    seq![
        "read working-tree state at `"@ + root + "/.workspace/state.toml`"@,
        "git -C "@ + root + " show HEAD:.workspace/state.toml"@,
        "compare the two state declarations and emit per-repo added/removed/changed entries"@,
    ] + match on {
        Some(o) => seq!["filter the change list to entries matching --on (`"@ + o + "`)"@],
        None => Seq::empty(),
    }
}

/// The `--explain` answer of `ws diff`.
pub fn diff_explained(root: &str, workspace_name: &str, on: &Option<String>) -> (r: WsDiffOutput)
    ensures
        r.workspace.root@ == root@,
        r.workspace.name@ == workspace_name@,
        r.changes@.len() == 0,
        r.explain_plan matches Some(p) && views(p@) == diff_plan_spec(root@, match on { Some(o) => Some(o@), None => None }),
{
    let mut a = String::from_str("read working-tree state at `");
    a.append(root);
    a.append("/.workspace/state.toml`");
    let mut b = String::from_str("git -C ");
    b.append(root);
    b.append(" show HEAD:.workspace/state.toml");
    let c = String::from_str("compare the two state declarations and emit per-repo added/removed/changed entries");
    let mut plan = vec![a, b, c];
    assert(views(plan@) =~= diff_plan_spec(root@, None));
    match on {
        Some(o) => {
            let mut d = String::from_str("filter the change list to entries matching --on (`");
            d.append(o.as_str());
            d.append("`)");
            let ghost before = plan@;
            plan.push(d);
            assert(views(plan@) =~= views(before).push(d@));
        },
        None => {},
    }
    assert(views(plan@) =~= diff_plan_spec(root@, match on { Some(o) => Some(o@), None => None }));
    WsDiffOutput {
        workspace: WorkspaceInfo { root: String::from_str(root), name: String::from_str(workspace_name) },
        changes: Vec::new(),
        explain_plan: Some(plan),
    }
}

// ── Change listing (shared with `ws commit`) ────────────────────────

pub open spec fn change_line(c: ChangeView, pad: nat) -> Seq<char> {
    match c {
        ChangeView::Added(n, b) => column_line("  + "@, n, pad, "declared on `"@ + b + "`"@),
        ChangeView::Removed(n, b) => column_line("  - "@, n, pad, "declaration removed (was `"@ + b + "`)"@),
        ChangeView::Changed(n, f, t) => column_line("  ~ "@, n, pad, "`"@ + f + "` → `"@ + t + "`"@),
    }
}

pub open spec fn change_names(cs: Seq<ChangeView>) -> Seq<Seq<char>> {
    cs.map_values(|c: ChangeView| change_name(c))
}

/// One aligned line per change.
pub open spec fn change_lines(cs: Seq<ChangeView>) -> Seq<Seq<char>> {
    cs.map_values(|c: ChangeView| change_line(c, max_width(change_names(cs))))
}

pub fn render_changes(changes: &Vec<StateChange>, lines: &mut Vec<String>)
    ensures
        views(final(lines)@) == views(old(lines)@) + change_lines(change_views(changes@)),
{
    let ghost cs = change_views(changes@);
    let mut names: Vec<String> = Vec::new();
    let mut i: usize = 0;
    while i < changes.len()
        invariant
            i <= changes.len(),
            cs == change_views(changes@),
            views(names@) == change_names(cs).take(i as int),
        decreases changes.len() - i,
    {
        let ghost nb = names@;
        let nm = changes[i].name().clone();
        names.push(nm);
        assert(views(names@) =~= views(nb).push(change_name(cs[i as int])));
        i += 1;
        assert(views(names@) =~= change_names(cs).take(i as int));
    }
    assert(change_names(cs).take(i as int) =~= change_names(cs));
    let pad = max_byte_width(&names);
    let ghost start = views(lines@);
    let mut k: usize = 0;
    while k < changes.len()
        invariant
            k <= changes.len(),
            cs == change_views(changes@),
            pad == max_width(change_names(cs)),
            views(lines@) == start + change_lines(cs).take(k as int),
        decreases changes.len() - k,
    {
        let line = match &changes[k] {
            StateChange::Added { name, branch } => {
                let mut rest = String::from_str("declared on `");
                rest.append(branch.as_str());
                rest.append("`");
                column_line_exec("  + ", name.as_str(), pad, rest.as_str())
            },
            StateChange::Removed { name, branch } => {
                let mut rest = String::from_str("declaration removed (was `");
                rest.append(branch.as_str());
                rest.append("`)");
                column_line_exec("  - ", name.as_str(), pad, rest.as_str())
            },
            StateChange::Changed { name, from, to } => {
                let mut rest = String::from_str("`");
                rest.append(from.as_str());
                rest.append("` → `");
                rest.append(to.as_str());
                rest.append("`");
                column_line_exec("  ~ ", name.as_str(), pad, rest.as_str())
            },
        };
        let ghost lb = lines@;
        lines.push(line);
        assert(views(lines@) =~= views(lb).push(line@));
        k += 1;
        assert(views(lines@) =~= start + change_lines(cs).take(k as int));
    }
    assert(change_lines(cs).take(k as int) =~= change_lines(cs));
}

pub open spec fn raw_diff_hint() -> Seq<char> {
    "(For raw file diffs of manifest.toml or other workspace files, run `git diff` in the workspace root.)"@
}

pub open spec fn diff_lines(o: WsDiffOutput) -> Seq<Seq<char>> {
    seq![
        "Workspace `"@ + o.workspace.name@ + "` — state declaration changes (working tree vs HEAD)"@,
        "Root: "@ + o.workspace.root@,
        Seq::<char>::empty(),
    ] + if o.changes@.len() == 0 {
        seq!["No state declarations changed since HEAD."@, Seq::<char>::empty(), raw_diff_hint()]
    } else {
        change_lines(change_views(o.changes@)) + seq![Seq::<char>::empty(), raw_diff_hint()]
    }
}

impl Renderable for WsDiffOutput {
    open spec fn rendered(&self) -> Seq<char> {
        match self.explain_plan {
            Some(plan) => lines_text(plan_lines("ws diff"@, views(plan@))),
            None => lines_text(diff_lines(*self)),
        }
    }

    fn render_human(&self) -> (r: String) {
        if let Some(plan) = &self.explain_plan {
            return render_explain_plan("ws diff", plan);
        }
        let mut a = String::from_str("Workspace `");
        a.append(self.workspace.name.as_str());
        a.append("` — state declaration changes (working tree vs HEAD)");
        let mut b = String::from_str("Root: ");
        b.append(self.workspace.root.as_str());
        let mut lines = vec![a, b, String::new()];
        let hint = "(For raw file diffs of manifest.toml or other workspace files, run `git diff` in the workspace root.)";
        if self.changes.len() == 0 {
            lines.push(String::from_str("No state declarations changed since HEAD."));
            lines.push(String::new());
            lines.push(String::from_str(hint));
        } else {
            render_changes(&self.changes, &mut lines);
            let ghost lb = lines@;
            lines.push(String::new());
            lines.push(String::from_str(hint));
            assert(views(lines@) =~= views(lb) + seq![Seq::<char>::empty(), raw_diff_hint()]);
        }
        assert(views(lines@) =~= diff_lines(*self));
        concat_lines(&lines)
    }
}

} // verus!
