//! `ws reset` — empty the staging area. It takes no target: dropping
//! one entry is `ws unstage <repo>`.
use vstd::prelude::*;
use vstd::string::StringExecFns;
use crate::cli::Renderable;
use crate::commands::ws::{column_line, column_line_exec, plan_lines, render_explain_plan};
use crate::text::{concat_lines, decimal, decimal_of, lines_text, max_byte_width, max_width, short_sha,
    short_sha_spec, starts_with, starts_with_spec, views};
use crate::workspace::names::names_sorted;
use crate::workspace::staged::StagedDeclaration;

verus! {

/// `git ws reset`.
pub struct WsReset {
    pub on: Option<String>,
    pub explain: bool,
}

pub struct WsResetOutput {
    pub root: String,
    /// The entries cleared, sorted by repo name.
    pub cleared: Vec<ClearedEntry>,
    /// Nothing was staged.
    pub was_empty: bool,
    pub explain_plan: Option<Vec<String>>,
}

pub struct ClearedEntry {
    pub name: String,
    pub branch: String,
    pub commit: String,
}

pub open spec fn cleared_view(e: ClearedEntry) -> (Seq<char>, (Seq<char>, Seq<char>)) {
    (e.name@, (e.branch@, e.commit@))
}

pub open spec fn cleared_views(es: Seq<ClearedEntry>) -> Seq<(Seq<char>, (Seq<char>, Seq<char>))> {
    es.map_values(|e: ClearedEntry| cleared_view(e))
}

/// The refusal of `--on`: `ws reset` has no target.
pub open spec fn on_refusal_msg(on: Seq<char>) -> Seq<char> {
    "ws reset: clears the entire staging area; it does not take a target. Use `ws unstage "@ + on
        + "` to drop a single entry."@
}

pub fn on_refusal(on: &str) -> (r: String)
    ensures
        r@ == on_refusal_msg(on@),
{
    let mut m = String::from_str("ws reset: clears the entire staging area; it does not take a target. Use `ws unstage ");
    m.append(on);
    m.append("` to drop a single entry.");
    m
}

/// `ws reset` accepts no argument; the first one is refused.
pub open spec fn reject_positional_spec(args: Seq<Seq<char>>) -> Result<(), Seq<char>> {
    if args.len() == 0 {
        Ok(())
    } else if starts_with_spec(args[0], "--"@) {
        Err("ws reset: unexpected flag '"@ + args[0]
            + "'. `ws reset` clears the staging area and accepts only `--explain`. To drop a single entry, use `ws unstage <repo>`."@)
    } else {
        Err("ws reset: unexpected argument '"@ + args[0]
            + "'. `ws reset` clears the entire staging area; it does not take a target. To drop a single entry, use `ws unstage "@
            + args[0] + "`."@)
    }
}

pub fn reject_positional(args: &Vec<String>) -> (r: Result<(), String>)
    ensures
        match (r, reject_positional_spec(views(args@))) {
            (Ok(_), Ok(_)) => true,
            (Err(a), Err(b)) => a@ == b,
            _ => false,
        },
{
    if args.len() == 0 {
        return Ok(());
    }
    let s = args[0].as_str();
    if starts_with(s, "--") {
        let mut m = String::from_str("ws reset: unexpected flag '");
        m.append(s);
        m.append("'. `ws reset` clears the staging area and accepts only `--explain`. To drop a single entry, use `ws unstage <repo>`.");
        return Err(m);
    }
    let mut m = String::from_str("ws reset: unexpected argument '");
    m.append(s);
    m.append("'. `ws reset` clears the entire staging area; it does not take a target. To drop a single entry, use `ws unstage ");
    m.append(s);
    m.append("`.");
    Err(m)
}

pub open spec fn reset_plan_spec(root: Seq<char>) -> Seq<Seq<char>> {
    seq![
        "load `"@ + root + "/.workspace/local/staged.toml` (treat missing as empty)"@,
        "drop every staged entry"@,
        "write `"@ + root + "/.workspace/local/staged.toml` with the header preserved and an empty body"@,
    ]
}

/// The `--explain` answer of `ws reset`.
pub fn reset_explained(root: &str) -> (r: WsResetOutput)
    ensures
        r.root@ == root@,
        r.cleared@.len() == 0,
        r.was_empty,
        r.explain_plan matches Some(p) && views(p@) == reset_plan_spec(root@),
{
    let mut a = String::from_str("load `");
    a.append(root);
    a.append("/.workspace/local/staged.toml` (treat missing as empty)");
    let b = String::from_str("drop every staged entry");
    let mut c = String::from_str("write `");
    c.append(root);
    c.append("/.workspace/local/staged.toml` with the header preserved and an empty body");
    let plan = vec![a, b, c];
    assert(views(plan@) =~= reset_plan_spec(root@));
    WsResetOutput { root: String::from_str(root), cleared: Vec::new(), was_empty: true, explain_plan: Some(plan) }
}

/// Every staged entry, in name order.
pub fn cleared_entries(staged: &StagedDeclaration) -> (r: Vec<ClearedEntry>)
    ensures
        cleared_views(r@) == staged.repos.listing(),
        names_sorted(cleared_views(r@)),
{
    proof {
        use_type_invariant(&staged.repos);
    }
    let mut r: Vec<ClearedEntry> = Vec::new();
    let mut i: usize = 0;
    while i < staged.repos.len()
        invariant
            i <= staged.repos.listing().len(),
            cleared_views(r@) == staged.repos.listing().take(i as int),
        decreases staged.repos.listing().len() - i,
    {
        let (name, snap) = staged.repos.entry(i);
        let ghost before = r@;
        r.push(ClearedEntry { name: name.clone(), branch: snap.branch.clone(), commit: snap.commit.clone() });
        assert(cleared_views(r@) =~= cleared_views(before).push(staged.repos.listing()[i as int]));
        i += 1;
        assert(cleared_views(r@) =~= staged.repos.listing().take(i as int));
    }
    assert(staged.repos.listing().take(i as int) =~= staged.repos.listing());
    r
}

/// Empty the staging area and report what it held.
pub fn reset_staging(root: String, staged: &mut StagedDeclaration) -> (r: WsResetOutput)
    ensures
        final(staged).repos@ == Map::<Seq<char>, (Seq<char>, Seq<char>)>::empty(),
        r.root@ == root@,
        cleared_views(r.cleared@) == old(staged).repos.listing(),
        r.was_empty == (old(staged).repos@.dom() == Set::<Seq<char>>::empty()),
        r.explain_plan is None,
{
    let was_empty = staged.is_empty();
    let cleared = cleared_entries(staged);
    staged.repos.clear();
    WsResetOutput { root, cleared, was_empty, explain_plan: None }
}

pub open spec fn entry_names(es: Seq<ClearedEntry>) -> Seq<Seq<char>> {
    es.map_values(|e: ClearedEntry| e.name@)
}

pub open spec fn cleared_lines(es: Seq<ClearedEntry>, pad: nat) -> Seq<Seq<char>> {
    es.map_values(|e: ClearedEntry|
        column_line("  - "@, e.name@, pad, "was `"@ + e.branch@ + "`@"@ + short_sha_spec(e.commit@)))
}

pub open spec fn reset_lines(o: WsResetOutput) -> Seq<Seq<char>> {
    let n = o.cleared@.len();
    if o.was_empty {
        seq!["Staging area was already empty — nothing to do."@]
    } else {
        seq!["Cleared "@ + decimal_of(n) + " staged "@ + (if n == 1 { "entry"@ } else { "entries"@ }) + ":"@]
            + cleared_lines(o.cleared@, max_width(entry_names(o.cleared@)))
    }
}

impl Renderable for WsResetOutput {
    open spec fn rendered(&self) -> Seq<char> {
        match self.explain_plan {
            Some(plan) => lines_text(plan_lines("ws reset"@, views(plan@))),
            None => lines_text(reset_lines(*self)),
        }
    }

    fn render_human(&self) -> (r: String) {
        if let Some(plan) = &self.explain_plan {
            return render_explain_plan("ws reset", plan);
        }
        let mut lines: Vec<String> = Vec::new();
        if self.was_empty {
            lines.push(String::from_str("Staging area was already empty — nothing to do."));
            assert(views(lines@) =~= reset_lines(*self));
            return concat_lines(&lines);
        }
        let n = self.cleared.len();
        let mut head = String::from_str("Cleared ");
        head.append(decimal(n).as_str());
        head.append(" staged ");
        head.append(if n == 1 { "entry" } else { "entries" });
        head.append(":");
        lines.push(head);
        let mut names: Vec<String> = Vec::new();
        let mut i: usize = 0;
        while i < n
            invariant
                i <= n,
                n == self.cleared@.len(),
                views(names@) == entry_names(self.cleared@).take(i as int),
            decreases n - i,
        {
            let ghost nb = names@;
            names.push(self.cleared[i].name.clone());
            assert(views(names@) =~= views(nb).push(self.cleared@[i as int].name@));
            i += 1;
            assert(views(names@) =~= entry_names(self.cleared@).take(i as int));
        }
        assert(entry_names(self.cleared@).take(i as int) =~= entry_names(self.cleared@));
        let pad = max_byte_width(&names);
        let ghost start = views(lines@);
        let mut k: usize = 0;
        while k < n
            invariant
                k <= n,
                n == self.cleared@.len(),
                pad == max_width(entry_names(self.cleared@)),
                views(lines@) == start + cleared_lines(self.cleared@, pad as nat).take(k as int),
            decreases n - k,
        {
            let e = &self.cleared[k];
            let mut rest = String::from_str("was `");
            rest.append(e.branch.as_str());
            rest.append("`@");
            rest.append(short_sha(e.commit.as_str()).as_str());
            let line = column_line_exec("  - ", e.name.as_str(), pad, rest.as_str());
            let ghost lb = lines@;
            lines.push(line);
            assert(views(lines@) =~= views(lb).push(line@));
            k += 1;
            assert(views(lines@) =~= start + cleared_lines(self.cleared@, pad as nat).take(k as int));
        }
        assert(cleared_lines(self.cleared@, pad as nat).take(k as int) =~= cleared_lines(self.cleared@, pad as nat));
        assert(views(lines@) =~= reset_lines(*self));
        concat_lines(&lines)
    }
}

} // verus!
