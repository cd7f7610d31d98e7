//! `ws status` — one view of every child repo: its declared branch,
//! its working state, and what is staged for the next workspace
//! commit. Repos that are clean and on their declared branch are
//! "boring" and, in long listings, summarised as a count.
use vstd::prelude::*;
use vstd::string::StringExecFns;
use crate::cli::Renderable;
use crate::commands::ws::{column_line, column_line_exec, plan_lines, render_explain_plan, ABBREVIATE_THRESHOLD,
    declared_branch, declared_branch_spec};
use crate::git::porcelain::{any_changes, InProgressOp, RepoState};
use crate::text::{concat_lines, decimal, decimal_of, join, join_seq, join_path, lines_text, max_byte_width,
    max_width, opt_view, path_join, short_sha, short_sha_spec, str_eq, views};
use crate::workspace::manifest::Manifest;
use crate::workspace::scope::{in_scope, in_scope_spec};
use crate::workspace::staged::{RepoStaged, StagedDeclaration};
use crate::workspace::state::StateDeclaration;

use crate::commands::what_now::rules::in_progress::git_verb;
verus! {

/// `git ws status`: `all` lists every repo; `on` narrows to one repo;
/// `explain` only describes the reads it would make.
pub struct WsStatus {
    pub all: bool,
    pub on: Option<String>,
    pub explain: bool,
}

pub struct WorkspaceInfo {
    pub root: String,
    pub name: String,
    pub default_branch: String,
}

/// The status of one declared repo.
pub struct RepoStatus {
    pub name: String,
    /// Location relative to the workspace root.
    pub path: String,
    /// The effective declared branch.
    pub declared_branch: String,
    /// Clean, on the declared branch, and not staged.
    pub clean_on_declared: bool,
    /// The repo's directory does not exist.
    pub missing_from_disk: bool,
    /// The working state, when the repo could be read.
    pub state: Option<RepoState>,
    /// The staged snapshot, when the repo is staged.
    pub staging: Option<RepoStaged>,
    /// The staged snapshot no longer matches the working state.
    pub staging_drifted: bool,
}

pub struct WsStatusOutput {
    pub workspace: WorkspaceInfo,
    pub repos: Vec<RepoStatus>,
    /// Render-time only: list every repo.
    pub all: bool,
    /// The plan, under `--explain` (then `repos` is empty).
    pub explain_plan: Option<Vec<String>>,
}

// ── Classification ──────────────────────────────────────────────────

/// A repo is boring when it is not staged, was read, is on a branch
/// with commits, has nothing in progress, is level with its upstream,
/// has a clean working tree, and is on its declared branch.
pub open spec fn boring(state: Option<RepoState>, declared: Seq<char>, has_staging: bool) -> bool {
    !has_staging && match state {
        None => false,
        Some(rs) => {
            &&& !rs.branch.is_detached
            &&& !rs.branch.is_initial
            &&& rs.in_progress == InProgressOp::Idle
            &&& rs.branch.ahead == 0
            &&& rs.branch.behind == 0
            &&& !any_changes(rs.working_tree)
            &&& opt_view(rs.branch.name) == Some(declared)
        },
    }
}

fn opt_is(o: &Option<String>, s: &str) -> (r: bool)
    ensures
        r == (opt_view(*o) == Some(s@)),
{
    match o {
        Some(x) => str_eq(x.as_str(), s),
        None => false,
    }
}

pub fn is_boring(state: &Option<RepoState>, declared_branch: &str, has_staging: bool) -> (r: bool)
    ensures
        r == boring(*state, declared_branch@, has_staging),
{
    if has_staging {
        return false;
    }
    let rs = match state {
        Some(rs) => rs,
        None => return false,
    };
    if rs.branch.is_detached || rs.branch.is_initial {
        return false;
    }
    if rs.in_progress.is_active() {
        return false;
    }
    if rs.branch.ahead != 0 || rs.branch.behind != 0 {
        return false;
    }
    if !rs.working_tree.is_clean() {
        return false;
    }
    opt_is(&rs.branch.name, declared_branch)
}

/// The staged `(branch, commit)` differs from the working state; never
/// when the comparison is impossible: no working state, or a detached
/// or not-yet-committed repo.
pub open spec fn drifts(staged: (Seq<char>, Seq<char>), state: Option<RepoState>) -> bool {
    match state {
        None => false,
        Some(rs) => !rs.branch.is_detached && !rs.branch.is_initial
            && (opt_view(rs.branch.name) != Some(staged.0) || opt_view(rs.branch.oid) != Some(staged.1)),
    }
}

pub fn staging_drifts(staged: &RepoStaged, state: &Option<RepoState>) -> (r: bool)
    ensures
        r == drifts(staged@, *state),
{
    match state {
        None => false,
        Some(rs) => !rs.branch.is_detached && !rs.branch.is_initial
            && (!opt_is(&rs.branch.name, staged.branch.as_str()) || !opt_is(&rs.branch.oid, staged.commit.as_str())),
    }
}

pub open spec fn in_progress_label_spec(op: InProgressOp) -> Option<Seq<char>> {
    match op {
        InProgressOp::Idle => None,
        InProgressOp::Merge => Some("merge in progress"@),
        InProgressOp::Rebase => Some("rebase in progress"@),
        InProgressOp::CherryPick => Some("cherry-pick in progress"@),
        InProgressOp::Revert => Some("revert in progress"@),
        InProgressOp::Bisect => Some("bisect in progress"@),
    }
}

/// The status label of an operation in progress names that operation:
/// its git command followed by ` in progress`; a repo with nothing in
/// progress gets no label.
pub proof fn law_in_progress_label_names_its_operation(op: InProgressOp)
    ensures
        op == InProgressOp::Idle ==> in_progress_label_spec(op) is None,
        op != InProgressOp::Idle ==> in_progress_label_spec(op) == Some(git_verb(op) + " in progress"@),
{
    reveal_strlit(" in progress");
    match op {
        InProgressOp::Merge => {
            reveal_strlit("merge");
            reveal_strlit("merge in progress");
            assert("merge"@ + " in progress"@ =~= "merge in progress"@);
        },
        InProgressOp::Rebase => {
            reveal_strlit("rebase");
            reveal_strlit("rebase in progress");
            assert("rebase"@ + " in progress"@ =~= "rebase in progress"@);
        },
        InProgressOp::CherryPick => {
            reveal_strlit("cherry-pick");
            reveal_strlit("cherry-pick in progress");
            assert("cherry-pick"@ + " in progress"@ =~= "cherry-pick in progress"@);
        },
        InProgressOp::Revert => {
            reveal_strlit("revert");
            reveal_strlit("revert in progress");
            assert("revert"@ + " in progress"@ =~= "revert in progress"@);
        },
        InProgressOp::Bisect => {
            reveal_strlit("bisect");
            reveal_strlit("bisect in progress");
            assert("bisect"@ + " in progress"@ =~= "bisect in progress"@);
        },
        InProgressOp::Idle => {},
    }
}

pub fn in_progress_label(op: InProgressOp) -> (r: Option<&'static str>)
    ensures
        op == InProgressOp::Idle ==> r is None,
        op != InProgressOp::Idle ==> (r matches Some(a) && a@ == git_verb(op) + " in progress"@),
        match (r, in_progress_label_spec(op)) {
            (Some(a), Some(b)) => a@ == b,
            (None, None) => true,
            _ => false,
        },
{
    proof {
        law_in_progress_label_names_its_operation(op);
    }
    match op {
        InProgressOp::Idle => None,
        InProgressOp::Merge => Some("merge in progress"),
        InProgressOp::Rebase => Some("rebase in progress"),
        InProgressOp::CherryPick => Some("cherry-pick in progress"),
        InProgressOp::Revert => Some("revert in progress"),
        InProgressOp::Bisect => Some("bisect in progress"),
    }
}

pub open spec fn plural_s_spec(n: nat) -> Seq<char> {
    if n == 1 { Seq::<char>::empty() } else { "s"@ }
}

pub fn plural_s(n: usize) -> (r: &'static str)
    ensures
        r@ == plural_s_spec(n as nat),
{
    proof {
        reveal_strlit("");
    }
    if n == 1 { "" } else { "s" }
}

// ── One-line description ────────────────────────────────────────────

pub open spec fn branch_part(st: RepoState, declared: Seq<char>) -> Seq<char> {
    if st.branch.is_initial {
        "fresh repo, declared `"@ + declared + "`"@
    } else if st.branch.is_detached {
        "detached HEAD, declared `"@ + declared + "`"@
    } else {
        match st.branch.name {
            Some(c) => if c@ == declared {
                "on `"@ + c@ + "`"@
            } else {
                "on `"@ + c@ + "` (declared `"@ + declared + "`)"@
            },
            None => "declared `"@ + declared + "`"@,
        }
    }
}

pub open spec fn opt_part(b: bool, s: Seq<char>) -> Seq<Seq<char>> {
    if b { seq![s] } else { Seq::empty() }
}

pub open spec fn ahead_behind(ahead: nat, behind: nat) -> Seq<char> {
    (if ahead > 0 { "↑"@ + decimal_of(ahead) } else { Seq::<char>::empty() })
    + (if behind > 0 { (if ahead > 0 { " "@ } else { Seq::<char>::empty() }) + "↓"@ + decimal_of(behind) } else { Seq::<char>::empty() })
}

pub open spec fn wt_parts(st: RepoState) -> Seq<Seq<char>> {
    let wt = st.working_tree;
    opt_part(wt.unmerged > 0, decimal_of(wt.unmerged as nat) + " conflict"@ + plural_s_spec(wt.unmerged as nat))
    + opt_part(wt.staged > 0, decimal_of(wt.staged as nat) + " staged"@)
    + opt_part(wt.unstaged > 0, decimal_of(wt.unstaged as nat) + " unstaged"@)
    + opt_part(wt.untracked > 0, decimal_of(wt.untracked as nat) + " untracked"@)
}

pub open spec fn staging_part(staging: Option<RepoStaged>, drifted: bool) -> Seq<Seq<char>> {
    match staging {
        Some(st) => seq!["staged at `"@ + st.branch@ + "`@"@ + short_sha_spec(st.commit@)
            + (if drifted { " (drifted from working)"@ } else { Seq::<char>::empty() })],
        None => Seq::empty(),
    }
}

/// The facts about a readable repo, in reading order.
pub open spec fn describe_parts(r: RepoStatus, st: RepoState) -> Seq<Seq<char>> {
    seq![branch_part(st, r.declared_branch@)]
    + (match in_progress_label_spec(st.in_progress) { Some(l) => seq![l], None => Seq::empty() })
    + opt_part(st.branch.ahead > 0 || st.branch.behind > 0, ahead_behind(st.branch.ahead as nat, st.branch.behind as nat))
    + opt_part(wt_parts(st).len() > 0, join_seq(wt_parts(st), ", "@))
    + staging_part(r.staging, r.staging_drifted)
}

/// One line about a repo: why it cannot be read, or its facts joined
/// by ` — `.
pub open spec fn describe_spec(r: RepoStatus) -> Seq<char> {
    if r.missing_from_disk {
        "missing on disk (declared `"@ + r.declared_branch@ + "`, expected at `"@ + r.path@ + "`)"@
    } else {
        match r.state {
            None => "unreadable (declared `"@ + r.declared_branch@ + "`, expected at `"@ + r.path@ + "`)"@,
            Some(st) => if describe_parts(r, st).len() == 0 {
                "clean"@
            } else {
                join_seq(describe_parts(r, st), " — "@)
            },
        }
    }
}

fn push_line(v: &mut Vec<String>, s: String)
    ensures
        views(final(v)@) == views(old(v)@).push(s@),
{
    let ghost before = v@;
    v.push(s);
    assert(views(v@) =~= views(before).push(s@));
}

fn counted_suffix(n: usize, suffix: &str) -> (r: String)
    ensures
        r@ == decimal_of(n as nat) + suffix@,
{
    let mut r = decimal(n);
    r.append(suffix);
    r
}

fn branch_part_exec(state: &RepoState, d: &str) -> (r: String)
    ensures
        r@ == branch_part(*state, d@),
{
    if state.branch.is_initial {
        let mut p = String::from_str("fresh repo, declared `");
        p.append(d);
        p.append("`");
        p
    } else if state.branch.is_detached {
        let mut p = String::from_str("detached HEAD, declared `");
        p.append(d);
        p.append("`");
        p
    } else {
        match &state.branch.name {
            Some(c) => {
                let mut p = String::from_str("on `");
                p.append(c.as_str());
                if str_eq(c.as_str(), d) {
                    p.append("`");
                } else {
                    p.append("` (declared `");
                    p.append(d);
                    p.append("`)");
                }
                p
            },
            None => {
                let mut p = String::from_str("declared `");
                p.append(d);
                p.append("`");
                p
            },
        }
    }
}

fn ahead_behind_exec(ahead: usize, behind: usize) -> (r: String)
    ensures
        r@ == ahead_behind(ahead as nat, behind as nat),
{
    let mut a = String::new();
    if ahead > 0 {
        a.append("↑");
        a.append(decimal(ahead).as_str());
    }
    assert(a@ == (if ahead > 0 { "↑"@ + decimal_of(ahead as nat) } else { Seq::<char>::empty() }));
    let mut b = String::new();
    if behind > 0 {
        if ahead > 0 {
            b.append(" ");
        }
        b.append("↓");
        b.append(decimal(behind).as_str());
    }
    assert(b@ == (if behind > 0 { (if ahead > 0 { " "@ } else { Seq::<char>::empty() }) + "↓"@ + decimal_of(behind as nat) } else { Seq::<char>::empty() }));
    a.append(b.as_str());
    a
}

fn wt_parts_exec(state: &RepoState) -> (r: Vec<String>)
    ensures
        views(r@) == wt_parts(*state),
{
    let wt = state.working_tree;
    let mut wtp: Vec<String> = Vec::new();
    if wt.unmerged > 0 {
        let mut c = counted_suffix(wt.unmerged, " conflict");
        c.append(plural_s(wt.unmerged));
        push_line(&mut wtp, c);
    }
    if wt.staged > 0 {
        push_line(&mut wtp, counted_suffix(wt.staged, " staged"));
    }
    if wt.unstaged > 0 {
        push_line(&mut wtp, counted_suffix(wt.unstaged, " unstaged"));
    }
    if wt.untracked > 0 {
        push_line(&mut wtp, counted_suffix(wt.untracked, " untracked"));
    }
    assert(views(wtp@) =~= wt_parts(*state));
    wtp
}

fn staging_part_exec(staging: &Option<RepoStaged>, drifted: bool) -> (r: Vec<String>)
    ensures
        views(r@) == staging_part(*staging, drifted),
{
    let mut v: Vec<String> = Vec::new();
    match staging {
        Some(st) => {
            let mut p = String::from_str("staged at `");
            p.append(st.branch.as_str());
            p.append("`@");
            p.append(short_sha(st.commit.as_str()).as_str());
            if drifted {
                p.append(" (drifted from working)");
            }
            push_line(&mut v, p);
        },
        None => {},
    }
    assert(views(v@) =~= staging_part(*staging, drifted));
    v
}

fn append_all(v: &mut Vec<String>, w: Vec<String>)
    ensures
        views(final(v)@) == views(old(v)@) + views(w@),
{
    let ghost start = views(v@);
    let mut i: usize = 0;
    while i < w.len()
        invariant
            i <= w.len(),
            views(v@) == start + views(w@).take(i as int),
        decreases w.len() - i,
    {
        push_line(v, w[i].clone());
        i += 1;
        assert(views(v@) =~= start + views(w@).take(i as int));
    }
    assert(views(w@).take(i as int) =~= views(w@));
}

fn describe_parts_exec(repo: &RepoStatus, state: &RepoState) -> (r: Vec<String>)
    ensures
        views(r@) == describe_parts(*repo, *state),
{
    let mut parts: Vec<String> = Vec::new();
    push_line(&mut parts, branch_part_exec(state, repo.declared_branch.as_str()));
    let ghost p1 = views(parts@);
    match in_progress_label(state.in_progress) {
        Some(l) => push_line(&mut parts, String::from_str(l)),
        None => {},
    }
    let ghost p2 = views(parts@);
    assert(p2 == p1 + match in_progress_label_spec(state.in_progress) { Some(l) => seq![l], None => Seq::<Seq<char>>::empty() });
    if state.branch.ahead > 0 || state.branch.behind > 0 {
        push_line(&mut parts, ahead_behind_exec(state.branch.ahead, state.branch.behind));
    }
    let ghost p3 = views(parts@);
    assert(p3 == p2 + opt_part(state.branch.ahead > 0 || state.branch.behind > 0,
        ahead_behind(state.branch.ahead as nat, state.branch.behind as nat)));
    let wtp = wt_parts_exec(state);
    if wtp.len() > 0 {
        push_line(&mut parts, join(&wtp, ", "));
    }
    let ghost p4 = views(parts@);
    assert(p4 == p3 + opt_part(wt_parts(*state).len() > 0, join_seq(wt_parts(*state), ", "@)));
    append_all(&mut parts, staging_part_exec(&repo.staging, repo.staging_drifted));
    assert(views(parts@) =~= describe_parts(*repo, *state));
    parts
}

/// One-line description of a repo for the human listing.
pub fn describe_repo(repo: &RepoStatus) -> (r: String)
    ensures
        r@ == describe_spec(*repo),
{
    if repo.missing_from_disk {
        let mut r = String::from_str("missing on disk (declared `");
        r.append(repo.declared_branch.as_str());
        r.append("`, expected at `");
        r.append(repo.path.as_str());
        r.append("`)");
        return r;
    }
    match &repo.state {
        Some(state) => {
            let parts = describe_parts_exec(repo, state);
            if parts.len() == 0 {
                String::from_str("clean")
            } else {
                join(&parts, " — ")
            }
        },
        None => {
            let mut r = String::from_str("unreadable (declared `");
            r.append(repo.declared_branch.as_str());
            r.append("`, expected at `");
            r.append(repo.path.as_str());
            r.append("`)");
            r
        },
    }
}

// ── Building the report ─────────────────────────────────────────────

/// A declared repo in scope, and where it lives.
pub struct StatusTarget {
    pub name: String,
    /// Relative location: the manifest's `path`, or `src/<name>`.
    pub rel_path: String,
    /// The workspace root joined with the relative location.
    pub abs_path: String,
}

pub open spec fn status_rel_path(r: crate::workspace::manifest::RepoEntry) -> Seq<char> {
    match r.path {
        Some(p) => p@,
        None => "src/"@ + r.name@,
    }
}

pub open spec fn target_is(t: StatusTarget, root: Seq<char>, r: crate::workspace::manifest::RepoEntry) -> bool {
    t.name@ == r.name@ && t.rel_path@ == status_rel_path(r) && t.abs_path@ == path_join(root, status_rel_path(r))
}

/// The repos in `repos` that are in scope, in manifest order.
pub open spec fn scoped(repos: Seq<crate::workspace::manifest::RepoEntry>, scope: Option<Seq<char>>) -> Seq<crate::workspace::manifest::RepoEntry>
    decreases repos.len(),
{
    if repos.len() == 0 {
        Seq::empty()
    } else if in_scope_spec(scope, repos.last().name@) {
        scoped(repos.drop_last(), scope).push(repos.last())
    } else {
        scoped(repos.drop_last(), scope)
    }
}

pub open spec fn scope_view(scope: Option<String>) -> Option<Seq<char>> {
    match scope {
        Some(s) => Some(s@),
        None => None,
    }
}

/// The in-scope repos and where each lives.
pub fn status_targets(root: &str, manifest: &Manifest, scope: &Option<String>) -> (r: Vec<StatusTarget>)
    ensures
        r@.len() == scoped(manifest.repos@, scope_view(*scope)).len(),
        forall|i: int| 0 <= i < r@.len() ==> target_is(#[trigger] r@[i], root@, scoped(manifest.repos@, scope_view(*scope))[i]),
{
    let ghost sv = scope_view(*scope);
    let mut r: Vec<StatusTarget> = Vec::new();
    let mut i: usize = 0;
    while i < manifest.repos.len()
        invariant
            i <= manifest.repos.len(),
            sv == scope_view(*scope),
            r@.len() == scoped(manifest.repos@.take(i as int), sv).len(),
            forall|k: int| 0 <= k < r@.len() ==> target_is(#[trigger] r@[k], root@, scoped(manifest.repos@.take(i as int), sv)[k]),
        decreases manifest.repos.len() - i,
    {
        let repo = &manifest.repos[i];
        assert(manifest.repos@.take(i + 1).drop_last() =~= manifest.repos@.take(i as int));
        if in_scope(scope, repo.name.as_str()) {
            let rel = match &repo.path {
                Some(p) => p.clone(),
                None => {
                    let mut s = String::from_str("src/");
                    s.append(repo.name.as_str());
                    s
                },
            };
            let abs = join_path(root, rel.as_str());
            r.push(StatusTarget { name: repo.name.clone(), rel_path: rel, abs_path: abs });
        }
        i += 1;
    }
    assert(manifest.repos@.take(i as int) =~= manifest.repos@);
    r
}

/// What reading a repo's directory found: whether it exists, and its
/// working state when git could read it.
pub struct Inspection {
    pub state: Option<RepoState>,
    pub missing: bool,
}

/// The status row of one repo, from what was read.
pub open spec fn status_row_is(
    r: RepoStatus,
    t: StatusTarget,
    declared: Seq<char>,
    insp: Inspection,
    staging: Option<(Seq<char>, Seq<char>)>,
) -> bool {
    &&& r.name@ == t.name@
    &&& r.path@ == t.rel_path@
    &&& r.declared_branch@ == declared
    &&& r.missing_from_disk == insp.missing
    &&& r.state == insp.state
    &&& match staging {
        Some(s) => r.staging matches Some(st) && st@ == s,
        None => r.staging is None,
    }
    &&& r.staging_drifted == match staging { Some(s) => drifts(s, insp.state), None => false }
    &&& r.clean_on_declared == boring(insp.state, declared, staging is Some)
}

/// The report: one row per target, from its inspection, its declared
/// branch and its staged snapshot.
pub fn build_status(
    root: &str,
    manifest: &Manifest,
    state: Option<&StateDeclaration>,
    staged: &StagedDeclaration,
    targets: Vec<StatusTarget>,
    inspections: Vec<Inspection>,
    all: bool,
) -> (r: WsStatusOutput)
    requires
        targets@.len() == inspections@.len(),
        forall|i: int| 0 <= i < inspections@.len() && (#[trigger] inspections@[i]).missing ==> inspections@[i].state is None,
    ensures
        r.workspace.root@ == root@,
        r.workspace.name@ == manifest.workspace.name@,
        r.workspace.default_branch@ == manifest.workspace.default_branch@,
        r.all == all,
        r.explain_plan is None,
        r.repos@.len() == targets@.len(),
        forall|i: int| 0 <= i < r.repos@.len() ==> status_row_is(#[trigger] r.repos@[i], targets@[i],
            declared_branch_spec(match state { Some(s) => Some(s.repos@), None => None },
                manifest.workspace.default_branch@, targets@[i].name@),
            inspections@[i],
            if staged.repos@.contains_key(targets@[i].name@) { Some(staged.repos@[targets@[i].name@]) } else { None }),
{
    let ghost tv = targets@;
    let ghost iv = inspections@;
    let ghost decl = match state { Some(s) => Some(s.repos@), None => None::<crate::workspace::state::Decl> };
    let mut rows: Vec<RepoStatus> = Vec::new();
    let mut targets = targets;
    let mut inspections = inspections;
    let mut k: usize = 0;
    let n = targets.len();
    assert(targets@ =~= tv.skip(0));
    assert(inspections@ =~= iv.skip(0));
    while k < n
        invariant
            k <= n,
            n == tv.len(),
            n == iv.len(),
            targets@.len() == n - k,
            inspections@.len() == n - k,
            targets@ == tv.skip(k as int),
            inspections@ == iv.skip(k as int),
            decl == match state { Some(s) => Some(s.repos@), None => None::<crate::workspace::state::Decl> },
            rows@.len() == k,
            forall|i: int| 0 <= i < k ==> status_row_is(#[trigger] rows@[i], tv[i],
                declared_branch_spec(decl, manifest.workspace.default_branch@, tv[i].name@),
                iv[i],
                if staged.repos@.contains_key(tv[i].name@) { Some(staged.repos@[tv[i].name@]) } else { None }),
        decreases n - k,
    {
        let t = targets.remove(0);
        let insp = inspections.remove(0);
        assert(t == tv[k as int]);
        assert(insp == iv[k as int]);
        assert(targets@ =~= tv.skip(k + 1));
        assert(inspections@ =~= iv.skip(k + 1));
        let declared = declared_branch(state, manifest.workspace.default_branch.as_str(), t.name.as_str());
        let staging = match staged.get(t.name.as_str()) {
            Some(s) => Some(s.copy()),
            None => None,
        };
        let drifted = match &staging {
            Some(s) => staging_drifts(s, &insp.state),
            None => false,
        };
        let clean = is_boring(&insp.state, declared.as_str(), staging.is_some());
        rows.push(RepoStatus {
            name: t.name,
            path: t.rel_path,
            declared_branch: declared,
            clean_on_declared: clean,
            missing_from_disk: insp.missing,
            state: insp.state,
            staging,
            staging_drifted: drifted,
        });
        k += 1;
    }
    WsStatusOutput {
        workspace: WorkspaceInfo {
            root: String::from_str(root),
            name: manifest.workspace.name.clone(),
            default_branch: manifest.workspace.default_branch.clone(),
        },
        repos: rows,
        all,
        explain_plan: None,
    }
}

/// The `--explain` steps: the staging read, then two git reads per
/// target.
pub open spec fn status_plan_spec(root: Seq<char>, targets: Seq<StatusTarget>) -> Seq<Seq<char>>
    decreases targets.len(),
{
    if targets.len() == 0 {
        seq!["read `"@ + root + "/.workspace/local/staged.toml` (treat missing as empty)"@]
    } else {
        status_plan_spec(root, targets.drop_last())
            .push("git -C "@ + targets.last().abs_path@ + " rev-parse --git-dir"@)
            .push("git -C "@ + targets.last().abs_path@ + " status --porcelain=v2 --branch"@)
    }
}

pub fn status_explain_plan(root: &str, targets: &Vec<StatusTarget>) -> (r: Vec<String>)
    ensures
        views(r@) == status_plan_spec(root@, targets@),
{
    let mut first = String::from_str("read `");
    first.append(root);
    first.append("/.workspace/local/staged.toml` (treat missing as empty)");
    let mut r: Vec<String> = Vec::new();
    push_line(&mut r, first);
    let mut i: usize = 0;
    assert(views(r@) =~= status_plan_spec(root@, targets@.take(0)));
    while i < targets.len()
        invariant
            i <= targets.len(),
            views(r@) == status_plan_spec(root@, targets@.take(i as int)),
        decreases targets.len() - i,
    {
        assert(targets@.take(i + 1).drop_last() =~= targets@.take(i as int));
        let mut a = String::from_str("git -C ");
        a.append(targets[i].abs_path.as_str());
        a.append(" rev-parse --git-dir");
        push_line(&mut r, a);
        let mut b = String::from_str("git -C ");
        b.append(targets[i].abs_path.as_str());
        b.append(" status --porcelain=v2 --branch");
        push_line(&mut r, b);
        i += 1;
    }
    assert(targets@.take(i as int) =~= targets@);
    r
}

// ── Rendering ───────────────────────────────────────────────────────

pub open spec fn interesting(s: Seq<RepoStatus>) -> Seq<RepoStatus>
    decreases s.len(),
{
    if s.len() == 0 {
        Seq::empty()
    } else if s.last().clean_on_declared {
        interesting(s.drop_last())
    } else {
        interesting(s.drop_last()).push(s.last())
    }
}

pub open spec fn staged_count(s: Seq<RepoStatus>) -> nat
    decreases s.len(),
{
    if s.len() == 0 { 0 } else { staged_count(s.drop_last()) + if s.last().staging is Some { 1nat } else { 0nat } }
}

pub open spec fn drifted_count(s: Seq<RepoStatus>) -> nat
    decreases s.len(),
{
    if s.len() == 0 { 0 } else { drifted_count(s.drop_last()) + if s.last().staging_drifted { 1nat } else { 0nat } }
}

pub open spec fn row_names(s: Seq<RepoStatus>) -> Seq<Seq<char>> {
    s.map_values(|r: RepoStatus| r.name@)
}

pub open spec fn row_lines(s: Seq<RepoStatus>, pad: nat) -> Seq<Seq<char>> {
    s.map_values(|r: RepoStatus| column_line("  "@, r.name@, pad, describe_spec(r)))
}

/// The human form of the status report.
pub open spec fn status_lines(o: WsStatusOutput) -> Seq<Seq<char>> {
    let repos = o.repos@;
    let total = repos.len();
    let head = seq![
        "Workspace `"@ + o.workspace.name@ + "` (default branch: "@ + o.workspace.default_branch@ + ") — "@
            + decimal_of(total) + " repos declared"@,
        "Root: "@ + o.workspace.root@,
        Seq::<char>::empty(),
    ];
    let expand_all = o.all || total <= ABBREVIATE_THRESHOLD;
    let rows = if expand_all { repos } else { interesting(repos) };
    let boring_count = (total - interesting(repos).len()) as nat;
    let sc = staged_count(repos);
    let dc = drifted_count(repos);
    if total == 0 {
        head.push("(No repos declared in the manifest yet.)"@)
    } else if rows.len() == 0 {
        head.push("All "@ + decimal_of(total) + " repos clean and on declared branch. ✓"@)
    } else {
        head + row_lines(rows, max_width(row_names(rows)))
        + (if !expand_all && boring_count > 0 {
            seq![Seq::<char>::empty(), decimal_of(boring_count) + " other "@ + (if boring_count == 1 { "repo"@ } else { "repos"@ })
                + " clean and on declared branch. Run with `--all` to list them."@]
        } else { Seq::empty() })
        + (if sc > 0 {
            seq![Seq::<char>::empty(), decimal_of(sc) + " "@ + (if sc == 1 { "repo"@ } else { "repos"@ })
                + " staged for commit. Run `ws commit` to flush staged → state.toml."@]
            + (if dc > 0 {
                seq!["  ("@ + decimal_of(dc) + " "@ + (if dc == 1 { "repo's"@ } else { "repos'"@ })
                    + " working state has drifted from the staged snapshot. The commit will record the staged values; re-run `ws add <repo>` if you'd rather pin the latest state.)"@]
            } else { Seq::empty() })
        } else { Seq::empty() })
    }
}

proof fn lemma_interesting_len(s: Seq<RepoStatus>)
    ensures
        interesting(s).len() <= s.len(),
    decreases s.len(),
{
    if s.len() > 0 {
        lemma_interesting_len(s.drop_last());
    }
}

proof fn lemma_counts_bounded(s: Seq<RepoStatus>)
    ensures
        staged_count(s) <= s.len(),
        drifted_count(s) <= s.len(),
    decreases s.len(),
{
    if s.len() > 0 {
        lemma_counts_bounded(s.drop_last());
    }
}

fn render_rows(rows: &Vec<&RepoStatus>, lines: &mut Vec<String>)
    ensures
        views(final(lines)@) == views(old(lines)@) + row_lines(rows@.map_values(|r: &RepoStatus| *r),
            max_width(row_names(rows@.map_values(|r: &RepoStatus| *r)))),
{
    let ghost rs = rows@.map_values(|r: &RepoStatus| *r);
    let mut names: Vec<String> = Vec::new();
    let mut i: usize = 0;
    while i < rows.len()
        invariant
            i <= rows.len(),
            rs == rows@.map_values(|r: &RepoStatus| *r),
            views(names@) == row_names(rs).take(i as int),
        decreases rows.len() - i,
    {
        push_line(&mut names, rows[i].name.clone());
        i += 1;
        assert(views(names@) =~= row_names(rs).take(i as int));
    }
    assert(row_names(rs).take(i as int) =~= row_names(rs));
    let pad = max_byte_width(&names);
    let ghost start = views(lines@);
    let mut k: usize = 0;
    while k < rows.len()
        invariant
            k <= rows.len(),
            rs == rows@.map_values(|r: &RepoStatus| *r),
            pad == max_width(row_names(rs)),
            views(lines@) == start + row_lines(rs, pad as nat).take(k as int),
        decreases rows.len() - k,
    {
        let detail = describe_repo(rows[k]);
        push_line(lines, column_line_exec("  ", rows[k].name.as_str(), pad, detail.as_str()));
        k += 1;
        assert(views(lines@) =~= start + row_lines(rs, pad as nat).take(k as int));
    }
    assert(row_lines(rs, pad as nat).take(k as int) =~= row_lines(rs, pad as nat));
}

/// Interesting rows, every row, and the staged and drifted counts.
fn tally(repos: &Vec<RepoStatus>) -> (r: (Vec<&RepoStatus>, Vec<&RepoStatus>, usize, usize))
    ensures
        r.0@.map_values(|x: &RepoStatus| *x) == interesting(repos@),
        r.1@.map_values(|x: &RepoStatus| *x) == repos@,
        r.2 == staged_count(repos@),
        r.3 == drifted_count(repos@),
{
    let ghost rv = repos@;
    let total = repos.len();
    let mut inter: Vec<&RepoStatus> = Vec::new();
    let mut every: Vec<&RepoStatus> = Vec::new();
    let mut sc: usize = 0;
    let mut dc: usize = 0;
    let mut i: usize = 0;
    while i < total
        invariant
            i <= total,
            total == rv.len(),
            rv == repos@,
            inter@.map_values(|r: &RepoStatus| *r) == interesting(rv.take(i as int)),
            every@.map_values(|r: &RepoStatus| *r) == rv.take(i as int),
            sc == staged_count(rv.take(i as int)),
            dc == drifted_count(rv.take(i as int)),
        decreases total - i,
    {
        proof {
            lemma_counts_bounded(rv.take(i as int));
        }
        assert(rv.take(i + 1).drop_last() =~= rv.take(i as int));
        let row = &repos[i];
        let ghost ib = inter@;
        let ghost eb = every@;
        if !row.clean_on_declared {
            inter.push(row);
            assert(inter@.map_values(|r: &RepoStatus| *r) =~= ib.map_values(|r: &RepoStatus| *r).push(*row));
        }
        every.push(row);
        assert(every@.map_values(|r: &RepoStatus| *r) =~= eb.map_values(|r: &RepoStatus| *r).push(*row));
        if row.staging.is_some() {
            sc = sc + 1;
        }
        if row.staging_drifted {
            dc = dc + 1;
        }
        i += 1;
        assert(every@.map_values(|r: &RepoStatus| *r) =~= rv.take(i as int));
    }
    assert(rv.take(i as int) =~= rv);
    (inter, every, sc, dc)
}

/// The footer lines about repos left out and about staging.
pub open spec fn footer_lines(expand_all: bool, boring_count: nat, sc: nat, dc: nat) -> Seq<Seq<char>> {
    (if !expand_all && boring_count > 0 {
        seq![Seq::<char>::empty(), decimal_of(boring_count) + " other "@ + (if boring_count == 1 { "repo"@ } else { "repos"@ })
            + " clean and on declared branch. Run with `--all` to list them."@]
    } else { Seq::empty() })
    + (if sc > 0 {
        seq![Seq::<char>::empty(), decimal_of(sc) + " "@ + (if sc == 1 { "repo"@ } else { "repos"@ })
            + " staged for commit. Run `ws commit` to flush staged → state.toml."@]
        + (if dc > 0 {
            seq!["  ("@ + decimal_of(dc) + " "@ + (if dc == 1 { "repo's"@ } else { "repos'"@ })
                + " working state has drifted from the staged snapshot. The commit will record the staged values; re-run `ws add <repo>` if you'd rather pin the latest state.)"@]
        } else { Seq::empty() })
    } else { Seq::empty() })
}

fn footer(expand_all: bool, boring_count: usize, sc: usize, dc: usize) -> (r: Vec<String>)
    ensures
        views(r@) == footer_lines(expand_all, boring_count as nat, sc as nat, dc as nat),
{
    let mut lines: Vec<String> = Vec::new();
    if !expand_all && boring_count > 0 {
        push_line(&mut lines, String::new());
        let mut l = decimal(boring_count);
        l.append(" other ");
        l.append(if boring_count == 1 { "repo" } else { "repos" });
        l.append(" clean and on declared branch. Run with `--all` to list them.");
        push_line(&mut lines, l);
    }
    let ghost first = views(lines@);
    let mut rest: Vec<String> = Vec::new();
    if sc > 0 {
        push_line(&mut rest, String::new());
        let mut l = decimal(sc);
        l.append(" ");
        l.append(if sc == 1 { "repo" } else { "repos" });
        l.append(" staged for commit. Run `ws commit` to flush staged → state.toml.");
        push_line(&mut rest, l);
        if dc > 0 {
            let mut d = String::from_str("  (");
            d.append(decimal(dc).as_str());
            d.append(" ");
            d.append(if dc == 1 { "repo's" } else { "repos'" });
            d.append(" working state has drifted from the staged snapshot. The commit will record the staged values; re-run `ws add <repo>` if you'd rather pin the latest state.)");
            push_line(&mut rest, d);
        }
    }
    append_all(&mut lines, rest);
    assert(views(lines@) =~= footer_lines(expand_all, boring_count as nat, sc as nat, dc as nat));
    lines
}

proof fn lemma_status_lines(o: WsStatusOutput)
    requires
        o.repos@.len() > 0,
    ensures
        ({
            let repos = o.repos@;
            let total = repos.len();
            let expand_all = o.all || total <= ABBREVIATE_THRESHOLD;
            let rows = if expand_all { repos } else { interesting(repos) };
            let head = seq![
                "Workspace `"@ + o.workspace.name@ + "` (default branch: "@ + o.workspace.default_branch@ + ") — "@
                    + decimal_of(total) + " repos declared"@,
                "Root: "@ + o.workspace.root@,
                Seq::<char>::empty(),
            ];
            rows.len() > 0 ==> status_lines(o) == head + row_lines(rows, max_width(row_names(rows)))
                + footer_lines(expand_all, (total - interesting(repos).len()) as nat,
                    staged_count(repos), drifted_count(repos))
        }),
{
}

impl Renderable for WsStatusOutput {
    open spec fn rendered(&self) -> Seq<char> {
        match self.explain_plan {
            Some(plan) => lines_text(plan_lines("ws status"@, views(plan@))),
            None => lines_text(status_lines(*self)),
        }
    }

    fn render_human(&self) -> (r: String) {
        if let Some(plan) = &self.explain_plan {
            return render_explain_plan("ws status", plan);
        }
        let total = self.repos.len();
        let mut lines: Vec<String> = Vec::new();
        let mut l1 = String::from_str("Workspace `");
        l1.append(self.workspace.name.as_str());
        l1.append("` (default branch: ");
        l1.append(self.workspace.default_branch.as_str());
        l1.append(") — ");
        l1.append(decimal(total).as_str());
        l1.append(" repos declared");
        push_line(&mut lines, l1);
        let mut l2 = String::from_str("Root: ");
        l2.append(self.workspace.root.as_str());
        push_line(&mut lines, l2);
        push_line(&mut lines, String::new());
        if total == 0 {
            push_line(&mut lines, String::from_str("(No repos declared in the manifest yet.)"));
            assert(views(lines@) =~= status_lines(*self));
            return concat_lines(&lines);
        }
        let (inter, every, sc, dc) = tally(&self.repos);
        proof {
            lemma_interesting_len(self.repos@);
            lemma_counts_bounded(self.repos@);
        }
        let boring_count = total - inter.len();
        let expand_all = self.all || total <= ABBREVIATE_THRESHOLD;
        let rows = if expand_all { every } else { inter };
        if rows.len() == 0 {
            let mut l = String::from_str("All ");
            l.append(decimal(total).as_str());
            l.append(" repos clean and on declared branch. ✓");
            push_line(&mut lines, l);
            assert(views(lines@) =~= status_lines(*self));
            return concat_lines(&lines);
        }
        render_rows(&rows, &mut lines);
        append_all(&mut lines, footer(expand_all, boring_count, sc, dc));
        proof {
            lemma_status_lines(*self);
        }
        assert(views(lines@) =~= status_lines(*self));
        concat_lines(&lines)
    }
}

} // verus!
