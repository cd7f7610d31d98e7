//! The `ws` namespace: workspace commands. This module holds what
//! they share (the `--explain` plan rendering, aligned name columns,
//! the "unknown repo" error) and the bare `git ws` context report.

pub mod actions;
pub mod add;
pub mod branch;
pub mod clone;
pub mod commit;
pub mod diff;
pub mod init;
pub mod log;
pub mod obstacles;
pub mod reset;
pub mod restore;
pub mod status;
pub mod switch;
pub mod unstage;

use vstd::prelude::*;
use vstd::string::StringExecFns;
use crate::cli::Renderable;
use crate::text::{concat_lines, decimal, decimal_of, join_seq, lines_text, max_width, max_byte_width,
    pad_right, padded, starts_with, starts_with_spec, str_eq, views};
use crate::workspace::manifest::{known_list_spec, repo_names, first_index, Manifest};
use crate::workspace::state::StateDeclaration;

verus! {

/// Up to this many repos, listings are shown in full; beyond it the
/// boring ones are summarised as a count unless `--all` is given.
pub const ABBREVIATE_THRESHOLD: usize = 5;

// ── --explain plans ────────────────────────────────────────────────

/// The numbered steps of a plan, one per line.
pub open spec fn plan_steps(plan: Seq<Seq<char>>) -> Seq<Seq<char>>
    decreases plan.len(),
{
    if plan.len() == 0 {
        Seq::empty()
    } else {
        plan_steps(plan.drop_last()).push("  "@ + decimal_of(plan.len()) + ". "@ + plan.last())
    }
}

/// The lines of an `--explain` plan for `command`.
pub open spec fn plan_lines(command: Seq<char>, plan: Seq<Seq<char>>) -> Seq<Seq<char>> {
    seq!["Plan for `"@ + command + "` (--explain: nothing was run):"@] + plan_steps(plan)
}

/// The lines of an `--explain` plan: a heading naming the command,
/// then the steps, numbered from 1.
pub fn explain_plan_lines(command: &str, plan: &Vec<String>) -> (r: Vec<String>)
    ensures
        views(r@) == plan_lines(command@, views(plan@)),
{
    let ghost vs = views(plan@);
    let mut head = String::from_str("Plan for `");
    head.append(command);
    head.append("` (--explain: nothing was run):");
    let mut r: Vec<String> = vec![head];
    let mut i: usize = 0;
    assert(views(r@) =~= plan_lines(command@, vs.take(0)));
    while i < plan.len()
        invariant
            i <= plan.len(),
            vs == views(plan@),
            views(r@) == plan_lines(command@, vs.take(i as int)),
        decreases plan.len() - i,
    {
        assert(vs.take(i + 1).drop_last() =~= vs.take(i as int));
        let mut line = String::from_str("  ");
        line.append(decimal(i + 1).as_str());
        line.append(". ");
        line.append(plan[i].as_str());
        let ghost before = r@;
        r.push(line);
        assert(views(r@) =~= views(before).push(line@));
        i += 1;
        assert(views(r@) =~= plan_lines(command@, vs.take(i as int)));
    }
    assert(vs.take(i as int) =~= vs);
    r
}

/// The text of an `--explain` plan.
pub fn render_explain_plan(command: &str, plan: &Vec<String>) -> (r: String)
    ensures
        r@ == lines_text(plan_lines(command@, views(plan@))),
{
    concat_lines(&explain_plan_lines(command, plan))
}

// ── Aligned columns ─────────────────────────────────────────────────

/// `prefix`, the name padded to `pad` characters, two spaces, `rest`.
pub open spec fn column_line(prefix: Seq<char>, name: Seq<char>, pad: nat, rest: Seq<char>) -> Seq<char> {
    prefix + padded(name, pad as int) + "  "@ + rest
}

pub fn column_line_exec(prefix: &str, name: &str, pad: usize, rest: &str) -> (r: String)
    ensures
        r@ == column_line(prefix@, name@, pad as nat, rest@),
{
    let mut r = String::from_str(prefix);
    r.append(pad_right(name, pad).as_str());
    r.append("  ");
    r.append(rest);
    r
}

// ── Positional arguments ────────────────────────────────────────────

/// Why a single-positional command line was refused.
pub enum PositionalError {
    /// An argument looked like a flag.
    Flag(String),
    /// More than one positional argument.
    TooMany,
    /// No positional argument.
    Missing,
}

pub enum PositionalErrorView {
    Flag(Seq<char>),
    TooMany,
    Missing,
}

impl View for PositionalError {
    type V = PositionalErrorView;

    open spec fn view(&self) -> PositionalErrorView {
        match self {
            PositionalError::Flag(s) => PositionalErrorView::Flag(s@),
            PositionalError::TooMany => PositionalErrorView::TooMany,
            PositionalError::Missing => PositionalErrorView::Missing,
        }
    }
}

/// `s` is a flag: it starts with `--`, or with `-` when single-dash
/// arguments count as flags too.
pub open spec fn is_flag(s: Seq<char>, single_dash: bool) -> bool {
    starts_with_spec(s, "--"@) || (single_dash && starts_with_spec(s, "-"@))
}

/// The positional seen so far, or the first refusal, after `args`.
pub open spec fn scan_positional(args: Seq<Seq<char>>, single_dash: bool) -> Result<Option<Seq<char>>, PositionalErrorView>
    decreases args.len(),
{
    if args.len() == 0 {
        Ok(None)
    } else {
        match scan_positional(args.drop_last(), single_dash) {
            Err(e) => Err(e),
            Ok(slot) => {
                let s = args.last();
                if is_flag(s, single_dash) {
                    Err(PositionalErrorView::Flag(s))
                } else if slot is Some {
                    Err(PositionalErrorView::TooMany)
                } else {
                    Ok(Some(s))
                }
            },
        }
    }
}

/// Exactly one positional and no flag, read left to right.
pub open spec fn one_positional_spec(args: Seq<Seq<char>>, single_dash: bool) -> Result<Seq<char>, PositionalErrorView> {
    match scan_positional(args, single_dash) {
        Err(e) => Err(e),
        Ok(None) => Err(PositionalErrorView::Missing),
        Ok(Some(s)) => Ok(s),
    }
}

pub fn one_positional(args: &Vec<String>, single_dash: bool) -> (r: Result<String, PositionalError>)
    ensures
        match (r, one_positional_spec(views(args@), single_dash)) {
            (Ok(a), Ok(b)) => a@ == b,
            (Err(a), Err(b)) => a@ == b,
            _ => false,
        },
{
    let ghost vs = views(args@);
    let mut slot: Option<String> = None;
    let mut i: usize = 0;
    while i < args.len()
        invariant
            i <= args.len(),
            vs == views(args@),
            scan_positional(vs.take(i as int), single_dash) == Ok::<Option<Seq<char>>, PositionalErrorView>(
                match slot { Some(s) => Some(s@), None => None }),
        decreases args.len() - i,
    {
        assert(vs.take(i + 1).drop_last() =~= vs.take(i as int));
        let s = args[i].as_str();
        assert(vs.take(i + 1).last() == s@);
        if starts_with(s, "--") || (single_dash && starts_with(s, "-")) {
            proof {
                lemma_scan_stops(vs, (i + 1) as int, single_dash);
            }
            return Err(PositionalError::Flag(String::from_str(s)));
        }
        if slot.is_some() {
            proof {
                lemma_scan_stops(vs, (i + 1) as int, single_dash);
            }
            return Err(PositionalError::TooMany);
        }
        slot = Some(String::from_str(s));
        i += 1;
    }
    assert(vs.take(i as int) =~= vs);
    match slot {
        Some(s) => Ok(s),
        None => Err(PositionalError::Missing),
    }
}

/// Once the scan of a prefix refuses, the scan of the whole line gives
/// the same refusal.
pub proof fn lemma_scan_stops(args: Seq<Seq<char>>, k: int, single_dash: bool)
    requires
        0 <= k <= args.len(),
        scan_positional(args.take(k), single_dash) is Err,
    ensures
        scan_positional(args, single_dash) == scan_positional(args.take(k), single_dash),
    decreases args.len() - k,
{
    if k < args.len() {
        assert(args.take(k + 1).drop_last() =~= args.take(k));
        lemma_scan_stops(args, k + 1, single_dash);
    } else {
        assert(args.take(k) =~= args);
    }
}

// ── Unknown repo names ──────────────────────────────────────────────

/// `<command>: '<name>' does not match any repo declared in the
/// manifest.` followed by the known names.
pub open spec fn unknown_repo_msg(command: Seq<char>, quoted: Seq<char>, manifest_repos: Seq<crate::workspace::manifest::RepoEntry>) -> Seq<char> {
    command + ": '"@ + quoted + "' does not match any repo declared in the manifest.\n  "@ + known_list_spec(manifest_repos)
}

pub fn unknown_repo_error(command: &str, quoted: &str, manifest: &Manifest) -> (r: String)
    ensures
        r@ == unknown_repo_msg(command@, quoted@, manifest.repos@),
{
    let mut r = String::from_str(command);
    r.append(": '");
    r.append(quoted);
    r.append("' does not match any repo declared in the manifest.\n  ");
    r.append(manifest.known_list().as_str());
    r
}

/// Decimal text of a signed exit code.
pub open spec fn signed_decimal(n: int) -> Seq<char> {
    if n < 0 { "-"@ + decimal_of((-n) as nat) } else { decimal_of(n as nat) }
}

pub fn signed_decimal_exec(n: i32) -> (r: String)
    ensures
        r@ == signed_decimal(n as int),
{
    if n < 0 {
        let m: i64 = -(n as i64);
        let mut r = String::from_str("-");
        r.append(decimal(m as usize).as_str());
        r
    } else {
        decimal(n as usize)
    }
}

/// The error for a git invocation that exited unsuccessfully: its
/// exit code (`?` when killed by a signal) and its trimmed stderr.
pub open spec fn git_failure_msg(command: Seq<char>, label: Seq<char>, code: Option<i32>, path: Seq<char>, stderr: Seq<char>) -> Seq<char> {
    command + ": `"@ + label + "` exited with status "@
        + (match code { Some(c) => signed_decimal(c as int), None => "?"@ }) + " in "@ + path + ": "@ + stderr
}

pub fn git_failure(command: &str, label: &str, code: Option<i32>, path: &str, stderr: &str) -> (r: String)
    ensures
        r@ == git_failure_msg(command@, label@, code, path@, stderr@),
{
    let mut r = String::from_str(command);
    r.append(": `");
    r.append(label);
    r.append("` exited with status ");
    match code {
        Some(c) => r.append(signed_decimal_exec(c).as_str()),
        None => r.append("?"),
    }
    r.append(" in ");
    r.append(path);
    r.append(": ");
    r.append(stderr);
    r
}

/// The error every workspace command gives outside a workspace.
pub open spec fn not_in_workspace_msg() -> Seq<char> {
    "not in a marshal workspace.\n  Walk into a workspace (a directory tree containing `.workspace/`), or initialise one here with `ws init`."@
}

pub fn not_in_workspace() -> (r: String)
    ensures
        r@ == not_in_workspace_msg(),
{
    String::from_str("not in a marshal workspace.\n  Walk into a workspace (a directory tree containing `.workspace/`), or initialise one here with `ws init`.")
}

/// The error for a workspace whose manifest does not exist yet.
pub open spec fn no_manifest_msg(root: Seq<char>) -> Seq<char> {
    "workspace at "@ + root + " has no manifest yet.\n  Run `ws init` here to create one, or edit `.workspace/manifest.toml` directly."@
}

pub fn no_manifest(root: &str) -> (r: String)
    ensures
        r@ == no_manifest_msg(root@),
{
    let mut r = String::from_str("workspace at ");
    r.append(root);
    r.append(" has no manifest yet.\n  Run `ws init` here to create one, or edit `.workspace/manifest.toml` directly.");
    r
}

/// The effective declared branch of `name`: its entry in the state
/// declaration, else the manifest's default branch.
pub open spec fn declared_branch_spec(state: Option<crate::workspace::state::Decl>, default_branch: Seq<char>, name: Seq<char>) -> Seq<char> {
    match state {
        Some(s) => if s.contains_key(name) { s[name].0 } else { default_branch },
        None => default_branch,
    }
}

pub fn declared_branch(state: Option<&StateDeclaration>, default_branch: &str, name: &str) -> (r: String)
    ensures
        r@ == declared_branch_spec(
            match state { Some(s) => Some(s.repos@), None => None },
            default_branch@,
            name@,
        ),
{
    match state {
        Some(s) => match s.get(name) {
            Some(rs) => rs.branch.clone(),
            None => String::from_str(default_branch),
        },
        None => String::from_str(default_branch),
    }
}

// ── `git ws`: the workspace context ─────────────────────────────────

/// The child repo the current directory is in.
pub struct CurrentRepo {
    pub name: String,
    pub declared: bool,
    /// The effective declared branch, when the repo is in the manifest.
    pub declared_branch: Option<String>,
}

pub struct ManifestSummary {
    pub name: String,
    pub default_branch: String,
    pub repos: Vec<String>,
}

pub struct RepoStateEntry {
    pub name: String,
    pub branch: String,
    pub on_default: bool,
}

pub struct StateSummary {
    /// `state.toml` exists (even empty).
    pub has_state_file: bool,
    /// One entry per declared repo, in manifest order.
    pub entries: Vec<RepoStateEntry>,
}

pub struct WsContextOutput {
    pub root: String,
    pub current_repo: Option<CurrentRepo>,
    pub manifest: Option<ManifestSummary>,
    pub state: Option<StateSummary>,
    /// Render-time only: show every repo.
    pub all: bool,
}

pub open spec fn entry_view(e: RepoStateEntry) -> (Seq<char>, Seq<char>, bool) {
    (e.name@, e.branch@, e.on_default)
}

pub open spec fn entries_view(es: Seq<RepoStateEntry>) -> Seq<(Seq<char>, Seq<char>, bool)> {
    es.map_values(|e: RepoStateEntry| entry_view(e))
}

/// The per-repo state entries of the context report.
pub open spec fn state_entries_spec(m: Manifest, state: Option<crate::workspace::state::Decl>) -> Seq<(Seq<char>, Seq<char>, bool)> {
    Seq::new(m.repos@.len(), |i: int| {
        let b = declared_branch_spec(state, m.workspace.default_branch@, m.repos@[i].name@);
        (m.repos@[i].name@, b, b == m.workspace.default_branch@)
    })
}

/// The context report computed from what was read: the manifest and
/// state declaration (when present) and the child repo the current
/// directory is in.
pub fn context_output(
    root: String,
    manifest: Option<&Manifest>,
    state: Option<&StateDeclaration>,
    current_repo: Option<String>,
    all: bool,
) -> (r: WsContextOutput)
    ensures
        r.root@ == root@,
        r.all == all,
        match manifest {
            None => r.manifest is None && r.state is None,
            Some(m) => {
                &&& r.manifest matches Some(ms) && ms.name@ == m.workspace.name@
                    && ms.default_branch@ == m.workspace.default_branch@
                    && views(ms.repos@) == repo_names(m.repos@)
                &&& r.state matches Some(ss) && ss.has_state_file == state.is_some()
                    && entries_view(ss.entries@) == state_entries_spec(*m,
                        match state { Some(s) => Some(s.repos@), None => None })
            },
        },
        match current_repo {
            None => r.current_repo is None,
            Some(name) => r.current_repo matches Some(c) && c.name@ == name@ && (match manifest {
                None => !c.declared && c.declared_branch is None,
                Some(m) => {
                    let decl = match state { Some(s) => Some(s.repos@), None => None };
                    match first_index(repo_names(m.repos@), name@) {
                        Some(i) => c.declared && (c.declared_branch matches Some(b)
                            && b@ == declared_branch_spec(decl, m.workspace.default_branch@, name@)),
                        None => !c.declared && c.declared_branch is None,
                    }
                },
            }),
        },
{
    let ghost decl = match state { Some(s) => Some(s.repos@), None => None::<crate::workspace::state::Decl> };
    let (manifest_summary, state_summary) = match manifest {
        None => (None, None),
        Some(m) => {
            let mut names: Vec<String> = Vec::new();
            let mut entries: Vec<RepoStateEntry> = Vec::new();
            let mut i: usize = 0;
            while i < m.repos.len()
                invariant
                    i <= m.repos.len(),
                    decl == match state { Some(s) => Some(s.repos@), None => None::<crate::workspace::state::Decl> },
                    views(names@) == repo_names(m.repos@).take(i as int),
                    entries_view(entries@) == state_entries_spec(*m, decl).take(i as int),
                decreases m.repos.len() - i,
            {
                let name = m.repos[i].name.clone();
                let branch = declared_branch(state, m.workspace.default_branch.as_str(), name.as_str());
                let on_default = str_eq(branch.as_str(), m.workspace.default_branch.as_str());
                let ghost nb = names@;
                let ghost eb = entries@;
                names.push(m.repos[i].name.clone());
                entries.push(RepoStateEntry { name, branch, on_default });
                assert(views(names@) =~= views(nb).push(m.repos@[i as int].name@));
                assert(entries_view(entries@) =~= entries_view(eb).push(entry_view(entries@[i as int])));
                i += 1;
                assert(views(names@) =~= repo_names(m.repos@).take(i as int));
                assert(entries_view(entries@) =~= state_entries_spec(*m, decl).take(i as int));
            }
            assert(repo_names(m.repos@).take(i as int) =~= repo_names(m.repos@));
            assert(state_entries_spec(*m, decl).take(i as int) =~= state_entries_spec(*m, decl));
            let ms = ManifestSummary {
                name: m.workspace.name.clone(),
                default_branch: m.workspace.default_branch.clone(),
                repos: names,
            };
            let ss = StateSummary { has_state_file: state.is_some(), entries };
            (Some(ms), Some(ss))
        },
    };
    let current = match current_repo {
        None => None,
        Some(name) => {
            let (declared, declared_branch) = match manifest {
                None => (false, None),
                Some(m) => match m.find_repo(name.as_str()) {
                    Some(_) => (true, Some(declared_branch(state, m.workspace.default_branch.as_str(), name.as_str()))),
                    None => (false, None),
                },
            };
            Some(CurrentRepo { name, declared, declared_branch })
        },
    };
    WsContextOutput { root, current_repo: current, manifest: manifest_summary, state: state_summary, all }
}

/// Entries not on the default branch, in order.
pub open spec fn pinned(es: Seq<(Seq<char>, Seq<char>, bool)>) -> Seq<(Seq<char>, Seq<char>, bool)>
    decreases es.len(),
{
    if es.len() == 0 {
        Seq::empty()
    } else if es.last().2 {
        pinned(es.drop_last())
    } else {
        pinned(es.drop_last()).push(es.last())
    }
}

pub open spec fn entry_names(es: Seq<(Seq<char>, Seq<char>, bool)>) -> Seq<Seq<char>> {
    es.map_values(|e: (Seq<char>, Seq<char>, bool)| e.0)
}

/// One listing line per entry: `default`, or the branch it is on.
pub open spec fn entry_lines(es: Seq<(Seq<char>, Seq<char>, bool)>, pad: nat) -> Seq<Seq<char>> {
    es.map_values(|e: (Seq<char>, Seq<char>, bool)|
        column_line("  "@, e.0, pad, if e.2 { "default"@ } else { "on `"@ + e.1 + "`"@ }))
}

/// The state block of the context report.
pub open spec fn state_lines(has_state_file: bool, es: Seq<(Seq<char>, Seq<char>, bool)>, all: bool) -> Seq<Seq<char>> {
    let total = es.len();
    let p = pinned(es);
    let default_count = (total - p.len()) as nat;
    let prefix = if has_state_file {
        "State declarations"@
    } else {
        "State (implicit — no state.toml; all repos on default)"@
    };
    if total == 0 {
        Seq::empty()
    } else if p.len() == 0 {
        seq![prefix + ": all "@ + decimal_of(total) + " repos on default branch."@]
    } else if all || total <= ABBREVIATE_THRESHOLD {
        seq![prefix + ":"@] + entry_lines(es, max_width(entry_names(es)))
    } else if p.len() > ABBREVIATE_THRESHOLD {
        seq![
            prefix + ":"@,
            "  "@ + decimal_of(p.len()) + " repos pinned to non-default branches."@,
            "  "@ + decimal_of(default_count) + " default to manifest's default branch."@,
        ]
    } else {
        seq![prefix + ":"@] + entry_lines(p, max_width(entry_names(p))) + (if default_count > 0 {
            seq!["  "@ + decimal_of(default_count) + " "@ + (if default_count == 1 { "repo"@ } else { "others"@ })
                + " default to manifest's default branch."@]
        } else {
            Seq::empty()
        })
    }
}

proof fn lemma_pinned_len(es: Seq<(Seq<char>, Seq<char>, bool)>)
    ensures
        pinned(es).len() <= es.len(),
    decreases es.len(),
{
    if es.len() > 0 {
        lemma_pinned_len(es.drop_last());
    }
}

fn pinned_entries(es: &Vec<RepoStateEntry>) -> (r: Vec<&RepoStateEntry>)
    ensures
        r@.map_values(|e: &RepoStateEntry| entry_view(*e)) == pinned(entries_view(es@)),
{
    let ghost vs = entries_view(es@);
    let mut r: Vec<&RepoStateEntry> = Vec::new();
    let mut i: usize = 0;
    while i < es.len()
        invariant
            i <= es.len(),
            vs == entries_view(es@),
            r@.map_values(|e: &RepoStateEntry| entry_view(*e)) == pinned(vs.take(i as int)),
        decreases es.len() - i,
    {
        assert(vs.take(i + 1).drop_last() =~= vs.take(i as int));
        let ghost before = r@;
        if !es[i].on_default {
            r.push(&es[i]);
            assert(r@.map_values(|e: &RepoStateEntry| entry_view(*e)) =~=
                before.map_values(|e: &RepoStateEntry| entry_view(*e)).push(vs[i as int]));
        }
        i += 1;
    }
    assert(vs.take(i as int) =~= vs);
    r
}

fn entry_listing(es: &Vec<&RepoStateEntry>, lines: &mut Vec<String>)
    ensures
        views(final(lines)@) == views(old(lines)@) + entry_lines(
            es@.map_values(|e: &RepoStateEntry| entry_view(*e)),
            max_width(entry_names(es@.map_values(|e: &RepoStateEntry| entry_view(*e))))),
{
    let ghost vs = es@.map_values(|e: &RepoStateEntry| entry_view(*e));
    let mut names: Vec<String> = Vec::new();
    let mut i: usize = 0;
    while i < es.len()
        invariant
            i <= es.len(),
            vs == es@.map_values(|e: &RepoStateEntry| entry_view(*e)),
            views(names@) == entry_names(vs).take(i as int),
        decreases es.len() - i,
    {
        let ghost nb = names@;
        names.push(es[i].name.clone());
        assert(views(names@) =~= views(nb).push(vs[i as int].0));
        i += 1;
        assert(views(names@) =~= entry_names(vs).take(i as int));
    }
    assert(entry_names(vs).take(i as int) =~= entry_names(vs));
    let pad = max_byte_width(&names);
    let ghost start = views(lines@);
    let mut k: usize = 0;
    while k < es.len()
        invariant
            k <= es.len(),
            vs == es@.map_values(|e: &RepoStateEntry| entry_view(*e)),
            pad == max_width(entry_names(vs)),
            views(lines@) == start + entry_lines(vs, pad as nat).take(k as int),
        decreases es.len() - k,
    {
        let e = es[k];
        let line = if e.on_default {
            column_line_exec("  ", e.name.as_str(), pad, "default")
        } else {
            let mut rest = String::from_str("on `");
            rest.append(e.branch.as_str());
            rest.append("`");
            column_line_exec("  ", e.name.as_str(), pad, rest.as_str())
        };
        let ghost lb = lines@;
        lines.push(line);
        assert(views(lines@) =~= views(lb).push(line@));
        k += 1;
        assert(views(lines@) =~= start + entry_lines(vs, pad as nat).take(k as int));
    }
    assert(entry_lines(vs, pad as nat).take(k as int) =~= entry_lines(vs, pad as nat));
}

/// The state block of the context report: nothing when no repo is
/// declared; one summary line when every repo is on the default
/// branch; every repo when the list is short or `--all` is given;
/// counts only when many repos are pinned; otherwise the pinned repos
/// and a count of the rest.
pub fn render_state(state: &StateSummary, all: bool) -> (r: Vec<String>)
    ensures
        views(r@) == state_lines(state.has_state_file, entries_view(state.entries@), all),
{
    let ghost es = entries_view(state.entries@);
    let total = state.entries.len();
    let mut lines: Vec<String> = Vec::new();
    if total == 0 {
        assert(views(lines@) =~= Seq::<Seq<char>>::empty());
        return lines;
    }
    let pins = pinned_entries(&state.entries);
    proof {
        lemma_pinned_len(es);
    }
    let default_count = total - pins.len();
    let prefix = if state.has_state_file {
        "State declarations"
    } else {
        "State (implicit — no state.toml; all repos on default)"
    };
    if pins.len() == 0 {
        let mut l = String::from_str(prefix);
        l.append(": all ");
        l.append(decimal(total).as_str());
        l.append(" repos on default branch.");
        lines.push(l);
        assert(views(lines@) =~= state_lines(state.has_state_file, es, all));
        return lines;
    }
    let mut head = String::from_str(prefix);
    head.append(":");
    lines.push(head);
    assert(views(lines@) =~= seq![prefix@ + ":"@]);
    if all || total <= ABBREVIATE_THRESHOLD {
        let mut every: Vec<&RepoStateEntry> = Vec::new();
        let mut i: usize = 0;
        while i < state.entries.len()
            invariant
                i <= state.entries.len(),
                every@.map_values(|e: &RepoStateEntry| entry_view(*e)) == es.take(i as int),
                es == entries_view(state.entries@),
            decreases state.entries.len() - i,
        {
            let ghost before = every@;
            every.push(&state.entries[i]);
            assert(every@.map_values(|e: &RepoStateEntry| entry_view(*e)) =~=
                before.map_values(|e: &RepoStateEntry| entry_view(*e)).push(es[i as int]));
            i += 1;
        }
        assert(es.take(i as int) =~= es);
        entry_listing(&every, &mut lines);
    } else if pins.len() > ABBREVIATE_THRESHOLD {
        let mut a = String::from_str("  ");
        a.append(decimal(pins.len()).as_str());
        a.append(" repos pinned to non-default branches.");
        lines.push(a);
        let mut b = String::from_str("  ");
        b.append(decimal(default_count).as_str());
        b.append(" default to manifest's default branch.");
        lines.push(b);
    } else {
        entry_listing(&pins, &mut lines);
        if default_count > 0 {
            let mut a = String::from_str("  ");
            a.append(decimal(default_count).as_str());
            a.append(" ");
            a.append(if default_count == 1 { "repo" } else { "others" });
            a.append(" default to manifest's default branch.");
            let ghost lb = lines@;
            lines.push(a);
            assert(views(lines@) =~= views(lb).push(a@));
        }
    }
    assert(views(lines@) =~= state_lines(state.has_state_file, es, all));
    lines
}

/// The lines of the context report.
pub open spec fn context_lines(o: WsContextOutput) -> Seq<Seq<char>> {
    seq!["Workspace at: "@ + o.root@]
    + match o.manifest {
        Some(m) => {
            let n = m.repos@.len();
            seq!["Workspace name: "@ + m.name@ + " (default branch: "@ + m.default_branch@ + ")"@,
                if n == 0 {
                    "Declared repos: (none)"@
                } else if o.all || n <= ABBREVIATE_THRESHOLD {
                    "Declared repos ("@ + decimal_of(n) + "): "@ + join_seq(views(m.repos@), ", "@)
                } else {
                    "Declared repos: "@ + decimal_of(n)
                }]
        },
        None => seq!["(No manifest yet — `.workspace/manifest.toml` does not exist.)"@],
    }
    + match o.state {
        Some(s) => state_lines(s.has_state_file, entries_view(s.entries@), o.all),
        None => Seq::empty(),
    }
    + seq![match o.current_repo {
        Some(c) => {
            let label = if c.declared { "declared"@ } else { "NOT declared in manifest"@ };
            match c.declared_branch {
                Some(b) => "Current repo: "@ + c.name@ + " ("@ + label + ", state declares `"@ + b@ + "`)"@,
                None => "Current repo: "@ + c.name@ + " ("@ + label + ")"@,
            }
        },
        None => "Current repo: (workspace root)"@,
    }]
}

impl Renderable for WsContextOutput {
    open spec fn rendered(&self) -> Seq<char> {
        lines_text(context_lines(*self))
    }

    fn render_human(&self) -> (r: String) {
        let mut lines: Vec<String> = Vec::new();
        let mut first = String::from_str("Workspace at: ");
        first.append(self.root.as_str());
        lines.push(first);
        match &self.manifest {
            Some(m) => {
                let mut a = String::from_str("Workspace name: ");
                a.append(m.name.as_str());
                a.append(" (default branch: ");
                a.append(m.default_branch.as_str());
                a.append(")");
                lines.push(a);
                let n = m.repos.len();
                let b = if n == 0 {
                    String::from_str("Declared repos: (none)")
                } else if self.all || n <= ABBREVIATE_THRESHOLD {
                    let mut b = String::from_str("Declared repos (");
                    b.append(decimal(n).as_str());
                    b.append("): ");
                    b.append(crate::text::join(&m.repos, ", ").as_str());
                    b
                } else {
                    let mut b = String::from_str("Declared repos: ");
                    b.append(decimal(n).as_str());
                    b
                };
                lines.push(b);
            },
            None => {
                lines.push(String::from_str("(No manifest yet — `.workspace/manifest.toml` does not exist.)"));
            },
        }
        let ghost mid = views(lines@);
        match &self.state {
            Some(s) => {
                let block = render_state(s, self.all);
                let mut i: usize = 0;
                while i < block.len()
                    invariant
                        i <= block.len(),
                        views(lines@) == mid + views(block@).take(i as int),
                    decreases block.len() - i,
                {
                    let ghost lb = lines@;
                    lines.push(block[i].clone());
                    assert(views(lines@) =~= views(lb).push(block@[i as int]@));
                    i += 1;
                    assert(views(lines@) =~= mid + views(block@).take(i as int));
                }
                assert(views(block@).take(i as int) =~= views(block@));
            },
            None => {},
        }
        let last = match &self.current_repo {
            Some(c) => {
                let label = if c.declared { "declared" } else { "NOT declared in manifest" };
                let mut l = String::from_str("Current repo: ");
                l.append(c.name.as_str());
                l.append(" (");
                l.append(label);
                match &c.declared_branch {
                    Some(b) => {
                        l.append(", state declares `");
                        l.append(b.as_str());
                        l.append("`)");
                    },
                    None => {
                        l.append(")");
                    },
                }
                l
            },
            None => String::from_str("Current repo: (workspace root)"),
        };
        let ghost lb = lines@;
        lines.push(last);
        assert(views(lines@) =~= views(lb).push(last@));
        assert(views(lines@) =~= context_lines(*self));
        concat_lines(&lines)
    }
}

/// What `ws <other>` answers for a subcommand it does not know.
pub fn unknown_subcommand(other: &str) -> (r: String)
    ensures
        r@ == "ws: unknown subcommand '"@ + other@ + "'. Run `git ws` for the workspace context, `git ws init` to create one, `git ws status` for aggregated state, `git ws log` for cross-repo activity, or `git ws diff` for state-declaration changes."@,
{
    let mut m = String::from_str("ws: unknown subcommand '");
    m.append(other);
    m.append("'. Run `git ws` for the workspace context, `git ws init` to create one, `git ws status` for aggregated state, `git ws log` for cross-repo activity, or `git ws diff` for state-declaration changes.");
    m
}

} // verus!
