//! Reading `git status --porcelain=v2 --branch`: the branch headers and
//! the per-file entries, and which multi-step operation the marker
//! files of the git directory announce.
use vstd::prelude::*;
use vstd::string::StringExecFns;
use crate::git::porcelain::{BranchInfo, InProgressOp, RepoState, WorkingTreeInfo};
use crate::text::{
    index_of_char, lines_of, opt_view, parse_usize, parse_usize_spec, split_lines, starts_with_spec,
    str_eq, strip_prefix, to_chars, views, chars_range, find_char,
};

verus! {

// ── Headers ─────────────────────────────────────────────────────────

/// The value of the last line among `ls` that starts with `prefix`.
pub open spec fn header_value(ls: Seq<Seq<char>>, prefix: Seq<char>) -> Option<Seq<char>>
    decreases ls.len(),
{
    if ls.len() == 0 {
        None
    } else if starts_with_spec(ls.last(), prefix) {
        Some(ls.last().skip(prefix.len() as int))
    } else {
        header_value(ls.drop_last(), prefix)
    }
}

/// A header value with its "none" marker (`(detached)`, `(initial)`)
/// taken as absent.
pub open spec fn unless_marker(v: Option<Seq<char>>, marker: Seq<char>) -> Option<Seq<char>> {
    match v {
        Some(x) => if x == marker { None } else { Some(x) },
        None => None,
    }
}

/// `+A -B` of the `branch.ab` header: commits ahead and behind; a
/// part that does not read as a count counts as 0.
pub open spec fn ab_counts(v: Seq<char>) -> (usize, usize) {
    let k = index_of_char(v, ' ');
    if k < 0 {
        (0, 0)
    } else {
        let a = match parse_usize_spec(v.take(k)) { Some(n) => n, None => 0 };
        let rest = v.skip(k + 1);
        let b = if rest.len() > 0 && rest[0] == '-' {
            match parse_usize_spec(rest.skip(1)) { Some(n) => n, None => 0 }
        } else {
            0
        };
        (a, b)
    }
}

/// The branch as the headers among `ls` describe it.
pub open spec fn branch_is(b: BranchInfo, ls: Seq<Seq<char>>) -> bool {
    let head = header_value(ls, "# branch.head "@);
    let oid = header_value(ls, "# branch.oid "@);
    let ab = match header_value(ls, "# branch.ab "@) { Some(v) => ab_counts(v), None => (0usize, 0usize) };
    &&& opt_view(b.name) == unless_marker(head, "(detached)"@)
    &&& b.is_detached == (head == Some("(detached)"@))
    &&& opt_view(b.oid) == unless_marker(oid, "(initial)"@)
    &&& b.is_initial == (oid == Some("(initial)"@))
    &&& opt_view(b.upstream) == header_value(ls, "# branch.upstream "@)
    &&& b.ahead == ab.0
    &&& b.behind == ab.1
}

// ── Entries ─────────────────────────────────────────────────────────

/// An ordinary (`1`) or renamed/copied (`2`) entry: `<kind> <XY> …`.
pub open spec fn is_change(l: Seq<char>) -> bool {
    l.len() >= 4 && (l[0] == '1' || l[0] == '2') && l[1] == ' '
}

/// Which counter the line adds to: 0 staged (X set), 1 unstaged
/// (Y set), 2 unmerged (`u`), 3 untracked (`?`).
pub open spec fn counts_as(l: Seq<char>, k: int) -> bool {
    if k == 0 {
        is_change(l) && l[2] != '.'
    } else if k == 1 {
        is_change(l) && l[3] != '.'
    } else if k == 2 {
        l.len() >= 2 && l[0] == 'u' && l[1] == ' '
    } else {
        l.len() >= 2 && l[0] == '?' && l[1] == ' '
    }
}

/// The number of lines among `ls` that count as `k`.
pub open spec fn count_of(ls: Seq<Seq<char>>, k: int) -> nat
    decreases ls.len(),
{
    if ls.len() == 0 {
        0
    } else {
        count_of(ls.drop_last(), k) + if counts_as(ls.last(), k) { 1nat } else { 0nat }
    }
}

pub proof fn lemma_count_bounded(ls: Seq<Seq<char>>, k: int)
    ensures
        count_of(ls, k) <= ls.len(),
    decreases ls.len(),
{
    if ls.len() > 0 {
        lemma_count_bounded(ls.drop_last(), k);
    }
}

/// The working tree as the entries among `ls` describe it.
pub open spec fn tree_is(wt: WorkingTreeInfo, ls: Seq<Seq<char>>) -> bool {
    &&& wt.staged == count_of(ls, 0)
    &&& wt.unstaged == count_of(ls, 1)
    &&& wt.unmerged == count_of(ls, 2)
    &&& wt.untracked == count_of(ls, 3)
}

fn counts(l: &str, k: u8) -> (r: bool)
    requires
        k < 4,
    ensures
        r == counts_as(l@, k as int),
{
    let n = l.unicode_len();
    if k < 2 {
        if n < 4 {
            return false;
        }
        let c0 = l.get_char(0);
        if !((c0 == '1' || c0 == '2') && l.get_char(1) == ' ') {
            return false;
        }
        if k == 0 { l.get_char(2) != '.' } else { l.get_char(3) != '.' }
    } else {
        if n < 2 {
            return false;
        }
        let mark = if k == 2 { 'u' } else { '?' };
        l.get_char(0) == mark && l.get_char(1) == ' '
    }
}

/// Commits ahead and behind from a `branch.ab` value.
pub fn parse_ab(v: &str) -> (r: (usize, usize))
    ensures
        r == ab_counts(v@),
{
    let chars = to_chars(v);
    proof {
        crate::text::lemma_index_of_char(v@, ' ');
    }
    match find_char(&chars, 0, ' ') {
        None => {
            assert(v@.skip(0) =~= v@);
            (0, 0)
        },
        Some(k) => {
            assert(v@.skip(0) =~= v@);
            let first = chars_range(&chars, 0, k);
            assert(first@ =~= v@.take(k as int));
            let a = match parse_usize(first.as_str()) { Some(n) => n, None => 0 };
            let b = if k + 1 < chars.len() && chars[k + 1] == '-' {
                let rest = chars_range(&chars, k + 2, chars.len());
                assert(rest@ =~= v@.skip(k + 1).skip(1));
                match parse_usize(rest.as_str()) { Some(n) => n, None => 0 }
            } else {
                0
            };
            (a, b)
        },
    }
}

/// Branch identity and working-tree counters from the output of
/// `git status --porcelain=v2 --branch`.
pub fn parse_status(text: &str) -> (r: (BranchInfo, WorkingTreeInfo))
    ensures
        branch_is(r.0, lines_of(text@)),
        tree_is(r.1, lines_of(text@)),
{
    let ls = split_lines(text);
    let ghost lv = views(ls@);
    let mut head: Option<String> = None;
    let mut oid: Option<String> = None;
    let mut upstream: Option<String> = None;
    let mut ab: Option<String> = None;
    let mut staged: usize = 0;
    let mut unstaged: usize = 0;
    let mut unmerged: usize = 0;
    let mut untracked: usize = 0;
    proof {
        reveal_strlit("# branch.head ");
        reveal_strlit("# branch.oid ");
        reveal_strlit("# branch.upstream ");
        reveal_strlit("# branch.ab ");
    }
    let mut i: usize = 0;
    while i < ls.len()
        invariant
            i <= ls.len(),
            lv == views(ls@),
            lv == lines_of(text@),
            opt_view(head) == header_value(lv.take(i as int), "# branch.head "@),
            opt_view(oid) == header_value(lv.take(i as int), "# branch.oid "@),
            opt_view(upstream) == header_value(lv.take(i as int), "# branch.upstream "@),
            opt_view(ab) == header_value(lv.take(i as int), "# branch.ab "@),
            staged == count_of(lv.take(i as int), 0),
            unstaged == count_of(lv.take(i as int), 1),
            unmerged == count_of(lv.take(i as int), 2),
            untracked == count_of(lv.take(i as int), 3),
        decreases ls.len() - i,
    {
        let ghost pre = lv.take(i as int);
        let ghost next = lv.take(i + 1);
        assert(next.drop_last() =~= pre);
        assert(next.last() == ls@[i as int]@);
        proof {
            lemma_count_bounded(pre, 0);
            lemma_count_bounded(pre, 1);
            lemma_count_bounded(pre, 2);
            lemma_count_bounded(pre, 3);
        }
        let l = ls[i].as_str();
        match strip_prefix(l, "# branch.head ") {
            Some(v) => { head = Some(v); },
            None => {},
        }
        match strip_prefix(l, "# branch.oid ") {
            Some(v) => { oid = Some(v); },
            None => {},
        }
        match strip_prefix(l, "# branch.upstream ") {
            Some(v) => { upstream = Some(v); },
            None => {},
        }
        match strip_prefix(l, "# branch.ab ") {
            Some(v) => { ab = Some(v); },
            None => {},
        }
        if counts(l, 0) {
            staged += 1;
        }
        if counts(l, 1) {
            unstaged += 1;
        }
        if counts(l, 2) {
            unmerged += 1;
        }
        if counts(l, 3) {
            untracked += 1;
        }
        i += 1;
    }
    assert(lv.take(ls.len() as int) =~= lv);
    let is_detached = match &head { Some(h) => str_eq(h.as_str(), "(detached)"), None => false };
    let is_initial = match &oid { Some(o) => str_eq(o.as_str(), "(initial)"), None => false };
    let name = if is_detached { None } else { head };
    let oid = if is_initial { None } else { oid };
    let (ahead, behind) = match &ab { Some(v) => parse_ab(v.as_str()), None => (0, 0) };
    let branch = BranchInfo { name, oid, upstream, ahead, behind, is_detached, is_initial };
    let wt = WorkingTreeInfo { staged, unstaged, untracked, unmerged };
    (branch, wt)
}

// ── Operations in progress ──────────────────────────────────────────

/// Which marker files exist in the git directory.
pub struct GitDirMarkers {
    pub merge_head: bool,
    pub rebase_merge: bool,
    pub rebase_apply: bool,
    pub cherry_pick_head: bool,
    pub revert_head: bool,
    pub bisect_log: bool,
}

/// The operation the markers announce. A rebase (either backend)
/// stops on its own commits and may leave other markers behind, so
/// it is read first; then cherry-pick, revert, a paused merge, and
/// bisect.
pub open spec fn operation_of(m: GitDirMarkers) -> InProgressOp {
    if m.rebase_merge || m.rebase_apply {
        InProgressOp::Rebase
    } else if m.cherry_pick_head {
        InProgressOp::CherryPick
    } else if m.revert_head {
        InProgressOp::Revert
    } else if m.merge_head {
        InProgressOp::Merge
    } else if m.bisect_log {
        InProgressOp::Bisect
    } else {
        InProgressOp::Idle
    }
}

pub fn in_progress_from(m: &GitDirMarkers) -> (r: InProgressOp)
    ensures
        r == operation_of(*m),
{
    if m.rebase_merge || m.rebase_apply {
        InProgressOp::Rebase
    } else if m.cherry_pick_head {
        InProgressOp::CherryPick
    } else if m.revert_head {
        InProgressOp::Revert
    } else if m.merge_head {
        InProgressOp::Merge
    } else if m.bisect_log {
        InProgressOp::Bisect
    } else {
        InProgressOp::Idle
    }
}

/// The repository state read from its porcelain status and the
/// marker files of its git directory.
pub fn repo_state(status: &str, markers: &GitDirMarkers) -> (r: RepoState)
    ensures
        branch_is(r.branch, lines_of(status@)),
        tree_is(r.working_tree, lines_of(status@)),
        r.in_progress == operation_of(*markers),
{
    let (branch, working_tree) = parse_status(status);
    RepoState { branch, working_tree, in_progress: in_progress_from(markers) }
}

} // verus!
