//! The declared state of each child (`state.toml`): for every repo
//! with an entry, the branch it should be on and optionally the commit
//! it is pinned to. Repos without an entry follow the manifest's
//! default branch. Two declarations compare into a name-ordered list
//! of per-repo changes.
use vstd::prelude::*;
use crate::text::{lemma_seq_less_asymmetric, lemma_seq_less_irreflexive,
    lemma_seq_less_total, lemma_seq_less_transitive, opt_view, seq_less, str_eq, str_less};
use crate::workspace::names::{lemma_listing_facts, lemma_to_map_at, has_name, NameMap, names_sorted, to_map};

verus! {

/// The declared state of one child.
#[derive(Debug, PartialEq, Eq)]
pub struct RepoState {
    pub branch: String,
    pub commit: Option<String>,
}

impl View for RepoState {
    type V = (Seq<char>, Option<Seq<char>>);

    open spec fn view(&self) -> (Seq<char>, Option<Seq<char>>) {
        (self.branch@, opt_view(self.commit))
    }
}

impl RepoState {
    pub fn copy(&self) -> (r: Self)
        ensures
            r@ == self@,
    {
        RepoState {
            branch: self.branch.clone(),
            commit: match &self.commit {
                Some(c) => Some(c.clone()),
                None => None,
            },
        }
    }
}

/// The declared state of every child that has an entry.
pub struct StateDeclaration {
    pub repos: NameMap<RepoState>,
}

impl StateDeclaration {
    /// An empty declaration: every child follows the default branch.
    pub fn new() -> (r: Self)
        ensures
            r.repos@ == Map::<Seq<char>, (Seq<char>, Option<Seq<char>>)>::empty(),
    {
        StateDeclaration { repos: NameMap::new() }
    }

    /// The entry declared for `name`.
    pub fn get(&self, name: &str) -> (r: Option<&RepoState>)
        ensures
            r is Some <==> self.repos@.contains_key(name@),
            r matches Some(v) ==> v@ == self.repos@[name@],
    {
        self.repos.get(name)
    }

    /// A copy of this declaration.
    pub fn copy(&self) -> (r: Self)
        ensures
            r.repos@ == self.repos@,
    {
        proof {
            use_type_invariant(&self.repos);
        }
        let mut r = StateDeclaration::new();
        let mut i: usize = 0;
        while i < self.repos.len()
            invariant
                i <= self.repos.listing().len(),
                self.repos.wf(),
                r.repos@ == to_map(self.repos.listing().take(i as int)),
            decreases self.repos.listing().len() - i,
        {
            let (name, st) = self.repos.entry(i);
            let ghost s = self.repos.listing();
            let ghost before = r.repos@;
            r.repos.insert(name.clone(), st.copy());
            proof {
                lemma_take_push_map(s, i as int);
            }
            i += 1;
        }
        proof {
            assert(self.repos.listing().take(i as int) =~= self.repos.listing());
        }
        r
    }
}

/// Adding the next entry of a sorted listing to the map of its prefix.
pub proof fn lemma_take_push_map<T>(s: Seq<(Seq<char>, T)>, i: int)
    requires
        names_sorted(s),
        0 <= i < s.len(),
    ensures
        to_map(s.take(i + 1)) == to_map(s.take(i)).insert(s[i].0, s[i].1),
{
    let a = s.take(i);
    let b = s.take(i + 1);
    assert(names_sorted(a));
    assert(names_sorted(b));
    assert forall|x: Seq<char>| #[trigger] to_map(b).contains_key(x) <==> to_map(a).insert(s[i].0, s[i].1).contains_key(x) by {
        if has_name(a, x) {
            let j = choose|j: int| 0 <= j < a.len() && #[trigger] a[j].0 == x;
            assert(b[j].0 == x);
        }
        if has_name(b, x) && x != s[i].0 {
            let j = choose|j: int| 0 <= j < b.len() && #[trigger] b[j].0 == x;
            assert(j != i);
            assert(a[j].0 == x);
        }
        if x == s[i].0 {
            assert(b[i].0 == x);
        }
    }
    assert forall|x: Seq<char>| #[trigger] to_map(b).contains_key(x) implies to_map(b)[x] == to_map(a).insert(s[i].0, s[i].1)[x] by {
        let j = choose|j: int| 0 <= j < b.len() && #[trigger] b[j].0 == x;
        lemma_to_map_at(b, j);
        if j < i {
            lemma_listing_facts(b, j, i);
            lemma_to_map_at(a, j);
        }
    }
    assert(to_map(b) =~= to_map(a).insert(s[i].0, s[i].1));
}

/// One per-repo difference between two declarations.
#[derive(Debug, PartialEq, Eq)]
pub enum StateChange {
    /// The repo gained a declaration.
    Added { name: String, branch: String },
    /// The repo's declaration was dropped.
    Removed { name: String, branch: String },
    /// The repo's declaration changed.
    Changed { name: String, from: String, to: String },
}

/// A change as plain text.
pub enum ChangeView {
    Added(Seq<char>, Seq<char>),
    Removed(Seq<char>, Seq<char>),
    Changed(Seq<char>, Seq<char>, Seq<char>),
}

impl View for StateChange {
    type V = ChangeView;

    open spec fn view(&self) -> ChangeView {
        match self {
            StateChange::Added { name, branch } => ChangeView::Added(name@, branch@),
            StateChange::Removed { name, branch } => ChangeView::Removed(name@, branch@),
            StateChange::Changed { name, from, to } => ChangeView::Changed(name@, from@, to@),
        }
    }
}

pub open spec fn change_name(c: ChangeView) -> Seq<char> {
    match c {
        ChangeView::Added(n, _) => n,
        ChangeView::Removed(n, _) => n,
        ChangeView::Changed(n, _, _) => n,
    }
}

impl StateChange {
    /// The repo this change is about.
    pub fn name(&self) -> (r: &String)
        ensures
            r@ == change_name(self@),
    {
        match self {
            StateChange::Added { name, .. } => name,
            StateChange::Removed { name, .. } => name,
            StateChange::Changed { name, .. } => name,
        }
    }
}

pub type Decl = Map<Seq<char>, (Seq<char>, Option<Seq<char>>)>;

/// What changed for `name` between `head` and `current`: an addition,
/// a removal, a changed entry (reported by branch), or nothing.
pub open spec fn expected_change(head: Decl, current: Decl, name: Seq<char>) -> Option<ChangeView> {
    if head.contains_key(name) && current.contains_key(name) {
        if head[name] != current[name] {
            Some(ChangeView::Changed(name, head[name].0, current[name].0))
        } else {
            None
        }
    } else if current.contains_key(name) {
        Some(ChangeView::Added(name, current[name].0))
    } else if head.contains_key(name) {
        Some(ChangeView::Removed(name, head[name].0))
    } else {
        None
    }
}

pub open spec fn change_views(r: Seq<StateChange>) -> Seq<ChangeView> {
    r.map_values(|c: StateChange| c@)
}

/// `r` lists, in strictly increasing name order, exactly the changes
/// between `head` and `current`.
pub open spec fn is_diff(r: Seq<ChangeView>, head: Decl, current: Decl) -> bool {
    &&& forall|i: int, j: int| 0 <= i < j < r.len() ==> seq_less(change_name(#[trigger] r[i]), change_name(#[trigger] r[j]))
    &&& forall|i: int| 0 <= i < r.len() ==> expected_change(head, current, change_name(#[trigger] r[i])) == Some(r[i])
    &&& forall|n: Seq<char>| #[trigger] expected_change(head, current, n) is Some ==>
            exists|i: int| 0 <= i < r.len() && change_name(#[trigger] r[i]) == n
}

/// `n` sorts before every name still to be visited in `hs[i..]` and `cs[j..]`.
spec fn below<A, B>(n: Seq<char>, hs: Seq<(Seq<char>, A)>, i: int, cs: Seq<(Seq<char>, B)>, j: int) -> bool {
    &&& forall|a: int| i <= a < hs.len() ==> seq_less(n, #[trigger] hs[a].0)
    &&& forall|b: int| j <= b < cs.len() ==> seq_less(n, #[trigger] cs[b].0)
}

spec fn in_result(r: Seq<ChangeView>, n: Seq<char>) -> bool {
    exists|k: int| 0 <= k < r.len() && change_name(#[trigger] r[k]) == n
}

/// The invariant of the merge walk over both sorted listings.
spec fn merge_inv(
    r: Seq<ChangeView>,
    hs: Seq<(Seq<char>, (Seq<char>, Option<Seq<char>>))>,
    i: int,
    cs: Seq<(Seq<char>, (Seq<char>, Option<Seq<char>>))>,
    j: int,
) -> bool {
    &&& 0 <= i <= hs.len()
    &&& 0 <= j <= cs.len()
    &&& names_sorted(hs)
    &&& names_sorted(cs)
    &&& forall|a: int| 0 <= a < i ==> below(#[trigger] hs[a].0, hs, i, cs, j)
    &&& forall|b: int| 0 <= b < j ==> below(#[trigger] cs[b].0, hs, i, cs, j)
    &&& forall|k: int| 0 <= k < r.len() ==> below(change_name(#[trigger] r[k]), hs, i, cs, j)
    &&& forall|k: int, l: int| 0 <= k < l < r.len() ==> seq_less(change_name(#[trigger] r[k]), change_name(#[trigger] r[l]))
    &&& forall|k: int| 0 <= k < r.len() ==> expected_change(to_map(hs), to_map(cs), change_name(#[trigger] r[k])) == Some(r[k])
    &&& forall|a: int| 0 <= a < i ==> (expected_change(to_map(hs), to_map(cs), #[trigger] hs[a].0) is Some ==> in_result(r, hs[a].0))
    &&& forall|b: int| 0 <= b < j ==> (expected_change(to_map(hs), to_map(cs), #[trigger] cs[b].0) is Some ==> in_result(r, cs[b].0))
}

/// A name below the frontier of a sorted listing is not in its rest,
/// and a name equal to the frontier's is found there.
proof fn lemma_not_in_rest<A>(s: Seq<(Seq<char>, A)>, from: int, n: Seq<char>)
    requires
        names_sorted(s),
        0 <= from <= s.len(),
        forall|a: int| 0 <= a < from ==> seq_less(#[trigger] s[a].0, n),
        from < s.len() ==> seq_less(n, s[from].0),
    ensures
        !has_name(s, n),
{
    if has_name(s, n) {
        let k = choose|k: int| 0 <= k < s.len() && #[trigger] s[k].0 == n;
        lemma_seq_less_irreflexive(n);
        if k > from {
            lemma_seq_less_transitive(n, s[from].0, s[k].0);
        }
    }
}

/// Merge step: the frontier advances past `n`, which is below every
/// unvisited name.
proof fn lemma_below_after(
    n: Seq<char>,
    hs: Seq<(Seq<char>, (Seq<char>, Option<Seq<char>>))>,
    i: int,
    i2: int,
    cs: Seq<(Seq<char>, (Seq<char>, Option<Seq<char>>))>,
    j: int,
    j2: int,
)
    requires
        names_sorted(hs),
        names_sorted(cs),
        0 <= i <= i2 <= hs.len(),
        0 <= j <= j2 <= cs.len(),
        i2 <= i + 1,
        j2 <= j + 1,
        i2 == i + 1 ==> hs[i].0 == n,
        j2 == j + 1 ==> cs[j].0 == n,
        i2 == i && i < hs.len() ==> seq_less(n, hs[i].0),
        j2 == j && j < cs.len() ==> seq_less(n, cs[j].0),
    ensures
        below(n, hs, i2, cs, j2),
{
    assert forall|a: int| i2 <= a < hs.len() implies seq_less(n, #[trigger] hs[a].0) by {
        if i2 == i + 1 {
            assert(seq_less(hs[i].0, hs[a].0));
        } else if a > i {
            lemma_seq_less_transitive(n, hs[i].0, hs[a].0);
        }
    }
    assert forall|b: int| j2 <= b < cs.len() implies seq_less(n, #[trigger] cs[b].0) by {
        if j2 == j + 1 {
            assert(seq_less(cs[j].0, cs[b].0));
        } else if b > j {
            lemma_seq_less_transitive(n, cs[j].0, cs[b].0);
        }
    }
}

/// The invariant is kept when the frontier advances past `n` and `r2`
/// holds the change for `n`, if any.
proof fn lemma_merge_step(
    r: Seq<ChangeView>,
    r2: Seq<ChangeView>,
    n: Seq<char>,
    hs: Seq<(Seq<char>, (Seq<char>, Option<Seq<char>>))>,
    i: int,
    i2: int,
    cs: Seq<(Seq<char>, (Seq<char>, Option<Seq<char>>))>,
    j: int,
    j2: int,
)
    requires
        merge_inv(r, hs, i, cs, j),
        i <= i2 <= i + 1,
        j <= j2 <= j + 1,
        i2 <= hs.len(),
        j2 <= cs.len(),
        i2 + j2 > i + j,
        i2 == i + 1 ==> hs[i].0 == n,
        j2 == j + 1 ==> cs[j].0 == n,
        i2 == i && i < hs.len() ==> seq_less(n, hs[i].0),
        j2 == j && j < cs.len() ==> seq_less(n, cs[j].0),
        expected_change(to_map(hs), to_map(cs), n) is Some ==> r2 == r.push(expected_change(to_map(hs), to_map(cs), n).unwrap()),
        expected_change(to_map(hs), to_map(cs), n) is Some ==> change_name(expected_change(to_map(hs), to_map(cs), n).unwrap()) == n,
        expected_change(to_map(hs), to_map(cs), n) is None ==> r2 == r,
    ensures
        merge_inv(r2, hs, i2, cs, j2),
{
    let hm = to_map(hs);
    let cm = to_map(cs);
    proof_below_n(r, n, hs, i, i2, cs, j, j2);
    lemma_below_after(n, hs, i, i2, cs, j, j2);
    assert forall|a: int| 0 <= a < i2 implies below(#[trigger] hs[a].0, hs, i2, cs, j2) by {
        if a == i {
            assert(hs[a].0 == n);
        } else {
            assert(below(hs[a].0, hs, i, cs, j));
        }
    }
    assert forall|b: int| 0 <= b < j2 implies below(#[trigger] cs[b].0, hs, i2, cs, j2) by {
        if b == j {
            assert(cs[b].0 == n);
        } else {
            assert(below(cs[b].0, hs, i, cs, j));
        }
    }
    assert forall|k: int| 0 <= k < r2.len() implies below(change_name(#[trigger] r2[k]), hs, i2, cs, j2) by {
        if k < r.len() {
            assert(r2[k] == r[k]);
            assert(below(change_name(r[k]), hs, i, cs, j));
        } else {
            assert(change_name(r2[k]) == n);
        }
    }
    assert forall|k: int, l: int| 0 <= k < l < r2.len() implies seq_less(change_name(#[trigger] r2[k]), change_name(#[trigger] r2[l])) by {
        if l < r.len() {
            assert(r2[k] == r[k] && r2[l] == r[l]);
        } else {
            assert(r2[k] == r[k]);
            assert(change_name(r2[l]) == n);
            assert(below(change_name(r[k]), hs, i, cs, j));
        }
    }
    assert forall|k: int| 0 <= k < r2.len() implies expected_change(hm, cm, change_name(#[trigger] r2[k])) == Some(r2[k]) by {
        if k < r.len() {
            assert(r2[k] == r[k]);
        }
    }
    assert forall|a: int| 0 <= a < i2 && expected_change(hm, cm, #[trigger] hs[a].0) is Some implies in_result(r2, hs[a].0) by {
        if a < i {
            let k = choose|k: int| 0 <= k < r.len() && change_name(#[trigger] r[k]) == hs[a].0;
            assert(r2[k] == r[k]);
        } else {
            assert(change_name(r2[r.len() as int]) == n);
        }
    }
    assert forall|b: int| 0 <= b < j2 && expected_change(hm, cm, #[trigger] cs[b].0) is Some implies in_result(r2, cs[b].0) by {
        if b < j {
            let k = choose|k: int| 0 <= k < r.len() && change_name(#[trigger] r[k]) == cs[b].0;
            assert(r2[k] == r[k]);
        } else {
            assert(change_name(r2[r.len() as int]) == n);
        }
    }
}

/// Every name already visited, and every name in the result, is
/// below `n`.
proof fn proof_below_n(
    r: Seq<ChangeView>,
    n: Seq<char>,
    hs: Seq<(Seq<char>, (Seq<char>, Option<Seq<char>>))>,
    i: int,
    i2: int,
    cs: Seq<(Seq<char>, (Seq<char>, Option<Seq<char>>))>,
    j: int,
    j2: int,
)
    requires
        merge_inv(r, hs, i, cs, j),
        i <= i2 <= i + 1,
        j <= j2 <= j + 1,
        i2 <= hs.len(),
        j2 <= cs.len(),
        i2 + j2 > i + j,
        i2 == i + 1 ==> hs[i].0 == n,
        j2 == j + 1 ==> cs[j].0 == n,
    ensures
        forall|k: int| 0 <= k < r.len() ==> seq_less(change_name(#[trigger] r[k]), n),
{
    assert forall|k: int| 0 <= k < r.len() implies seq_less(change_name(#[trigger] r[k]), n) by {
        assert(below(change_name(r[k]), hs, i, cs, j));
        if i2 == i + 1 {
            assert(seq_less(change_name(r[k]), hs[i].0));
        } else {
            assert(seq_less(change_name(r[k]), cs[j].0));
        }
    }
}

/// The head-side entry at `i` (a name absent from `current`, when
/// `removed`) or the current-side entry at `j` determine the change.
proof fn lemma_map_facts(
    hs: Seq<(Seq<char>, (Seq<char>, Option<Seq<char>>))>,
    i: int,
    cs: Seq<(Seq<char>, (Seq<char>, Option<Seq<char>>))>,
    j: int,
)
    requires
        names_sorted(hs),
        names_sorted(cs),
        0 <= i <= hs.len(),
        0 <= j <= cs.len(),
    ensures
        i < hs.len() ==> to_map(hs).contains_key(hs[i].0) && to_map(hs)[hs[i].0] == hs[i].1,
        j < cs.len() ==> to_map(cs).contains_key(cs[j].0) && to_map(cs)[cs[j].0] == cs[j].1,
{
    if i < hs.len() {
        lemma_to_map_at(hs, i);
    }
    if j < cs.len() {
        lemma_to_map_at(cs, j);
    }
}

fn branch_of(s: &RepoState) -> (r: String)
    ensures
        r@ == s@.0,
{
    s.branch.clone()
}

fn same_entry(a: &RepoState, b: &RepoState) -> (r: bool)
    ensures
        r == (a@ == b@),
{
    if !str_eq(a.branch.as_str(), b.branch.as_str()) {
        return false;
    }
    match (&a.commit, &b.commit) {
        (Some(x), Some(y)) => str_eq(x.as_str(), y.as_str()),
        (None, None) => true,
        _ => false,
    }
}

/// The per-repo changes from `head` to `current`, sorted by repo name.
pub fn diff_states(head: &StateDeclaration, current: &StateDeclaration) -> (r: Vec<StateChange>)
    ensures
        is_diff(change_views(r@), head.repos@, current.repos@),
{
    proof {
        use_type_invariant(&head.repos);
        use_type_invariant(&current.repos);
    }
    let ghost hs = head.repos.listing();
    let ghost cs = current.repos.listing();
    let mut r: Vec<StateChange> = Vec::new();
    let mut i: usize = 0;
    let mut j: usize = 0;
    let hn = head.repos.len();
    let cn = current.repos.len();
    assert(change_views(r@) =~= Seq::<ChangeView>::empty());
    while i < hn || j < cn
        invariant
            hs == head.repos.listing(),
            cs == current.repos.listing(),
            hn == hs.len(),
            cn == cs.len(),
            head.repos@ == to_map(hs),
            current.repos@ == to_map(cs),
            merge_inv(change_views(r@), hs, i as int, cs, j as int),
        decreases hn + cn - i - j,
    {
        let ghost rv = change_views(r@);
        proof {
            lemma_map_facts(hs, i as int, cs, j as int);
        }
        let take_head: bool;
        let take_current: bool;
        if i < hn && j < cn {
            let (hname, _) = head.repos.entry(i);
            let (cname, _) = current.repos.entry(j);
            if str_less(hname.as_str(), cname.as_str()) {
                take_head = true;
                take_current = false;
            } else if str_less(cname.as_str(), hname.as_str()) {
                take_head = false;
                take_current = true;
            } else {
                proof {
                    lemma_seq_less_total(hs[i as int].0, cs[j as int].0);
                }
                take_head = true;
                take_current = true;
            }
        } else if i < hn {
            take_head = true;
            take_current = false;
        } else {
            take_head = false;
            take_current = true;
        }
        let ghost n = if take_head { hs[i as int].0 } else { cs[j as int].0 };
        proof {
            // `n` is absent from whichever side is not taken.
            if take_head && !take_current {
                assert forall|b: int| 0 <= b < j implies seq_less(#[trigger] cs[b].0, n) by {
                    assert(below(cs[b].0, hs, i as int, cs, j as int));
                }
                lemma_not_in_rest(cs, j as int, n);
            }
            if take_current && !take_head {
                assert forall|a: int| 0 <= a < i implies seq_less(#[trigger] hs[a].0, n) by {
                    assert(below(hs[a].0, hs, i as int, cs, j as int));
                }
                lemma_not_in_rest(hs, i as int, n);
            }
        }
        let ghost e = expected_change(to_map(hs), to_map(cs), n);
        if take_head && take_current {
            let (hname, hst) = head.repos.entry(i);
            let (_, cst) = current.repos.entry(j);
            if !same_entry(hst, cst) {
                r.push(StateChange::Changed { name: hname.clone(), from: branch_of(hst), to: branch_of(cst) });
            }
        } else if take_head {
            let (hname, hst) = head.repos.entry(i);
            r.push(StateChange::Removed { name: hname.clone(), branch: branch_of(hst) });
        } else {
            let (cname, cst) = current.repos.entry(j);
            r.push(StateChange::Added { name: cname.clone(), branch: branch_of(cst) });
        }
        proof {
            let r2 = change_views(r@);
            if e is Some {
                assert(r2 =~= rv.push(e.unwrap()));
            } else {
                assert(r2 =~= rv);
            }
            let i2: int = if take_head { i + 1 } else { i as int };
            let j2: int = if take_current { j + 1 } else { j as int };
            lemma_merge_step(rv, r2, n, hs, i as int, i2, cs, j as int, j2);
        }
        if take_head {
            i += 1;
        }
        if take_current {
            j += 1;
        }
    }
    proof {
        let rv = change_views(r@);
        let hm = to_map(hs);
        let cm = to_map(cs);
        assert forall|x: Seq<char>| #[trigger] expected_change(hm, cm, x) is Some implies
            exists|k: int| 0 <= k < rv.len() && change_name(#[trigger] rv[k]) == x by {
            if hm.contains_key(x) {
                let a = choose|a: int| 0 <= a < hs.len() && #[trigger] hs[a].0 == x;
                assert(in_result(rv, hs[a].0));
            } else {
                let b = choose|b: int| 0 <= b < cs.len() && #[trigger] cs[b].0 == x;
                assert(in_result(rv, cs[b].0));
            }
        }
    }
    r
}

/// A declaration compared with itself has no changes.
pub proof fn law_diff_with_itself_is_empty(r: Seq<ChangeView>, d: Decl)
    requires
        is_diff(r, d, d),
    ensures
        r.len() == 0,
{
    if r.len() > 0 {
        assert(expected_change(d, d, change_name(r[0])) == Some(r[0]));
    }
}

/// Some change in `r` is about the repo `n`.
pub open spec fn names_change(r: Seq<ChangeView>, n: Seq<char>) -> bool {
    exists|i: int| 0 <= i < r.len() && change_name(r[i]) == n
}

/// Changes sorted strictly by name, each the expected change of its name.
pub open spec fn sorted_expected(r: Seq<ChangeView>, head: Decl, current: Decl) -> bool {
    &&& forall|i: int, j: int| 0 <= i < j < r.len() ==> seq_less(change_name(#[trigger] r[i]), change_name(#[trigger] r[j]))
    &&& forall|i: int| 0 <= i < r.len() ==> expected_change(head, current, change_name(#[trigger] r[i])) == Some(r[i])
}

proof fn lemma_sorted_expected_tail(r: Seq<ChangeView>, head: Decl, current: Decl)
    requires
        r.len() > 0,
        sorted_expected(r, head, current),
    ensures
        sorted_expected(r.drop_first(), head, current),
        forall|n: Seq<char>| names_change(r.drop_first(), n) <==> (names_change(r, n) && n != change_name(r[0])),
{
    let t = r.drop_first();
    assert forall|i: int, j: int| 0 <= i < j < t.len() implies seq_less(change_name(#[trigger] t[i]), change_name(#[trigger] t[j])) by {
        assert(t[i] == r[i + 1] && t[j] == r[j + 1]);
    }
    assert forall|i: int| 0 <= i < t.len() implies expected_change(head, current, change_name(#[trigger] t[i])) == Some(t[i]) by {
        assert(t[i] == r[i + 1]);
    }
    assert forall|n: Seq<char>| names_change(t, n) <==> (names_change(r, n) && n != change_name(r[0])) by {
        if names_change(t, n) {
            let i = choose|i: int| 0 <= i < t.len() && change_name(t[i]) == n;
            assert(t[i] == r[i + 1]);
            assert(seq_less(change_name(r[0]), change_name(r[i + 1])));
            lemma_seq_less_irreflexive(n);
        }
        if names_change(r, n) && n != change_name(r[0]) {
            let i = choose|i: int| 0 <= i < r.len() && change_name(r[i]) == n;
            assert(i != 0);
            assert(t[i - 1] == r[i]);
        }
    }
}

/// The first change of a sorted list is the one whose name is below
/// every other named in it.
proof fn lemma_first_is_least(r: Seq<ChangeView>, head: Decl, current: Decl, n: Seq<char>)
    requires
        r.len() > 0,
        sorted_expected(r, head, current),
        names_change(r, n),
        n != change_name(r[0]),
    ensures
        seq_less(change_name(r[0]), n),
{
    let i = choose|i: int| 0 <= i < r.len() && change_name(r[i]) == n;
    assert(i != 0);
}

/// Two change lists sorted strictly by name, naming the same repos,
/// each change the expected one for its name, are equal.
proof fn lemma_sorted_changes_equal(a: Seq<ChangeView>, b: Seq<ChangeView>, head: Decl, current: Decl)
    requires
        sorted_expected(a, head, current),
        sorted_expected(b, head, current),
        forall|n: Seq<char>| names_change(a, n) <==> names_change(b, n),
    ensures
        a == b,
    decreases a.len(),
{
    if a.len() == 0 {
        if b.len() > 0 {
            assert(names_change(b, change_name(b[0])));
        }
        assert(a =~= b);
    } else {
        assert(names_change(a, change_name(a[0])));
        assert(b.len() > 0);
        assert(names_change(b, change_name(b[0])));
        let n = change_name(a[0]);
        let m = change_name(b[0]);
        if n != m {
            lemma_first_is_least(a, head, current, m);
            lemma_first_is_least(b, head, current, n);
            lemma_seq_less_asymmetric(n, m);
            assert(false);
        }
        assert(a[0] == b[0]);
        lemma_sorted_expected_tail(a, head, current);
        lemma_sorted_expected_tail(b, head, current);
        assert forall|x: Seq<char>| names_change(a.drop_first(), x) <==> names_change(b.drop_first(), x) by {
            assert(names_change(a.drop_first(), x) <==> (names_change(a, x) && x != n));
            assert(names_change(b.drop_first(), x) <==> (names_change(b, x) && x != m));
            assert(names_change(a, x) <==> names_change(b, x));
        }
        lemma_sorted_changes_equal(a.drop_first(), b.drop_first(), head, current);
        assert(a =~= seq![a[0]] + a.drop_first());
        assert(b =~= seq![b[0]] + b.drop_first());
    }
}

/// The comparison of two declarations has exactly one answer: any two
/// change lists that meet the contract of `diff_states` are the same.
pub proof fn law_diff_is_determined(r1: Seq<ChangeView>, r2: Seq<ChangeView>, head: Decl, current: Decl)
    requires
        is_diff(r1, head, current),
        is_diff(r2, head, current),
    ensures
        r1 == r2,
{
    assert forall|n: Seq<char>| names_change(r1, n) <==> names_change(r2, n) by {
        if names_change(r1, n) {
            let i = choose|i: int| 0 <= i < r1.len() && change_name(r1[i]) == n;
            assert(expected_change(head, current, change_name(r1[i])) is Some);
        }
        if names_change(r2, n) {
            let j = choose|j: int| 0 <= j < r2.len() && change_name(r2[j]) == n;
            assert(expected_change(head, current, change_name(r2[j])) is Some);
        }
    }
    lemma_sorted_changes_equal(r1, r2, head, current);
}

} // verus!
