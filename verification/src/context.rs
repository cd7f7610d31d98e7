//! Workspace context: which workspace the current directory is in,
//! and which child repo, if any. A workspace root is the nearest
//! ancestor directory holding a `.workspace/` marker; child repos live
//! under `src/<name>/`. Paths are Unix paths held as text and
//! compared component by component, as `std::path` does.
use vstd::prelude::*;
use vstd::string::StringExecFns;
use crate::text::{chars_range, find_char, index_of_char, lemma_index_of_char, path_join, str_eq, to_chars, views,
    join_path};

verus! {

/// The marker directory that identifies a workspace root.
pub const WORKSPACE_MARKER: &'static str = ".workspace";

/// The manifest file inside the marker directory.
pub const MANIFEST_FILE: &'static str = "manifest.toml";

/// The state declaration file inside the marker directory.
pub const STATE_FILE: &'static str = "state.toml";

/// The per-developer subdirectory of the marker directory.
pub const LOCAL_DIR: &'static str = "local";

/// A detected workspace context.
pub struct Context {
    /// The workspace root (the directory holding `.workspace/`).
    pub root: String,
    /// The child repo the current directory is in, when there is one.
    pub current_repo: Option<String>,
}

// ── Path components ─────────────────────────────────────────────────

/// The `/`-separated pieces of `s`, empty ones included.
pub open spec fn segments(s: Seq<char>) -> Seq<Seq<char>>
    decreases s.len(),
{
    let k = index_of_char(s, '/');
    if k < 0 {
        seq![s]
    } else {
        proof {
            lemma_index_of_char(s, '/');
        }
        seq![s.take(k)] + segments(s.skip(k + 1))
    }
}

/// The segments that name something: not empty, not `.`.
pub open spec fn named(segs: Seq<Seq<char>>) -> Seq<Seq<char>>
    decreases segs.len(),
{
    if segs.len() == 0 {
        Seq::empty()
    } else if segs.last().len() == 0 || segs.last() == "."@ {
        named(segs.drop_last())
    } else {
        named(segs.drop_last()).push(segs.last())
    }
}

/// `Path::components` of a Unix path, each as its text: `/` for the
/// root, `.` for a leading current-directory component, then every
/// named component (repeated separators and interior `.` dropped).
pub open spec fn components(p: Seq<char>) -> Seq<Seq<char>> {
    let segs = segments(p);
    if p.len() > 0 && p[0] == '/' {
        seq!["/"@] + named(segs)
    } else if segs[0] == "."@ {
        seq!["."@] + named(segs)
    } else {
        named(segs)
    }
}

fn split_segments(s: &str) -> (r: Vec<String>)
    ensures
        views(r@) == segments(s@),
{
    let chars = to_chars(s);
    let n = chars.len();
    let mut out: Vec<String> = Vec::new();
    let mut p: usize = 0;
    assert(s@.skip(0) =~= s@);
    loop
        invariant
            p <= n,
            n == s@.len(),
            chars@ == s@,
            segments(s@) == views(out@) + segments(s@.skip(p as int)),
        decreases n - p,
    {
        let ghost t = s@.skip(p as int);
        proof {
            lemma_index_of_char(t, '/');
        }
        match find_char(&chars, p, '/') {
            Some(k) => {
                let seg = chars_range(&chars, p, k);
                assert(seg@ =~= t.take(k - p));
                assert(t.skip(k - p + 1) =~= s@.skip(k + 1));
                let ghost ob = views(out@);
                out.push(seg);
                assert(views(out@) =~= ob.push(seg@));
                p = k + 1;
            },
            None => {
                let seg = chars_range(&chars, p, n);
                assert(seg@ =~= t);
                let ghost ob = views(out@);
                out.push(seg);
                assert(views(out@) =~= ob.push(seg@));
                assert(views(out@) =~= ob + seq![t]);
                return out;
            },
        }
    }
}

proof fn lemma_segments_nonempty(s: Seq<char>)
    ensures
        segments(s).len() >= 1,
    decreases s.len(),
{
    let k = index_of_char(s, '/');
    if k >= 0 {
        lemma_index_of_char(s, '/');
        lemma_segments_nonempty(s.skip(k + 1));
    }
}

/// The components of `p`, as text.
pub fn path_components(p: &str) -> (r: Vec<String>)
    ensures
        views(r@) == components(p@),
{
    let segs = split_segments(p);
    let ghost sv = views(segs@);
    proof {
        lemma_segments_nonempty(p@);
    }
    let mut out: Vec<String> = Vec::new();
    let rooted = p.unicode_len() > 0 && p.get_char(0) == '/';
    if rooted {
        out.push(String::from_str("/"));
    } else if str_eq(segs[0].as_str(), ".") {
        out.push(String::from_str("."));
    }
    proof {
        reveal_strlit("/");
        reveal_strlit(".");
    }
    let ghost start = views(out@);
    assert(start =~= if rooted { seq!["/"@] } else if sv[0] == "."@ { seq!["."@] } else { Seq::<Seq<char>>::empty() });
    let mut i: usize = 0;
    while i < segs.len()
        invariant
            i <= segs.len(),
            sv == views(segs@),
            views(out@) == start + named(sv.take(i as int)),
        decreases segs.len() - i,
    {
        assert(sv.take(i + 1).drop_last() =~= sv.take(i as int));
        let seg = segs[i].as_str();
        if seg.unicode_len() > 0 && !str_eq(seg, ".") {
            let ghost ob = views(out@);
            out.push(String::from_str(seg));
            assert(views(out@) =~= ob.push(seg@));
        }
        i += 1;
    }
    assert(sv.take(i as int) =~= sv);
    out
}

/// `Path::file_name`: the last component when it is a name.
pub open spec fn file_name_spec(p: Seq<char>) -> Option<Seq<char>> {
    let cs = components(p);
    if cs.len() > 0 && cs.last() != "/"@ && cs.last() != "."@ && cs.last() != ".."@ {
        Some(cs.last())
    } else {
        None
    }
}

pub fn file_name(p: &str) -> (r: Option<String>)
    ensures
        match (r, file_name_spec(p@)) {
            (Some(a), Some(b)) => a@ == b,
            (None, None) => true,
            _ => false,
        },
{
    let cs = path_components(p);
    let n = cs.len();
    if n == 0 {
        return None;
    }
    let last = cs[n - 1].as_str();
    proof {
        reveal_strlit("/");
        reveal_strlit(".");
        reveal_strlit("..");
    }
    if str_eq(last, "/") || str_eq(last, ".") || str_eq(last, "..") {
        None
    } else {
        Some(String::from_str(last))
    }
}

/// The child repo `path` is in: the component right after
/// `<root>/src` when `path` lies under it.
pub open spec fn child_repo_spec(root: Seq<char>, path: Seq<char>) -> Option<Seq<char>> {
    let src = components(path_join(root, "src"@));
    let p = components(path);
    if src.len() < p.len() && p.take(src.len() as int) == src {
        Some(p[src.len() as int])
    } else {
        None
    }
}

/// The child repo `path` belongs to, by the `src/<name>` convention.
pub fn identify_child_repo(workspace_root: &str, path: &str) -> (r: Option<String>)
    ensures
        match (r, child_repo_spec(workspace_root@, path@)) {
            (Some(a), Some(b)) => a@ == b,
            (None, None) => true,
            _ => false,
        },
{
    let src_path = join_path(workspace_root, "src");
    let src = path_components(src_path.as_str());
    let comps = path_components(path);
    let ghost sv = views(src@);
    let ghost pv = views(comps@);
    assert(sv == components(path_join(workspace_root@, "src"@)));
    assert(pv == components(path@));
    if src.len() >= comps.len() {
        assert(sv.len() >= pv.len());
        return None;
    }
    let mut i: usize = 0;
    while i < src.len()
        invariant
            i <= src.len(),
            src.len() < comps.len(),
            sv == views(src@),
            pv == views(comps@),
            sv == components(path_join(workspace_root@, "src"@)),
            pv == components(path@),
            pv.take(i as int) == sv.take(i as int),
        decreases src.len() - i,
    {
        assert(sv[i as int] == src@[i as int]@);
        assert(pv[i as int] == comps@[i as int]@);
        if !str_eq(src[i].as_str(), comps[i].as_str()) {
            assert(pv.take(sv.len() as int)[i as int] != sv[i as int]);
            assert(pv.take(sv.len() as int) != sv);
            return None;
        }
        assert(pv.take(i + 1) =~= pv.take(i as int).push(pv[i as int]));
        assert(sv.take(i + 1) =~= sv.take(i as int).push(sv[i as int]));
        i += 1;
    }
    assert(sv.take(i as int) =~= sv);
    assert(pv.take(sv.len() as int) == sv);
    assert(pv[sv.len() as int] == comps@[src.len() as int]@);
    Some(comps[src.len()].clone())
}

// ── Finding the workspace root ──────────────────────────────────────

/// A path made of the first `k` components of `cs`.
pub open spec fn render_prefix(cs: Seq<Seq<char>>, k: int) -> Seq<char>
    decreases k,
{
    if k <= 0 {
        Seq::empty()
    } else if k == 1 {
        cs[0]
    } else if render_prefix(cs, k - 1) == "/"@ {
        "/"@ + cs[k - 1]
    } else {
        render_prefix(cs, k - 1) + "/"@ + cs[k - 1]
    }
}

/// `Path::ancestors` of a path, innermost first: the path itself (as
/// its components), then each parent, down to the first component.
pub open spec fn ancestors_spec(p: Seq<char>) -> Seq<Seq<char>> {
    let cs = components(p);
    Seq::new(cs.len(), |i: int| render_prefix(cs, cs.len() - i))
}

pub fn ancestors(p: &str) -> (r: Vec<String>)
    ensures
        views(r@) == ancestors_spec(p@),
{
    let cs = path_components(p);
    let ghost cv = views(cs@);
    let n = cs.len();
    // Render every prefix, outermost first.
    let mut prefixes: Vec<String> = Vec::new();
    let mut cur = String::new();
    let mut k: usize = 0;
    proof {
        reveal_strlit("/");
    }
    while k < n
        invariant
            k <= n,
            n == cv.len(),
            cv == views(cs@),
            cur@ == render_prefix(cv, k as int),
            prefixes@.len() == k,
            forall|j: int| 0 <= j < k ==> (#[trigger] prefixes@[j])@ == render_prefix(cv, j + 1),
        decreases n - k,
    {
        assert(cv[k as int] == cs@[k as int]@);
        if k == 0 {
            cur = cs[0].clone();
        } else if str_eq(cur.as_str(), "/") {
            let mut next = String::from_str("/");
            next.append(cs[k].as_str());
            cur = next;
        } else {
            cur.append("/");
            cur.append(cs[k].as_str());
        }
        prefixes.push(cur.clone());
        k += 1;
    }
    let mut r: Vec<String> = Vec::new();
    let mut i: usize = 0;
    while i < n
        invariant
            i <= n,
            n == cv.len(),
            prefixes@.len() == n,
            forall|j: int| 0 <= j < n ==> (#[trigger] prefixes@[j])@ == render_prefix(cv, j + 1),
            views(r@) == ancestors_spec(p@).take(i as int),
            cv == components(p@),
        decreases n - i,
    {
        let ghost rb = views(r@);
        r.push(prefixes[n - 1 - i].clone());
        assert(views(r@) =~= rb.push(render_prefix(cv, (n - i) as int)));
        i += 1;
        assert(views(r@) =~= ancestors_spec(p@).take(i as int));
    }
    assert(ancestors_spec(p@).take(i as int) =~= ancestors_spec(p@));
    r
}

/// The first candidate (innermost ancestor) that holds the marker.
pub open spec fn first_marked(candidates: Seq<Seq<char>>, marked: Seq<bool>) -> Option<Seq<char>>
    decreases candidates.len(),
{
    if candidates.len() == 0 || marked.len() == 0 {
        None
    } else if marked[0] {
        Some(candidates[0])
    } else {
        first_marked(candidates.drop_first(), marked.drop_first())
    }
}

/// The workspace root among the ancestors: the first one whose
/// `.workspace` directory exists (`marked`, read for each ancestor).
pub fn find_workspace_root(candidates: &Vec<String>, marked: &Vec<bool>) -> (r: Option<String>)
    requires
        candidates@.len() == marked@.len(),
    ensures
        match (r, first_marked(views(candidates@), marked@)) {
            (Some(a), Some(b)) => a@ == b,
            (None, None) => true,
            _ => false,
        },
{
    let ghost cv = views(candidates@);
    let mut i: usize = 0;
    assert(cv.skip(0) =~= cv);
    assert(marked@.skip(0) =~= marked@);
    while i < candidates.len()
        invariant
            i <= candidates.len(),
            candidates@.len() == marked@.len(),
            cv == views(candidates@),
            first_marked(cv, marked@) == first_marked(cv.skip(i as int), marked@.skip(i as int)),
        decreases candidates.len() - i,
    {
        assert(cv.skip(i as int).drop_first() =~= cv.skip(i + 1));
        assert(marked@.skip(i as int).drop_first() =~= marked@.skip(i + 1));
        if marked[i] {
            return Some(candidates[i].clone());
        }
        i += 1;
    }
    None
}

/// The context once the root is known: the root and the child repo
/// the current directory is in.
pub fn detect_in(root: String, cwd: &str) -> (r: Context)
    ensures
        r.root@ == root@,
        match (r.current_repo, child_repo_spec(root@, cwd@)) {
            (Some(a), Some(b)) => a@ == b,
            (None, None) => true,
            _ => false,
        },
{
    let current_repo = identify_child_repo(root.as_str(), cwd);
    Context { root, current_repo }
}

} // verus!
