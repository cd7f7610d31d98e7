//! `ws clone <url> [<dest>]` — clone a workspace repo, then every
//! child its manifest declares. A child that fails to clone is
//! reported; the others go on.
use vstd::prelude::*;
use vstd::string::StringExecFns;
use crate::cli::Renderable;
use crate::commands::ws::{column_line, column_line_exec, plan_lines, render_explain_plan, signed_decimal, signed_decimal_exec};
use crate::text::{chars_range, concat_lines, decimal, decimal_of, find_char, index_of_char, lemma_index_of_char,
    lines_of, lines_text, max_byte_width, max_width, parse_u64, parse_u64_spec, path_join, join_path, split_lines,
    starts_with, starts_with_spec, str_eq, strip_prefix, to_chars, trim, trim_end, trim_start, views};
use crate::workspace::manifest::{repo_rel_path, RepoEntry};

verus! {

/// `git ws clone`.
pub struct WsClone {
    pub explain: bool,
}

// ── Arguments ───────────────────────────────────────────────────────

#[derive(Debug)]
pub struct ParsedArgs {
    pub url: String,
    pub dest: Option<String>,
    pub no_children: bool,
}

pub type CloneScan = (Option<Seq<char>>, Option<Seq<char>>, bool);

/// The arguments read so far, or the first refusal.
pub open spec fn scan(args: Seq<Seq<char>>) -> Result<CloneScan, Seq<char>>
    decreases args.len(),
{
    if args.len() == 0 {
        Ok((None, None, false))
    } else {
        match scan(args.drop_last()) {
            Err(e) => Err(e),
            Ok((url, dest, nc)) => {
                let s = args.last();
                if s == "--no-children"@ {
                    Ok((url, dest, true))
                } else if starts_with_spec(s, "--"@) {
                    Err("ws clone: unexpected flag '"@ + s + "'. Expected: <url> [<dest>] [--no-children]."@)
                } else if url is None {
                    Ok((Some(s), dest, nc))
                } else if dest is None {
                    Ok((url, Some(s), nc))
                } else {
                    Err("ws clone: too many positional arguments. Expected `<url> [<dest>]`."@)
                }
            },
        }
    }
}

pub open spec fn parse_args_spec(args: Seq<Seq<char>>) -> Result<CloneScan, Seq<char>> {
    match scan(args) {
        Err(e) => Err(e),
        Ok((None, _, _)) => Err("ws clone: missing required <url> argument."@),
        Ok(st) => Ok(st),
    }
}

proof fn lemma_scan_stops(args: Seq<Seq<char>>, k: int)
    requires
        0 <= k <= args.len(),
        scan(args.take(k)) is Err,
    ensures
        scan(args) == scan(args.take(k)),
    decreases args.len() - k,
{
    if k < args.len() {
        assert(args.take(k + 1).drop_last() =~= args.take(k));
        lemma_scan_stops(args, k + 1);
    } else {
        assert(args.take(k) =~= args);
    }
}

pub open spec fn opt_seq(o: Option<String>) -> Option<Seq<char>> {
    match o {
        Some(s) => Some(s@),
        None => None,
    }
}

pub fn parse_args(args: &Vec<String>) -> (r: Result<ParsedArgs, String>)
    ensures
        match (r, parse_args_spec(views(args@))) {
            (Ok(p), Ok(st)) => Some(p.url@) == st.0 && opt_seq(p.dest) == st.1 && p.no_children == st.2,
            (Err(a), Err(b)) => a@ == b,
            _ => false,
        },
{
    let ghost vs = views(args@);
    let mut url: Option<String> = None;
    let mut dest: Option<String> = None;
    let mut no_children = false;
    let mut i: usize = 0;
    while i < args.len()
        invariant
            i <= args.len(),
            vs == views(args@),
            scan(vs.take(i as int)) == Ok::<CloneScan, Seq<char>>((opt_seq(url), opt_seq(dest), no_children)),
        decreases args.len() - i,
    {
        assert(vs.take(i + 1).drop_last() =~= vs.take(i as int));
        let s = args[i].as_str();
        assert(vs.take(i + 1).last() == s@);
        proof {
            reveal_strlit("--no-children");
        }
        if str_eq(s, "--no-children") {
            no_children = true;
        } else if starts_with(s, "--") {
            proof {
                lemma_scan_stops(vs, i + 1);
            }
            let mut m = String::from_str("ws clone: unexpected flag '");
            m.append(s);
            m.append("'. Expected: <url> [<dest>] [--no-children].");
            return Err(m);
        } else if url.is_none() {
            url = Some(String::from_str(s));
        } else if dest.is_none() {
            dest = Some(String::from_str(s));
        } else {
            proof {
                lemma_scan_stops(vs, i + 1);
            }
            return Err(String::from_str("ws clone: too many positional arguments. Expected `<url> [<dest>]`."));
        }
        i += 1;
    }
    assert(vs.take(i as int) =~= vs);
    match url {
        Some(u) => Ok(ParsedArgs { url: u, dest, no_children }),
        None => Err(String::from_str("ws clone: missing required <url> argument.")),
    }
}

// ── Destination ─────────────────────────────────────────────────────

/// `s` without trailing `/`s.
pub open spec fn trim_slashes(s: Seq<char>) -> Seq<char>
    decreases s.len(),
{
    if s.len() > 0 && s.last() == '/' { trim_slashes(s.drop_last()) } else { s }
}

/// Position just after the last `/` or `:`, or 0.
pub open spec fn cut_point(s: Seq<char>) -> int
    decreases s.len(),
{
    if s.len() == 0 {
        0
    } else if s.last() == '/' || s.last() == ':' {
        s.len() as int
    } else {
        cut_point(s.drop_last())
    }
}

/// The default destination of a clone URL, as `git clone` picks it:
/// the last path component (after `/` or `:`, trailing `/`s ignored)
/// without a `.git` suffix.
pub open spec fn basename_spec(url: Seq<char>) -> Seq<char> {
    let t = trim_slashes(url);
    let last = t.skip(cut_point(t));
    if last.len() >= 4 && last.skip(last.len() - 4) == ".git"@ {
        last.take(last.len() - 4)
    } else {
        last
    }
}

proof fn lemma_cut_point(s: Seq<char>)
    ensures
        0 <= cut_point(s) <= s.len(),
    decreases s.len(),
{
    if s.len() > 0 {
        lemma_cut_point(s.drop_last());
    }
}

pub fn basename_from_url(url: &str) -> (r: String)
    ensures
        r@ == basename_spec(url@),
{
    let chars = to_chars(url);
    let mut end: usize = chars.len();
    assert(url@.take(end as int) =~= url@);
    while end > 0 && chars[end - 1] == '/'
        invariant
            end <= chars@.len(),
            chars@ == url@,
            trim_slashes(url@) == trim_slashes(url@.take(end as int)),
        decreases end,
    {
        assert(url@.take(end as int).drop_last() =~= url@.take(end - 1));
        end -= 1;
    }
    let ghost t = url@.take(end as int);
    assert(trim_slashes(t) == t);
    let mut cut: usize = end;
    assert(t.take(end as int) =~= t);
    while cut > 0 && chars[cut - 1] != '/' && chars[cut - 1] != ':'
        invariant
            cut <= end,
            end <= chars@.len(),
            chars@ == url@,
            t == url@.take(end as int),
            cut_point(t) == cut_point(t.take(cut as int)),
        decreases cut,
    {
        assert(t.take(cut as int).drop_last() =~= t.take(cut - 1));
        cut -= 1;
    }
    assert(cut_point(t.take(cut as int)) == cut as int);
    let last = chars_range(&chars, cut, end);
    assert(last@ =~= t.skip(cut as int));
    let n = last.unicode_len();
    proof {
        reveal_strlit(".git");
    }
    if n >= 4 {
        let tail = last.as_str().substring_char(n - 4, n);
        if str_eq(tail, ".git") {
            assert(tail@ =~= last@.skip(n - 4));
            let head = last.as_str().substring_char(0, n - 4);
            assert(head@ =~= last@.take(n - 4));
            return String::from_str(head);
        }
        assert(tail@ =~= last@.skip(n - 4));
    }
    last
}

pub open spec fn no_dest_msg(url: Seq<char>) -> Seq<char> {
    "ws clone: could not derive a destination directory from URL `"@ + url
        + "`. Pass a destination explicitly: `ws clone <url> <dir>`."@
}

/// The destination: the one given, else the URL's basename; refused
/// when that is empty.
pub fn destination(parsed: &ParsedArgs) -> (r: Result<String, String>)
    ensures
        ({
            let d = match parsed.dest { Some(d) => d@, None => basename_spec(parsed.url@) };
            if d.len() == 0 {
                r matches Err(e) && e@ == no_dest_msg(parsed.url@)
            } else {
                r matches Ok(s) && s@ == d
            }
        }),
{
    let dest = match &parsed.dest {
        Some(d) => d.clone(),
        None => basename_from_url(parsed.url.as_str()),
    };
    if dest.unicode_len() == 0 {
        let mut m = String::from_str("ws clone: could not derive a destination directory from URL `");
        m.append(parsed.url.as_str());
        m.append("`. Pass a destination explicitly: `ws clone <url> <dir>`.");
        return Err(m);
    }
    Ok(dest)
}

/// `<root>/.workspace/manifest.toml`.
pub fn manifest_path(workspace_root: &str) -> (r: String)
    ensures
        r@ == path_join(path_join(workspace_root@, ".workspace"@), "manifest.toml"@),
{
    let dir = join_path(workspace_root, ".workspace");
    join_path(dir.as_str(), "manifest.toml")
}

pub open spec fn clone_plan_spec(url: Seq<char>, dest: Seq<char>, no_children: bool) -> Seq<Seq<char>> {
    seq!["git clone "@ + url + " "@ + dest] + if no_children {
        seq!["skip child clones (--no-children); leave `"@ + dest + "` as a workspace repo only"@]
    } else {
        seq![
            "read `"@ + dest + "/.workspace/manifest.toml` to discover declared child repos"@,
            "for each declared child, in parallel: `git clone --progress <url> <dest>/<repo.path or src/<name>>`"@,
            "render a Docker-style progress bar per child via indicatif::MultiProgress"@,
        ]
    }
}

/// The `--explain` answer of `ws clone`.
pub fn clone_explained(parsed: ParsedArgs, dest: String) -> (r: WsCloneOutput)
    ensures
        r.workspace_url@ == parsed.url@,
        r.workspace_root@ == dest@,
        r.no_children == parsed.no_children,
        !r.manifest_present,
        r.children@.len() == 0,
        r.explain_plan matches Some(p) && views(p@) == clone_plan_spec(parsed.url@, dest@, parsed.no_children),
{
    let mut a = String::from_str("git clone ");
    a.append(parsed.url.as_str());
    a.append(" ");
    a.append(dest.as_str());
    let plan = if parsed.no_children {
        let mut b = String::from_str("skip child clones (--no-children); leave `");
        b.append(dest.as_str());
        b.append("` as a workspace repo only");
        vec![a, b]
    } else {
        let mut b = String::from_str("read `");
        b.append(dest.as_str());
        b.append("/.workspace/manifest.toml` to discover declared child repos");
        let c = String::from_str("for each declared child, in parallel: `git clone --progress <url> <dest>/<repo.path or src/<name>>`");
        let d = String::from_str("render a Docker-style progress bar per child via indicatif::MultiProgress");
        vec![a, b, c, d]
    };
    assert(views(plan@) =~= clone_plan_spec(parsed.url@, dest@, parsed.no_children));
    WsCloneOutput {
        workspace_url: parsed.url,
        workspace_root: dest,
        no_children: parsed.no_children,
        manifest_present: false,
        children: Vec::new(),
        explain_plan: Some(plan),
    }
}

/// A child to clone: its name, URL and destination.
pub struct CloneTarget {
    pub name: String,
    pub url: String,
    pub dest: String,
}

/// One clone per declared child, into `<root>/<its relative path>`.
pub fn clone_targets(root: &str, repos: &Vec<RepoEntry>) -> (r: Vec<CloneTarget>)
    ensures
        r@.len() == repos@.len(),
        forall|i: int| 0 <= i < r@.len() ==> (#[trigger] r@[i]).name@ == repos@[i].name@ && r@[i].url@ == repos@[i].url@
            && r@[i].dest@ == path_join(root@, repo_rel_path(repos@[i])),
{
    let mut r: Vec<CloneTarget> = Vec::new();
    let mut i: usize = 0;
    while i < repos.len()
        invariant
            i <= repos.len(),
            r@.len() == i,
            forall|k: int| 0 <= k < i ==> (#[trigger] r@[k]).name@ == repos@[k].name@ && r@[k].url@ == repos@[k].url@
                && r@[k].dest@ == path_join(root@, repo_rel_path(repos@[k])),
        decreases repos.len() - i,
    {
        let rel = repos[i].rel_path();
        r.push(CloneTarget { name: repos[i].name.clone(), url: repos[i].url.clone(), dest: join_path(root, rel.as_str()) });
        i += 1;
    }
    r
}

// ── Progress lines ──────────────────────────────────────────────────

pub open spec fn known_phases() -> Seq<Seq<char>> {
    seq![
        "Counting objects"@,
        "Enumerating objects"@,
        "Compressing objects"@,
        "Receiving objects"@,
        "Resolving deltas"@,
        "Updating files"@,
        "Filtering content"@,
    ]
}

/// The first phase name `line` starts with.
pub open spec fn phase_of(line: Seq<char>, phases: Seq<Seq<char>>) -> Option<Seq<char>>
    decreases phases.len(),
{
    if phases.len() == 0 {
        None
    } else if starts_with_spec(line, phases[0]) {
        Some(phases[0])
    } else {
        phase_of(line, phases.drop_first())
    }
}

proof fn lemma_phase_prefix(line: Seq<char>, phases: Seq<Seq<char>>)
    ensures
        phase_of(line, phases) matches Some(p) ==> starts_with_spec(line, p),
    decreases phases.len(),
{
    if phases.len() > 0 && !starts_with_spec(line, phases[0]) {
        lemma_phase_prefix(line, phases.drop_first());
    }
}

/// The leading ASCII digits of `s`.
pub open spec fn digit_prefix(s: Seq<char>) -> Seq<char>
    decreases s.len(),
{
    if s.len() > 0 && '0' <= s[0] && s[0] <= '9' { seq![s[0]] + digit_prefix(s.drop_first()) } else { Seq::empty() }
}

pub open spec fn trimmed(s: Seq<char>) -> Seq<char> {
    trim_end(trim_start(s))
}

/// The `(cur/total)` reading of the text after the phase, when it has
/// one: `Some(None)` when it does not apply, `Some(Some(..))` with the
/// numbers, `None` when the numbers do not parse.
pub open spec fn paren_reading(rest: Seq<char>) -> Option<Option<(u64, u64)>> {
    let open = index_of_char(rest, '(');
    if open < 0 {
        Some(None)
    } else {
        let after = rest.skip(open);
        let close = index_of_char(after, ')');
        if close < 0 {
            Some(None)
        } else {
            let inside = rest.subrange(open + 1, open + close);
            let slash = index_of_char(inside, '/');
            if slash < 0 {
                Some(None)
            } else {
                match (parse_u64_spec(trimmed(inside.take(slash))),
                    parse_u64_spec(digit_prefix(trimmed(inside.skip(slash + 1))))) {
                    (Some(c), Some(t)) => Some(Some((c, t))),
                    _ => None,
                }
            }
        }
    }
}

/// A `git clone --progress` line read as `(phase, current, total)`:
/// an optional `remote: ` prefix, a known phase, `:`, then either
/// `… (cur/total)…` or `cur, done.` (then total is cur).
pub open spec fn progress_spec(line: Seq<char>) -> Option<(Seq<char>, u64, u64)> {
    let l = if starts_with_spec(line, "remote: "@) { line.skip(8) } else { line };
    match phase_of(l, known_phases()) {
        None => None,
        Some(phase) => {
            let after = l.skip(phase.len() as int);
            if !(after.len() > 0 && after[0] == ':') {
                None
            } else {
                let rest = trim_start(after.skip(1));
                match paren_reading(rest) {
                    None => None,
                    Some(Some((c, t))) => Some((phase, c, t)),
                    Some(None) => {
                        let head = digit_prefix(rest);
                        if head.len() == 0 {
                            None
                        } else {
                            match parse_u64_spec(head) {
                                Some(c) => Some((phase, c, c)),
                                None => None,
                            }
                        }
                    },
                }
            }
        },
    }
}

fn digit_prefix_exec(s: &str) -> (r: String)
    ensures
        r@ == digit_prefix(s@),
{
    let chars = to_chars(s);
    let mut k: usize = 0;
    assert(s@.skip(0) =~= s@);
    while k < chars.len() && '0' <= chars[k] && chars[k] <= '9'
        invariant
            k <= chars@.len(),
            chars@ == s@,
            digit_prefix(s@) == s@.take(k as int) + digit_prefix(s@.skip(k as int)),
        decreases chars@.len() - k,
    {
        assert(s@.skip(k as int).drop_first() =~= s@.skip(k + 1));
        assert(s@.take(k + 1) =~= s@.take(k as int) + seq![s@[k as int]]);
        k += 1;
    }
    assert(digit_prefix(s@.skip(k as int)) =~= Seq::<char>::empty());
    assert(s@.take(k as int) + Seq::<char>::empty() =~= s@.take(k as int));
    chars_range(&chars, 0, k)
}

fn phase_match(line: &str) -> (r: Option<&'static str>)
    ensures
        match (r, phase_of(line@, known_phases())) {
            (Some(a), Some(b)) => a@ == b,
            (None, None) => true,
            _ => false,
        },
{
    proof {
        reveal_strlit("Counting objects");
        reveal_strlit("Enumerating objects");
        reveal_strlit("Compressing objects");
        reveal_strlit("Receiving objects");
        reveal_strlit("Resolving deltas");
        reveal_strlit("Updating files");
        reveal_strlit("Filtering content");
        reveal_with_fuel(phase_of, 8);
    }
    let ghost ps = known_phases();
    assert(ps.skip(0).drop_first() =~= ps.skip(1));
    if starts_with(line, "Counting objects") {
        return Some("Counting objects");
    }
    assert(ps.skip(1).drop_first() =~= ps.skip(2));
    if starts_with(line, "Enumerating objects") {
        return Some("Enumerating objects");
    }
    assert(ps.skip(2).drop_first() =~= ps.skip(3));
    if starts_with(line, "Compressing objects") {
        return Some("Compressing objects");
    }
    assert(ps.skip(3).drop_first() =~= ps.skip(4));
    if starts_with(line, "Receiving objects") {
        return Some("Receiving objects");
    }
    assert(ps.skip(4).drop_first() =~= ps.skip(5));
    if starts_with(line, "Resolving deltas") {
        return Some("Resolving deltas");
    }
    assert(ps.skip(5).drop_first() =~= ps.skip(6));
    if starts_with(line, "Updating files") {
        return Some("Updating files");
    }
    assert(ps.skip(6).drop_first() =~= ps.skip(7));
    if starts_with(line, "Filtering content") {
        return Some("Filtering content");
    }
    assert(ps.skip(0) =~= ps);
    assert(ps.skip(7) =~= Seq::<Seq<char>>::empty());
    None
}

fn paren_reading_exec(rest: &str) -> (r: Option<Option<(u64, u64)>>)
    ensures
        r == paren_reading(rest@),
{
    let rc = to_chars(rest);
    let ghost rv = rest@;
    assert(rv.skip(0) =~= rv);
    proof {
        lemma_index_of_char(rv, '(');
    }
    let open = match find_char(&rc, 0, '(') {
        Some(o) => o,
        None => return Some(None),
    };
    proof {
        lemma_index_of_char(rv.skip(open as int), ')');
    }
    let close_abs = match find_char(&rc, open, ')') {
        Some(c) => c,
        None => return Some(None),
    };
    proof {
        // `)` is not at `open`, which holds `(`.
        assert(rv.skip(open as int)[0] == '(');
    }
    let inside = chars_range(&rc, open + 1, close_abs);
    assert(inside@ =~= rv.subrange(open + 1, open + (close_abs - open)));
    let ic = to_chars(inside.as_str());
    assert(inside@.skip(0) =~= inside@);
    proof {
        lemma_index_of_char(inside@, '/');
    }
    let slash = match find_char(&ic, 0, '/') {
        Some(s) => s,
        None => return Some(None),
    };
    let cur_s = chars_range(&ic, 0, slash);
    let n = ic.len();
    let tot_s = chars_range(&ic, slash + 1, n);
    assert(cur_s@ =~= inside@.take(slash as int));
    assert(tot_s@ =~= inside@.skip(slash + 1));
    let cur = parse_u64(trim(cur_s.as_str()).as_str());
    let tot = parse_u64(digit_prefix_exec(trim(tot_s.as_str()).as_str()).as_str());
    match (cur, tot) {
        (Some(c), Some(t)) => Some(Some((c, t))),
        _ => None,
    }
}

fn reading_after_phase(rest: &str) -> (r: Option<(u64, u64)>)
    ensures
        match paren_reading(rest@) {
            None => r is None,
            Some(Some((c, t))) => r == Some((c, t)),
            Some(None) => {
                let head = digit_prefix(rest@);
                if head.len() == 0 {
                    r is None
                } else {
                    match parse_u64_spec(head) {
                        Some(c) => r == Some((c, c)),
                        None => r is None,
                    }
                }
            },
        },
{
    match paren_reading_exec(rest) {
        None => None,
        Some(Some((c, t))) => Some((c, t)),
        Some(None) => {
            let head = digit_prefix_exec(rest);
            if head.unicode_len() == 0 {
                return None;
            }
            match parse_u64(head.as_str()) {
                Some(c) => Some((c, c)),
                None => None,
            }
        },
    }
}

/// What a `git clone --progress` line says about progress.
pub fn parse_progress(line: &str) -> (r: Option<(String, u64, u64)>)
    ensures
        match (r, progress_spec(line@)) {
            (Some((p, c, t)), Some((sp, sc, st))) => p@ == sp && c == sc && t == st,
            (None, None) => true,
            _ => false,
        },
{
    proof {
        reveal_strlit("remote: ");
    }
    let l = match strip_prefix(line, "remote: ") {
        Some(rest) => rest,
        None => String::from_str(line),
    };
    assert(l@ == if starts_with_spec(line@, "remote: "@) { line@.skip(8) } else { line@ });
    let phase = match phase_match(l.as_str()) {
        Some(p) => p,
        None => return None,
    };
    let chars = to_chars(l.as_str());
    let n = chars.len();
    let plen = phase.unicode_len();
    proof {
        lemma_phase_prefix(l@, known_phases());
    }
    assert(plen <= n);
    let ghost after = l@.skip(plen as int);
    if !(plen < n && chars[plen] == ':') {
        proof {
            if plen < n {
                assert(after[0] == chars@[plen as int]);
            }
        }
        return None;
    }
    assert(after[0] == ':');
    let after_colon = chars_range(&chars, plen + 1, n);
    assert(after_colon@ =~= after.skip(1));
    let rest = trim_start_only(after_colon.as_str());
    match reading_after_phase(rest.as_str()) {
        Some((c, t)) => Some((String::from_str(phase), c, t)),
        None => None,
    }
}

/// `str::trim_start`.
fn trim_start_only(s: &str) -> (r: String)
    ensures
        r@ == trim_start(s@),
{
    let chars = to_chars(s);
    let n = chars.len();
    let mut a: usize = 0;
    assert(s@.skip(0) =~= s@);
    while a < n && crate::text::is_space_exec(chars[a])
        invariant
            a <= n,
            n == s@.len(),
            chars@ == s@,
            trim_start(s@) == trim_start(s@.skip(a as int)),
        decreases n - a,
    {
        assert(s@.skip(a as int).drop_first() =~= s@.skip(a + 1));
        a += 1;
    }
    let r = chars_range(&chars, a, n);
    assert(r@ =~= s@.skip(a as int));
    r
}

// ── Output ──────────────────────────────────────────────────────────

/// The result of one child clone.
pub enum ChildResult {
    Success { name: String, url: String, path: String, duration_ms: u128 },
    Failed { name: String, url: String, path: String, error: String },
}

impl ChildResult {
    pub fn name(&self) -> (r: &String)
        ensures
            r@ == child_name(*self),
    {
        match self {
            ChildResult::Success { name, .. } => name,
            ChildResult::Failed { name, .. } => name,
        }
    }

    pub fn is_failure(&self) -> (r: bool)
        ensures
            r == (*self is Failed),
    {
        match self {
            ChildResult::Failed { .. } => true,
            _ => false,
        }
    }
}

pub open spec fn child_name(c: ChildResult) -> Seq<char> {
    match c {
        ChildResult::Success { name, .. } => name@,
        ChildResult::Failed { name, .. } => name@,
    }
}

pub struct WsCloneOutput {
    pub workspace_url: String,
    pub workspace_root: String,
    pub no_children: bool,
    /// The cloned repo holds a manifest.
    pub manifest_present: bool,
    pub children: Vec<ChildResult>,
    pub explain_plan: Option<Vec<String>>,
}

/// The report once cloning is over.
pub fn clone_output(url: String, root: String, no_children: bool, manifest_present: bool, children: Vec<ChildResult>) -> (r: WsCloneOutput)
    ensures
        r.workspace_url@ == url@,
        r.workspace_root@ == root@,
        r.no_children == no_children,
        r.manifest_present == manifest_present,
        r.children@ == children@,
        r.explain_plan is None,
{
    WsCloneOutput { workspace_url: url, workspace_root: root, no_children, manifest_present, children, explain_plan: None }
}

/// The failed children, in order.
pub open spec fn failed(cs: Seq<ChildResult>) -> Seq<ChildResult>
    decreases cs.len(),
{
    if cs.len() == 0 {
        Seq::empty()
    } else if cs.last() is Failed {
        failed(cs.drop_last()).push(cs.last())
    } else {
        failed(cs.drop_last())
    }
}

/// The first line of an error (all of it when it has no line).
pub open spec fn error_line(e: Seq<char>) -> Seq<char> {
    if lines_of(e).len() > 0 { lines_of(e)[0] } else { e }
}

pub open spec fn failure_line(c: ChildResult, pad: nat) -> Seq<char> {
    match c {
        ChildResult::Failed { name, error, .. } => column_line("  "@, name@, pad, error_line(error@)),
        _ => Seq::empty(),
    }
}

pub open spec fn clone_lines(o: WsCloneOutput) -> Seq<Seq<char>> {
    let head = seq!["Cloned workspace from "@ + o.workspace_url@, "  Root: "@ + o.workspace_root@];
    let cs = o.children@;
    let fs = failed(cs);
    let total = cs.len();
    if !o.manifest_present {
        head.push("  (No `.workspace/manifest.toml` in the cloned repo — nothing to fan out. This was effectively a plain git clone.)"@)
    } else if o.no_children {
        head.push("  --no-children was set; child repos were not cloned."@)
    } else if total == 0 {
        head.push("  Manifest declares no child repos."@)
    } else {
        head + seq![Seq::<char>::empty(), "Cloned "@ + decimal_of((total - fs.len()) as nat) + "/"@ + decimal_of(total)
            + " child repos."@] + if fs.len() > 0 {
            seq![Seq::<char>::empty(), "Failed:"@]
            + fs.map_values(|c: ChildResult| failure_line(c, max_width(fs.map_values(|x: ChildResult| child_name(x)))))
            + seq![Seq::<char>::empty(),
                "Re-run `ws clone <url>` against just the failed repos with plain `git clone`, or correct the manifest and re-run `ws clone`."@]
        } else {
            Seq::empty()
        }
    }
}

proof fn lemma_failed_len(cs: Seq<ChildResult>)
    ensures
        failed(cs).len() <= cs.len(),
        forall|i: int| 0 <= i < failed(cs).len() ==> #[trigger] failed(cs)[i] is Failed,
    decreases cs.len(),
{
    if cs.len() > 0 {
        lemma_failed_len(cs.drop_last());
    }
}

fn first_error_line(e: &str) -> (r: String)
    ensures
        r@ == error_line(e@),
{
    let ls = split_lines(e);
    if ls.len() > 0 {
        ls[0].clone()
    } else {
        String::from_str(e)
    }
}

impl Renderable for WsCloneOutput {
    open spec fn rendered(&self) -> Seq<char> {
        match self.explain_plan {
            Some(plan) => lines_text(plan_lines("ws clone"@, views(plan@))),
            None => lines_text(clone_lines(*self)),
        }
    }

    fn render_human(&self) -> (r: String) {
        if let Some(plan) = &self.explain_plan {
            return render_explain_plan("ws clone", plan);
        }
        let mut a = String::from_str("Cloned workspace from ");
        a.append(self.workspace_url.as_str());
        let mut b = String::from_str("  Root: ");
        b.append(self.workspace_root.as_str());
        let mut lines = vec![a, b];
        let ghost head = views(lines@);
        if !self.manifest_present {
            lines.push(String::from_str("  (No `.workspace/manifest.toml` in the cloned repo — nothing to fan out. This was effectively a plain git clone.)"));
            assert(views(lines@) =~= clone_lines(*self));
            return concat_lines(&lines);
        }
        if self.no_children {
            lines.push(String::from_str("  --no-children was set; child repos were not cloned."));
            assert(views(lines@) =~= clone_lines(*self));
            return concat_lines(&lines);
        }
        let total = self.children.len();
        if total == 0 {
            lines.push(String::from_str("  Manifest declares no child repos."));
            assert(views(lines@) =~= clone_lines(*self));
            return concat_lines(&lines);
        }
        let ghost cs = self.children@;
        let mut fails: Vec<&ChildResult> = Vec::new();
        let mut names: Vec<String> = Vec::new();
        let mut i: usize = 0;
        while i < total
            invariant
                i <= total,
                total == cs.len(),
                cs == self.children@,
                fails@.map_values(|c: &ChildResult| *c) == failed(cs.take(i as int)),
                views(names@) == failed(cs.take(i as int)).map_values(|x: ChildResult| child_name(x)),
            decreases total - i,
        {
            assert(cs.take(i + 1).drop_last() =~= cs.take(i as int));
            let c = &self.children[i];
            if c.is_failure() {
                let ghost fb = fails@;
                let ghost nb = views(names@);
                fails.push(c);
                names.push(c.name().clone());
                assert(fails@.map_values(|c: &ChildResult| *c) =~= fb.map_values(|c: &ChildResult| *c).push(*c));
                assert(views(names@) =~= nb.push(child_name(*c)));
            }
            i += 1;
        }
        assert(cs.take(i as int) =~= cs);
        let ghost fs = failed(cs);
        proof {
            lemma_failed_len(cs);
        }
        let succeeded = total - fails.len();
        let mut c1 = String::from_str("Cloned ");
        c1.append(decimal(succeeded).as_str());
        c1.append("/");
        c1.append(decimal(total).as_str());
        c1.append(" child repos.");
        lines.push(String::new());
        lines.push(c1);
        let ghost mid = views(lines@);
        assert(mid =~= head + seq![Seq::<char>::empty(), "Cloned "@ + decimal_of((total - fs.len()) as nat) + "/"@ + decimal_of(total as nat)
            + " child repos."@]);
        if fails.len() > 0 {
            lines.push(String::new());
            lines.push(String::from_str("Failed:"));
            let pad = max_byte_width(&names);
            let ghost start = views(lines@);
            let ghost fl = fs.map_values(|c: ChildResult| failure_line(c, max_width(fs.map_values(|x: ChildResult| child_name(x)))));
            let mut k: usize = 0;
            while k < fails.len()
                invariant
                    k <= fails@.len(),
                    fails@.map_values(|c: &ChildResult| *c) == fs,
                    forall|j: int| 0 <= j < fs.len() ==> #[trigger] fs[j] is Failed,
                    pad == max_width(fs.map_values(|x: ChildResult| child_name(x))),
                    fl == fs.map_values(|c: ChildResult| failure_line(c, max_width(fs.map_values(|x: ChildResult| child_name(x))))),
                    views(lines@) == start + fl.take(k as int),
                decreases fails@.len() - k,
            {
                assert(*fails@[k as int] == fs[k as int]);
                match fails[k] {
                    ChildResult::Failed { name, error, .. } => {
                        let l = column_line_exec("  ", name.as_str(), pad, first_error_line(error.as_str()).as_str());
                        let ghost lb = views(lines@);
                        lines.push(l);
                        assert(views(lines@) =~= lb.push(l@));
                    },
                    ChildResult::Success { .. } => {
                        assert(false);
                    },
                }
                k += 1;
                assert(views(lines@) =~= start + fl.take(k as int));
            }
            assert(fl.take(k as int) =~= fl);
            let ghost lb = views(lines@);
            lines.push(String::new());
            lines.push(String::from_str("Re-run `ws clone <url>` against just the failed repos with plain `git clone`, or correct the manifest and re-run `ws clone`."));
            assert(views(lines@) =~= lb + seq![Seq::<char>::empty(),
                "Re-run `ws clone <url>` against just the failed repos with plain `git clone`, or correct the manifest and re-run `ws clone`."@]);
        }
        assert(views(lines@) =~= clone_lines(*self));
        concat_lines(&lines)
    }
}

// ── Clone failures ──────────────────────────────────────────────────

/// How an exit status reads in a failure message: its code, or `?`
/// when git was killed by a signal.
pub open spec fn status_text(code: Option<i32>) -> Seq<char> {
    match code {
        Some(c) => signed_decimal(c as int),
        None => "?"@,
    }
}

fn status_text_exec(code: Option<i32>) -> (r: String)
    ensures
        r@ == status_text(code),
{
    match code {
        Some(c) => signed_decimal_exec(c),
        None => String::from_str("?"),
    }
}

pub open spec fn workspace_clone_failed_msg(url: Seq<char>, dest: Seq<char>, code: Option<i32>) -> Seq<char> {
    "ws clone: workspace clone failed (`git clone "@ + url + " "@ + dest + "` exited with status "@
        + status_text(code) + "). Verify the URL, your network, and credentials."@
}

/// The refusal when cloning the workspace repo itself failed.
pub fn workspace_clone_failed(url: &str, dest: &str, code: Option<i32>) -> (r: String)
    ensures
        r@ == workspace_clone_failed_msg(url@, dest@, code),
{
    let mut m = String::from_str("ws clone: workspace clone failed (`git clone ");
    m.append(url);
    m.append(" ");
    m.append(dest);
    m.append("` exited with status ");
    m.append(status_text_exec(code).as_str());
    m.append("). Verify the URL, your network, and credentials.");
    m
}

pub open spec fn child_clone_failed_msg(code: Option<i32>, last_line: Seq<char>) -> Seq<char> {
    let trailing = trim_end(trim_start(last_line));
    if trailing.len() == 0 {
        "git clone exited with status "@ + status_text(code)
    } else {
        "git clone exited with status "@ + status_text(code) + ": "@ + trailing
    }
}

/// Why a child clone failed: its exit status and the last line git
/// printed, when there was one.
pub fn child_clone_failed(code: Option<i32>, last_line: &str) -> (r: String)
    ensures
        r@ == child_clone_failed_msg(code, last_line@),
{
    let trailing = trim(last_line);
    let mut m = String::from_str("git clone exited with status ");
    m.append(status_text_exec(code).as_str());
    if trailing.unicode_len() > 0 {
        m.append(": ");
        m.append(trailing.as_str());
    }
    m
}

} // verus!
