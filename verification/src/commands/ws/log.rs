//! `ws log` — the recent commits of every child repo as one timeline,
//! newest first, capped at a limit unless `--all` is given.
use vstd::prelude::*;
use vstd::string::StringExecFns;
use crate::cli::Renderable;
use crate::commands::ws::column_line;
use crate::commands::ws::status::{scoped, scope_view, status_rel_path};
use crate::text::{byte_len, contains_seq, contains_str, byte_prefix, concat_lines, decimal, decimal_of, find_char, index_of_char,
    lemma_index_of_char, lemma_seq_less_asymmetric, lemma_seq_less_irreflexive, lemma_seq_less_total,
    lemma_seq_less_transitive, lines_of, lines_text, max_byte_width, max_width, pad_right, parse_usize,
    parse_usize_spec, path_join, prefix_bytes, seq_less, split_lines, starts_with_spec, str_eq, str_less,
    strip_prefix, to_chars, utf8_len, views, chars_range, join_path};
use crate::workspace::manifest::Manifest;
use crate::workspace::scope::in_scope;

verus! {

/// Commits shown (and fetched per repo) when no limit is given.
pub const DEFAULT_LIMIT: usize = 20;

/// `git ws log`: `all` lifts the cap; `on` narrows to one repo.
pub struct WsLog {
    pub all: bool,
    pub on: Option<String>,
}

pub struct WorkspaceInfo {
    pub root: String,
    pub name: String,
    pub total_repos_declared: usize,
    /// Repos that contributed at least one commit.
    pub repos_with_data: usize,
}

/// One commit.
pub struct LogEntry {
    pub repo: String,
    pub hash: String,
    /// ISO-8601 author date.
    pub date: String,
    pub author: String,
    pub summary: String,
}

pub struct WsLogOutput {
    pub workspace: WorkspaceInfo,
    pub entries: Vec<LogEntry>,
    /// Entries collected before the cap.
    pub sampled: usize,
    /// The cap, when one applied.
    pub limit_applied: Option<usize>,
    /// Render-time only.
    pub all: bool,
}

pub open spec fn entry_view(e: LogEntry) -> (Seq<char>, Seq<char>, Seq<char>, Seq<char>, Seq<char>) {
    (e.repo@, e.hash@, e.date@, e.author@, e.summary@)
}

pub open spec fn entries_view(es: Seq<LogEntry>) -> Seq<(Seq<char>, Seq<char>, Seq<char>, Seq<char>, Seq<char>)> {
    es.map_values(|e: LogEntry| entry_view(e))
}

// ── Arguments ───────────────────────────────────────────────────────

#[derive(Debug)]
pub struct ParsedArgs {
    pub limit: Option<usize>,
}

/// Record the limit, refusing a second one or one that is not a
/// non-negative integer.
pub open spec fn assign_limit_spec(slot: Option<usize>, value: Seq<char>, flag: Seq<char>) -> Result<usize, Seq<char>> {
    if slot is Some {
        Err("ws log: '"@ + flag + "' specified more than once"@)
    } else {
        match parse_usize_spec(value) {
            Some(n) => Ok(n),
            None => Err("ws log: '"@ + flag + "' expects a non-negative integer, got '"@ + value + "'"@),
        }
    }
}

pub fn assign_limit(slot: &mut Option<usize>, value: &str, flag: &str) -> (r: Result<(), String>)
    ensures
        match assign_limit_spec(*old(slot), value@, flag@) {
            Ok(n) => r is Ok && *final(slot) == Some(n),
            Err(e) => (r matches Err(m) && m@ == e) && *final(slot) == *old(slot),
        },
{
    if slot.is_some() {
        let mut m = String::from_str("ws log: '");
        m.append(flag);
        m.append("' specified more than once");
        return Err(m);
    }
    match parse_usize(value) {
        Some(n) => {
            *slot = Some(n);
            Ok(())
        },
        None => {
            let mut m = String::from_str("ws log: '");
            m.append(flag);
            m.append("' expects a non-negative integer, got '");
            m.append(value);
            m.append("'");
            Err(m)
        },
    }
}

/// Reading the arguments from position `i` with the limit so far:
/// `-n <N>`, `--limit <N>`, `--limit=<N>` and `-n<N>`.
pub open spec fn parse_from(args: Seq<Seq<char>>, i: int, slot: Option<usize>) -> Result<Option<usize>, Seq<char>>
    decreases args.len() - i,
{
    if i >= args.len() || i < 0 {
        Ok(slot)
    } else {
        let s = args[i];
        if s == "-n"@ || s == "--limit"@ {
            if i + 1 >= args.len() {
                Err("ws log: '"@ + s + "' expects a value"@)
            } else {
                match assign_limit_spec(slot, args[i + 1], s) {
                    Err(e) => Err(e),
                    Ok(n) => parse_from(args, i + 2, Some(n)),
                }
            }
        } else if starts_with_spec(s, "--limit="@) {
            match assign_limit_spec(slot, s.skip(8), "--limit"@) {
                Err(e) => Err(e),
                Ok(n) => parse_from(args, i + 1, Some(n)),
            }
        } else if starts_with_spec(s, "-n"@) {
            if s.len() == 2 {
                Err("ws log: '-n' expects a value (e.g. `-n 20`)."@)
            } else {
                match assign_limit_spec(slot, s.skip(2), "-n"@) {
                    Err(e) => Err(e),
                    Ok(n) => parse_from(args, i + 1, Some(n)),
                }
            }
        } else {
            Err("ws log: unexpected argument '"@ + s
                + "'. Expected -n <N>, --limit <N>, or no args (default 20)."@)
        }
    }
}

pub fn parse_args(args: &Vec<String>) -> (r: Result<ParsedArgs, String>)
    ensures
        match (r, parse_from(views(args@), 0, None)) {
            (Ok(p), Ok(l)) => p.limit == l,
            (Err(a), Err(b)) => a@ == b,
            _ => false,
        },
{
    let ghost vs = views(args@);
    let mut limit: Option<usize> = None;
    let mut i: usize = 0;
    while i < args.len()
        invariant
            i <= args.len(),
            vs == views(args@),
            parse_from(vs, 0, None) == parse_from(vs, i as int, limit),
        decreases args.len() - i,
    {
        let s = args[i].as_str();
        assert(vs[i as int] == s@);
        proof {
            reveal_strlit("-n");
            reveal_strlit("--limit");
            reveal_strlit("--limit=");
        }
        if str_eq(s, "-n") || str_eq(s, "--limit") {
            if i + 1 >= args.len() {
                let mut m = String::from_str("ws log: '");
                m.append(s);
                m.append("' expects a value");
                return Err(m);
            }
            assert(vs[i + 1] == args@[i + 1]@);
            match assign_limit(&mut limit, args[i + 1].as_str(), s) {
                Ok(()) => {},
                Err(e) => return Err(e),
            }
            i += 2;
            continue;
        }
        match strip_prefix(s, "--limit=") {
            Some(v) => {
                match assign_limit(&mut limit, v.as_str(), "--limit") {
                    Ok(()) => {},
                    Err(e) => return Err(e),
                }
                i += 1;
                continue;
            },
            None => {},
        }
        match strip_prefix(s, "-n") {
            Some(v) => {
                if v.unicode_len() == 0 {
                    return Err(String::from_str("ws log: '-n' expects a value (e.g. `-n 20`)."));
                }
                match assign_limit(&mut limit, v.as_str(), "-n") {
                    Ok(()) => {},
                    Err(e) => return Err(e),
                }
                i += 1;
                continue;
            },
            None => {},
        }
        let mut m = String::from_str("ws log: unexpected argument '");
        m.append(s);
        m.append("'. Expected -n <N>, --limit <N>, or no args (default 20).");
        return Err(m);
    }
    Ok(ParsedArgs { limit })
}

/// The cap per repo and overall: none under `--all`, else the given
/// limit or the default.
pub open spec fn effective_limit(all: bool, limit: Option<usize>) -> Option<usize> {
    if all {
        None
    } else {
        match limit {
            Some(n) => Some(n),
            None => Some(DEFAULT_LIMIT),
        }
    }
}

/// `--all` lifts the cap whatever `-n` says; without it an explicit
/// `-n <N>` is the cap, and only its absence falls back to the default.
pub proof fn law_log_limit(all: bool, limit: Option<usize>)
    ensures
        all ==> effective_limit(all, limit) is None,
        !all ==> effective_limit(all, limit) is Some,
        !all && limit is Some ==> effective_limit(all, limit) == limit,
        !all && limit is None ==> effective_limit(all, limit) == Some(DEFAULT_LIMIT),
{
}

pub fn per_repo_limit(all: bool, limit: Option<usize>) -> (r: Option<usize>)
    ensures
        r == effective_limit(all, limit),
        all ==> r is None,
        !all ==> r == match limit { Some(n) => Some(n), None => Some(DEFAULT_LIMIT) },
{
    if all {
        None
    } else {
        match limit {
            Some(n) => Some(n),
            None => Some(DEFAULT_LIMIT),
        }
    }
}

// ── Reading `git log` output ────────────────────────────────────────

/// `line.splitn(4, '\t')` when it yields four parts.
pub open spec fn split4(line: Seq<char>) -> Option<(Seq<char>, Seq<char>, Seq<char>, Seq<char>)> {
    let a = index_of_char(line, '\t');
    if a < 0 {
        None
    } else {
        let r1 = line.skip(a + 1);
        let b = index_of_char(r1, '\t');
        if b < 0 {
            None
        } else {
            let r2 = r1.skip(b + 1);
            let c = index_of_char(r2, '\t');
            if c < 0 {
                None
            } else {
                Some((line.take(a), r1.take(b), r2.take(c), r2.skip(c + 1)))
            }
        }
    }
}

/// The entry a `%H\t%aI\t%an\t%s` line describes, tagged with `repo`.
pub open spec fn entry_of_line(repo: Seq<char>, line: Seq<char>) -> Option<(Seq<char>, Seq<char>, Seq<char>, Seq<char>, Seq<char>)> {
    if line.len() == 0 {
        None
    } else {
        match split4(line) {
            Some((h, d, a, s)) => Some((repo, h, d, a, s)),
            None => None,
        }
    }
}

/// Entries of the lines, blank and malformed lines skipped.
pub open spec fn entries_of_lines(repo: Seq<char>, lines: Seq<Seq<char>>) -> Seq<(Seq<char>, Seq<char>, Seq<char>, Seq<char>, Seq<char>)>
    decreases lines.len(),
{
    if lines.len() == 0 {
        Seq::empty()
    } else {
        entries_of_lines(repo, lines.drop_last()) + match entry_of_line(repo, lines.last()) {
            Some(e) => seq![e],
            None => Seq::empty(),
        }
    }
}

fn parse_line(repo: &str, line: &str) -> (r: Option<LogEntry>)
    ensures
        match (r, entry_of_line(repo@, line@)) {
            (Some(a), Some(b)) => entry_view(a) == b,
            (None, None) => true,
            _ => false,
        },
{
    let chars = to_chars(line);
    let n = chars.len();
    if n == 0 {
        return None;
    }
    proof {
        lemma_index_of_char(line@, '\t');
    }
    let a = match find_char(&chars, 0, '\t') {
        Some(a) => a,
        None => {
            assert(line@.skip(0) =~= line@);
            return None;
        },
    };
    assert(line@.skip(0) =~= line@);
    let ghost r1 = line@.skip(a + 1);
    proof {
        lemma_index_of_char(r1, '\t');
    }
    let b = match find_char(&chars, a + 1, '\t') {
        Some(b) => b,
        None => return None,
    };
    let ghost r2 = r1.skip(b - a);
    assert(r2 =~= line@.skip(b + 1));
    let c = match find_char(&chars, b + 1, '\t') {
        Some(c) => c,
        None => return None,
    };
    let hash = chars_range(&chars, 0, a);
    let date = chars_range(&chars, a + 1, b);
    let author = chars_range(&chars, b + 1, c);
    let summary = chars_range(&chars, c + 1, n);
    assert(hash@ =~= line@.take(a as int));
    assert(date@ =~= r1.take(b - a - 1));
    assert(author@ =~= r2.take(c - b - 1));
    assert(summary@ =~= r2.skip(c - b));
    Some(LogEntry { repo: String::from_str(repo), hash, date, author, summary })
}

/// The entries in `git log --pretty=format:%H%x09%aI%x09%an%x09%s`
/// output, tagged with `repo`.
pub fn parse_log_output(repo: &str, stdout: &str) -> (r: Vec<LogEntry>)
    ensures
        entries_view(r@) == entries_of_lines(repo@, lines_of(stdout@)),
{
    let lines = split_lines(stdout);
    let ghost ls = views(lines@);
    let mut r: Vec<LogEntry> = Vec::new();
    let mut i: usize = 0;
    while i < lines.len()
        invariant
            i <= lines.len(),
            ls == views(lines@),
            ls == lines_of(stdout@),
            entries_view(r@) == entries_of_lines(repo@, ls.take(i as int)),
        decreases lines.len() - i,
    {
        assert(ls.take(i + 1).drop_last() =~= ls.take(i as int));
        let ghost rb = entries_view(r@);
        match parse_line(repo, lines[i].as_str()) {
            Some(e) => {
                let ghost b = r@;
                r.push(e);
                assert(entries_view(r@) =~= entries_view(b).push(entry_view(e)));
            },
            None => {},
        }
        assert(entries_view(r@) =~= entries_of_lines(repo@, ls.take(i + 1)));
        i += 1;
    }
    assert(ls.take(i as int) =~= ls);
    r
}

// ── The timeline ────────────────────────────────────────────────────

/// `a` comes before `b`: newer date first, then repo name, then hash.
pub open spec fn log_before(
    a: (Seq<char>, Seq<char>, Seq<char>, Seq<char>, Seq<char>),
    b: (Seq<char>, Seq<char>, Seq<char>, Seq<char>, Seq<char>),
) -> bool {
    seq_less(b.2, a.2) || (a.2 == b.2 && (seq_less(a.0, b.0) || (a.0 == b.0 && seq_less(a.1, b.1))))
}

/// No entry comes before an earlier one.
pub open spec fn timeline_sorted(s: Seq<(Seq<char>, Seq<char>, Seq<char>, Seq<char>, Seq<char>)>) -> bool {
    forall|i: int, j: int| 0 <= i < j < s.len() ==> !log_before(#[trigger] s[j], #[trigger] s[i])
}

proof fn lemma_log_before_order(
    a: (Seq<char>, Seq<char>, Seq<char>, Seq<char>, Seq<char>),
    b: (Seq<char>, Seq<char>, Seq<char>, Seq<char>, Seq<char>),
    c: (Seq<char>, Seq<char>, Seq<char>, Seq<char>, Seq<char>),
)
    ensures
        !(log_before(a, b) && log_before(b, a)),
        log_before(a, b) && log_before(b, c) ==> log_before(a, c),
{
    lemma_seq_less_asymmetric(a.2, b.2);
    lemma_seq_less_asymmetric(a.0, b.0);
    lemma_seq_less_asymmetric(a.1, b.1);
    lemma_seq_less_irreflexive(a.2);
    lemma_seq_less_irreflexive(a.0);
    lemma_seq_less_irreflexive(a.1);
    lemma_seq_less_irreflexive(b.2);
    lemma_seq_less_irreflexive(b.0);
    lemma_seq_less_transitive(c.2, b.2, a.2);
    lemma_seq_less_transitive(a.0, b.0, c.0);
    lemma_seq_less_transitive(a.1, b.1, c.1);
    lemma_seq_less_asymmetric(c.2, a.2);
}

/// `a` and `b` have the same ordering key: date, repo and hash.
pub open spec fn same_key(a: (Seq<char>, Seq<char>, Seq<char>, Seq<char>, Seq<char>), b: (Seq<char>, Seq<char>, Seq<char>, Seq<char>, Seq<char>)) -> bool {
    a.0 == b.0 && a.1 == b.1 && a.2 == b.2
}

/// The entries of `s` with the key of `e`, in their order in `s`.
pub open spec fn with_key(s: Seq<(Seq<char>, Seq<char>, Seq<char>, Seq<char>, Seq<char>)>, e: (Seq<char>, Seq<char>, Seq<char>, Seq<char>, Seq<char>)) -> Seq<(Seq<char>, Seq<char>, Seq<char>, Seq<char>, Seq<char>)>
    decreases s.len(),
{
    if s.len() == 0 {
        Seq::empty()
    } else if same_key(s.last(), e) {
        with_key(s.drop_last(), e).push(s.last())
    } else {
        with_key(s.drop_last(), e)
    }
}

/// `r` keeps, for every key, the entries of `s` with that key in their
/// order in `s`.
pub open spec fn keeps_order_of_equals(r: Seq<(Seq<char>, Seq<char>, Seq<char>, Seq<char>, Seq<char>)>, s: Seq<(Seq<char>, Seq<char>, Seq<char>, Seq<char>, Seq<char>)>) -> bool {
    forall|e: (Seq<char>, Seq<char>, Seq<char>, Seq<char>, Seq<char>)| #[trigger] with_key(r, e) == with_key(s, e)
}

proof fn lemma_with_key_add(a: Seq<(Seq<char>, Seq<char>, Seq<char>, Seq<char>, Seq<char>)>, b: Seq<(Seq<char>, Seq<char>, Seq<char>, Seq<char>, Seq<char>)>, e: (Seq<char>, Seq<char>, Seq<char>, Seq<char>, Seq<char>))
    ensures
        with_key(a + b, e) == with_key(a, e) + with_key(b, e),
    decreases b.len(),
{
    if b.len() == 0 {
        assert(a + b =~= a);
        assert(with_key(b, e) =~= Seq::<(Seq<char>, Seq<char>, Seq<char>, Seq<char>, Seq<char>)>::empty());
        assert(with_key(a, e) + with_key(b, e) =~= with_key(a, e));
    } else {
        lemma_with_key_add(a, b.drop_last(), e);
        assert((a + b).drop_last() =~= a + b.drop_last());
        assert((a + b).last() == b.last());
        if same_key(b.last(), e) {
            assert(with_key(a, e) + with_key(b, e) =~= (with_key(a, e) + with_key(b.drop_last(), e)).push(b.last()));
        }
    }
}

proof fn lemma_with_key_none(s: Seq<(Seq<char>, Seq<char>, Seq<char>, Seq<char>, Seq<char>)>, e: (Seq<char>, Seq<char>, Seq<char>, Seq<char>, Seq<char>))
    requires
        forall|j: int| 0 <= j < s.len() ==> !same_key(#[trigger] s[j], e),
    ensures
        with_key(s, e) == Seq::<(Seq<char>, Seq<char>, Seq<char>, Seq<char>, Seq<char>)>::empty(),
    decreases s.len(),
{
    if s.len() > 0 {
        lemma_with_key_none(s.drop_last(), e);
        assert(s.last() == s[s.len() - 1]);
    }
}

proof fn lemma_with_key_single(x: (Seq<char>, Seq<char>, Seq<char>, Seq<char>, Seq<char>), e: (Seq<char>, Seq<char>, Seq<char>, Seq<char>, Seq<char>))
    ensures
        with_key(seq![x], e) == if same_key(x, e) { seq![x] } else { Seq::<(Seq<char>, Seq<char>, Seq<char>, Seq<char>, Seq<char>)>::empty() },
{
    assert(seq![x].drop_last() =~= Seq::<(Seq<char>, Seq<char>, Seq<char>, Seq<char>, Seq<char>)>::empty());
    assert(seq![x].last() == x);
    assert(with_key(Seq::<(Seq<char>, Seq<char>, Seq<char>, Seq<char>, Seq<char>)>::empty(), e) == Seq::<(Seq<char>, Seq<char>, Seq<char>, Seq<char>, Seq<char>)>::empty());
    assert(Seq::<(Seq<char>, Seq<char>, Seq<char>, Seq<char>, Seq<char>)>::empty().push(x) =~= seq![x]);
}

fn entry_before(a: &LogEntry, b: &LogEntry) -> (r: bool)
    ensures
        r == log_before(entry_view(*a), entry_view(*b)),
{
    if str_less(b.date.as_str(), a.date.as_str()) {
        return true;
    }
    if !str_eq(a.date.as_str(), b.date.as_str()) {
        return false;
    }
    if str_less(a.repo.as_str(), b.repo.as_str()) {
        return true;
    }
    str_eq(a.repo.as_str(), b.repo.as_str()) && str_less(a.hash.as_str(), b.hash.as_str())
}

/// The entries ordered newest first (ties by repo, then hash); equal
/// keys keep their input order.
pub fn sort_entries(entries: Vec<LogEntry>) -> (r: Vec<LogEntry>)
    ensures
        timeline_sorted(entries_view(r@)),
        entries_view(r@).to_multiset() == entries_view(entries@).to_multiset(),
        keeps_order_of_equals(entries_view(r@), entries_view(entries@)),
{
    let ghost input = entries_view(entries@);
    let ghost orig = entries@;
    let mut rest = entries;
    let mut out: Vec<LogEntry> = Vec::new();
    let n = rest.len();
    let mut k: usize = 0;
    assert(rest@ =~= orig.skip(0));
    proof {
        assert(input.take(0) =~= Seq::<(Seq<char>, Seq<char>, Seq<char>, Seq<char>, Seq<char>)>::empty());
        assert(entries_view(out@) =~= Seq::<(Seq<char>, Seq<char>, Seq<char>, Seq<char>, Seq<char>)>::empty());
    }
    while k < n
        invariant
            k <= n,
            n == input.len(),
            input == entries_view(orig),
            rest@ == orig.skip(k as int),
            rest@.len() == n - k,
            timeline_sorted(entries_view(out@)),
            entries_view(out@).to_multiset() == input.take(k as int).to_multiset(),
            keeps_order_of_equals(entries_view(out@), input.take(k as int)),
        decreases n - k,
    {
        let x = rest.remove(0);
        let ghost xv = entry_view(x);
        assert(x == orig[k as int]);
        assert(xv == input[k as int]);
        assert(rest@ =~= orig.skip(k + 1));
        let ghost ov = entries_view(out@);
        // First position whose entry `x` comes before.
        let mut p: usize = 0;
        while p < out.len()
            invariant
                p <= out.len(),
                ov == entries_view(out@),
                xv == entry_view(x),
                forall|j: int| 0 <= j < p ==> !log_before(xv, #[trigger] ov[j]),
            ensures
                p <= out.len(),
                forall|j: int| 0 <= j < p ==> !log_before(xv, #[trigger] ov[j]),
                p < out.len() ==> log_before(xv, ov[p as int]),
            decreases out.len() - p,
        {
            assert(ov[p as int] == entry_view(out@[p as int]));
            if entry_before(&x, &out[p]) {
                break;
            }
            p += 1;
        }
        out.insert(p, x);
        proof {
            let nv = entries_view(out@);
            assert(nv =~= ov.insert(p as int, xv));
            assert forall|i: int, j: int| 0 <= i < j < nv.len() implies !log_before(#[trigger] nv[j], #[trigger] nv[i]) by {
                if j < p {
                    assert(nv[i] == ov[i] && nv[j] == ov[j]);
                } else if j == p {
                    assert(nv[i] == ov[i]);
                } else if i == p {
                    assert(nv[j] == ov[j - 1]);
                    if p < j - 1 {
                        lemma_log_before_order(ov[j - 1], xv, ov[p as int]);
                        assert(!log_before(ov[j - 1], ov[p as int]));
                    } else {
                        lemma_log_before_order(xv, ov[p as int], ov[p as int]);
                    }
                } else if i < p {
                    assert(nv[i] == ov[i] && nv[j] == ov[j - 1]);
                } else {
                    assert(nv[i] == ov[i - 1] && nv[j] == ov[j - 1]);
                }
            }
            vstd::seq_lib::to_multiset_insert(ov, p as int, xv);
            assert(input.take(k + 1) =~= input.take(k as int).push(xv));
            vstd::seq_lib::to_multiset_build(input.take(k as int), xv);
            assert(input.take(k + 1) =~= input.take(k as int) + seq![xv]);
            assert(ov =~= ov.take(p as int) + ov.skip(p as int));
            assert(nv =~= ov.take(p as int) + seq![xv] + ov.skip(p as int));
            assert forall|e: (Seq<char>, Seq<char>, Seq<char>, Seq<char>, Seq<char>)|
                #[trigger] with_key(nv, e) == with_key(input.take(k + 1), e) by {
                lemma_with_key_add(ov.take(p as int), ov.skip(p as int), e);
                lemma_with_key_add(ov.take(p as int) + seq![xv], ov.skip(p as int), e);
                lemma_with_key_add(ov.take(p as int), seq![xv], e);
                lemma_with_key_add(input.take(k as int), seq![xv], e);
                lemma_with_key_single(xv, e);
                assert(with_key(ov, e) == with_key(input.take(k as int), e));
                if same_key(xv, e) {
                    assert forall|j: int| 0 <= j < ov.skip(p as int).len() implies !same_key(#[trigger] ov.skip(p as int)[j], e) by {
                        let y = ov[p + j];
                        assert(ov.skip(p as int)[j] == y);
                        if same_key(y, e) {
                            lemma_seq_less_irreflexive(xv.2);
                            lemma_seq_less_irreflexive(xv.0);
                            lemma_seq_less_irreflexive(xv.1);
                            if j == 0 {
                                assert(log_before(xv, ov[p as int]));
                            } else {
                                assert(log_before(y, ov[p as int]));
                                assert(!log_before(ov[p + j], ov[p as int]));
                            }
                        }
                    }
                    lemma_with_key_none(ov.skip(p as int), e);
                    assert(with_key(nv, e) =~= with_key(ov.take(p as int), e).push(xv));
                    assert(with_key(ov, e) =~= with_key(ov.take(p as int), e) + Seq::<(Seq<char>, Seq<char>, Seq<char>, Seq<char>, Seq<char>)>::empty());
                } else {
                    assert(with_key(nv, e) =~= with_key(ov.take(p as int), e) + with_key(ov.skip(p as int), e));
                }
            }
        }
        k += 1;
    }
    assert(input.take(n as int) =~= input);
    out
}

/// The first `limit` entries.
pub fn truncate_entries(entries: Vec<LogEntry>, limit: usize) -> (r: Vec<LogEntry>)
    ensures
        entries_view(r@) == if entries@.len() <= limit { entries_view(entries@) } else { entries_view(entries@).take(limit as int) },
{
    let ghost orig = entries@;
    let mut rest = entries;
    let mut out: Vec<LogEntry> = Vec::new();
    let n = rest.len();
    let mut k: usize = 0;
    assert(rest@ =~= orig.skip(0));
    while k < n && k < limit
        invariant
            k <= n,
            k <= limit,
            n == orig.len(),
            rest@ == orig.skip(k as int),
            out@ == orig.take(k as int),
        decreases n - k,
    {
        let x = rest.remove(0);
        assert(x == orig[k as int]);
        assert(rest@ =~= orig.skip(k + 1));
        out.push(x);
        k += 1;
        assert(out@ =~= orig.take(k as int));
    }
    let ghost all = entries_view(orig);
    if n <= limit {
        assert(orig.take(k as int) =~= orig);
    } else {
        assert(entries_view(orig.take(k as int)) =~= all.take(k as int));
    }
    out
}

/// A declared repo in scope and where it lives.
pub struct LogTarget {
    pub name: String,
    pub abs_path: String,
}

/// The in-scope repos whose logs are read, in manifest order.
pub fn log_targets(root: &str, manifest: &Manifest, scope: &Option<String>) -> (r: Vec<LogTarget>)
    ensures
        r@.len() == scoped(manifest.repos@, scope_view(*scope)).len(),
        forall|i: int| 0 <= i < r@.len() ==> (#[trigger] r@[i]).name@ == scoped(manifest.repos@, scope_view(*scope))[i].name@
            && r@[i].abs_path@ == path_join(root@, status_rel_path(scoped(manifest.repos@, scope_view(*scope))[i])),
{
    let ts = crate::commands::ws::status::status_targets(root, manifest, scope);
    let mut r: Vec<LogTarget> = Vec::new();
    let mut i: usize = 0;
    while i < ts.len()
        invariant
            i <= ts.len(),
            ts@.len() == scoped(manifest.repos@, scope_view(*scope)).len(),
            forall|k: int| 0 <= k < ts@.len() ==> crate::commands::ws::status::target_is(#[trigger] ts@[k], root@,
                scoped(manifest.repos@, scope_view(*scope))[k]),
            r@.len() == i,
            forall|k: int| 0 <= k < i ==> (#[trigger] r@[k]).name@ == ts@[k].name@ && r@[k].abs_path@ == ts@[k].abs_path@,
        decreases ts.len() - i,
    {
        r.push(LogTarget { name: ts[i].name.clone(), abs_path: ts[i].abs_path.clone() });
        i += 1;
    }
    r
}

/// The timeline from every repo's entries: sorted, then capped.
pub fn build_log(
    root: &str,
    manifest: &Manifest,
    entries: Vec<LogEntry>,
    repos_with_data: usize,
    all: bool,
    limit: Option<usize>,
) -> (r: WsLogOutput)
    ensures
        r.workspace.root@ == root@,
        r.workspace.name@ == manifest.workspace.name@,
        r.workspace.total_repos_declared == manifest.repos@.len(),
        r.workspace.repos_with_data == repos_with_data,
        r.sampled == entries@.len(),
        r.limit_applied == limit,
        r.all == all,
        timeline_sorted(entries_view(r.entries@)),
        match (all, limit) {
            (false, Some(n)) => r.entries@.len() == if entries@.len() <= n { entries@.len() } else { n as nat },
            _ => entries_view(r.entries@).to_multiset() == entries_view(entries@).to_multiset(),
        },
        exists|sorted: Seq<(Seq<char>, Seq<char>, Seq<char>, Seq<char>, Seq<char>)>|
            #![auto] timeline_sorted(sorted) && sorted.to_multiset() == entries_view(entries@).to_multiset()
            && keeps_order_of_equals(sorted, entries_view(entries@))
            && entries_view(r.entries@) == match (all, limit) {
                (false, Some(n)) => if sorted.len() <= n { sorted } else { sorted.take(n as int) },
                _ => sorted,
            },
{
    let sampled = entries.len();
    let sorted = sort_entries(entries);
    let ghost sv = entries_view(sorted@);
    proof {
        vstd::seq_lib::to_multiset_len(sv);
        vstd::seq_lib::to_multiset_len(entries_view(entries@));
    }
    let out = if !all {
        match limit {
            Some(n) => truncate_entries(sorted, n),
            None => sorted,
        }
    } else {
        sorted
    };
    proof {
        let ov = entries_view(out@);
        assert forall|i: int, j: int| 0 <= i < j < ov.len() implies !log_before(#[trigger] ov[j], #[trigger] ov[i]) by {
            assert(ov[i] == sv[i] && ov[j] == sv[j]);
        }
    }
    WsLogOutput {
        workspace: WorkspaceInfo {
            root: String::from_str(root),
            name: manifest.workspace.name.clone(),
            total_repos_declared: manifest.repos.len(),
            repos_with_data,
        },
        entries: out,
        sampled,
        limit_applied: limit,
        all,
    }
}

// ── Rendering ───────────────────────────────────────────────────────

/// `yyyy-mm-ddThh:mm…` shown as `yyyy-mm-dd hh:mm`; the input unchanged
/// when it is shorter than that shape (no `T`, or fewer than five bytes
/// after it).
pub open spec fn short_date_spec(iso: Seq<char>) -> Seq<char> {
    let t = index_of_char(iso, 'T');
    if t < 0 {
        iso
    } else {
        let date = iso.take(t);
        let rest = iso.skip(t + 1);
        if utf8_len(rest) >= 5 {
            date + " "@ + byte_prefix(rest, 5)
        } else {
            iso
        }
    }
}

pub fn format_short_date(iso: &str) -> (r: String)
    ensures
        r@ == short_date_spec(iso@),
{
    let chars = to_chars(iso);
    assert(iso@.skip(0) =~= iso@);
    proof {
        lemma_index_of_char(iso@, 'T');
    }
    match find_char(&chars, 0, 'T') {
        None => String::from_str(iso),
        Some(t) => {
            let n = chars.len();
            assert(t < n);
            let date = chars_range(&chars, 0, t);
            let rest = chars_range(&chars, t + 1, n);
            assert(date@ =~= iso@.take(t as int));
            assert(rest@ =~= iso@.skip(t + 1));
            if byte_len(rest.as_str()) >= 5 {
                let mut r = date;
                r.append(" ");
                r.append(prefix_bytes(rest.as_str(), 5).as_str());
                r
            } else {
                String::from_str(iso)
            }
        },
    }
}

pub open spec fn entry_line(e: LogEntry, repo_pad: nat, author_pad: nat) -> Seq<char> {
    "  "@ + short_date_spec(e.date@) + "  "@ + crate::text::padded(e.repo@, repo_pad as int) + "  "@
        + byte_prefix(e.hash@, 7) + "  "@ + crate::text::padded(e.author@, author_pad as int) + "  "@ + e.summary@
}

pub open spec fn log_lines(o: WsLogOutput) -> Seq<Seq<char>> {
    let es = o.entries@;
    let repo_pad = max_width(es.map_values(|e: LogEntry| e.repo@));
    let author_pad = max_width(es.map_values(|e: LogEntry| e.author@));
    seq![
        "Workspace `"@ + o.workspace.name@ + "` — recent activity across "@ + decimal_of(o.workspace.repos_with_data as nat)
            + " of "@ + decimal_of(o.workspace.total_repos_declared as nat) + " repos"@,
        "Root: "@ + o.workspace.root@,
        Seq::<char>::empty(),
    ] + if es.len() == 0 {
        seq!["(No commits yet — every declared repo is empty or missing.)"@]
    } else {
        es.map_values(|e: LogEntry| entry_line(e, repo_pad, author_pad))
        + if !o.all && o.limit_applied is Some {
            seq![Seq::<char>::empty(), "Showing top "@ + decimal_of(es.len())
                + ". Use `--all` for every commit, `-n <N>` for a different cap, or `cd src/<repo>` for a single repo's log."@]
        } else {
            Seq::empty()
        }
    }
}

fn column_widths(es: &Vec<LogEntry>) -> (r: (usize, usize))
    ensures
        r.0 == max_width(es@.map_values(|e: LogEntry| e.repo@)),
        r.1 == max_width(es@.map_values(|e: LogEntry| e.author@)),
{
    let mut repos: Vec<String> = Vec::new();
    let mut authors: Vec<String> = Vec::new();
    let mut i: usize = 0;
    while i < es.len()
        invariant
            i <= es.len(),
            views(repos@) == es@.map_values(|e: LogEntry| e.repo@).take(i as int),
            views(authors@) == es@.map_values(|e: LogEntry| e.author@).take(i as int),
        decreases es.len() - i,
    {
        let ghost rb = repos@;
        let ghost ab = authors@;
        repos.push(es[i].repo.clone());
        authors.push(es[i].author.clone());
        assert(views(repos@) =~= views(rb).push(es@[i as int].repo@));
        assert(views(authors@) =~= views(ab).push(es@[i as int].author@));
        i += 1;
        assert(views(repos@) =~= es@.map_values(|e: LogEntry| e.repo@).take(i as int));
        assert(views(authors@) =~= es@.map_values(|e: LogEntry| e.author@).take(i as int));
    }
    assert(es@.map_values(|e: LogEntry| e.repo@).take(i as int) =~= es@.map_values(|e: LogEntry| e.repo@));
    assert(es@.map_values(|e: LogEntry| e.author@).take(i as int) =~= es@.map_values(|e: LogEntry| e.author@));
    (max_byte_width(&repos), max_byte_width(&authors))
}

impl Renderable for WsLogOutput {
    open spec fn rendered(&self) -> Seq<char> {
        lines_text(log_lines(*self))
    }

    fn render_human(&self) -> (r: String) {
        let mut a = String::from_str("Workspace `");
        a.append(self.workspace.name.as_str());
        a.append("` — recent activity across ");
        a.append(decimal(self.workspace.repos_with_data).as_str());
        a.append(" of ");
        a.append(decimal(self.workspace.total_repos_declared).as_str());
        a.append(" repos");
        let mut b = String::from_str("Root: ");
        b.append(self.workspace.root.as_str());
        let mut lines = vec![a, b, String::new()];
        let ghost head = views(lines@);
        if self.entries.len() == 0 {
            lines.push(String::from_str("(No commits yet — every declared repo is empty or missing.)"));
            assert(views(lines@) =~= log_lines(*self));
            return concat_lines(&lines);
        }
        let (repo_pad, author_pad) = column_widths(&self.entries);
        let ghost es = self.entries@;
        let mut k: usize = 0;
        while k < self.entries.len()
            invariant
                k <= es.len(),
                es == self.entries@,
                views(lines@) == head + es.map_values(|e: LogEntry| entry_line(e, repo_pad as nat, author_pad as nat)).take(k as int),
            decreases es.len() - k,
        {
            let e = &self.entries[k];
            let mut l = String::from_str("  ");
            l.append(format_short_date(e.date.as_str()).as_str());
            l.append("  ");
            l.append(pad_right(e.repo.as_str(), repo_pad).as_str());
            l.append("  ");
            l.append(prefix_bytes(e.hash.as_str(), 7).as_str());
            l.append("  ");
            l.append(pad_right(e.author.as_str(), author_pad).as_str());
            l.append("  ");
            l.append(e.summary.as_str());
            let ghost lb = lines@;
            lines.push(l);
            assert(views(lines@) =~= views(lb).push(l@));
            k += 1;
            assert(views(lines@) =~= head + es.map_values(|e: LogEntry| entry_line(e, repo_pad as nat, author_pad as nat)).take(k as int));
        }
        assert(es.map_values(|e: LogEntry| entry_line(e, repo_pad as nat, author_pad as nat)).take(k as int)
            =~= es.map_values(|e: LogEntry| entry_line(e, repo_pad as nat, author_pad as nat)));
        if !self.all && self.limit_applied.is_some() {
            let mut f = String::from_str("Showing top ");
            f.append(decimal(self.entries.len()).as_str());
            f.append(". Use `--all` for every commit, `-n <N>` for a different cap, or `cd src/<repo>` for a single repo's log.");
            let ghost lb = views(lines@);
            lines.push(String::new());
            lines.push(f);
            assert(views(lines@) =~= lb + seq![Seq::<char>::empty(), f@]);
        }
        assert(views(lines@) =~= log_lines(*self));
        concat_lines(&lines)
    }
}

/// `git log` failed only because the repository has no commits yet;
/// such a repo contributes no entries rather than an error.
pub open spec fn log_of_empty_repo_spec(stderr: Seq<char>) -> bool {
    contains_seq(stderr, "does not have any commits yet"@) || contains_seq(stderr, "bad default revision"@)
}

pub fn log_of_empty_repo(stderr: &str) -> (r: bool)
    ensures
        r == log_of_empty_repo_spec(stderr@),
{
    contains_str(stderr, "does not have any commits yet") || contains_str(stderr, "bad default revision")
}

// ── Gathering per-repo logs ─────────────────────────────────────────

/// Every repo's entries one after the other; a repo that is missing
/// on disk or whose log could not be read (`None`) adds none.
pub open spec fn gathered(rs: Seq<Option<Vec<LogEntry>>>) -> Seq<(Seq<char>, Seq<char>, Seq<char>, Seq<char>, Seq<char>)>
    decreases rs.len(),
{
    if rs.len() == 0 {
        Seq::empty()
    } else {
        gathered(rs.drop_last()) + match rs.last() {
            Some(v) => entries_view(v@),
            None => Seq::empty(),
        }
    }
}

/// How many repos contributed at least one entry.
pub open spec fn with_data(rs: Seq<Option<Vec<LogEntry>>>) -> nat
    decreases rs.len(),
{
    if rs.len() == 0 {
        0
    } else {
        with_data(rs.drop_last()) + match rs.last() {
            Some(v) => if v@.len() > 0 { 1nat } else { 0nat },
            None => 0nat,
        }
    }
}

proof fn lemma_with_data_bounded(rs: Seq<Option<Vec<LogEntry>>>)
    ensures
        with_data(rs) <= rs.len(),
    decreases rs.len(),
{
    if rs.len() > 0 {
        lemma_with_data_bounded(rs.drop_last());
    }
}

fn copy_entry(e: &LogEntry) -> (r: LogEntry)
    ensures
        entry_view(r) == entry_view(*e),
{
    LogEntry {
        repo: e.repo.clone(),
        hash: e.hash.clone(),
        date: e.date.clone(),
        author: e.author.clone(),
        summary: e.summary.clone(),
    }
}

/// All entries read from the repos in scope, and how many repos had any.
pub fn gather_logs(results: &Vec<Option<Vec<LogEntry>>>) -> (r: (Vec<LogEntry>, usize))
    ensures
        entries_view(r.0@) == gathered(results@),
        r.1 == with_data(results@),
{
    let mut out: Vec<LogEntry> = Vec::new();
    let mut count: usize = 0;
    let mut i: usize = 0;
    while i < results.len()
        invariant
            i <= results.len(),
            entries_view(out@) == gathered(results@.take(i as int)),
            count == with_data(results@.take(i as int)),
        decreases results.len() - i,
    {
        let ghost pre = results@.take(i as int);
        let ghost next = results@.take(i + 1);
        assert(next.drop_last() =~= pre);
        assert(next.last() == results@[i as int]);
        proof {
            lemma_with_data_bounded(pre);
        }
        match &results[i] {
            Some(v) => {
                let ghost start = out@;
                let mut k: usize = 0;
                while k < v.len()
                    invariant
                        k <= v.len(),
                        entries_view(out@) == entries_view(start) + entries_view(v@.take(k as int)),
                    decreases v.len() - k,
                {
                    let e = copy_entry(&v[k]);
                    let ghost before = out@;
                    out.push(e);
                    assert(entries_view(out@) =~= entries_view(before).push(entry_view(v@[k as int])));
                    assert(entries_view(v@.take(k + 1)) =~= entries_view(v@.take(k as int)).push(entry_view(v@[k as int])));
                    k += 1;
                }
                assert(v@.take(k as int) =~= v@);
                if v.len() > 0 {
                    count += 1;
                }
            },
            None => {},
        }
        i += 1;
    }
    assert(results@.take(i as int) =~= results@);
    (out, count)
}

} // verus!
