//! `ws commit` — turn the staging area into a workspace commit: every
//! staged snapshot is written into the state declaration, which is
//! committed alone, and the staging area is cleared.
use vstd::prelude::*;
use vstd::string::StringExecFns;
use crate::cli::{OutputFormat, Renderable};
use crate::commands::ws::diff::{change_lines, render_changes};
use crate::commands::ws::{plan_lines, render_explain_plan, signed_decimal, signed_decimal_exec};
use crate::text::{is_space, is_space_exec, trim_start, trim_end, concat_lines, decimal, decimal_of, lines_text, short_sha, short_sha_spec, starts_with,
    starts_with_spec, str_eq, strip_prefix, views};
use crate::workspace::names::{has_name, lemma_to_map_at, names_sorted, to_map};
use crate::workspace::staged::{StagedDeclaration, Staging};
use crate::workspace::state::{change_views, diff_states, is_diff, lemma_take_push_map, Decl, RepoState,
    StateChange, StateDeclaration};

verus! {

/// `git ws commit [-m <msg>]`. `format` is the active output format:
/// JSON needs a message given up front.
pub struct WsCommit {
    pub on: Option<String>,
    pub explain: bool,
    pub format: OutputFormat,
}

pub struct WsCommitOutput {
    pub root: String,
    pub workspace_name: String,
    /// The per-repo changes the commit recorded.
    pub changes: Vec<StateChange>,
    /// The staged entries written into the declaration, by name.
    pub cleared: Vec<ClearedEntry>,
    pub commit_sha: Option<String>,
    pub message: Option<String>,
    pub explain_plan: Option<Vec<String>>,
}

pub struct ClearedEntry {
    pub name: String,
    pub branch: String,
    pub commit: String,
}

// ── Arguments ───────────────────────────────────────────────────────

#[derive(Debug)]
pub struct ParsedArgs {
    pub message: Option<String>,
}

pub open spec fn on_refusal_msg(on: Seq<char>) -> Seq<char> {
    "ws commit: takes no target — flushes the entire staging area. Use `ws unstage "@ + on
        + "` if you want to drop a single staged entry, or stage what you want first and re-run `ws commit`."@
}

pub fn on_refusal(on: &str) -> (r: String)
    ensures
        r@ == on_refusal_msg(on@),
{
    let mut m = String::from_str("ws commit: takes no target — flushes the entire staging area. Use `ws unstage ");
    m.append(on);
    m.append("` if you want to drop a single staged entry, or stage what you want first and re-run `ws commit`.");
    m
}

/// Record the message, refusing a second one or an empty one.
pub open spec fn assign_message_spec(slot: Option<Seq<char>>, value: Seq<char>) -> Result<Seq<char>, Seq<char>> {
    if slot is Some {
        Err("ws commit: commit message specified more than once"@)
    } else if value.len() == 0 {
        Err("ws commit: commit message cannot be empty"@)
    } else {
        Ok(value)
    }
}

pub fn assign_message(slot: &mut Option<String>, value: &str) -> (r: Result<(), String>)
    ensures
        match assign_message_spec(match *old(slot) { Some(s) => Some(s@), None => None }, value@) {
            Ok(v) => r is Ok && (*final(slot) matches Some(s) && s@ == v),
            Err(e) => (r matches Err(m) && m@ == e) && *final(slot) == *old(slot),
        },
{
    if slot.is_some() {
        return Err(String::from_str("ws commit: commit message specified more than once"));
    }
    if value.unicode_len() == 0 {
        return Err(String::from_str("ws commit: commit message cannot be empty"));
    }
    *slot = Some(String::from_str(value));
    Ok(())
}

/// The left-to-right reading of `args` from position `i` with the
/// message so far: `-m`/`--message` take the next argument,
/// `--message=<msg>` carries it; any other argument is refused.
pub open spec fn parse_from(args: Seq<Seq<char>>, i: int, slot: Option<Seq<char>>) -> Result<Option<Seq<char>>, Seq<char>>
    decreases args.len() - i,
{
    if i >= args.len() || i < 0 {
        Ok(slot)
    } else {
        let s = args[i];
        if s == "-m"@ || s == "--message"@ {
            if i + 1 >= args.len() {
                Err("ws commit: '"@ + s + "' expects a value (e.g. `"@ + s + " \"my message\"`)"@)
            } else {
                match assign_message_spec(slot, args[i + 1]) {
                    Err(e) => Err(e),
                    Ok(v) => parse_from(args, i + 2, Some(v)),
                }
            }
        } else if starts_with_spec(s, "--message="@) {
            match assign_message_spec(slot, s.skip(10)) {
                Err(e) => Err(e),
                Ok(v) => parse_from(args, i + 1, Some(v)),
            }
        } else if starts_with_spec(s, "--"@) || starts_with_spec(s, "-"@) {
            Err("ws commit: unexpected flag '"@ + s
                + "'. Expected: `ws commit [-m <msg> | --message <msg> | --message=<msg>]`."@)
        } else {
            Err("ws commit: unexpected positional argument '"@ + s
                + "'. `ws commit` flushes the staging area; it does not take per-repo targets. Stage the repos with `ws add <repo>` first, then re-run `ws commit`."@)
        }
    }
}

pub fn parse_args(args: &Vec<String>) -> (r: Result<ParsedArgs, String>)
    ensures
        match (r, parse_from(views(args@), 0, None)) {
            (Ok(p), Ok(m)) => match (p.message, m) {
                (Some(a), Some(b)) => a@ == b,
                (None, None) => true,
                _ => false,
            },
            (Err(a), Err(b)) => a@ == b,
            _ => false,
        },
{
    let ghost vs = views(args@);
    let mut message: Option<String> = None;
    let mut i: usize = 0;
    while i < args.len()
        invariant
            i <= args.len(),
            vs == views(args@),
            parse_from(vs, 0, None) == parse_from(vs, i as int, match message { Some(s) => Some(s@), None => None }),
        decreases args.len() - i,
    {
        let s = args[i].as_str();
        assert(vs[i as int] == s@);
        proof {
            reveal_strlit("-m");
            reveal_strlit("--message");
            reveal_strlit("--message=");
        }
        if str_eq(s, "-m") || str_eq(s, "--message") {
            if i + 1 >= args.len() {
                let mut m = String::from_str("ws commit: '");
                m.append(s);
                m.append("' expects a value (e.g. `");
                m.append(s);
                m.append(" \"my message\"`)");
                return Err(m);
            }
            assert(vs[i + 1] == args@[i + 1]@);
            match assign_message(&mut message, args[i + 1].as_str()) {
                Ok(()) => {},
                Err(e) => return Err(e),
            }
            i += 2;
            continue;
        }
        match strip_prefix(s, "--message=") {
            Some(value) => {
                match assign_message(&mut message, value.as_str()) {
                    Ok(()) => {},
                    Err(e) => return Err(e),
                }
                i += 1;
                continue;
            },
            None => {},
        }
        if starts_with(s, "--") || starts_with(s, "-") {
            let mut m = String::from_str("ws commit: unexpected flag '");
            m.append(s);
            m.append("'. Expected: `ws commit [-m <msg> | --message <msg> | --message=<msg>]`.");
            return Err(m);
        }
        let mut m = String::from_str("ws commit: unexpected positional argument '");
        m.append(s);
        m.append("'. `ws commit` flushes the staging area; it does not take per-repo targets. Stage the repos with `ws add <repo>` first, then re-run `ws commit`.");
        return Err(m);
    }
    Ok(ParsedArgs { message })
}

pub open spec fn json_needs_message_msg() -> Seq<char> {
    "ws commit: `--json` requires `-m <msg>`. Without `-m`, `ws commit` opens $EDITOR for the message — incompatible with JSON output. Pass `-m <msg>` or drop `--json`."@
}

impl WsCommit {
    /// Refuse `--on`, read the arguments, and refuse JSON output in
    /// editor mode.
    pub fn check(&self, args: &Vec<String>) -> (r: Result<ParsedArgs, String>)
        ensures
            match self.on {
                Some(o) => r matches Err(e) && e@ == on_refusal_msg(o@),
                None => match parse_from(views(args@), 0, None) {
                    Err(e) => r matches Err(m) && m@ == e,
                    Ok(None) => if self.format == OutputFormat::Json {
                        r matches Err(m) && m@ == json_needs_message_msg()
                    } else {
                        r matches Ok(p) && p.message is None
                    },
                    Ok(Some(msg)) => r matches Ok(p) && (p.message matches Some(m) && m@ == msg),
                },
            },
    {
        if let Some(on) = &self.on {
            return Err(on_refusal(on.as_str()));
        }
        let parsed = match parse_args(args) {
            Ok(p) => p,
            Err(e) => return Err(e),
        };
        if parsed.message.is_none() && self.format == OutputFormat::Json {
            return Err(String::from_str("ws commit: `--json` requires `-m <msg>`. Without `-m`, `ws commit` opens $EDITOR for the message — incompatible with JSON output. Pass `-m <msg>` or drop `--json`."));
        }
        Ok(parsed)
    }
}

// ── The new declaration ─────────────────────────────────────────────

/// `before` with every staged snapshot written over it.
pub open spec fn upserted(before: Decl, staged: Staging) -> Decl {
    Map::new(
        |k: Seq<char>| before.contains_key(k) || staged.contains_key(k),
        |k: Seq<char>| if staged.contains_key(k) { (staged[k].0, Some(staged[k].1)) } else { before[k] },
    )
}

pub open spec fn nothing_staged_msg() -> Seq<char> {
    "ws commit: nothing staged. Run `ws add <repo>` first, then `ws commit`."@
}

pub open spec fn nothing_to_commit_msg() -> Seq<char> {
    "ws commit: nothing to commit — every staged entry already matches the declared state in `.workspace/state.toml`. Drop the staging with `ws reset` (or `ws unstage <repo>` per entry)."@
}

/// The declaration to commit and the changes it records: refused when
/// nothing is staged, or when every staged snapshot is already what
/// the declaration says.
pub fn apply_staging(before: &StateDeclaration, staged: &StagedDeclaration) -> (r: Result<(StateDeclaration, Vec<StateChange>), String>)
    ensures
        staged.repos@.dom() == Set::<Seq<char>>::empty() ==> (r matches Err(e) && e@ == nothing_staged_msg()),
        staged.repos@.dom() != Set::<Seq<char>>::empty() ==> match r {
            Ok((after, changes)) => after.repos@ == upserted(before.repos@, staged.repos@)
                && is_diff(change_views(changes@), before.repos@, after.repos@) && changes@.len() > 0,
            Err(e) => e@ == nothing_to_commit_msg()
                && is_diff(Seq::<ChangeViewAlias>::empty(), before.repos@, upserted(before.repos@, staged.repos@)),
        },
{
    if staged.is_empty() {
        return Err(String::from_str("ws commit: nothing staged. Run `ws add <repo>` first, then `ws commit`."));
    }
    let mut after = before.copy();
    let ghost s = staged.repos.listing();
    let mut i: usize = 0;
    proof {
        use_type_invariant(&staged.repos);
        assert(s.take(0) =~= Seq::<(Seq<char>, (Seq<char>, Seq<char>))>::empty());
        assert(to_map(s.take(0)) =~= Map::<Seq<char>, (Seq<char>, Seq<char>)>::empty());
        assert(upserted(before.repos@, to_map(s.take(0))) =~= before.repos@);
    }
    while i < staged.repos.len()
        invariant
            i <= s.len(),
            s == staged.repos.listing(),
            names_sorted(s),
            after.repos@ == upserted(before.repos@, to_map(s.take(i as int))),
        decreases s.len() - i,
    {
        let (name, snap) = staged.repos.entry(i);
        let ghost old_map = after.repos@;
        after.repos.insert(name.clone(), RepoState { branch: snap.branch.clone(), commit: Some(snap.commit.clone()) });
        proof {
            lemma_take_push_map(s, i as int);
            let k = s[i as int].0;
            let v = s[i as int].1;
            assert(upserted(before.repos@, to_map(s.take(i + 1))) =~= old_map.insert(k, (v.0, Some(v.1))));
        }
        i += 1;
    }
    proof {
        assert(s.take(i as int) =~= s);
    }
    let changes = diff_states(before, &after);
    if changes.len() == 0 {
        assert(change_views(changes@) =~= Seq::<ChangeViewAlias>::empty());
        return Err(String::from_str("ws commit: nothing to commit — every staged entry already matches the declared state in `.workspace/state.toml`. Drop the staging with `ws reset` (or `ws unstage <repo>` per entry)."));
    }
    Ok((after, changes))
}

pub type ChangeViewAlias = crate::workspace::state::ChangeView;

/// Every staged entry, sorted by repo name.
pub fn snapshot_to_cleared(staged: &StagedDeclaration) -> (r: Vec<ClearedEntry>)
    ensures
        r@.map_values(|e: ClearedEntry| (e.name@, (e.branch@, e.commit@))) == staged.repos.listing(),
        names_sorted(staged.repos.listing()),
{
    proof {
        use_type_invariant(&staged.repos);
    }
    let mut r: Vec<ClearedEntry> = Vec::new();
    let mut i: usize = 0;
    while i < staged.repos.len()
        invariant
            i <= staged.repos.listing().len(),
            r@.map_values(|e: ClearedEntry| (e.name@, (e.branch@, e.commit@))) == staged.repos.listing().take(i as int),
        decreases staged.repos.listing().len() - i,
    {
        let (name, snap) = staged.repos.entry(i);
        let ghost before = r@;
        r.push(ClearedEntry { name: name.clone(), branch: snap.branch.clone(), commit: snap.commit.clone() });
        assert(r@.map_values(|e: ClearedEntry| (e.name@, (e.branch@, e.commit@))) =~=
            before.map_values(|e: ClearedEntry| (e.name@, (e.branch@, e.commit@))).push(staged.repos.listing()[i as int]));
        i += 1;
        assert(r@.map_values(|e: ClearedEntry| (e.name@, (e.branch@, e.commit@))) =~= staged.repos.listing().take(i as int));
    }
    assert(staged.repos.listing().take(i as int) =~= staged.repos.listing());
    r
}

// ── Plan and messages ───────────────────────────────────────────────

/// What `{:?}` prints for a string: the text in double quotes, with
/// quotes, backslashes and control characters escaped.
pub uninterp spec fn debug_quoted_spec(s: Seq<char>) -> Seq<char>;

/// Trusted: calls `format!("{:?}", s)`, `str`'s `Debug` form. The result
/// is only named, as a function of the text: its quoting and escaping
/// rules are not stated here.
#[verifier::external_body]
fn debug_quoted(s: &str) -> (r: String)
    ensures
        r@ == debug_quoted_spec(s@),
{
    format!("{:?}", s)
}

/// The plan, with the commit message (when there is one) already in
/// its quoted form.
pub open spec fn commit_plan_quoted_spec(root: Seq<char>, rel: Seq<char>, quoted: Option<Seq<char>>) -> Seq<Seq<char>> {
    seq![
        "load `.workspace/local/staged.toml` (must be non-empty)"@,
        "read `"@ + rel + "` (treat missing as empty)"@,
        "upsert every staged entry into the in-memory state declaration"@,
        "abort if the resulting declaration matches what is already on disk"@,
        "write the new declaration to `"@ + rel + "`"@,
        "git -C "@ + root + " add -- "@ + rel,
        match quoted {
            Some(q) => "git -C "@ + root + " commit -m "@ + q + " -- "@ + rel,
            None => "git -C "@ + root + " commit -- "@ + rel + "  (opens $EDITOR for the commit message)"@,
        },
        "clear `.workspace/local/staged.toml` (header preserved, body empty)"@,
    ]
}

pub open spec fn commit_plan_spec(root: Seq<char>, rel: Seq<char>, message: Option<Seq<char>>) -> Seq<Seq<char>> {
    commit_plan_quoted_spec(root, rel, match message { Some(m) => Some(debug_quoted_spec(m)), None => None })
}

/// The `--explain` plan of `ws commit` from the quoted message.
pub fn explain_plan_quoted(root: &str, rel: &str, quoted: Option<&str>) -> (r: Vec<String>)
    ensures
        views(r@) == commit_plan_quoted_spec(root@, rel@, match quoted { Some(q) => Some(q@), None => None }),
{
    let a = String::from_str("load `.workspace/local/staged.toml` (must be non-empty)");
    let mut b = String::from_str("read `");
    b.append(rel);
    b.append("` (treat missing as empty)");
    let c = String::from_str("upsert every staged entry into the in-memory state declaration");
    let d = String::from_str("abort if the resulting declaration matches what is already on disk");
    let mut e = String::from_str("write the new declaration to `");
    e.append(rel);
    e.append("`");
    let mut f = String::from_str("git -C ");
    f.append(root);
    f.append(" add -- ");
    f.append(rel);
    let mut g = String::from_str("git -C ");
    g.append(root);
    match quoted {
        Some(q) => {
            g.append(" commit -m ");
            g.append(q);
            g.append(" -- ");
            g.append(rel);
        },
        None => {
            g.append(" commit -- ");
            g.append(rel);
            g.append("  (opens $EDITOR for the commit message)");
        },
    }
    let h = String::from_str("clear `.workspace/local/staged.toml` (header preserved, body empty)");
    let r = vec![a, b, c, d, e, f, g, h];
    assert(views(r@) =~= commit_plan_quoted_spec(root@, rel@, match quoted { Some(q) => Some(q@), None => None }));
    r
}

/// The `--explain` plan of `ws commit`; the message is shown quoted as
/// `Debug` quotes a string.
pub fn build_explain_plan(root: &str, rel: &str, message: Option<&str>) -> (r: Vec<String>)
    ensures
        views(r@) == commit_plan_spec(root@, rel@, match message { Some(m) => Some(m@), None => None }),
{
    match message {
        Some(m) => {
            let q = debug_quoted(m);
            explain_plan_quoted(root, rel, Some(q.as_str()))
        },
        None => explain_plan_quoted(root, rel, None),
    }
}

/// The refusal after `git commit` failed: the declaration is written,
/// the staging area untouched.
pub open spec fn commit_failed_msg(code: Option<i32>, root: Seq<char>) -> Seq<char> {
    "ws commit: `git commit` exited with status "@ + (match code { Some(c) => signed_decimal(c as int), None => "?"@ })
        + ". `state.toml` is left written and the staging area was not cleared. Inspect `git -C "@ + root
        + " status` to see what happened; once resolved, re-run `ws commit` or commit by hand."@
}

pub fn commit_failed(code: Option<i32>, root: &str) -> (r: String)
    ensures
        r@ == commit_failed_msg(code, root@),
{
    let mut m = String::from_str("ws commit: `git commit` exited with status ");
    match code {
        Some(c) => m.append(signed_decimal_exec(c).as_str()),
        None => m.append("?"),
    }
    m.append(". `state.toml` is left written and the staging area was not cleared. Inspect `git -C ");
    m.append(root);
    m.append(" status` to see what happened; once resolved, re-run `ws commit` or commit by hand.");
    m
}

// ── Rendering ───────────────────────────────────────────────────────

/// The text before the first `\n` (all of `s` when there is none).
pub open spec fn first_line_raw(s: Seq<char>) -> Seq<char>
    decreases s.len(),
{
    if s.len() == 0 {
        s
    } else if s[0] == '\n' {
        Seq::empty()
    } else {
        seq![s[0]] + first_line_raw(s.drop_first())
    }
}

/// The first line of a message, trimmed (`s.lines().next()`, trimmed;
/// empty for an empty message).
pub open spec fn first_line_spec(s: Seq<char>) -> Seq<char> {
    trim_end(trim_start(first_line_raw(s)))
}

fn index_of_newline(s: &Vec<char>) -> (r: Option<usize>)
    ensures
        match r {
            Some(i) => i < s@.len() && s@[i as int] == '\n' && forall|j: int| 0 <= j < i ==> s@[j] != '\n',
            None => forall|j: int| 0 <= j < s@.len() ==> s@[j] != '\n',
        },
{
    let mut i: usize = 0;
    while i < s.len()
        invariant
            i <= s.len(),
            forall|j: int| 0 <= j < i ==> s@[j] != '\n',
        decreases s.len() - i,
    {
        if s[i] == '\n' {
            return Some(i);
        }
        i += 1;
    }
    None
}

proof fn lemma_first_line_raw(s: Seq<char>, k: int)
    requires
        0 <= k < s.len(),
        s[k] == '\n',
        forall|j: int| 0 <= j < k ==> s[j] != '\n',
    ensures
        first_line_raw(s) == s.take(k),
    decreases s.len(),
{
    if k == 0 {
        assert(s.take(0) =~= Seq::<char>::empty());
    } else {
        let t = s.drop_first();
        assert(t[k - 1] == '\n');
        assert forall|j: int| 0 <= j < k - 1 implies t[j] != '\n' by {
            assert(t[j] == s[j + 1]);
        }
        lemma_first_line_raw(t, k - 1);
        assert(seq![s[0]] + t.take(k - 1) =~= s.take(k));
    }
}

proof fn lemma_first_line_none(s: Seq<char>)
    requires
        forall|j: int| 0 <= j < s.len() ==> s[j] != '\n',
    ensures
        first_line_raw(s) == s,
    decreases s.len(),
{
    if s.len() > 0 {
        let t = s.drop_first();
        assert forall|j: int| 0 <= j < t.len() implies t[j] != '\n' by {
            assert(t[j] == s[j + 1]);
        }
        lemma_first_line_none(t);
        assert(seq![s[0]] + t =~= s);
    }
}

/// The first line of `s`, trimmed.
pub fn first_line(s: &str) -> (r: String)
    ensures
        r@ == first_line_spec(s@),
{
    let chars = crate::text::to_chars(s);
    let end: usize = match index_of_newline(&chars) {
        Some(k) => {
            proof {
                lemma_first_line_raw(s@, k as int);
            }
            k
        },
        None => {
            proof {
                lemma_first_line_none(s@);
                assert(s@.take(s@.len() as int) =~= s@);
            }
            chars.len()
        },
    };
    let ghost line = s@.take(end as int);
    // `\r\n` line ends: the `\r` is whitespace and trimmed below.
    let mut a: usize = 0;
    assert(line.skip(0) =~= line);
    while a < end && is_space_exec(chars[a])
        invariant
            a <= end,
            end <= chars@.len(),
            chars@ == s@,
            line == s@.take(end as int),
            trim_start(line) == trim_start(line.skip(a as int)),
        decreases end - a,
    {
        assert(line.skip(a as int).drop_first() =~= line.skip(a + 1));
        a += 1;
    }
    let ghost mid = line.skip(a as int);
    assert(trim_start(mid) == mid);
    let mut b: usize = end;
    assert(mid =~= s@.subrange(a as int, end as int));
    while b > a && is_space_exec(chars[b - 1])
        invariant
            a <= b <= end,
            end <= chars@.len(),
            chars@ == s@,
            mid == s@.subrange(a as int, end as int),
            trim_end(mid) == trim_end(s@.subrange(a as int, b as int)),
        decreases b - a,
    {
        assert(s@.subrange(a as int, b as int).drop_last() =~= s@.subrange(a as int, b - 1));
        b -= 1;
    }
    let mut r = String::new();
    let mut k: usize = a;
    while k < b
        invariant
            a <= k <= b,
            b <= chars@.len(),
            chars@ == s@,
            r@ == s@.subrange(a as int, k as int),
        decreases b - k,
    {
        crate::text::push_char(&mut r, chars[k]);
        k += 1;
        assert(r@ =~= s@.subrange(a as int, k as int));
    }
    assert(mid =~= s@.subrange(a as int, end as int));
    r
}

pub open spec fn commit_lines(o: WsCommitOutput) -> Seq<Seq<char>> {
    let sha = match o.commit_sha { Some(c) => short_sha_spec(c@), None => "??????"@ };
    let n = o.cleared@.len();
    seq!["Committed `"@ + o.workspace_name@ + "` workspace at "@ + sha + "."@]
    + match o.message {
        Some(m) => if first_line_spec(m@).len() > 0 { seq!["  Message: "@ + first_line_spec(m@)] } else { Seq::empty() },
        None => Seq::empty(),
    }
    + seq![Seq::<char>::empty(), "State changes:"@]
    + change_lines(change_views(o.changes@))
    + seq![Seq::<char>::empty(), "Cleared "@ + decimal_of(n) + " staged "@ + (if n == 1 { "entry"@ } else { "entries"@ }) + "."@]
}

impl Renderable for WsCommitOutput {
    open spec fn rendered(&self) -> Seq<char> {
        match self.explain_plan {
            Some(plan) => lines_text(plan_lines("ws commit"@, views(plan@))),
            None => lines_text(commit_lines(*self)),
        }
    }

    fn render_human(&self) -> (r: String) {
        if let Some(plan) = &self.explain_plan {
            return render_explain_plan("ws commit", plan);
        }
        let sha = match &self.commit_sha {
            Some(c) => short_sha(c.as_str()),
            None => String::from_str("??????"),
        };
        let mut a = String::from_str("Committed `");
        a.append(self.workspace_name.as_str());
        a.append("` workspace at ");
        a.append(sha.as_str());
        a.append(".");
        let mut lines = vec![a];
        match &self.message {
            Some(m) => {
                let l = first_line(m.as_str());
                if l.unicode_len() > 0 {
                    let mut line = String::from_str("  Message: ");
                    line.append(l.as_str());
                    lines.push(line);
                }
            },
            None => {},
        }
        let ghost head = views(lines@);
        lines.push(String::new());
        lines.push(String::from_str("State changes:"));
        assert(views(lines@) =~= head + seq![Seq::<char>::empty(), "State changes:"@]);
        render_changes(&self.changes, &mut lines);
        let n = self.cleared.len();
        let mut last = String::from_str("Cleared ");
        last.append(decimal(n).as_str());
        last.append(" staged ");
        last.append(if n == 1 { "entry" } else { "entries" });
        last.append(".");
        let ghost lb = views(lines@);
        lines.push(String::new());
        lines.push(last);
        assert(views(lines@) =~= lb + seq![Seq::<char>::empty(), last@]);
        assert(views(lines@) =~= commit_lines(*self));
        concat_lines(&lines)
    }
}

} // verus!
