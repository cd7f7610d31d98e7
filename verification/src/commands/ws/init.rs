//! `ws init` — make the current directory a workspace: a
//! `.workspace/` directory with a starter manifest and an empty state
//! declaration. Refused inside an existing workspace unless `--force`.
use vstd::prelude::*;
use vstd::string::StringExecFns;
use crate::cli::Renderable;
use crate::commands::ws::{plan_lines, render_explain_plan};
use crate::context::{file_name, file_name_spec};
use crate::text::{byte_len, concat_lines, decimal, decimal_of, lines_text, path_join, join_path, starts_with_spec,
    str_eq, strip_prefix, trim, trim_end, trim_start, utf8_len, views};
use crate::workspace::manifest::{Manifest, WorkspaceMeta};

verus! {

/// The initial `state.toml`: a comment saying what entries look like,
/// and no entry (every repo follows the default branch).
pub const STATE_FILE_HEADER: &'static str = "# state.toml — declares the expected state of each child repo\n# for the currently active branch of the workspace repo.\n# Entries are added as:\n#   [repos.\"<repo-name>\"]\n#   branch = \"<branch-name>\"\n#   commit = \"<optional-sha>\"\n";

/// `git ws init`.
pub struct WsInit {
    pub explain: bool,
}

pub struct WsInitOutput {
    pub root: String,
    pub workspace_name: String,
    pub default_branch: String,
    /// Files written (or that would be), relative to `root`.
    pub created_files: Vec<String>,
    /// `--force` overwrote an existing workspace.
    pub forced: bool,
    pub explain_plan: Option<Vec<String>>,
}

// ── Arguments ───────────────────────────────────────────────────────

#[derive(Debug)]
pub struct ParsedArgs {
    pub name: Option<String>,
    pub default_branch: Option<String>,
    pub force: bool,
}

pub type InitArgs = (Option<Seq<char>>, Option<Seq<char>>, bool);

/// Record a value given once, refusing a second.
pub open spec fn assign_once_spec(slot: Option<Seq<char>>, value: Seq<char>, flag: Seq<char>) -> Result<Seq<char>, Seq<char>> {
    if slot is Some {
        Err("ws init: '"@ + flag + "' specified more than once"@)
    } else {
        Ok(value)
    }
}

pub fn assign_once(slot: &mut Option<String>, value: &str, flag: &str) -> (r: Result<(), String>)
    ensures
        match assign_once_spec(match *old(slot) { Some(s) => Some(s@), None => None }, value@, flag@) {
            Ok(v) => r is Ok && (*final(slot) matches Some(s) && s@ == v),
            Err(e) => (r matches Err(m) && m@ == e) && *final(slot) == *old(slot),
        },
{
    if slot.is_some() {
        let mut m = String::from_str("ws init: '");
        m.append(flag);
        m.append("' specified more than once");
        return Err(m);
    }
    *slot = Some(String::from_str(value));
    Ok(())
}

pub open spec fn expects_value_msg(flag: Seq<char>) -> Seq<char> {
    "ws init: '"@ + flag + "' expects a value"@
}

/// Reading the arguments from position `i`.
pub open spec fn parse_from(args: Seq<Seq<char>>, i: int, st: InitArgs) -> Result<InitArgs, Seq<char>>
    decreases args.len() - i,
{
    if i >= args.len() || i < 0 {
        Ok(st)
    } else {
        let s = args[i];
        if s == "--force"@ {
            parse_from(args, i + 1, (st.0, st.1, true))
        } else if starts_with_spec(s, "--name="@) {
            match assign_once_spec(st.0, s.skip(7), "--name"@) {
                Err(e) => Err(e),
                Ok(v) => parse_from(args, i + 1, (Some(v), st.1, st.2)),
            }
        } else if s == "--name"@ {
            if i + 1 >= args.len() {
                Err(expects_value_msg("--name"@))
            } else {
                match assign_once_spec(st.0, args[i + 1], "--name"@) {
                    Err(e) => Err(e),
                    Ok(v) => parse_from(args, i + 2, (Some(v), st.1, st.2)),
                }
            }
        } else if starts_with_spec(s, "--default-branch="@) {
            match assign_once_spec(st.1, s.skip(17), "--default-branch"@) {
                Err(e) => Err(e),
                Ok(v) => parse_from(args, i + 1, (st.0, Some(v), st.2)),
            }
        } else if s == "--default-branch"@ {
            if i + 1 >= args.len() {
                Err(expects_value_msg("--default-branch"@))
            } else {
                match assign_once_spec(st.1, args[i + 1], "--default-branch"@) {
                    Err(e) => Err(e),
                    Ok(v) => parse_from(args, i + 2, (st.0, Some(v), st.2)),
                }
            }
        } else {
            Err("ws init: unexpected argument '"@ + s
                + "'. Expected --name <name>, --default-branch <branch>, or --force."@)
        }
    }
}

pub open spec fn opt_seq(o: Option<String>) -> Option<Seq<char>> {
    match o {
        Some(s) => Some(s@),
        None => None,
    }
}

fn expects_value(flag: &str) -> (r: String)
    ensures
        r@ == expects_value_msg(flag@),
{
    let mut m = String::from_str("ws init: '");
    m.append(flag);
    m.append("' expects a value");
    m
}

pub fn parse_args(args: &Vec<String>) -> (r: Result<ParsedArgs, String>)
    ensures
        match (r, parse_from(views(args@), 0, (None, None, false))) {
            (Ok(p), Ok(st)) => opt_seq(p.name) == st.0 && opt_seq(p.default_branch) == st.1 && p.force == st.2,
            (Err(a), Err(b)) => a@ == b,
            _ => false,
        },
{
    let ghost vs = views(args@);
    let mut name: Option<String> = None;
    let mut default_branch: Option<String> = None;
    let mut force = false;
    let mut i: usize = 0;
    while i < args.len()
        invariant
            i <= args.len(),
            vs == views(args@),
            parse_from(vs, 0, (None, None, false)) == parse_from(vs, i as int, (opt_seq(name), opt_seq(default_branch), force)),
        decreases args.len() - i,
    {
        let s = args[i].as_str();
        assert(vs[i as int] == s@);
        proof {
            reveal_strlit("--force");
            reveal_strlit("--name=");
            reveal_strlit("--name");
            reveal_strlit("--default-branch=");
            reveal_strlit("--default-branch");
        }
        if str_eq(s, "--force") {
            force = true;
            i += 1;
            continue;
        }
        match strip_prefix(s, "--name=") {
            Some(v) => {
                match assign_once(&mut name, v.as_str(), "--name") {
                    Ok(()) => {},
                    Err(e) => return Err(e),
                }
                i += 1;
                continue;
            },
            None => {},
        }
        if str_eq(s, "--name") {
            if i + 1 >= args.len() {
                return Err(expects_value("--name"));
            }
            assert(vs[i + 1] == args@[i + 1]@);
            match assign_once(&mut name, args[i + 1].as_str(), "--name") {
                Ok(()) => {},
                Err(e) => return Err(e),
            }
            i += 2;
            continue;
        }
        match strip_prefix(s, "--default-branch=") {
            Some(v) => {
                match assign_once(&mut default_branch, v.as_str(), "--default-branch") {
                    Ok(()) => {},
                    Err(e) => return Err(e),
                }
                i += 1;
                continue;
            },
            None => {},
        }
        if str_eq(s, "--default-branch") {
            if i + 1 >= args.len() {
                return Err(expects_value("--default-branch"));
            }
            assert(vs[i + 1] == args@[i + 1]@);
            match assign_once(&mut default_branch, args[i + 1].as_str(), "--default-branch") {
                Ok(()) => {},
                Err(e) => return Err(e),
            }
            i += 2;
            continue;
        }
        let mut m = String::from_str("ws init: unexpected argument '");
        m.append(s);
        m.append("'. Expected --name <name>, --default-branch <branch>, or --force.");
        return Err(m);
    }
    Ok(ParsedArgs { name, default_branch, force })
}

// ── Deciding what to write ──────────────────────────────────────────

pub open spec fn already_inside_msg(root: Seq<char>) -> Seq<char> {
    "already inside a marshal workspace at "@ + root
        + ".\n  Run `ws init --force` to overwrite the manifest and state here, or `cd` somewhere outside before re-initialising."@
}

/// The refusal inside an existing workspace (without `--force`).
pub fn already_inside(root: &str) -> (r: String)
    ensures
        r@ == already_inside_msg(root@),
{
    let mut m = String::from_str("already inside a marshal workspace at ");
    m.append(root);
    m.append(".\n  Run `ws init --force` to overwrite the manifest and state here, or `cd` somewhere outside before re-initialising.");
    m
}

/// The workspace name: `--name`, else the current directory's name,
/// else `workspace`.
pub open spec fn workspace_name_spec(given: Option<Seq<char>>, cwd: Seq<char>) -> Seq<char> {
    match given {
        Some(n) => n,
        None => match file_name_spec(cwd) {
            Some(f) => f,
            None => "workspace"@,
        },
    }
}

pub fn workspace_name(given: &Option<String>, cwd: &str) -> (r: String)
    ensures
        r@ == workspace_name_spec(opt_seq(*given), cwd@),
{
    match given {
        Some(n) => n.clone(),
        None => match file_name(cwd) {
            Some(f) => f,
            None => String::from_str("workspace"),
        },
    }
}

/// The branch git itself would start with: `init.defaultBranch` when
/// git config has a non-blank one (trimmed), else `main`.
pub open spec fn configured_branch_spec(config_output: Option<Seq<char>>) -> Seq<char> {
    match config_output {
        Some(s) => if trim_end(trim_start(s)).len() > 0 { trim_end(trim_start(s)) } else { "main"@ },
        None => "main"@,
    }
}

pub fn configured_branch(config_output: &Option<String>) -> (r: String)
    ensures
        r@ == configured_branch_spec(opt_seq(*config_output)),
{
    match config_output {
        Some(s) => {
            let t = trim(s.as_str());
            if t.unicode_len() > 0 { t } else { String::from_str("main") }
        },
        None => String::from_str("main"),
    }
}

/// The starter manifest: the workspace's name and default branch, no
/// repos yet.
pub fn starter_manifest(name: &str, default_branch: &str) -> (r: Manifest)
    ensures
        r.workspace.name@ == name@,
        r.workspace.default_branch@ == default_branch@,
        r.repos@.len() == 0,
{
    Manifest {
        workspace: WorkspaceMeta { name: String::from_str(name), default_branch: String::from_str(default_branch) },
        repos: Vec::new(),
    }
}

pub open spec fn created_files_spec() -> Seq<Seq<char>> {
    seq![".workspace/manifest.toml"@, ".workspace/state.toml"@]
}

pub open spec fn init_plan_spec(cwd: Seq<char>, manifest_bytes: nat, name: Seq<char>, default_branch: Seq<char>) -> Seq<Seq<char>> {
    let dir = path_join(cwd, ".workspace"@);
    seq![
        "create directory `"@ + dir + "`"@,
        "write `"@ + path_join(dir, "manifest.toml"@) + "` ("@ + decimal_of(manifest_bytes)
            + " bytes — workspace name `"@ + name + "`, default branch `"@ + default_branch + "`)"@,
        "write `"@ + path_join(dir, "state.toml"@) + "` ("@ + decimal_of(utf8_len(STATE_FILE_HEADER@))
            + " bytes — header comment + empty body)"@,
    ]
}

impl WsInit {
    /// The report: under `--explain` the plan (sizes of the manifest
    /// text and of the state header included), otherwise what was
    /// written.
    pub fn output(&self, cwd: &str, name: String, default_branch: String, forced: bool, manifest_bytes: usize) -> (r: WsInitOutput)
        ensures
            r.root@ == cwd@,
            r.workspace_name@ == name@,
            r.default_branch@ == default_branch@,
            views(r.created_files@) == created_files_spec(),
            r.forced == forced,
            self.explain ==> (r.explain_plan matches Some(p)
                && views(p@) == init_plan_spec(cwd@, manifest_bytes as nat, name@, default_branch@)),
            !self.explain ==> r.explain_plan is None,
    {
        let files = vec![String::from_str(".workspace/manifest.toml"), String::from_str(".workspace/state.toml")];
        assert(views(files@) =~= created_files_spec());
        let plan = if self.explain {
            let dir = join_path(cwd, ".workspace");
            let mut a = String::from_str("create directory `");
            a.append(dir.as_str());
            a.append("`");
            let mut b = String::from_str("write `");
            b.append(join_path(dir.as_str(), "manifest.toml").as_str());
            b.append("` (");
            b.append(decimal(manifest_bytes).as_str());
            b.append(" bytes — workspace name `");
            b.append(name.as_str());
            b.append("`, default branch `");
            b.append(default_branch.as_str());
            b.append("`)");
            let mut c = String::from_str("write `");
            c.append(join_path(dir.as_str(), "state.toml").as_str());
            c.append("` (");
            c.append(decimal(byte_len(STATE_FILE_HEADER)).as_str());
            c.append(" bytes — header comment + empty body)");
            let p = vec![a, b, c];
            assert(views(p@) =~= init_plan_spec(cwd@, manifest_bytes as nat, name@, default_branch@));
            Some(p)
        } else {
            None
        };
        WsInitOutput {
            root: String::from_str(cwd),
            workspace_name: name,
            default_branch,
            created_files: files,
            forced,
            explain_plan: plan,
        }
    }
}

pub open spec fn init_lines(o: WsInitOutput) -> Seq<Seq<char>> {
    seq![
        (if o.forced { "Re-initialised"@ } else { "Initialised"@ }) + " workspace `"@ + o.workspace_name@
            + "` (default branch: "@ + o.default_branch@ + ")"@,
        "  Root: "@ + o.root@,
    ] + views(o.created_files@).map_values(|p: Seq<char>| "  Wrote: "@ + p) + seq![
        Seq::<char>::empty(),
        "Next steps:"@,
        "  Edit `.workspace/manifest.toml` to declare child repos."@,
        "  Run `git ws` to verify the workspace context."@,
    ]
}

impl Renderable for WsInitOutput {
    open spec fn rendered(&self) -> Seq<char> {
        match self.explain_plan {
            Some(plan) => lines_text(plan_lines("ws init"@, views(plan@))),
            None => lines_text(init_lines(*self)),
        }
    }

    fn render_human(&self) -> (r: String) {
        if let Some(plan) = &self.explain_plan {
            return render_explain_plan("ws init", plan);
        }
        let mut a = String::from_str(if self.forced { "Re-initialised" } else { "Initialised" });
        a.append(" workspace `");
        a.append(self.workspace_name.as_str());
        a.append("` (default branch: ");
        a.append(self.default_branch.as_str());
        a.append(")");
        let mut b = String::from_str("  Root: ");
        b.append(self.root.as_str());
        let mut lines = vec![a, b];
        let ghost head = views(lines@);
        let ghost files = views(self.created_files@).map_values(|p: Seq<char>| "  Wrote: "@ + p);
        let mut i: usize = 0;
        while i < self.created_files.len()
            invariant
                i <= self.created_files@.len(),
                files == views(self.created_files@).map_values(|p: Seq<char>| "  Wrote: "@ + p),
                views(lines@) == head + files.take(i as int),
            decreases self.created_files@.len() - i,
        {
            let mut l = String::from_str("  Wrote: ");
            l.append(self.created_files[i].as_str());
            let ghost lb = views(lines@);
            lines.push(l);
            assert(views(lines@) =~= lb.push(l@));
            i += 1;
            assert(views(lines@) =~= head + files.take(i as int));
        }
        assert(files.take(i as int) =~= files);
        let ghost mid = views(lines@);
        lines.push(String::new());
        lines.push(String::from_str("Next steps:"));
        lines.push(String::from_str("  Edit `.workspace/manifest.toml` to declare child repos."));
        lines.push(String::from_str("  Run `git ws` to verify the workspace context."));
        assert(views(lines@) =~= mid + seq![
            Seq::<char>::empty(),
            "Next steps:"@,
            "  Edit `.workspace/manifest.toml` to declare child repos."@,
            "  Run `git ws` to verify the workspace context."@,
        ]);
        assert(views(lines@) =~= init_lines(*self));
        concat_lines(&lines)
    }
}

} // verus!
