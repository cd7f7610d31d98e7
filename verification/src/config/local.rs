//! [`LocalConfigSource`] — per-repository config at
//! `<git-dir>/marshal/config.toml`, overridable with
//! `MARSHAL_LOCAL_CONFIG` (then no repository is needed).
use vstd::prelude::*;
use vstd::string::StringExecFns;
use crate::config::global::{env_value, non_empty};
use crate::config::source::{ConfigSource, Level};
use crate::text::{join_path, lines_of, owned, path_join, split_lines, starts_with_spec, strip_prefix, trim, trim_end, trim_start, views};

verus! {

pub open spec fn not_in_repo_msg() -> Seq<char> {
    "not inside a git repository; `--local` requires a repository (or set MARSHAL_LOCAL_CONFIG to an explicit path)"@
}

pub open spec fn local_path_spec(marshal_local_config: Option<String>, git_dir: Option<String>) -> Result<Seq<char>, Seq<char>> {
    match env_value(marshal_local_config) {
        Some(p) => Ok(p),
        None => match git_dir {
            Some(g) => Ok(path_join(path_join(g@, "marshal"@), "config.toml"@)),
            None => Err(not_in_repo_msg()),
        },
    }
}

pub struct LocalConfigSource {
    path: String,
}

impl View for LocalConfigSource {
    type V = Seq<char>;

    /// The file this source reads from and writes to.
    closed spec fn view(&self) -> Seq<char> {
        self.path@
    }
}

impl LocalConfigSource {
    /// Locate the per-repository config from `MARSHAL_LOCAL_CONFIG` or
    /// the repository's `.git` directory (`None` outside a repository).
    pub fn new(marshal_local_config: Option<String>, git_dir: Option<String>) -> (r: Result<Self, String>)
        ensures
            match local_path_spec(marshal_local_config, git_dir) {
                Ok(p) => r matches Ok(s) && s@ == p,
                Err(e) => r matches Err(m) && m@ == e,
            },
    {
        let path = match default_path(&marshal_local_config, &git_dir) {
            Ok(v) => v,
            Err(e) => {
                return Err(e);
            },
        };
        Ok(LocalConfigSource { path })
    }

    pub fn at(path: String) -> (r: Self)
        ensures
            r@ == path@,
    {
        LocalConfigSource { path }
    }

}

/// Resolve the default local config path.
pub fn default_path(marshal_local_config: &Option<String>, git_dir: &Option<String>) -> (r: Result<String, String>)
    ensures
        match local_path_spec(*marshal_local_config, *git_dir) {
            Ok(p) => r matches Ok(s) && s@ == p,
            Err(e) => r matches Err(m) && m@ == e,
        },
{
    if let Some(p) = non_empty(marshal_local_config) {
        return Ok(owned(p.as_str()));
    }
    match git_dir {
        Some(g) => {
            let d = join_path(g.as_str(), "marshal");
            Ok(join_path(d.as_str(), "config.toml"))
        },
        None => Err(String::from_str(
            "not inside a git repository; `--local` requires a repository (or set MARSHAL_LOCAL_CONFIG to an explicit path)",
        )),
    }
}

impl ConfigSource for LocalConfigSource {
    open spec fn source_level(&self) -> Level {
        Level::Local
    }

    open spec fn source_path(&self) -> Seq<char> {
        self@
    }

    fn level(&self) -> (r: Level) {
        Level::Local
    }

    fn path(&self) -> (r: &str) {
        self.path.as_str()
    }
}

/// Where one `gitdir: <path>` line of a worktree's `.git` file in `dir`
/// points: the path trimmed, resolved against `dir` when relative.
pub open spec fn pointer_target(dir: Seq<char>, line: Seq<char>) -> Seq<char> {
    path_join(dir, trim_end(trim_start(line.skip(8))))
}

/// The targets of the `gitdir: ` lines among `ls`, in order.
pub open spec fn pointers_of(dir: Seq<char>, ls: Seq<Seq<char>>) -> Seq<Seq<char>>
    decreases ls.len(),
{
    if ls.len() == 0 {
        Seq::empty()
    } else {
        let rest = pointers_of(dir, ls.drop_last());
        if starts_with_spec(ls.last(), "gitdir: "@) {
            rest.push(pointer_target(dir, ls.last()))
        } else {
            rest
        }
    }
}

/// The directories that the `.git` file of a worktree in `dir` points
/// to, one per `gitdir: ` line of `content`, in file order. The caller
/// takes the first that exists as the repository's `.git` directory.
pub fn worktree_pointers(dir: &str, content: &str) -> (r: Vec<String>)
    ensures
        views(r@) == pointers_of(dir@, lines_of(content@)),
{
    let ls = split_lines(content);
    let mut out: Vec<String> = Vec::new();
    let mut i: usize = 0;
    while i < ls.len()
        invariant
            i <= ls.len(),
            views(ls@) == lines_of(content@),
            views(out@) == pointers_of(dir@, views(ls@).take(i as int)),
        decreases ls.len() - i,
    {
        let ghost lv = views(ls@);
        assert(lv.take(i + 1).drop_last() =~= lv.take(i as int));
        assert(lv.take(i + 1).last() == ls@[i as int]@);
        proof {
            reveal_strlit("gitdir: ");
        }
        match strip_prefix(ls[i].as_str(), "gitdir: ") {
            Some(rest) => {
                let t = trim(rest.as_str());
                let target = join_path(dir, t.as_str());
                let ghost ob = views(out@);
                out.push(target);
                assert(views(out@) =~= ob.push(target@));
            },
            None => {},
        }
        i += 1;
    }
    assert(views(ls@).take(ls.len() as int) =~= views(ls@));
    out
}

} // verus!
