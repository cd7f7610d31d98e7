//! Catch-all advice when nothing else matches.
use vstd::prelude::*;
use vstd::string::StringExecFns;
use crate::commands::what_now::rule::{advice_is, Advice, AdviceRule};
use crate::git::porcelain::RepoState;
use crate::text::views;

verus! {

pub open spec fn clean_title(name: Option<String>, upstream: Option<String>) -> Seq<char> {
    "Working tree clean, "@
        + (match name { Some(b) => "on `"@ + b@ + "`"@, None => "(no branch)"@ })
        + (match upstream { Some(u) => " up to date with `"@ + u@ + "`"@, None => Seq::empty() })
        + "."@
}

pub open spec fn clean_suggestions() -> Seq<Seq<char>> {
    seq![
        "Start something new: `git switch -c feat/<name>`."@,
        "Or pull the latest: `git pull --rebase`."@,
    ]
}

pub struct Clean;

impl AdviceRule for Clean {
    /// Always fires; registered last so every state gets some advice.
    fn examine(&self, state: &RepoState) -> (r: Option<Advice>)
        ensures
            r matches Some(a) && advice_is(a, "clean"@,
                clean_title(state.branch.name, state.branch.upstream), clean_suggestions()),
    {
        let mut title = String::from_str("Working tree clean, ");
        match &state.branch.name {
            Some(b) => {
                title.append("on `");
                title.append(b.as_str());
                title.append("`");
            },
            None => {
                title.append("(no branch)");
            },
        }
        match &state.branch.upstream {
            Some(u) => {
                title.append(" up to date with `");
                title.append(u.as_str());
                title.append("`");
            },
            None => {},
        }
        title.append(".");
        let suggestions = vec![
            String::from_str("Start something new: `git switch -c feat/<name>`."),
            String::from_str("Or pull the latest: `git pull --rebase`."),
        ];
        assert(views(suggestions@) =~= clean_suggestions());
        assert(title@ =~= clean_title(state.branch.name, state.branch.upstream));
        Some(Advice { rule_id: "clean", title, suggestions })
    }
}

} // verus!
