//! Git invocations a workspace command has decided to run: in which
//! repository, with which arguments, and the label a failure is
//! reported under. The front end runs them in order and stops at the
//! first failure.
use vstd::prelude::*;
use vstd::string::StringExecFns;
use crate::commands::ws::obstacles::{resolution_steps, resolution_steps_spec, step_view, Resolution};
use crate::text::views;

verus! {

#[derive(Debug)]
pub struct GitAction {
    pub dir: String,
    pub args: Vec<String>,
    pub label: String,
}

/// An action as plain text: directory, arguments, label.
pub open spec fn action_view(a: GitAction) -> (Seq<char>, Seq<Seq<char>>, Seq<char>) {
    (a.dir@, views(a.args@), a.label@)
}

pub open spec fn actions_view(v: Seq<GitAction>) -> Seq<(Seq<char>, Seq<Seq<char>>, Seq<char>)> {
    v.map_values(|a: GitAction| action_view(a))
}

/// Steps run in `dir`.
pub open spec fn in_dir(dir: Seq<char>, steps: Seq<(Seq<Seq<char>>, Seq<char>)>) -> Seq<(Seq<char>, Seq<Seq<char>>, Seq<char>)> {
    steps.map_values(|s: (Seq<Seq<char>>, Seq<char>)| (dir, s.0, s.1))
}

/// `git switch <branch>` in `dir`.
pub open spec fn switch_in(dir: Seq<char>, branch: Seq<char>) -> (Seq<char>, Seq<Seq<char>>, Seq<char>) {
    (dir, seq!["switch"@, branch], "git switch "@ + branch)
}

/// `git branch <branch>` in `dir`.
pub open spec fn branch_in(dir: Seq<char>, branch: Seq<char>) -> (Seq<char>, Seq<Seq<char>>, Seq<char>) {
    (dir, seq!["branch"@, branch], "git branch "@ + branch)
}

fn two_words(a: &str, b: &str) -> (r: Vec<String>)
    ensures
        views(r@) == seq![a@, b@],
{
    let r = vec![String::from_str(a), String::from_str(b)];
    assert(views(r@) =~= seq![a@, b@]);
    r
}

fn labelled(prefix: &str, rest: &str) -> (r: String)
    ensures
        r@ == prefix@ + rest@,
{
    let mut l = String::from_str(prefix);
    l.append(rest);
    l
}

pub fn switch_action(dir: &str, branch: &str) -> (r: GitAction)
    ensures
        action_view(r) == switch_in(dir@, branch@),
{
    GitAction { dir: String::from_str(dir), args: two_words("switch", branch), label: labelled("git switch ", branch) }
}

pub fn branch_action(dir: &str, branch: &str) -> (r: GitAction)
    ensures
        action_view(r) == branch_in(dir@, branch@),
{
    GitAction { dir: String::from_str(dir), args: two_words("branch", branch), label: labelled("git branch ", branch) }
}

/// Append to `out` the steps of resolution `r` in `dir`.
pub fn push_resolution(out: &mut Vec<GitAction>, dir: &str, r: Resolution, stash_message: &str)
    ensures
        actions_view(final(out)@) == actions_view(old(out)@) + in_dir(dir@, resolution_steps_spec(r, stash_message@)),
{
    let steps = resolution_steps(r, stash_message);
    let ghost sv = steps@.map_values(|s: crate::commands::ws::obstacles::GitStep| step_view(s));
    let ghost start = out@;
    let mut i: usize = 0;
    while i < steps.len()
        invariant
            i <= steps.len(),
            sv == steps@.map_values(|s: crate::commands::ws::obstacles::GitStep| step_view(s)),
            actions_view(out@) == actions_view(start) + in_dir(dir@, sv.take(i as int)),
        decreases steps.len() - i,
    {
        let a = GitAction {
            dir: String::from_str(dir),
            args: crate::text::clone_strings(&steps[i].args),
            label: steps[i].label.clone(),
        };
        let ghost before = out@;
        out.push(a);
        assert(sv[i as int] == step_view(steps@[i as int]));
        assert(actions_view(out@) =~= actions_view(before).push(action_view(a)));
        assert(in_dir(dir@, sv.take(i + 1)) =~= in_dir(dir@, sv.take(i as int)).push((dir@, sv[i as int].0, sv[i as int].1)));
        i += 1;
    }
    assert(sv.take(i as int) =~= sv);
}

} // verus!
