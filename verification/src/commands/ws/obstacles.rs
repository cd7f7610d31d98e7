//! The pre-flight report shared by `ws restore` and `ws switch`: each
//! obstacle marked blocking (`✗`) or cleared by the requested flag
//! (`✓`), and what the user can do about the blocking ones.
use vstd::prelude::*;
use vstd::string::StringExecFns;
use crate::workspace::preflight::{any_hard, any_soft, blocking_obstacles, blocking_spec, blocks, describe,
    is_hard, needs_resolution, Obstacle};
use crate::text::views;

verus! {

/// One line per obstacle: `  ✗` when it blocks under the flags, `  ✓`
/// when a flag clears it, then its description.
pub open spec fn marker_text(obs: Seq<Obstacle>, auto_stash: bool, discard: bool) -> Seq<char>
    decreases obs.len(),
{
    if obs.len() == 0 {
        Seq::empty()
    } else {
        marker_text(obs.drop_last(), auto_stash, discard)
            + (if blocks(obs.last(), auto_stash, discard) { "  ✗"@ } else { "  ✓"@ }) + " "@ + describe(obs.last())
            + "\n"@
    }
}

pub fn marker_lines(out: &mut String, obs: &Vec<Obstacle>, auto_stash: bool, discard: bool)
    ensures
        final(out)@ == old(out)@ + marker_text(obs@, auto_stash, discard),
{
    let ghost start = out@;
    let mut i: usize = 0;
    while i < obs.len()
        invariant
            i <= obs.len(),
            out@ == start + marker_text(obs@.take(i as int), auto_stash, discard),
        decreases obs.len() - i,
    {
        assert(obs@.take(i + 1).drop_last() =~= obs@.take(i as int));
        let o = obs[i];
        let b = o.is_hard_blocker() || !(auto_stash && o.cleared_by_auto_stash() || discard && o.cleared_by_discard());
        out.append(if b { "  ✗" } else { "  ✓" });
        out.append(" ");
        out.append(o.description().as_str());
        out.append("\n");
        i += 1;
    }
    assert(obs@.take(i as int) =~= obs@);
}

/// Per child: its name and the obstacles found in it.
pub open spec fn report_view(report: Seq<(String, Vec<Obstacle>)>) -> Seq<(Seq<char>, Seq<Obstacle>)> {
    report.map_values(|e: (String, Vec<Obstacle>)| (e.0@, e.1@))
}

/// A section per child with something blocking: its heading, then
/// its marked obstacles.
pub open spec fn child_sections(report: Seq<(Seq<char>, Seq<Obstacle>)>, auto_stash: bool, discard: bool) -> Seq<char>
    decreases report.len(),
{
    if report.len() == 0 {
        Seq::empty()
    } else {
        child_sections(report.drop_last(), auto_stash, discard)
            + if blocking_spec(report.last().1, auto_stash, discard).len() == 0 {
                Seq::empty()
            } else {
                "\nChild `"@ + report.last().0 + "`:\n"@ + marker_text(report.last().1, auto_stash, discard)
            }
    }
}

/// Some child has a blocking obstacle that is hard (resp. soft).
pub open spec fn report_any(report: Seq<(Seq<char>, Seq<Obstacle>)>, auto_stash: bool, discard: bool, hard: bool) -> bool {
    exists|i: int| 0 <= i < report.len() && #[trigger] report_has(report[i], auto_stash, discard, hard)
}

pub open spec fn report_has(entry: (Seq<char>, Seq<Obstacle>), auto_stash: bool, discard: bool, hard: bool) -> bool {
    let b = blocking_spec(entry.1, auto_stash, discard);
    exists|j: int| 0 <= j < b.len() && is_hard(#[trigger] b[j]) == hard
}

pub fn child_sections_exec(out: &mut String, report: &Vec<(String, Vec<Obstacle>)>, auto_stash: bool, discard: bool)
    ensures
        final(out)@ == old(out)@ + child_sections(report_view(report@), auto_stash, discard),
{
    let ghost rv = report_view(report@);
    let ghost start = out@;
    let mut i: usize = 0;
    while i < report.len()
        invariant
            i <= report.len(),
            rv == report_view(report@),
            out@ == start + child_sections(rv.take(i as int), auto_stash, discard),
        decreases report.len() - i,
    {
        assert(rv.take(i + 1).drop_last() =~= rv.take(i as int));
        assert(rv[i as int] == (report@[i as int].0@, report@[i as int].1@));
        let (name, obs) = &report[i];
        let blocking = blocking_obstacles(obs, auto_stash, discard);
        if blocking.len() > 0 {
            out.append("\nChild `");
            out.append(name.as_str());
            out.append("`:\n");
            marker_lines(out, obs, auto_stash, discard);
        }
        i += 1;
    }
    assert(rv.take(i as int) =~= rv);
}

/// Whether some child's blocking obstacles include a hard (resp. soft) one.
pub fn report_has_kind(report: &Vec<(String, Vec<Obstacle>)>, auto_stash: bool, discard: bool, hard: bool) -> (r: bool)
    ensures
        r == report_any(report_view(report@), auto_stash, discard, hard),
{
    let ghost rv = report_view(report@);
    let mut i: usize = 0;
    while i < report.len()
        invariant
            i <= report.len(),
            rv == report_view(report@),
            forall|k: int| 0 <= k < i ==> !#[trigger] report_has(rv[k], auto_stash, discard, hard),
        decreases report.len() - i,
    {
        assert(rv[i as int] == (report@[i as int].0@, report@[i as int].1@));
        let blocking = blocking_obstacles(&report[i].1, auto_stash, discard);
        let found = if hard { any_hard(&blocking) } else { any_soft(&blocking) };
        if found {
            proof {
                let b = blocking_spec(rv[i as int].1, auto_stash, discard);
                assert(blocking@ == b);
                if hard {
                    let j = choose|j: int| 0 <= j < blocking@.len() && is_hard(#[trigger] blocking@[j]);
                    assert(is_hard(b[j]) == hard);
                } else {
                    let j = choose|j: int| 0 <= j < blocking@.len() && !is_hard(#[trigger] blocking@[j]);
                    assert(is_hard(b[j]) == hard);
                }
                assert(report_has(rv[i as int], auto_stash, discard, hard));
            }
            return true;
        }
        proof {
            if report_has(rv[i as int], auto_stash, discard, hard) {
                let b = blocking_spec(rv[i as int].1, auto_stash, discard);
                let j = choose|j: int| 0 <= j < b.len() && is_hard(#[trigger] b[j]) == hard;
                assert(blocking@[j] == b[j]);
            }
        }
        i += 1;
    }
    false
}

/// The resolution step before switching a repo.
#[derive(Debug, Clone, Copy, PartialEq, Eq, Structural)]
pub enum Resolution {
    /// Nothing to resolve.
    Nothing,
    /// `git reset --hard` then `git clean -fd`.
    Discard,
    /// `git stash push --include-untracked`.
    Stash,
    /// Soft obstacles remain and no flag was given; pre-flight refuses
    /// this case before any resolution is asked for.
    Unresolved,
}

/// Discarding wins over stashing; with no soft obstacle there is
/// nothing to do.
pub open spec fn resolution_spec(obs: Seq<Obstacle>, auto_stash: bool, discard: bool) -> Resolution {
    if !needs_resolution(obs) {
        Resolution::Nothing
    } else if discard {
        Resolution::Discard
    } else if auto_stash {
        Resolution::Stash
    } else {
        Resolution::Unresolved
    }
}

pub fn resolution(obs: &Vec<Obstacle>, auto_stash: bool, discard: bool) -> (r: Resolution)
    ensures
        r == resolution_spec(obs@, auto_stash, discard),
{
    if !any_soft(obs) {
        Resolution::Nothing
    } else if discard {
        Resolution::Discard
    } else if auto_stash {
        Resolution::Stash
    } else {
        Resolution::Unresolved
    }
}

/// Once pre-flight found nothing blocking, resolution never comes out
/// unresolved.
pub proof fn law_preflight_leaves_nothing_unresolved(obs: Seq<Obstacle>, auto_stash: bool, discard: bool)
    requires
        blocking_spec(obs, auto_stash, discard).len() == 0,
    ensures
        resolution_spec(obs, auto_stash, discard) != Resolution::Unresolved,
{
    if needs_resolution(obs) && !discard && !auto_stash {
        let i = choose|i: int| 0 <= i < obs.len() && !is_hard(#[trigger] obs[i]);
        let f = |o: Obstacle| blocks(o, auto_stash, discard);
        obs.lemma_filter_contains(f, i);
    }
}

/// One git invocation of a resolution: its arguments and the label a
/// failure is reported under.
#[derive(Debug)]
pub struct GitStep {
    pub args: Vec<String>,
    pub label: String,
}

pub open spec fn step_view(s: GitStep) -> (Seq<Seq<char>>, Seq<char>) {
    (views(s.args@), s.label@)
}

/// The git invocations that carry out a resolution, in order; a stash
/// is recorded under `stash_message`.
pub open spec fn resolution_steps_spec(r: Resolution, stash_message: Seq<char>) -> Seq<(Seq<Seq<char>>, Seq<char>)> {
    match r {
        Resolution::Discard => seq![
            (seq!["reset"@, "--hard"@], "git reset --hard"@),
            (seq!["clean"@, "-fd"@], "git clean -fd"@),
        ],
        Resolution::Stash => seq![
            (seq!["stash"@, "push"@, "--include-untracked"@, "-m"@, stash_message], "git stash push"@),
        ],
        _ => Seq::empty(),
    }
}

fn step(args: Vec<String>, label: &str) -> (r: GitStep)
    ensures
        r.args@ == args@,
        r.label@ == label@,
{
    GitStep { args, label: String::from_str(label) }
}

pub fn resolution_steps(r: Resolution, stash_message: &str) -> (steps: Vec<GitStep>)
    ensures
        steps@.map_values(|s: GitStep| step_view(s)) == resolution_steps_spec(r, stash_message@),
{
    let steps = match r {
        Resolution::Discard => {
            let a = step(vec![String::from_str("reset"), String::from_str("--hard")], "git reset --hard");
            let b = step(vec![String::from_str("clean"), String::from_str("-fd")], "git clean -fd");
            assert(views(a.args@) =~= seq!["reset"@, "--hard"@]);
            assert(views(b.args@) =~= seq!["clean"@, "-fd"@]);
            vec![a, b]
        },
        Resolution::Stash => {
            let a = step(vec![String::from_str("stash"), String::from_str("push"), String::from_str("--include-untracked"),
                String::from_str("-m"), String::from_str(stash_message)], "git stash push");
            assert(views(a.args@) =~= seq!["stash"@, "push"@, "--include-untracked"@, "-m"@, stash_message@]);
            vec![a]
        },
        _ => Vec::new(),
    };
    assert(steps@.map_values(|s: GitStep| step_view(s)) =~= resolution_steps_spec(r, stash_message@));
    steps
}

} // verus!
