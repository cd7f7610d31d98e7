//! `marshal help what-now` — the what-now command in detail.
use vstd::prelude::*;
use vstd::string::StringExecFns;
use crate::commands::help::topic::{help_is, owned_lines, section, sections_view, HelpOutput, HelpTopic};
use crate::text::views;

verus! {

pub open spec fn what_now_title() -> Seq<char> {
    "marshal what-now — analyse repo state and suggest the next action."@
}

pub open spec fn what_now_sections() -> Seq<(Seq<char>, Seq<Seq<char>>)> {
    seq![
        ("Summary:"@, seq![
            "Reads the cold state of the repository (branch, ahead/behind, working"@,
            "tree counters, in-progress operations) and prints one concrete next"@,
            "step on stdout. The proactive counterpart to actionable error hints:"@,
            "hints fire reactively after a git failure; what-now is the user-invoked"@,
            "\"what should I do here?\" call."@,
        ]),
        ("Invocation:"@, seq![
            "marshal what-now           Human form (default)."@,
            "marshal what-now --json    Structured JSON: {rule_id, title, suggestions}."@,
        ]),
        ("Rule priority (first match wins):"@, seq![
            "1.  merge-conflict          Unresolved conflicts — abort cmd adapts to active op."@,
            "2.  *-in-progress           rebase / cherry-pick / revert / bisect / paused-merge."@,
            "3.  initial-state           Fresh repo, no commits."@,
            "4.  detached-head           HEAD not on a branch."@,
            "5.  uncommitted-changes     Title composes only the buckets that have files."@,
            "6.  diverged                Both ahead and behind upstream."@,
            "7.  behind-upstream         Behind only."@,
            "8.  unpushed-commits[-no-upstream]  Ahead only."@,
            "9.  clean                   Catch-all so every state produces advice."@,
        ]),
        ("Data sources (no human-readable git output is parsed):"@, seq![
            "git status --porcelain=v2 --branch  — branch + ahead/behind + working tree."@,
            "<git-dir>/MERGE_HEAD                — paused merge."@,
            "<git-dir>/rebase-merge/             — rebase in progress."@,
            "<git-dir>/rebase-apply/             — rebase via apply backend."@,
            "<git-dir>/CHERRY_PICK_HEAD          — cherry-pick in progress."@,
            "<git-dir>/REVERT_HEAD               — revert in progress."@,
            "<git-dir>/BISECT_LOG                — bisect in progress."@,
        ]),
    ]
}

pub struct WhatNow;

impl HelpTopic for WhatNow {
    fn name(&self) -> (r: &'static str)
        ensures
            r@ == "what-now"@,
    {
        "what-now"
    }

    fn produce(&self) -> (r: HelpOutput)
        ensures
            help_is(r, "what-now"@, what_now_title(), what_now_sections()),
    {
        let s0 = section("Summary:", owned_lines(&[
            "Reads the cold state of the repository (branch, ahead/behind, working",
            "tree counters, in-progress operations) and prints one concrete next",
            "step on stdout. The proactive counterpart to actionable error hints:",
            "hints fire reactively after a git failure; what-now is the user-invoked",
            "\"what should I do here?\" call.",
        ]));
        let s1 = section("Invocation:", owned_lines(&[
            "marshal what-now           Human form (default).",
            "marshal what-now --json    Structured JSON: {rule_id, title, suggestions}.",
        ]));
        let s2 = section("Rule priority (first match wins):", owned_lines(&[
            "1.  merge-conflict          Unresolved conflicts — abort cmd adapts to active op.",
            "2.  *-in-progress           rebase / cherry-pick / revert / bisect / paused-merge.",
            "3.  initial-state           Fresh repo, no commits.",
            "4.  detached-head           HEAD not on a branch.",
            "5.  uncommitted-changes     Title composes only the buckets that have files.",
            "6.  diverged                Both ahead and behind upstream.",
            "7.  behind-upstream         Behind only.",
            "8.  unpushed-commits[-no-upstream]  Ahead only.",
            "9.  clean                   Catch-all so every state produces advice.",
        ]));
        let s3 = section("Data sources (no human-readable git output is parsed):", owned_lines(&[
            "git status --porcelain=v2 --branch  — branch + ahead/behind + working tree.",
            "<git-dir>/MERGE_HEAD                — paused merge.",
            "<git-dir>/rebase-merge/             — rebase in progress.",
            "<git-dir>/rebase-apply/             — rebase via apply backend.",
            "<git-dir>/CHERRY_PICK_HEAD          — cherry-pick in progress.",
            "<git-dir>/REVERT_HEAD               — revert in progress.",
            "<git-dir>/BISECT_LOG                — bisect in progress.",
        ]));
        assert(views(s0.body@) =~= what_now_sections()[0].1);
        assert(views(s1.body@) =~= what_now_sections()[1].1);
        assert(views(s2.body@) =~= what_now_sections()[2].1);
        assert(views(s3.body@) =~= what_now_sections()[3].1);
        let sections = vec![s0, s1, s2, s3];
        let r = HelpOutput {
            topic: String::from_str(self.name()),
            title: String::from_str("marshal what-now — analyse repo state and suggest the next action."),
            sections,
        };
        assert(sections_view(r.sections@) =~= what_now_sections());
        r
    }
}

} // verus!
