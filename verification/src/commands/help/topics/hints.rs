//! `marshal help hints` — actionable error hints reference.
use vstd::prelude::*;
use vstd::string::StringExecFns;
use crate::commands::help::topic::{help_is, owned_lines, section, sections_view, HelpOutput, HelpTopic};
use crate::text::views;

verus! {

pub open spec fn hints_title() -> Seq<char> {
    "Actionable error hints — concrete next steps after a git failure."@
}

pub open spec fn hints_sections() -> Seq<(Seq<char>, Seq<Seq<char>>)> {
    seq![
        ("Summary:"@, seq![
            "When git exits non-zero with a recognised failure, Marshal appends a short hint"@,
            "to stderr below git's own message. The hint never modifies git's output —"@,
            "it only adds a `marshal: hint:` block underneath."@,
        ]),
        ("Format:"@, seq![
            "marshal: hint: <one-line title>"@,
            "  • <action 1>"@,
            "  • <action 2>"@,
        ]),
        ("Toggle:"@, seq![
            "On by default (errors.actionable_hints = true)."@,
            "Disable: `marshal config set errors.actionable_hints false`."@,
            "Disabling restores byte-exact stderr passthrough — Marshal stops"@,
            "capturing stderr at all when the feature is off."@,
        ]),
        ("Rules currently shipped:"@, seq![
            "not-a-git-repository                 fatal: not a git repository"@,
            "dubious-ownership                    detected dubious ownership in repository at"@,
            "empty-ident                          empty author identity / Author identity unknown"@,
            "ssh-publickey-denied                 Permission denied (publickey)"@,
            "https-auth-failed                    Authentication failed for 'https://…'"@,
            "host-resolution-failed               Could not resolve host (DNS/network/VPN)"@,
            "push-non-fast-forward                git push rejected because remote moved ahead"@,
            "upstream-not-configured              first push of a new branch — no upstream"@,
            "src-refspec-no-match                 push has nothing to send"@,
            "pathspec-no-match                    pathspec '…' did not match any file"@,
            "ambiguous-argument                   ambiguous argument: unknown revision or path"@,
            "local-changes-would-be-overwritten   uncommitted changes block the operation"@,
            "unrelated-histories                  refusing to merge unrelated histories"@,
        ]),
    ]
}

pub struct Hints;

impl HelpTopic for Hints {
    fn name(&self) -> (r: &'static str)
        ensures
            r@ == "hints"@,
    {
        "hints"
    }

    fn produce(&self) -> (r: HelpOutput)
        ensures
            help_is(r, "hints"@, hints_title(), hints_sections()),
    {
        let s0 = section("Summary:", owned_lines(&[
            "When git exits non-zero with a recognised failure, Marshal appends a short hint",
            "to stderr below git's own message. The hint never modifies git's output —",
            "it only adds a `marshal: hint:` block underneath.",
        ]));
        let s1 = section("Format:", owned_lines(&[
            "marshal: hint: <one-line title>",
            "  • <action 1>",
            "  • <action 2>",
        ]));
        let s2 = section("Toggle:", owned_lines(&[
            "On by default (errors.actionable_hints = true).",
            "Disable: `marshal config set errors.actionable_hints false`.",
            "Disabling restores byte-exact stderr passthrough — Marshal stops",
            "capturing stderr at all when the feature is off.",
        ]));
        let s3 = section("Rules currently shipped:", owned_lines(&[
            "not-a-git-repository                 fatal: not a git repository",
            "dubious-ownership                    detected dubious ownership in repository at",
            "empty-ident                          empty author identity / Author identity unknown",
            "ssh-publickey-denied                 Permission denied (publickey)",
            "https-auth-failed                    Authentication failed for 'https://…'",
            "host-resolution-failed               Could not resolve host (DNS/network/VPN)",
            "push-non-fast-forward                git push rejected because remote moved ahead",
            "upstream-not-configured              first push of a new branch — no upstream",
            "src-refspec-no-match                 push has nothing to send",
            "pathspec-no-match                    pathspec '…' did not match any file",
            "ambiguous-argument                   ambiguous argument: unknown revision or path",
            "local-changes-would-be-overwritten   uncommitted changes block the operation",
            "unrelated-histories                  refusing to merge unrelated histories",
        ]));
        assert(views(s0.body@) =~= hints_sections()[0].1);
        assert(views(s1.body@) =~= hints_sections()[1].1);
        assert(views(s2.body@) =~= hints_sections()[2].1);
        assert(views(s3.body@) =~= hints_sections()[3].1);
        let sections = vec![s0, s1, s2, s3];
        let r = HelpOutput {
            topic: String::from_str(self.name()),
            title: String::from_str("Actionable error hints — concrete next steps after a git failure."),
            sections,
        };
        assert(sections_view(r.sections@) =~= hints_sections());
        r
    }
}

} // verus!
