//! `marshal help modernize` — modernization tips reference.
use vstd::prelude::*;
use vstd::string::StringExecFns;
use crate::commands::help::topic::{help_is, owned_lines, section, sections_view, HelpOutput, HelpTopic};
use crate::text::views;

verus! {

pub open spec fn modernize_title() -> Seq<char> {
    "Modernization tips — surface the modern equivalent of legacy git forms."@
}

pub open spec fn modernize_sections() -> Seq<(Seq<char>, Seq<Seq<char>>)> {
    seq![
        ("Summary:"@, seq![
            "Marshal recognises 12 legacy command shapes that git itself treats as"@,
            "deprecated or succeeded (e.g. `checkout -b` → `switch -c`, `stash save` →"@,
            "`stash push`, `remote rm` → `remote remove`). When you type one of them,"@,
            "Marshal prints a one-line tip on stderr **before** running git unchanged."@,
        ]),
        ("Format:"@, seq![
            "marshal: tip: try `<modern-form>` instead of `<legacy-form>`"@,
            "             <optional one-line historical note>"@,
        ]),
        ("Settings:"@, seq![
            "modernize.tips        Default `true`. Set `false` to silence all tips."@,
            "modernize.rewrite     Default `false`. Set `true` to *rewrite* the legacy"@,
            "                      form to its modern equivalent before running git"@,
            "                      (Invariant 8: rewriting is opt-in only)."@,
        ]),
        ("Families covered (12 patterns, 11 rule impls):"@, seq![
            "checkout → switch / restore   8 patterns from the Git 2.23 split."@,
            "reset    → restore --staged   file-mode `reset [HEAD] <files>`."@,
            "stash save → stash push       deprecated since Git 2.16; preserves `-u` / `-m`."@,
            "remote rm → remote remove     remote-management alias rename."@,
        ]),
    ]
}

pub struct Modernize;

impl HelpTopic for Modernize {
    fn name(&self) -> (r: &'static str)
        ensures
            r@ == "modernize"@,
    {
        "modernize"
    }

    fn produce(&self) -> (r: HelpOutput)
        ensures
            help_is(r, "modernize"@, modernize_title(), modernize_sections()),
    {
        let s0 = section("Summary:", owned_lines(&[
            "Marshal recognises 12 legacy command shapes that git itself treats as",
            "deprecated or succeeded (e.g. `checkout -b` → `switch -c`, `stash save` →",
            "`stash push`, `remote rm` → `remote remove`). When you type one of them,",
            "Marshal prints a one-line tip on stderr **before** running git unchanged.",
        ]));
        let s1 = section("Format:", owned_lines(&[
            "marshal: tip: try `<modern-form>` instead of `<legacy-form>`",
            "             <optional one-line historical note>",
        ]));
        let s2 = section("Settings:", owned_lines(&[
            "modernize.tips        Default `true`. Set `false` to silence all tips.",
            "modernize.rewrite     Default `false`. Set `true` to *rewrite* the legacy",
            "                      form to its modern equivalent before running git",
            "                      (Invariant 8: rewriting is opt-in only).",
        ]));
        let s3 = section("Families covered (12 patterns, 11 rule impls):", owned_lines(&[
            "checkout → switch / restore   8 patterns from the Git 2.23 split.",
            "reset    → restore --staged   file-mode `reset [HEAD] <files>`.",
            "stash save → stash push       deprecated since Git 2.16; preserves `-u` / `-m`.",
            "remote rm → remote remove     remote-management alias rename.",
        ]));
        assert(views(s0.body@) =~= modernize_sections()[0].1);
        assert(views(s1.body@) =~= modernize_sections()[1].1);
        assert(views(s2.body@) =~= modernize_sections()[2].1);
        assert(views(s3.body@) =~= modernize_sections()[3].1);
        let sections = vec![s0, s1, s2, s3];
        let r = HelpOutput {
            topic: String::from_str(self.name()),
            title: String::from_str("Modernization tips — surface the modern equivalent of legacy git forms."),
            sections,
        };
        assert(sections_view(r.sections@) =~= modernize_sections());
        r
    }
}

} // verus!
