//! The `marshal help` landing screen.
use vstd::prelude::*;
use vstd::string::StringExecFns;
use crate::commands::help::topic::{help_is, owned_lines, section, sections_view, HelpOutput, HelpTopic};
use crate::commands::help::topics::{key_lines, key_lines_spec};
use crate::text::views;

verus! {

pub open spec fn overview_title() -> Seq<char> {
    "Marshal 0.4.0 — a transparent wrapper for git."@
}

pub open spec fn overview_sections() -> Seq<(Seq<char>, Seq<Seq<char>>)> {
    seq![
        ("Subcommands:"@, seq![
            "config     Manage Marshal configuration (get/set/unset/list)."@,
            "what-now   Analyse repo state and suggest the next action."@,
            "help       Print this overview, or `help <topic>` for details."@,
        ]),
        ("Configuration keys:"@, key_lines_spec()),
        ("Topics (run `marshal help <topic>` for any of them):"@, seq![
            "overview     This screen."@,
            "config       Marshal's configuration system."@,
            "hints        Actionable error hints below git failures."@,
            "modernize    Modernization tips for legacy git forms."@,
            "what-now     The what-now command in detail."@,
        ]),
        ("Global flags (anywhere in argv after `marshal`):"@, seq![
            "--json   Emit JSON instead of the human form."@,
        ]),
        ("More:"@, seq![
            "Project: https://github.com/matutetandil/marshal"@,
            "Design:  see `docs/PRINCIPLES.md` and `docs/ARCHITECTURE.md`."@,
        ]),
    ]
}

pub struct Overview;

impl HelpTopic for Overview {
    fn name(&self) -> (r: &'static str)
        ensures
            r@ == "overview"@,
    {
        "overview"
    }

    fn produce(&self) -> (r: HelpOutput)
        ensures
            help_is(r, "overview"@, overview_title(), overview_sections()),
    {
        let subcommands = section("Subcommands:", owned_lines(&[
            "config     Manage Marshal configuration (get/set/unset/list).",
            "what-now   Analyse repo state and suggest the next action.",
            "help       Print this overview, or `help <topic>` for details.",
        ]));
        let config_keys = section("Configuration keys:", key_lines());
        let topics = section("Topics (run `marshal help <topic>` for any of them):", owned_lines(&[
            "overview     This screen.",
            "config       Marshal's configuration system.",
            "hints        Actionable error hints below git failures.",
            "modernize    Modernization tips for legacy git forms.",
            "what-now     The what-now command in detail.",
        ]));
        let global_flags = section("Global flags (anywhere in argv after `marshal`):", owned_lines(&[
            "--json   Emit JSON instead of the human form.",
        ]));
        let pointers = section("More:", owned_lines(&[
            "Project: https://github.com/matutetandil/marshal",
            "Design:  see `docs/PRINCIPLES.md` and `docs/ARCHITECTURE.md`.",
        ]));
        assert(views(subcommands.body@) =~= overview_sections()[0].1);
        assert(views(topics.body@) =~= overview_sections()[2].1);
        assert(views(global_flags.body@) =~= overview_sections()[3].1);
        assert(views(pointers.body@) =~= overview_sections()[4].1);
        let sections = vec![subcommands, config_keys, topics, global_flags, pointers];
        let r = HelpOutput {
            topic: String::from_str(self.name()),
            title: String::from_str("Marshal 0.4.0 — a transparent wrapper for git."),
            sections,
        };
        assert(sections_view(r.sections@) =~= overview_sections());
        r
    }
}

} // verus!
