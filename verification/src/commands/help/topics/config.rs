//! `marshal help config` — the configuration system in full.
use vstd::prelude::*;
use vstd::string::StringExecFns;
use crate::commands::help::topic::{help_is, owned_lines, section, sections_view, HelpOutput, HelpTopic};
use crate::commands::help::topics::{key_lines, key_lines_spec};
use crate::text::views;

verus! {

pub open spec fn config_title() -> Seq<char> {
    "Marshal configuration — the three-tier model."@
}

pub open spec fn config_sections() -> Seq<(Seq<char>, Seq<Seq<char>>)> {
    seq![
        ("Summary:"@, seq![
            "Marshal mirrors git's three-tier config model: system < global < local."@,
            "Higher tiers override lower; unset keys fall through to compiled-in defaults."@,
        ]),
        ("Commands:"@, seq![
            "marshal config get [--show-origin] <key>"@,
            "marshal config set   [--system|--global|--local] <key> <value>"@,
            "marshal config unset [--system|--global|--local] <key>"@,
            "marshal config list"@,
        ]),
        ("Levels (precedence: system < global < local):"@, seq![
            "--global (default)  per-user config."@,
            "                    Unix:    $XDG_CONFIG_HOME/marshal/config.toml"@,
            "                    Windows: %APPDATA%\\marshal\\config.toml"@,
            "--system            machine-wide config."@,
            "                    Unix:    /etc/marshal/config.toml"@,
            "                    Windows: %ProgramData%\\marshal\\config.toml"@,
            "--local             per-repo config (inside `<git-dir>/marshal/`)."@,
        ]),
        ("Known keys:"@, key_lines_spec()),
        ("Override paths via environment (mostly for tests/CI):"@, seq![
            "MARSHAL_CONFIG          Override the global path."@,
            "MARSHAL_SYSTEM_CONFIG   Override the system path."@,
            "MARSHAL_LOCAL_CONFIG    Override the local path."@,
        ]),
        ("Robustness:"@, seq![
            "A malformed config file does not abort commands. Marshal warns once on stderr"@,
            "and falls back to defaults so the user's git command still completes."@,
        ]),
    ]
}

pub struct Config;

impl HelpTopic for Config {
    fn name(&self) -> (r: &'static str)
        ensures
            r@ == "config"@,
    {
        "config"
    }

    fn produce(&self) -> (r: HelpOutput)
        ensures
            help_is(r, "config"@, config_title(), config_sections()),
    {
        let s0 = section("Summary:", owned_lines(&[
            "Marshal mirrors git's three-tier config model: system < global < local.",
            "Higher tiers override lower; unset keys fall through to compiled-in defaults.",
        ]));
        let s1 = section("Commands:", owned_lines(&[
            "marshal config get [--show-origin] <key>",
            "marshal config set   [--system|--global|--local] <key> <value>",
            "marshal config unset [--system|--global|--local] <key>",
            "marshal config list",
        ]));
        let s2 = section("Levels (precedence: system < global < local):", owned_lines(&[
            "--global (default)  per-user config.",
            "                    Unix:    $XDG_CONFIG_HOME/marshal/config.toml",
            "                    Windows: %APPDATA%\\marshal\\config.toml",
            "--system            machine-wide config.",
            "                    Unix:    /etc/marshal/config.toml",
            "                    Windows: %ProgramData%\\marshal\\config.toml",
            "--local             per-repo config (inside `<git-dir>/marshal/`).",
        ]));
        let s3 = section("Known keys:", key_lines());
        let s4 = section("Override paths via environment (mostly for tests/CI):", owned_lines(&[
            "MARSHAL_CONFIG          Override the global path.",
            "MARSHAL_SYSTEM_CONFIG   Override the system path.",
            "MARSHAL_LOCAL_CONFIG    Override the local path.",
        ]));
        let s5 = section("Robustness:", owned_lines(&[
            "A malformed config file does not abort commands. Marshal warns once on stderr",
            "and falls back to defaults so the user's git command still completes.",
        ]));
        assert(views(s0.body@) =~= config_sections()[0].1);
        assert(views(s1.body@) =~= config_sections()[1].1);
        assert(views(s2.body@) =~= config_sections()[2].1);
        assert(views(s4.body@) =~= config_sections()[4].1);
        assert(views(s5.body@) =~= config_sections()[5].1);
        let sections = vec![s0, s1, s2, s3, s4, s5];
        let r = HelpOutput {
            topic: String::from_str(self.name()),
            title: String::from_str("Marshal configuration — the three-tier model."),
            sections,
        };
        assert(sections_view(r.sections@) =~= config_sections());
        r
    }
}

} // verus!
