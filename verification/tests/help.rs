use marshal::cli::{OutputFormat, Renderable};
use marshal::commands::help::topic::{HelpOutput, HelpSection, HelpTopic};
use marshal::commands::help::topics::config::Config;
use marshal::commands::help::topics::hints::Hints;
use marshal::commands::help::topics::modernize::Modernize;
use marshal::commands::help::topics::overview::Overview;
use marshal::commands::help::topics::what_now::WhatNow;
use marshal::commands::help::{Help, Registry, Topic};
use marshal::config::ConfigKey;

fn find_section<'a>(out: &'a HelpOutput, prefix: &str) -> &'a HelpSection {
    out.sections
        .iter()
        .find(|s| s.heading.starts_with(prefix))
        .unwrap()
}

fn all_body(out: &HelpOutput) -> Vec<&String> {
    out.sections.iter().flat_map(|s| s.body.iter()).collect()
}

#[test]
fn output_format_default_is_human() {
    assert_eq!(OutputFormat::default(), OutputFormat::Human);
}

#[test]
fn default_registry_resolves_overview() {
    let reg = Registry::default();
    let topic = reg.lookup("overview").expect("overview is registered");
    assert_eq!(topic.name(), "overview");
}

#[test]
fn unknown_topic_yields_none() {
    let reg = Registry::default();
    assert!(reg.lookup("nope").is_none());
}

#[test]
fn names_includes_overview() {
    let reg = Registry::default();
    let names = reg.names();
    assert!(names.contains(&"overview"));
}

#[test]
fn help_with_no_args_returns_overview() {
    let out = Help.run(&vec![]).expect("overview always present");
    assert_eq!(out.topic, "overview");
}

#[test]
fn help_with_named_topic_resolves_it() {
    let out = Help
        .run(&vec!["overview".to_string()])
        .expect("overview is a real topic");
    assert_eq!(out.topic, "overview");
}

#[test]
fn help_with_unknown_topic_errors_with_hint() {
    let msg = match Help.run(&vec!["nope".to_string()]) {
        Ok(_) => panic!("expected an error"),
        Err(e) => e,
    };
    assert!(msg.contains("unknown help topic 'nope'"));
    assert!(msg.contains("Available topics"));
    assert!(msg.contains("overview"));
}

#[test]
fn help_unknown_topic_message_is_exact() {
    let msg = match Help.run(&vec!["Overview".to_string()]) {
        Ok(_) => panic!("lookups are case-sensitive"),
        Err(e) => e,
    };
    assert_eq!(msg, "unknown help topic 'Overview'. Available topics: overview");
}

#[test]
fn registry_lookup_takes_the_first_registered_match() {
    let mut reg = Registry::new();
    assert!(reg.lookup("config").is_none());
    reg.register(Topic::Hints);
    reg.register(Topic::Config);
    assert_eq!(reg.lookup("config"), Some(Topic::Config));
    assert_eq!(reg.lookup("what-now"), None);
    assert_eq!(reg.names(), vec!["hints", "config"]);
}

#[test]
fn topic_names_are_the_user_facing_identifiers() {
    assert_eq!(Topic::Overview.name(), "overview");
    assert_eq!(Topic::Config.name(), "config");
    assert_eq!(Topic::Hints.name(), "hints");
    assert_eq!(Topic::Modernize.name(), "modernize");
    assert_eq!(Topic::WhatNow.name(), "what-now");
    assert_eq!(Topic::WhatNow.produce().topic, "what-now");
}

#[test]
fn help_renders_title_then_sections() {
    let out = Overview.produce();
    let text = out.render_human();
    assert!(text.starts_with(&format!("{}\n", out.title)));
    for s in &out.sections {
        assert!(text.contains(&format!("\n{}\n", s.heading)));
    }
    assert!(text.ends_with('\n'));
}

#[test]
fn config_topic_lists_every_command_form() {
    let out = Config.produce();
    let commands = find_section(&out, "Commands:");
    for token in ["get", "set", "unset", "list"] {
        assert!(
            commands.body.iter().any(|l| l.contains(token)),
            "expected `{token}` mention, got: {:?}",
            commands.body
        );
    }
}

#[test]
fn config_topic_documents_every_known_key() {
    let out = Config.produce();
    let keys = find_section(&out, "Known keys:");
    for key in ConfigKey::all() {
        assert!(
            keys.body.iter().any(|l| l.contains(key.as_dotted())),
            "missing key: {}",
            key.as_dotted()
        );
    }
}

#[test]
fn config_topic_documents_env_overrides() {
    let out = Config.produce();
    let body = all_body(&out);
    assert!(body.iter().any(|l| l.contains("MARSHAL_CONFIG")));
    assert!(body.iter().any(|l| l.contains("MARSHAL_SYSTEM_CONFIG")));
    assert!(body.iter().any(|l| l.contains("MARSHAL_LOCAL_CONFIG")));
}

#[test]
fn hints_topic_lists_every_canonical_rule_id() {
    let out = Hints.produce();
    let rules = find_section(&out, "Rules");
    for rule_id in [
        "not-a-git-repository",
        "dubious-ownership",
        "empty-ident",
        "ssh-publickey-denied",
        "https-auth-failed",
        "host-resolution-failed",
        "push-non-fast-forward",
        "upstream-not-configured",
        "src-refspec-no-match",
        "pathspec-no-match",
        "ambiguous-argument",
        "local-changes-would-be-overwritten",
        "unrelated-histories",
    ] {
        assert!(
            rules.body.iter().any(|l| l.contains(rule_id)),
            "missing rule_id: {rule_id}"
        );
    }
}

#[test]
fn hints_topic_documents_the_toggle() {
    let out = Hints.produce();
    let body = all_body(&out);
    assert!(body.iter().any(|l| l.contains("errors.actionable_hints")));
}

#[test]
fn modernize_topic_documents_the_two_settings() {
    let out = Modernize.produce();
    let body = all_body(&out);
    assert!(body.iter().any(|l| l.contains("modernize.tips")));
    assert!(body.iter().any(|l| l.contains("modernize.rewrite")));
}

#[test]
fn modernize_topic_lists_all_four_families() {
    let out = Modernize.produce();
    let coverage = find_section(&out, "Families");
    for family in ["checkout", "reset", "stash", "remote"] {
        assert!(
            coverage.body.iter().any(|l| l.contains(family)),
            "missing family: {family}"
        );
    }
}

#[test]
fn overview_carries_a_subcommands_section() {
    let out = Overview.produce();
    assert_eq!(out.topic, "overview");
    assert!(out.title.contains("Marshal"));
    assert!(out
        .sections
        .iter()
        .any(|s| s.heading.starts_with("Subcommands:")));
}

#[test]
fn overview_lists_every_known_config_key() {
    let out = Overview.produce();
    let keys_section = find_section(&out, "Configuration keys:");
    for key in ConfigKey::all() {
        assert!(
            keys_section.body.iter().any(|l| l.contains(key.as_dotted())),
            "expected key '{}' in body, got: {:?}",
            key.as_dotted(),
            keys_section.body
        );
    }
}

#[test]
fn overview_advertises_the_json_global_flag() {
    let out = Overview.produce();
    let body = all_body(&out);
    assert!(
        body.iter().any(|l| l.contains("--json")),
        "expected --json mention in some section, got: {body:?}"
    );
}

#[test]
fn what_now_topic_lists_every_advice_rule_in_priority_order() {
    let out = WhatNow.produce();
    let priority = find_section(&out, "Rule priority");
    let ids = [
        "merge-conflict",
        "in-progress",
        "initial-state",
        "detached-head",
        "uncommitted-changes",
        "diverged",
        "behind-upstream",
        "unpushed-commits",
        "clean",
    ];
    for rule_id in ids {
        assert!(
            priority.body.iter().any(|l| l.contains(rule_id)),
            "missing rule_id: {rule_id}"
        );
    }
}

#[test]
fn what_now_topic_documents_data_sources() {
    let out = WhatNow.produce();
    let body = all_body(&out);
    assert!(body.iter().any(|l| l.contains("--porcelain=v2")));
    assert!(body.iter().any(|l| l.contains("MERGE_HEAD")));
    assert!(body.iter().any(|l| l.contains("CHERRY_PICK_HEAD")));
}
