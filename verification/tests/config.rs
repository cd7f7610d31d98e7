use marshal::config::global::{self, GlobalConfigSource};
use marshal::config::local::{self, worktree_pointers, LocalConfigSource};
use marshal::config::source::{ConfigSource, Level};
use marshal::config::system::{self, SystemConfigSource};
use marshal::config::{
    merge, parse_bool, Config, ConfigEdit, ConfigKey, ConfigResolver, LoadedLayer, ModernizeConfig,
};

fn some(s: &str) -> Option<String> {
    Some(s.to_string())
}

fn layer(level: Level, tips: Option<bool>, rewrite: Option<bool>) -> LoadedLayer {
    LoadedLayer {
        level,
        path: format!("/cfg/{}.toml", level.as_str()),
        content: Ok(Some(Config {
            modernize: ModernizeConfig { tips, rewrite },
        })),
    }
}

#[test]
fn defaults_match_documented_policy() {
    let cfg = Config::default();
    assert!(cfg.modernize_tips(), "tips default to enabled");
    assert!(
        !cfg.modernize_rewrite(),
        "rewrite defaults to disabled (conservative)"
    );
}

#[test]
fn set_and_get_round_trip() {
    let mut cfg = Config::default();
    cfg.set_from_str(ConfigKey::ModernizeTips, "false").unwrap();
    cfg.set_from_str(ConfigKey::ModernizeRewrite, "true").unwrap();
    assert_eq!(cfg.get_effective_string(ConfigKey::ModernizeTips), "false");
    assert_eq!(cfg.get_effective_string(ConfigKey::ModernizeRewrite), "true");
}

#[test]
fn set_accepts_alternative_boolean_spellings() {
    let mut cfg = Config::default();
    for (spelling, expected) in [
        ("yes", true),
        ("no", false),
        ("1", true),
        ("0", false),
        ("on", true),
        ("off", false),
        ("TRUE", true),
        ("False", false),
    ] {
        cfg.set_from_str(ConfigKey::ModernizeTips, spelling).unwrap();
        assert_eq!(cfg.modernize_tips(), expected, "'{spelling}' → {expected}");
    }
}

#[test]
fn set_rejects_non_boolean() {
    let mut cfg = Config::default();
    let err = cfg.set_from_str(ConfigKey::ModernizeTips, "maybe").unwrap_err();
    assert!(err.contains("not a boolean"));
}

#[test]
fn parse_bool_error_names_the_lowercased_input() {
    assert_eq!(
        parse_bool("MayBe"),
        Err("'maybe' is not a boolean (expected true/false/1/0/yes/no/on/off)".to_string())
    );
    assert_eq!(parse_bool("On"), Ok(true));
}

#[test]
fn unset_returns_field_to_default() {
    let mut cfg = Config::default();
    cfg.set_from_str(ConfigKey::ModernizeTips, "false").unwrap();
    assert!(!cfg.modernize_tips());
    cfg.unset(ConfigKey::ModernizeTips);
    assert!(cfg.modernize_tips(), "fall back to default after unset");
}

#[test]
fn merge_overlay_overrides_base_when_set() {
    let mut base = Config::default();
    base.set_from_str(ConfigKey::ModernizeTips, "true").unwrap();
    let mut overlay = Config::default();
    overlay.set_from_str(ConfigKey::ModernizeTips, "false").unwrap();
    merge(&mut base, overlay);
    assert!(!base.modernize_tips(), "overlay wins when explicitly set");
}

#[test]
fn merge_overlay_none_preserves_base_value() {
    let mut base = Config::default();
    base.set_from_str(ConfigKey::ModernizeTips, "false").unwrap();
    let overlay = Config::default();
    merge(&mut base, overlay);
    assert!(
        !base.modernize_tips(),
        "overlay's None must not clobber base's explicit value"
    );
}

#[test]
fn key_parsing_is_exact_match() {
    assert!(matches!(
        ConfigKey::from_dotted("modernize.tips"),
        Ok(ConfigKey::ModernizeTips)
    ));
    assert!(matches!(
        ConfigKey::from_dotted("modernize.rewrite"),
        Ok(ConfigKey::ModernizeRewrite)
    ));
    assert!(ConfigKey::from_dotted("modernize.TIPS").is_err());
    assert!(ConfigKey::from_dotted("garbage").is_err());
}

#[test]
fn unknown_key_message_lists_the_known_keys() {
    assert_eq!(
        ConfigKey::from_dotted("garbage"),
        Err("unknown config key 'garbage'. Known keys:\n  modernize.tips\n  modernize.rewrite".to_string())
    );
}

#[test]
fn dotted_names_round_trip_for_every_key() {
    for key in ConfigKey::all() {
        assert_eq!(ConfigKey::from_dotted(key.as_dotted()), Ok(key));
    }
    assert_eq!(ConfigKey::all().len(), 2);
}

#[test]
fn layer_value_reports_only_what_the_layer_sets() {
    let mut cfg = Config::default();
    assert_eq!(cfg.layer_value(ConfigKey::ModernizeRewrite), None);
    cfg.set_from_str(ConfigKey::ModernizeRewrite, "yes").unwrap();
    assert_eq!(cfg.layer_value(ConfigKey::ModernizeRewrite), some("true"));
    assert_eq!(cfg.layer_value(ConfigKey::ModernizeTips), None);
    assert!(!cfg.modernize.is_empty());
    assert!(Config::default().modernize.is_empty());
}

#[test]
fn env_override_wins_over_xdg_and_home() {
    let path = global::default_path(
        &some("/tmp/override.toml"),
        &some("/should/not/be/used"),
        &some("/should/not/be/used/either"),
    )
    .unwrap();
    assert_eq!(path, "/tmp/override.toml");
}

#[test]
fn xdg_config_home_is_used_when_set() {
    let path = global::default_path(&None, &some("/tmp/xdg"), &some("/home/user")).unwrap();
    assert_eq!(path, "/tmp/xdg/marshal/config.toml");
}

#[test]
fn falls_back_to_home_dot_config() {
    let path = global::default_path(&None, &None, &some("/home/user")).unwrap();
    assert_eq!(path, "/home/user/.config/marshal/config.toml");
}

#[test]
fn global_path_needs_some_location() {
    assert!(global::default_path(&None, &None, &None).is_err());
    assert!(GlobalConfigSource::new(None, Some(String::new()), None).is_err());
}

#[test]
fn env_override_wins() {
    let path = system::default_path(&some("/tmp/sysoverride.toml"));
    assert_eq!(path, "/tmp/sysoverride.toml");
}

#[test]
fn falls_back_to_etc_marshal_on_unix() {
    let path = system::default_path(&None);
    assert_eq!(path, "/etc/marshal/config.toml");
}

#[test]
fn default_path_env_override_wins() {
    let path = local::default_path(&some("/tmp/localoverride.toml"), &None).unwrap();
    assert_eq!(path, "/tmp/localoverride.toml");
}

#[test]
fn local_path_lives_under_the_git_dir() {
    let path = local::default_path(&None, &some("/repo/.git")).unwrap();
    assert_eq!(path, "/repo/.git/marshal/config.toml");
    assert!(local::default_path(&None, &None).is_err());
}

#[test]
fn level_is_local() {
    let s = LocalConfigSource::at("/x/config.toml".to_string());
    assert_eq!(s.level(), Level::Local);
    assert_eq!(s.path(), "/x/config.toml");
}

#[test]
fn level_is_system() {
    let s = SystemConfigSource::at("/x/config.toml".to_string());
    assert_eq!(s.level(), Level::System);
}

#[test]
fn level_is_global() {
    let s = GlobalConfigSource::at("/x/config.toml".to_string());
    assert_eq!(s.level(), Level::Global);
    assert_eq!(Level::Global.as_str(), "global");
}

#[test]
fn worktree_pointer_is_followed_in_file_order() {
    let found = worktree_pointers("/tmp/wt", "gitdir: /tmp/real-gitdir\n");
    assert_eq!(found, vec!["/tmp/real-gitdir".to_string()]);
    let found = worktree_pointers("/tmp/wt", "junk\ngitdir:  ../main/.git/worktrees/wt \r\ngitdir: /abs\n");
    assert_eq!(
        found,
        vec!["/tmp/wt/../main/.git/worktrees/wt".to_string(), "/abs".to_string()]
    );
    assert!(worktree_pointers("/tmp/wt", "").is_empty());
}

#[test]
fn resolver_merges_layers_in_precedence_order() {
    let r = ConfigResolver::current_user(
        Ok(layer(Level::System, Some(false), Some(true))),
        Ok(layer(Level::Global, Some(true), None)),
        Ok(layer(Level::Local, None, Some(false))),
    )
    .unwrap();
    let eff = r.effective().unwrap();
    assert!(eff.modernize_tips());
    assert!(!eff.modernize_rewrite());
    assert_eq!(
        r.origin_of(ConfigKey::ModernizeTips).unwrap(),
        Some((Level::Global, "true".to_string()))
    );
    assert_eq!(
        r.origin_of(ConfigKey::ModernizeRewrite).unwrap(),
        Some((Level::Local, "false".to_string()))
    );
}

#[test]
fn resolver_reports_default_origin_and_missing_files() {
    let mut r = ConfigResolver::new();
    r.register(LoadedLayer {
        level: Level::Global,
        path: "/cfg/global.toml".to_string(),
        content: Ok(None),
    });
    assert_eq!(r.effective().unwrap(), Config::default());
    assert_eq!(r.origin_of(ConfigKey::ModernizeTips).unwrap(), None);
    assert_eq!(r.layer(Level::Global).unwrap(), None);
}

#[test]
fn resolver_propagates_a_malformed_layer() {
    let mut r = ConfigResolver::new();
    r.register(layer(Level::System, Some(true), None));
    r.register(LoadedLayer {
        level: Level::Global,
        path: "/cfg/global.toml".to_string(),
        content: Err("parsing /cfg/global.toml".to_string()),
    });
    assert_eq!(r.effective(), Err("parsing /cfg/global.toml".to_string()));
    assert_eq!(
        r.origin_of(ConfigKey::ModernizeTips),
        Err("parsing /cfg/global.toml".to_string())
    );
}

#[test]
fn mutate_edits_the_chosen_layer_only() {
    let r = ConfigResolver::current_user(
        Ok(layer(Level::System, Some(false), None)),
        Ok(LoadedLayer {
            level: Level::Global,
            path: "/cfg/global.toml".to_string(),
            content: Ok(None),
        }),
        Err("not inside a git repository".to_string()),
    )
    .unwrap();
    let (idx, cfg) = r
        .mutate(Level::Global, ConfigEdit::Assign(ConfigKey::ModernizeRewrite, "on".to_string()))
        .unwrap();
    assert_eq!(idx, 1);
    assert_eq!(cfg.modernize.rewrite, Some(true));
    assert_eq!(cfg.modernize.tips, None);
    let (idx, cfg) = r
        .mutate(Level::System, ConfigEdit::Clear(ConfigKey::ModernizeTips))
        .unwrap();
    assert_eq!(idx, 0);
    assert_eq!(cfg, Config::default());
    assert!(r
        .mutate(Level::Global, ConfigEdit::Assign(ConfigKey::ModernizeTips, "perhaps".to_string()))
        .unwrap_err()
        .contains("not a boolean"));
}

#[test]
fn missing_local_layer_is_explained() {
    let r = ConfigResolver::current_user(
        Err("no system layer".to_string()),
        Ok(layer(Level::Global, None, None)),
        Err("not inside a git repository".to_string()),
    )
    .unwrap();
    assert_eq!(
        r.source_for(Level::Local),
        Err("local config is only available inside a git repository. Run this command from within a repo, or use --global/--system.".to_string())
    );
    assert_eq!(
        r.source_for(Level::System),
        Err("no config source registered for level 'system'. This is a bug.".to_string())
    );
    assert_eq!(r.source_for(Level::Global), Ok(0));
}

#[test]
fn config_usage_lists_each_key_padded() {
    let text = marshal::commands::config::usage();
    assert!(text.starts_with("marshal config — manage Marshal's configuration.\n\nUsage:\n"));
    assert!(text.contains(
        "Known keys:\n  modernize.tips             Emit modernization tips on stderr.\n  modernize.rewrite          Rewrite legacy commands to their modern forms before running git.\n\nLevels"
    ));
    assert!(text.ends_with("  --local             per-repo config (<git-dir>/marshal/config.toml)\n"));
}

#[test]
fn unknown_subcommands_are_named_back() {
    assert_eq!(
        marshal::commands::config::unknown_subcommand("frob"),
        "marshal config: unknown subcommand 'frob'. Expected get, set, unset, or list."
    );
    assert_eq!(
        marshal::cli::unknown_subcommand("frob"),
        "marshal: unknown subcommand 'frob'. Run 'git marshal' for the list."
    );
    assert!(marshal::commands::ws::unknown_subcommand("frob").starts_with("ws: unknown subcommand 'frob'. Run `git ws`"));
}

#[test]
fn resolver_needs_the_global_layer_and_skips_the_others() {
    let r = ConfigResolver::current_user(
        Ok(layer(Level::System, Some(true), None)),
        Err("cannot locate the per-user config".to_string()),
        Ok(layer(Level::Local, None, None)),
    );
    assert_eq!(r.err(), Some("cannot locate the per-user config".to_string()));
    let r = ConfigResolver::current_user(
        Err("no system layer".to_string()),
        Ok(layer(Level::Global, None, None)),
        Ok(layer(Level::Local, Some(false), None)),
    )
    .unwrap();
    assert_eq!(r.source_for(Level::Global), Ok(0));
    assert_eq!(r.source_for(Level::Local), Ok(1));
    assert!(!r.effective().unwrap().modernize_tips());
}

#[test]
fn layer_of_takes_level_and_path_from_its_source() {
    let src = GlobalConfigSource::at("/home/u/.config/marshal/config.toml".to_string());
    let l = marshal::config::layer_of(&src, Ok(None));
    assert_eq!(l.level, Level::Global);
    assert_eq!(l.path, "/home/u/.config/marshal/config.toml");
    assert_eq!(l.content, Ok(None));
}
