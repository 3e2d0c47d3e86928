use wordpick::config::{
    load_decision, placeholder_var, resolve_env_placeholder, AppConfig, ConfigFileAction, ConfigFileState,
    EnvSnapshot,
};

fn env(vars: &[(&str, &str)]) -> EnvSnapshot {
    EnvSnapshot { vars: vars.iter().map(|(k, v)| (k.to_string(), v.to_string())).collect() }
}

#[test]
fn builtin_default_parses() {
    let cfg = AppConfig::default();
    assert_eq!(cfg.general.trigger_mode, "auto");
    assert_eq!(cfg.general.max_selection_chars, 5000);
    assert!(cfg.providers.iter().any(|p| p.name == "deepseek"));
}

#[test]
fn env_placeholder_resolves() {
    let e = env(&[("WORDPICK_TEST_KEY", "sk-test-123")]);
    assert_eq!(resolve_env_placeholder("${WORDPICK_TEST_KEY}", &e), "sk-test-123");
    assert_eq!(resolve_env_placeholder("plain-key", &e), "plain-key");
    assert_eq!(resolve_env_placeholder("${}", &e), "${}");
}

#[test]
fn placeholder_rules() {
    assert_eq!(placeholder_var("${OPENAI_API_KEY}"), Some("OPENAI_API_KEY".to_string()));
    assert_eq!(placeholder_var("  ${A_B}  "), Some("A_B".to_string()));
    assert_eq!(placeholder_var("${lower}"), None);
    assert_eq!(placeholder_var("${A1}"), None);
    assert_eq!(placeholder_var("${}"), None);
    assert_eq!(placeholder_var("$OPENAI"), None);
    assert_eq!(placeholder_var("{A}"), None);
}

#[test]
fn unset_variable_resolves_empty() {
    let e = env(&[("OTHER", "x")]);
    assert_eq!(resolve_env_placeholder("${MISSING}", &e), "");
    assert_eq!(resolve_env_placeholder(" ${OTHER} ", &e), "x");
    // A value that is not a placeholder is kept with its spaces.
    assert_eq!(resolve_env_placeholder(" key ", &e), " key ");
}

#[test]
fn first_variable_of_a_name_wins() {
    let e = env(&[("K", "one"), ("K", "two")]);
    assert_eq!(e.get("K"), Some("one".to_string()));
    assert_eq!(e.get("J"), None);
}

#[test]
fn default_config_is_complete() {
    let cfg = AppConfig::default();
    assert_eq!(cfg.general.popup_position, "below");
    assert!(cfg.general.blacklist_apps.is_empty());
    assert_eq!(cfg.general.shortcut_toggle, "Alt+Q");
    assert_eq!(cfg.general.shortcut_settings, "Alt+Comma");
    let names: Vec<&str> = cfg.providers.iter().map(|p| p.name.as_str()).collect();
    assert_eq!(names, vec!["deepseek", "moonshot", "qwen", "openai"]);
    assert_eq!(cfg.providers[0].api_key, "${DEEPSEEK_API_KEY}");
    assert_eq!(cfg.scenario_models.translate.model, "deepseek-v4-flash");
    assert_eq!(cfg.limits.max_followup_rounds, 10);
    assert_eq!(cfg.limits.max_tokens_translate, 2048);
}

#[test]
fn load_decisions() {
    let mut user = AppConfig::default();
    user.general.max_selection_chars = 42;
    let (cfg, act) = load_decision(ConfigFileState::Parsed(user));
    assert_eq!(cfg.general.max_selection_chars, 42);
    assert_eq!(act, ConfigFileAction::Keep);

    let (cfg, act) = load_decision(ConfigFileState::Missing);
    assert_eq!(cfg.general.max_selection_chars, 5000);
    assert_eq!(act, ConfigFileAction::WriteDefault);

    let (cfg, act) = load_decision(ConfigFileState::Corrupt);
    assert_eq!(cfg.general.trigger_mode, "auto");
    assert_eq!(act, ConfigFileAction::BackupCorrupt);

    let (_, act) = load_decision(ConfigFileState::Unreadable);
    assert_eq!(act, ConfigFileAction::Keep);
    let (_, act) = load_decision(ConfigFileState::NoConfigDir);
    assert_eq!(act, ConfigFileAction::Keep);
}
