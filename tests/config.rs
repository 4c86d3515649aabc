use based_ffmpreg::config::{
    regex_macros, AdminGuild, CompiledConfig, Config, ConfigError, ConfigStore, LinkRegex,
    ReaderCache, URL_CHAR_CLASS,
};

fn rule(pattern: &str, fixup: Option<&str>) -> LinkRegex {
    LinkRegex {
        regex: pattern.to_string(),
        fixup: fixup.map(|f| f.to_string()),
        no_video: None,
    }
}

fn sample_config() -> Config {
    Config {
        link_regexes: vec![
            rule(r"https://x\.com/$URLCHAR+", Some("https://fixupx.com/$0")),
            rule(r"https://www\.youtube\.com/shorts/\w+", None),
        ],
        admin_guild: Some(AdminGuild { guild_id: 1, log_channel_id: 2, config_channel_id: 3 }),
    }
}

#[test]
fn default_config_compiles() {
    let _ = CompiledConfig::default();
}

#[test]
fn empty_config_compiles_to_nothing() {
    let compiled = CompiledConfig::try_from(&Config::default()).unwrap();
    assert!(compiled.link_regexes.is_empty());
    assert!(compiled.admin_guild.is_none());
}

#[test]
fn macro_expands_everywhere() {
    let out = regex_macros("a$URLCHAR+b$URLCHAR");
    assert_eq!(out, format!("a{}+b{}", URL_CHAR_CLASS, URL_CHAR_CLASS));
    assert_eq!(regex_macros("plain"), "plain");
}

#[test]
fn compiled_rules_match_case_insensitively() {
    let compiled = CompiledConfig::try_from(&sample_config()).unwrap();
    assert_eq!(compiled.link_regexes.len(), 2);
    assert_eq!(compiled.link_regexes[0].pattern, r"https://x\.com/$URLCHAR+");
    assert_eq!(compiled.link_regexes[0].fixup.as_deref(), Some("https://fixupx.com/$0"));
    let m = compiled.link_regexes[0].regex.find("see HTTPS://X.COM/user/status/1 now").unwrap();
    assert_eq!(m.as_str(), "HTTPS://X.COM/user/status/1");
}

#[test]
fn invalid_pattern_reports_its_index() {
    let mut c = sample_config();
    c.link_regexes.push(rule("(unclosed", None));
    c.link_regexes.push(rule("[also bad", None));
    match CompiledConfig::try_from(&c) {
        Err(e) => assert_eq!(e, ConfigError::InvalidPattern { index: 2 }),
        Ok(_) => panic!("an invalid pattern compiled"),
    }
}

#[test]
fn edit_then_read_returns_the_config() {
    let mut store = ConfigStore::new(CompiledConfig::default());
    assert_eq!(store.read().0, 0);
    store.edit(&sample_config()).unwrap();
    let (generation, config) = store.read();
    assert_eq!(generation, 1);
    assert_eq!(config.link_regexes.len(), 2);
    assert_eq!(config.link_regexes[1].pattern, r"https://www\.youtube\.com/shorts/\w+");
    assert_eq!(config.admin_guild, Some(AdminGuild { guild_id: 1, log_channel_id: 2, config_channel_id: 3 }));
}

#[test]
fn rejected_edit_leaves_store_unchanged() {
    let mut store = ConfigStore::new(CompiledConfig::default());
    store.edit(&sample_config()).unwrap();
    let mut bad = sample_config();
    bad.link_regexes[0] = rule("(", None);
    assert_eq!(store.edit(&bad), Err(ConfigError::InvalidPattern { index: 0 }));
    let (generation, config) = store.read();
    assert_eq!(generation, 1);
    assert_eq!(config.link_regexes[0].pattern, r"https://x\.com/$URLCHAR+");
}

#[test]
fn exhausted_generation_refuses_commit() {
    let mut store = ConfigStore::new(CompiledConfig::default());
    store.generation = u64::MAX;
    assert_eq!(store.commit(CompiledConfig::default()), Err(ConfigError::GenerationExhausted));
    assert_eq!(store.generation, u64::MAX);
}

#[test]
fn reader_never_goes_back() {
    let mut store = ConfigStore::new(CompiledConfig::default());
    let mut cache = ReaderCache::new();
    let (g0, c0) = store.read();
    assert!(cache.lookup(g0).is_none());
    let seen = cache.observe(g0, c0);
    assert_eq!(seen.0, 0);
    assert!(cache.lookup(0).is_some());
    store.edit(&sample_config()).unwrap();
    let stale = store.read();
    store.edit(&sample_config()).unwrap();
    let (g2, c2) = store.read();
    assert_eq!(cache.observe(g2, c2).0, 2);
    assert!(cache.lookup(1).is_none());
    assert_eq!(cache.observe(stale.0, stale.1).0, 2);
    assert!(cache.lookup(2).is_some());
}

#[test]
fn admin_channel_is_recognised() {
    let compiled = CompiledConfig::try_from(&sample_config()).unwrap();
    assert!(compiled.is_admin_config_channel(Some(1), 3));
    assert!(!compiled.is_admin_config_channel(Some(1), 2));
    assert!(!compiled.is_admin_config_channel(None, 3));
    assert!(!CompiledConfig::default().is_admin_config_channel(Some(1), 3));
}
