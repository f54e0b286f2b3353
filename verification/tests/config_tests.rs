use clash_tui::config::{ClashConfig, ConfigManager, ProviderConfig};
use clash_tui::yaml::Yaml;

fn s(x: &str) -> Yaml {
    Yaml::Str(x.to_string())
}

fn list(items: Vec<Yaml>) -> Yaml {
    Yaml::List(items)
}

fn map(entries: Vec<(&str, Yaml)>) -> Yaml {
    Yaml::Mapping(entries.into_iter().map(|(k, v)| (s(k), v)).collect())
}

fn get<'a>(node: &'a Yaml, key: &str) -> Option<&'a Yaml> {
    match node {
        Yaml::Mapping(m) => m
            .iter()
            .find(|(k, _)| matches!(k, Yaml::Str(t) if t == key))
            .map(|(_, v)| v),
        _ => None,
    }
}

fn as_list(node: &Yaml) -> &Vec<Yaml> {
    match node {
        Yaml::List(l) => l,
        _ => panic!("not a list"),
    }
}

fn contains_str(items: &[Yaml], x: &str) -> bool {
    items.iter().any(|i| matches!(i, Yaml::Str(t) if t == x))
}

fn proxy_group(config: &ClashConfig) -> &Yaml {
    config
        .proxy_groups
        .as_ref()
        .unwrap()
        .iter()
        .find(|g| matches!(get(g, "name"), Some(Yaml::Str(n)) if n == "Proxy"))
        .unwrap()
}

fn provider<'a>(config: &'a ClashConfig, name: &str) -> &'a ProviderConfig {
    &config
        .proxy_providers
        .as_ref()
        .unwrap()
        .iter()
        .find(|(n, _)| n == name)
        .unwrap()
        .1
}

fn rules(config: &ClashConfig) -> &Vec<Yaml> {
    as_list(
        &config
            .extra
            .iter()
            .find(|(k, _)| k == "rules")
            .unwrap()
            .1,
    )
}

fn plain_provider(url: &str, path: Option<&str>, interval: Option<u32>) -> ProviderConfig {
    let mut p = ProviderConfig::empty();
    p.provider_type = "http".to_string();
    p.url = url.to_string();
    p.path = path.map(|x| x.to_string());
    p.interval = interval;
    p
}

fn direct_proxy_group(uses: Option<Vec<&str>>) -> Yaml {
    let mut entries = vec![
        ("name", s("Proxy")),
        ("type", s("select")),
        ("proxies", list(vec![s("DIRECT")])),
    ];
    if let Some(u) = uses {
        entries.push(("use", list(u.into_iter().map(s).collect())));
    }
    map(entries)
}

#[test]
fn test_add_provider() {
    let mut config = ClashConfig::default();
    config.mixed_port = Some(7890);

    ConfigManager::add_provider(&mut config, "test-sub", "https://example.com/sub.yaml", 3600);

    let providers = config.proxy_providers.as_ref().unwrap();
    assert_eq!(providers.len(), 1);

    let provider = provider(&config, "test-sub");
    assert_eq!(provider.provider_type, "http");
    assert_eq!(provider.url, "https://example.com/sub.yaml");
    assert_eq!(provider.interval, Some(3600));
    assert_eq!(provider.path, Some("./providers/test-sub.yaml".to_string()));
    assert!(provider.health_check.is_some());

    let hc = provider.health_check.as_ref().unwrap();
    assert!(hc.enable);
    assert_eq!(hc.interval, Some(600));
    assert_eq!(hc.url, Some("http://www.gstatic.com/generate_204".to_string()));

    let uses = as_list(get(proxy_group(&config), "use").unwrap());
    assert!(contains_str(uses, "test-sub"));
}

#[test]
fn test_add_provider_preserves_existing_fields() {
    let mut config = ClashConfig::default();
    config.mixed_port = Some(7890);
    config.external_controller = Some("127.0.0.1:9090".to_string());
    config.mode = Some("rule".to_string());
    config.proxy_groups = Some(vec![direct_proxy_group(None)]);

    ConfigManager::add_provider(&mut config, "sub1", "https://a.com", 3600);

    assert_eq!(config.mixed_port, Some(7890));
    assert_eq!(config.external_controller, Some("127.0.0.1:9090".to_string()));
    assert_eq!(config.mode, Some("rule".to_string()));
    assert!(config.proxy_groups.is_some());
    assert_eq!(config.proxy_groups.as_ref().unwrap().len(), 1);
    let group = config.proxy_groups.as_ref().unwrap().first().unwrap();
    let uses = as_list(get(group, "use").unwrap());
    assert!(contains_str(uses, "sub1"));
}

#[test]
fn test_remove_provider() {
    let mut config = ClashConfig::default();
    config.proxy_providers = Some(vec![(
        "sub1".to_string(),
        plain_provider("https://a.com", None, None),
    )]);
    config.proxy_groups = Some(vec![direct_proxy_group(Some(vec!["sub1"]))]);

    ConfigManager::remove_provider(&mut config, "sub1");

    let providers = ConfigManager::get_providers(config_copy_providers(&config));
    assert!(providers.is_empty());

    let group = config.proxy_groups.as_ref().unwrap().first().unwrap();
    let uses = as_list(get(group, "use").unwrap());
    assert!(!contains_str(uses, "sub1"));
}

fn config_copy_providers(config: &ClashConfig) -> ClashConfig {
    let mut c = ClashConfig::default();
    c.proxy_providers = config.proxy_providers.as_ref().map(|t| {
        t.iter()
            .map(|(n, p)| (n.clone(), plain_provider(&p.url, p.path.as_deref(), p.interval)))
            .collect()
    });
    c
}

#[test]
fn test_update_provider() {
    let mut config = ClashConfig::default();
    config.proxy_providers = Some(vec![(
        "sub1".to_string(),
        plain_provider("https://old.com", None, Some(3600)),
    )]);

    ConfigManager::update_provider(&mut config, "sub1", Some("https://new.com"), Some(7200));

    let provider = provider(&config, "sub1");
    assert_eq!(provider.url, "https://new.com");
    assert_eq!(provider.interval, Some(7200));
}

#[test]
fn test_get_api_url() {
    let mut config = ClashConfig::default();
    config.external_controller = Some("127.0.0.1:9090".to_string());
    assert_eq!(ConfigManager::get_api_url(Some(&config)), "http://127.0.0.1:9090");

    // Fallback when no external-controller
    let empty = ClashConfig::default();
    assert_eq!(ConfigManager::get_api_url(Some(&empty)), "http://127.0.0.1:9090");
    assert_eq!(ConfigManager::get_api_url(None), "http://127.0.0.1:9090");
}

#[test]
fn test_resolve_provider_path() {
    let config_path = std::path::PathBuf::from("/tmp/clash-tui-test-resolve/config.yaml");
    let manager = ConfigManager::new(Some(config_path.to_string_lossy().to_string()), String::new());

    // Absolute path stays absolute
    let abs = manager.resolve_provider_path("/home/user/providers/sub.yaml");
    assert_eq!(
        std::path::PathBuf::from(abs),
        std::path::PathBuf::from("/home/user/providers/sub.yaml")
    );

    // Relative path resolves against config parent
    let rel = manager.resolve_provider_path("./providers/sub.yaml");
    let expected = config_path.parent().unwrap().join("providers/sub.yaml");
    assert_eq!(std::path::PathBuf::from(rel), expected);
}

#[test]
fn test_migrate_legacy_config_when_default_path_is_empty() {
    let manager = ConfigManager {
        config_path: "/tmp/clash-tui-legacy-target".to_string(),
        explicit_config: false,
    };
    let legacy = vec!["/tmp/clash-tui-legacy-source".to_string()];
    let source = manager.migrate_legacy_config_from(false, &legacy, &vec![true]);
    assert_eq!(source, Some(0));
}

#[test]
fn test_migrate_legacy_config_skips_explicit_path() {
    let manager = ConfigManager {
        config_path: "/tmp/clash-tui-legacy-explicit-target".to_string(),
        explicit_config: true,
    };
    let legacy = vec!["/tmp/clash-tui-legacy-explicit-source".to_string()];
    let source = manager.migrate_legacy_config_from(false, &legacy, &vec![true]);
    assert_eq!(source, None);
}

#[test]
fn test_add_provider_valid_yaml() {
    let mut config = ClashConfig::default();

    ConfigManager::add_provider(&mut config, "my-sub", "https://example.com/sub", 86400);

    let sub = provider(&config, "my-sub");
    assert_eq!(sub.provider_type, "http");
    assert_eq!(sub.url, "https://example.com/sub");
    assert_eq!(sub.interval, Some(86400));
    assert_eq!(sub.path.as_deref(), Some("./providers/my-sub.yaml"));

    let uses = as_list(get(proxy_group(&config), "use").unwrap());
    assert!(contains_str(uses, "my-sub"));

    let rules = rules(&config);
    assert!(matches!(&rules[0], Yaml::Str(r) if r == "MATCH,Proxy"));
}

#[test]
fn test_add_provider_rewrites_generated_direct_fallback() {
    let mut config = ClashConfig::default();
    config.proxy_groups = Some(vec![direct_proxy_group(None)]);
    config.extra.push(("rules".to_string(), list(vec![s("MATCH,DIRECT")])));

    ConfigManager::add_provider(&mut config, "sub1", "https://a.com", 3600);

    let rules = rules(&config);
    assert!(matches!(&rules[0], Yaml::Str(r) if r == "MATCH,Proxy"));
}

#[test]
fn test_repair_for_tui_adds_existing_providers_to_proxy_group() {
    let mut config = ClashConfig::default();
    config.proxy_providers = Some(vec![
        (
            "sub1".to_string(),
            plain_provider("https://a.com", Some("./providers/sub1.yaml"), None),
        ),
        (
            "sub2".to_string(),
            plain_provider("https://b.com", Some("./providers/sub2.yaml"), None),
        ),
    ]);
    config.proxy_groups = Some(vec![direct_proxy_group(Some(vec!["sub1"]))]);
    config.extra.push(("rules".to_string(), list(vec![s("MATCH,DIRECT")])));

    assert!(ConfigManager::repair_for_tui(&mut config));

    let group = config.proxy_groups.as_ref().unwrap().first().unwrap();
    let uses = as_list(get(group, "use").unwrap());
    assert!(contains_str(uses, "sub1"));
    assert!(contains_str(uses, "sub2"));
    let rules = rules(&config);
    assert!(matches!(&rules[0], Yaml::Str(r) if r == "MATCH,Proxy"));

    // A second repair finds nothing left to do.
    assert!(!ConfigManager::repair_for_tui(&mut config));
}

#[test]
fn adding_then_removing_a_new_provider_restores_the_table() {
    let mut config = ClashConfig::default();
    config.proxy_providers = Some(vec![(
        "keep".to_string(),
        plain_provider("https://k.com", None, None),
    )]);
    ConfigManager::add_provider(&mut config, "tmp", "https://t.com", 60);
    assert_eq!(config.proxy_providers.as_ref().unwrap().len(), 2);
    ConfigManager::remove_provider(&mut config, "tmp");
    let table = config.proxy_providers.as_ref().unwrap();
    assert_eq!(table.len(), 1);
    assert_eq!(table[0].0, "keep");
    let uses = as_list(get(proxy_group(&config), "use").unwrap());
    assert!(!contains_str(uses, "tmp"));
}

#[test]
fn adding_twice_keeps_one_entry_and_one_use() {
    let mut config = ClashConfig::default();
    ConfigManager::add_provider(&mut config, "a", "https://1.com", 60);
    ConfigManager::add_provider(&mut config, "a", "https://2.com", 120);
    assert_eq!(config.proxy_providers.as_ref().unwrap().len(), 1);
    assert_eq!(provider(&config, "a").url, "https://2.com");
    let uses = as_list(get(proxy_group(&config), "use").unwrap());
    assert_eq!(uses.iter().filter(|u| matches!(u, Yaml::Str(t) if t == "a")).count(), 1);
    assert_eq!(config.proxy_groups.as_ref().unwrap().len(), 1);
}

#[test]
fn adding_the_same_subscription_twice_is_adding_it_once() {
    let mut once = ClashConfig::default();
    ConfigManager::add_provider(&mut once, "sub1", "https://a.example/sub", 3600);
    let mut twice = ClashConfig::default();
    ConfigManager::add_provider(&mut twice, "sub1", "https://a.example/sub", 3600);
    ConfigManager::add_provider(&mut twice, "sub1", "https://a.example/sub", 3600);
    assert_eq!(format!("{:?}", twice), format!("{:?}", once));
}

#[test]
fn update_of_unknown_provider_changes_nothing() {
    let mut config = ClashConfig::default();
    ConfigManager::update_provider(&mut config, "nope", Some("https://x.com"), Some(1));
    assert!(config.proxy_providers.is_none());
}

#[test]
fn find_config_path_prefers_first_existing_candidate() {
    let candidates = ConfigManager::config_candidates(Some("/cfg"));
    assert_eq!(candidates, vec!["/cfg/clash-tui/config.yaml".to_string(), "config.yaml".to_string()]);

    let mut exists = vec![false; 2];
    assert_eq!(ConfigManager::find_config_path(&candidates, &exists), "/cfg/clash-tui/config.yaml");
    exists[1] = true;
    assert_eq!(ConfigManager::find_config_path(&candidates, &exists), "config.yaml");
    exists[0] = true;
    assert_eq!(ConfigManager::find_config_path(&candidates, &exists), "/cfg/clash-tui/config.yaml");

    let without_dirs = ConfigManager::config_candidates(None);
    assert_eq!(without_dirs, vec!["config.yaml".to_string(), "config.yaml".to_string()]);
}

#[test]
fn new_manager_remembers_whether_the_path_was_given() {
    let given = ConfigManager::new(Some("/etc/x.yaml".to_string()), "ignored".to_string());
    assert!(given.is_explicit());
    assert_eq!(given.config_path(), "/etc/x.yaml");
    let found = ConfigManager::new(None, "/found.yaml".to_string());
    assert!(!found.is_explicit());
    assert_eq!(found.config_path(), "/found.yaml");
}

#[test]
fn legacy_local_migration_picks_first_existing_file() {
    let manager = ConfigManager {
        config_path: "/tmp/clash-tui-target.yaml".to_string(),
        explicit_config: false,
    };
    assert_eq!(
        manager.migrate_legacy_local_config_if_needed(false, false, true),
        Some("clash.yaml".to_string())
    );
    assert_eq!(
        manager.migrate_legacy_local_config_if_needed(false, true, true),
        Some("config.yaml".to_string())
    );
    assert_eq!(manager.migrate_legacy_local_config_if_needed(true, true, true), None);
    assert_eq!(manager.migrate_legacy_local_config_if_needed(false, false, false), None);
}

#[test]
fn repair_of_a_configuration_without_subscriptions_only_fixes_the_route() {
    let mut config = ClashConfig::default();
    assert!(ConfigManager::repair_for_tui(&mut config));
    assert!(config.proxy_groups.is_none());
    let rules = rules(&config);
    assert_eq!(rules.len(), 1);
    assert!(!ConfigManager::repair_for_tui(&mut config));
}

#[test]
fn editing_one_provider_leaves_the_others() {
    let mut config = ClashConfig::default();
    ConfigManager::add_provider(&mut config, "sub1", "https://a.com", 3600);
    ConfigManager::add_provider(&mut config, "sub2", "https://b.com", 600);
    ConfigManager::update_provider(&mut config, "sub1", None, Some(60));
    assert_eq!(provider(&config, "sub1").url, "https://a.com");
    assert_eq!(provider(&config, "sub1").interval, Some(60));
    assert_eq!(provider(&config, "sub2").url, "https://b.com");
    assert_eq!(provider(&config, "sub2").interval, Some(600));
}
