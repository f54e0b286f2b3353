use clash_tui::subscription::{
    cache_needs_rewrite, count_usable_proxies, join_with_commas, normalize_provider_cache,
    normalize_provider_cache_doc, normalize_subscription, normalize_subscription_doc, CacheError,
    SubscriptionError,
};
use clash_tui::yaml::{writable, Yaml};

fn s(x: &str) -> Yaml {
    Yaml::Str(x.to_string())
}

fn list(items: Vec<Yaml>) -> Yaml {
    Yaml::List(items)
}

fn map(entries: Vec<(&str, Yaml)>) -> Yaml {
    Yaml::Mapping(entries.into_iter().map(|(k, v)| (s(k), v)).collect())
}

fn get<'a>(node: &'a Yaml, key: &str) -> Option<&'a Yaml> {
    match node {
        Yaml::Mapping(m) => m
            .iter()
            .find(|(k, _)| matches!(k, Yaml::Str(t) if t == key))
            .map(|(_, v)| v),
        _ => None,
    }
}

fn node(name: &str, kind: &str) -> Yaml {
    map(vec![("name", s(name)), ("type", s(kind))])
}

#[test]
fn normalize_subscription_extracts_proxies_from_full_config() {
    let input = r#"
mixed-port: 7890
proxy-groups:
  - name: Proxy
    type: select
    proxies:
      - DIRECT
proxies:
  - name: node-a
    type: ss
    server: example.com
    port: 443
    cipher: aes-128-gcm
    password: pass
rules:
  - MATCH,Proxy
"#;

    let normalized = normalize_subscription(input).unwrap();

    assert_eq!(normalized.proxy_count, 1);
    let yaml: serde_yaml::Value = serde_yaml::from_str(&normalized.body).unwrap();
    assert!(yaml.get("proxies").is_some());
    assert!(yaml.get("proxy-groups").is_none());
    assert!(yaml.get("rules").is_none());
}

#[test]
fn normalize_subscription_wraps_proxy_sequence() {
    let input = r#"
- name: node-a
  type: direct
- name: node-b
  type: reject
"#;

    let normalized = normalize_subscription(input).unwrap();

    assert_eq!(normalized.proxy_count, 2);
    let yaml: serde_yaml::Value = serde_yaml::from_str(&normalized.body).unwrap();
    assert_eq!(yaml.get("proxies").unwrap().as_sequence().unwrap().len(), 2);
}

#[test]
fn normalize_subscription_rejects_yaml_without_proxies() {
    let input = r#"
proxy-groups:
  - name: Proxy
    type: select
"#;

    let error = normalize_subscription(input).unwrap_err().message();

    assert!(error.contains("缺少顶层 proxies"));
}

#[test]
fn subscription_that_is_not_yaml_is_refused() {
    let error = normalize_subscription("a: [unclosed").unwrap_err();
    assert!(matches!(error, SubscriptionError::NotYaml(_)));
    assert_eq!(
        error.message(),
        "订阅内容不是 Clash YAML；请使用 Clash/Mihomo YAML 订阅或带 target=clash 的转换链接"
    );
}

#[test]
fn document_without_proxies_names_its_keys() {
    let input = map(vec![(
        "proxy-groups",
        list(vec![map(vec![("name", s("Proxy")), ("type", s("select"))])]),
    )]);
    let error = normalize_subscription_doc(&input).unwrap_err().message();
    assert_eq!(error, "订阅 YAML 缺少顶层 proxies 列表，现有字段：proxy-groups");
}

#[test]
fn missing_proxies_without_string_keys_says_none() {
    let input = Yaml::Mapping(vec![(Yaml::Number("1".to_string()), s("x"))]);
    let error = normalize_subscription_doc(&input).unwrap_err();
    assert!(matches!(error, SubscriptionError::MissingProxies(ref k) if k.is_empty()));
    assert_eq!(error.message(), "订阅 YAML 缺少顶层 proxies 列表，现有字段：<none>");
}

#[test]
fn subscription_of_another_shape_is_refused() {
    let error = normalize_subscription_doc(&s("just text")).unwrap_err();
    assert!(matches!(error, SubscriptionError::UnsupportedShape));
    assert_eq!(error.message(), "订阅 YAML 格式不支持，必须是包含 proxies 的映射或节点列表");
}

#[test]
fn subscription_without_named_typed_nodes_is_refused() {
    let input = list(vec![map(vec![("name", s("only-name"))]), s("text")]);
    let error = normalize_subscription_doc(&input).unwrap_err();
    assert!(matches!(error, SubscriptionError::NoUsableProxies));
    assert_eq!(error.message(), "订阅里没有可识别节点：每个节点至少需要 name 和 type");
}

#[test]
fn usable_proxies_need_string_name_and_type() {
    let items = vec![
        node("a", "ss"),
        map(vec![("name", s("b"))]),
        map(vec![("name", Yaml::Number("3".to_string())), ("type", s("ss"))]),
        Yaml::Tagged("!n".to_string(), Box::new(node("c", "vmess"))),
    ];
    assert_eq!(count_usable_proxies(&items), 2);
}

#[test]
fn test_repair_provider_caches_extracts_proxies_from_full_config() {
    let cache = "mixed-port: 7890\ndns:\n  enable: true\nproxies:\n  - name: node-a\n    type: direct\n";
    let repaired = normalize_provider_cache(cache).unwrap().unwrap();
    let yaml: serde_yaml::Value = serde_yaml::from_str(&repaired).unwrap();
    assert!(yaml.get("proxies").is_some());
    assert!(yaml.get("mixed-port").is_none());
    assert!(yaml.get("dns").is_none());
}

#[test]
fn a_reduced_cache_is_left_as_it_is() {
    let cache = "mixed-port: 7890\nproxies:\n  - name: node-a\n    type: direct\n";
    let repaired = normalize_provider_cache(cache).unwrap().unwrap();
    assert_eq!(normalize_provider_cache(&repaired).unwrap(), None);
    let padded = format!("\n\n{}  \n", repaired);
    assert_eq!(normalize_provider_cache(&padded).unwrap(), None);
}

#[test]
fn cache_text_errors() {
    assert_eq!(normalize_provider_cache("a: [unclosed").unwrap_err(), CacheError::Unreadable);
    assert_eq!(normalize_provider_cache("a: b\n").unwrap_err(), CacheError::MissingProxies);
    assert_eq!(normalize_provider_cache("just text").unwrap_err(), CacheError::UnsupportedShape);
    assert_eq!(normalize_provider_cache("[]").unwrap_err(), CacheError::NoUsableProxies);
    assert_eq!(CacheError::Unreadable.message(), "parse provider cache yaml");
    assert_eq!(CacheError::Unwritable.message(), "serialize provider cache");
}

#[test]
fn reduced_cache_document_has_only_proxies() {
    let cache = map(vec![
        ("mixed-port", Yaml::Number("7890".to_string())),
        ("dns", map(vec![("enable", Yaml::Bool(true))])),
        ("proxies", list(vec![node("node-a", "direct")])),
    ]);
    let repaired = normalize_provider_cache_doc(&cache).unwrap();
    assert!(get(&repaired, "proxies").is_some());
    assert!(get(&repaired, "mixed-port").is_none());
    assert!(get(&repaired, "dns").is_none());
}

#[test]
fn cache_errors_have_messages() {
    assert_eq!(
        normalize_provider_cache_doc(&map(vec![("a", s("b"))])).unwrap_err(),
        CacheError::MissingProxies
    );
    assert_eq!(normalize_provider_cache_doc(&Yaml::Null).unwrap_err(), CacheError::UnsupportedShape);
    assert_eq!(
        normalize_provider_cache_doc(&list(vec![])).unwrap_err(),
        CacheError::NoUsableProxies
    );
    assert_eq!(CacheError::MissingProxies.message(), "missing top-level proxies list");
    assert_eq!(CacheError::UnsupportedShape.message(), "unsupported provider cache yaml shape");
    assert_eq!(CacheError::NoUsableProxies.message(), "provider cache has no usable proxies");
}

#[test]
fn cache_rewrite_ignores_surrounding_white_space() {
    assert!(!cache_needs_rewrite("\n proxies: []\n", "proxies: []\n"));
    assert!(cache_needs_rewrite("proxies: [a]", "proxies: []"));
}

#[test]
fn names_are_joined_with_commas() {
    let names = vec!["a".to_string(), "b".to_string(), "c".to_string()];
    assert_eq!(join_with_commas(&names), "a, b, c");
    assert_eq!(join_with_commas(&vec![]), "");
    assert_eq!(join_with_commas(&vec!["solo".to_string()]), "solo");
}

#[test]
fn normalizing_a_normalized_subscription_changes_nothing() {
    let input = list(vec![node("node-a", "direct"), node("node-b", "reject")]);
    let first = normalize_subscription_doc(&input).unwrap();
    let second = normalize_subscription_doc(&first.document).unwrap();
    assert_eq!(second.proxy_count, first.proxy_count);
    assert_eq!(format!("{:?}", second.document), format!("{:?}", first.document));
}

#[test]
fn normalizing_subscription_text_twice_changes_nothing() {
    let input = "- name: node-a\n  type: direct\n- name: node-b\n  type: reject\n";
    let first = normalize_subscription(input).unwrap();
    let second = normalize_subscription(&first.body).unwrap();
    assert_eq!(second.proxy_count, 2);
    assert_eq!(second.body, first.body);
}

#[test]
fn tags_and_numbers_survive_normalizing() {
    let input = "- !custom\n  name: a\n  type: ss\n  port: 443\n  weight: 1.5\n";
    let first = normalize_subscription(input).unwrap();
    assert_eq!(first.proxy_count, 1);
    assert!(first.body.contains("!custom"));
    let yaml: serde_yaml::Value = serde_yaml::from_str(&first.body).unwrap();
    let node = &yaml.get("proxies").unwrap().as_sequence().unwrap()[0];
    match node {
        serde_yaml::Value::Tagged(t) => {
            assert_eq!(t.tag.to_string(), "!custom");
            assert_eq!(t.value.get("port").unwrap().as_u64(), Some(443));
        }
        _ => panic!("tag lost"),
    }
    assert_eq!(normalize_subscription(&first.body).unwrap().body, first.body);
}

#[test]
fn writable_form_turns_odd_numbers_into_strings_and_drops_empty_tags() {
    let doc = Yaml::List(vec![
        Yaml::Number("12".to_string()),
        Yaml::Number("twelve".to_string()),
        Yaml::Tagged(String::new(), Box::new(s("x"))),
        Yaml::Tagged("!t".to_string(), Box::new(s("y"))),
    ]);
    let w = writable(&doc);
    assert_eq!(
        format!("{:?}", w),
        format!(
            "{:?}",
            Yaml::List(vec![
                Yaml::Number("12".to_string()),
                s("twelve"),
                s("x"),
                Yaml::Tagged("!t".to_string(), Box::new(s("y"))),
            ])
        )
    );
}
