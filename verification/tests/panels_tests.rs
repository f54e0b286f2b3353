use clash_tui::context::UiState;
use clash_tui::dashboard::{follow_up, FollowUp};
use clash_tui::commands::Command;
use clash_tui::panels::{
    clamp_selected, connection_row, field_text, info_panel_lines, level_badge, listed_providers,
    log_level, log_rest, matches_query, matching_connections, matching_proxies, matching_rules,
    memory_badge, mode_badge, node_rows, nodes_popup_area, provider_row, proxy_row, rule_row,
    search_line, shortcuts, toast_message, traffic_peak, InfoLine, LogLevel,
};
use clash_tui::state::{
    AppState, Config, Connection, ConnectionMetadata, Memory, Provider, Proxy, ProxyHistory, Rule,
    SubscriptionInfo, Version,
};
use clash_tui::ui::{Color, Popup, Tab};

fn proxy(name: &str, now: Option<&str>, all: Option<&[&str]>, delay: Option<u32>) -> Proxy {
    let mut p = Proxy::placeholder();
    p.name = name.to_string();
    p.proxy_type = "Selector".to_string();
    p.now = now.map(|s| s.to_string());
    p.all = all.map(|a| a.iter().map(|s| s.to_string()).collect());
    if let Some(d) = delay {
        p.history = vec![ProxyHistory { time: "t".to_string(), delay: d, mean_delay: None }];
    }
    p
}

fn connection(host: Option<&str>, dest: Option<&str>, chains: &[&str], process: Option<&str>) -> Connection {
    Connection {
        id: "1".to_string(),
        metadata: ConnectionMetadata {
            network: "tcp".to_string(),
            conn_type: "HTTP".to_string(),
            source_ip: "127.0.0.1".to_string(),
            destination_ip: dest.map(|s| s.to_string()),
            source_port: "1".to_string(),
            destination_port: "443".to_string(),
            host: host.map(|s| s.to_string()),
            dns_mode: None,
            process: process.map(|s| s.to_string()),
            process_path: None,
            inbound_ip: None,
            inbound_port: None,
            inbound_name: None,
        },
        upload: 0,
        download: 0,
        start: String::new(),
        chains: chains.iter().map(|s| s.to_string()).collect(),
        rule: String::new(),
        rule_payload: String::new(),
        process_path: None,
        process: None,
        source_port: None,
    }
}

fn rule(kind: &str, payload: &str, target: &str) -> Rule {
    Rule { rule_type: kind.to_string(), payload: payload.to_string(), proxy: target.to_string(), size: None }
}

fn provider(name: &str, vehicle: &str) -> Provider {
    Provider {
        name: name.to_string(),
        provider_type: "Proxy".to_string(),
        vehicle_type: vehicle.to_string(),
        proxies: vec![],
        updated_at: None,
        subscription_info: None,
        path: None,
        health_check: None,
    }
}

fn config(mixed: Option<u16>, port: Option<u16>, allow_lan: bool, bind: &str) -> Config {
    Config {
        port,
        socks_port: None,
        redir_port: None,
        tproxy_port: None,
        mixed_port: mixed,
        tun: None,
        mode: "rule".to_string(),
        log_level: "info".to_string(),
        allow_lan,
        bind_address: bind.to_string(),
    }
}

#[test]
fn search_ignores_case_and_matches_everything_when_empty() {
    assert!(matches_query("HongKong-01", ""));
    assert!(matches_query("HongKong-01", "kong"));
    assert!(!matches_query("HongKong-01", "tokyo"));
}

#[test]
fn proxies_are_filtered_by_name() {
    let ps = vec![proxy("Proxy", None, None, None), proxy("Auto", None, None, None), proxy("proxy-2", None, None, None)];
    assert_eq!(matching_proxies(&ps, "PROXY"), vec![0, 2]);
    assert_eq!(matching_proxies(&ps, ""), vec![0, 1, 2]);
    assert!(matching_proxies(&ps, "zzz").is_empty());
}

#[test]
fn selection_is_kept_inside_the_list() {
    assert_eq!(clamp_selected(7, 3), 2);
    assert_eq!(clamp_selected(1, 3), 1);
    assert_eq!(clamp_selected(5, 0), 0);
}

#[test]
fn proxy_row_shows_delay_and_member_count() {
    let p = proxy("Proxy", Some("HK"), Some(&["HK", "JP"]), Some(120));
    let all = vec![("Proxy".to_string(), p.clone_for_test())];
    let row = proxy_row(&p, &all);
    assert_eq!(row.name, "Proxy");
    assert_eq!(row.current, "HK");
    assert_eq!(row.delay, "120ms");
    assert_eq!(row.delay_color, Color::Green);
    assert_eq!(row.members, "2");

    let q = proxy("Other", None, None, None);
    let row = proxy_row(&q, &all);
    assert_eq!(row.current, "-");
    assert_eq!(row.delay, "-");
    assert_eq!(row.delay_color, Color::Gray);
    assert_eq!(row.members, "-");
}

trait CloneForTest {
    fn clone_for_test(&self) -> Self;
}

impl CloneForTest for Proxy {
    fn clone_for_test(&self) -> Self {
        let mut p = Proxy::placeholder();
        p.name = self.name.clone();
        p.proxy_type = self.proxy_type.clone();
        p.now = self.now.clone();
        p.all = self.all.clone();
        p.history = self
            .history
            .iter()
            .map(|h| ProxyHistory { time: h.time.clone(), delay: h.delay, mean_delay: h.mean_delay })
            .collect();
        p
    }
}

#[test]
fn node_rows_mark_the_current_node() {
    let group = proxy("Proxy", Some("JP"), Some(&["HK", "JP"]), None);
    let all = vec![
        ("Proxy".to_string(), group.clone_for_test()),
        ("HK".to_string(), proxy("HK", None, None, Some(80))),
        ("JP".to_string(), proxy("JP", None, None, None)),
    ];
    let rows = node_rows(&group, &all);
    assert_eq!(rows.len(), 2);
    assert_eq!(rows[0].text, "  HK");
    assert_eq!(rows[0].delay, "80ms");
    assert!(!rows[0].current);
    assert_eq!(rows[1].text, "● JP");
    assert_eq!(rows[1].delay, "-");
    assert!(rows[1].current);
}

#[test]
fn connections_fall_back_to_destination_and_dashes() {
    let c = connection(None, Some("1.2.3.4"), &["Proxy", "HK"], None);
    let row = connection_row(&c);
    assert_eq!(row.host, "1.2.3.4");
    assert_eq!(row.target, "HK");
    assert_eq!(row.network, "tcp");
    assert_eq!(row.process, "-");

    let c = connection(None, None, &[], Some("curl"));
    let row = connection_row(&c);
    assert_eq!(row.host, "-");
    assert_eq!(row.target, "-");
    assert_eq!(row.process, "curl");
}

#[test]
fn connections_are_filtered_by_host() {
    let cs = vec![
        connection(Some("www.Example.com"), None, &[], None),
        connection(None, Some("10.0.0.1"), &[], None),
        connection(None, None, &[], None),
    ];
    assert_eq!(matching_connections(&cs, "example"), vec![0]);
    assert_eq!(matching_connections(&cs, "10.0"), vec![1]);
    assert_eq!(matching_connections(&cs, ""), vec![0, 1, 2]);
}

#[test]
fn rules_match_on_payload_kind_or_target() {
    let rs = vec![rule("DOMAIN-SUFFIX", "google.com", "Proxy"), rule("MATCH", "", "DIRECT")];
    assert_eq!(matching_rules(&rs, "google"), vec![0]);
    assert_eq!(matching_rules(&rs, "match"), vec![1]);
    assert_eq!(matching_rules(&rs, "direct"), vec![1]);
}

#[test]
fn rule_rows_count_from_one_and_upper_case_the_kind() {
    let row = rule_row(&rule("domain-suffix", "google.com", "Proxy"), 4);
    assert_eq!(row.number, "5");
    assert_eq!(row.badge, " DOMAIN-SUFFIX ");
    assert_eq!(row.badge_color, clash_tui::ui::rule_type_color("domain-suffix"));
    assert_eq!(row.payload, "google.com");
    assert_eq!(row.proxy, "Proxy");
}

#[test]
fn log_lines_get_their_level_and_rest() {
    assert_eq!(log_level("[12:00:00] [ERROR] boom"), LogLevel::Error);
    assert_eq!(log_level("time warn something"), LogLevel::Warn);
    assert_eq!(log_level("[INFO] ok"), LogLevel::Info);
    assert_eq!(log_level("x debug y"), LogLevel::Debug);
    assert_eq!(log_level("plain"), LogLevel::Plain);
    assert_eq!(level_badge(LogLevel::Error), ("ERR".to_string(), Color::Red));
    assert_eq!(level_badge(LogLevel::Plain), (String::new(), Color::Gray));
    assert_eq!(log_rest("[12:00:00] hello world"), "hello world");
    assert_eq!(log_rest("nospace"), "");
}

#[test]
fn providers_listed_and_their_state() {
    let mut a = provider("a", "HTTP");
    let b = provider("b", "");
    let mut c = provider("c", "");
    c.subscription_info = Some(SubscriptionInfo { upload: 1, download: 2, total: 10, expire: 0 });
    assert_eq!(listed_providers(&vec![provider("a", "HTTP"), b, c]), vec![0, 2]);

    let row = provider_row(&a, &vec!["a".to_string()]);
    assert_eq!(row.status, "更新中");
    assert_eq!(row.status_color, Color::Cyan);
    let row = provider_row(&a, &vec![]);
    assert_eq!(row.status, "待更新");
    assert_eq!(row.count, "0");
    assert_eq!(row.traffic, None);
    a.updated_at = Some("2024".to_string());
    let row = provider_row(&a, &vec![]);
    assert_eq!(row.status, "无节点");
    assert_eq!(row.status_color, Color::Red);
    a.proxies.push(proxy("n", None, None, None));
    a.subscription_info = Some(SubscriptionInfo { upload: 1, download: 2, total: 10, expire: 0 });
    let row = provider_row(&a, &vec![]);
    assert_eq!(row.status, "正常");
    assert_eq!(row.count, "1");
    assert_eq!(row.traffic, Some((3, 10)));
}

fn entry(label: &str, value: &str, color: Color) -> (String, String, Color) {
    (label.to_string(), value.to_string(), color)
}

fn entries(lines: &[InfoLine]) -> Vec<(String, String, Color)> {
    lines
        .iter()
        .filter_map(|l| match l {
            InfoLine::Entry { label, value, color } => Some((label.clone(), value.clone(), *color)),
            _ => None,
        })
        .collect()
}

#[test]
fn info_panel_without_core() {
    let state = AppState::new();
    let lines = info_panel_lines(&state, 40);
    assert_eq!(
        entries(&lines),
        vec![
            entry("状态: ", "未连接", Color::Red),
            entry("Mixed: ", "等待配置加载", Color::Yellow),
            entry("活跃连接: ", "0", Color::White),
            entry("代理节点: ", "0", Color::White),
            entry("规则数量: ", "0", Color::White),
        ]
    );
    assert_eq!(lines.len(), 8);
    assert!(matches!(lines[1], InfoLine::Blank));
    assert!(matches!(&lines[2], InfoLine::Heading(h) if h == "代理入口"));
}

#[test]
fn info_panel_with_core_and_entry_points() {
    let mut state = AppState::new();
    state.version = Some(Version { version: "v1.18".to_string(), premium: false, meta: Some(true) });
    state.memory = Some(Memory { inuse: 1024, os_limit: 0 });
    state.config = Some(config(Some(7890), Some(7891), true, "192.168.1.2"));
    state.api_url = "http://127.0.0.1:9090".to_string();
    state.config_path = "/home/user/.config/clash-tui/config.yaml".to_string();
    let lines = info_panel_lines(&state, 22);
    assert!(matches!(lines[2], InfoLine::Memory(1024)));
    assert_eq!(
        entries(&lines),
        vec![
            entry("内核: ", "Meta", Color::White),
            entry("版本: ", "v1.18", Color::White),
            entry("Mixed: ", "192.168.1.2:7890", Color::Green),
            entry("用途: ", "系统/浏览器代理", Color::Gray),
            entry("HTTP: ", "192.168.1.2:7891", Color::White),
            entry("局域网: ", "允许 bind=192.168.1.2", Color::Green),
            entry("控制 API: ", "127.0.0.1:9090", Color::Gray),
            entry("配置文件: ", "...ig.yaml", Color::DarkGray),
            entry("活跃连接: ", "0", Color::White),
            entry("代理节点: ", "0", Color::White),
            entry("规则数量: ", "0", Color::White),
        ]
    );
}

#[test]
fn info_panel_prefers_the_started_configuration() {
    let mut state = AppState::new();
    state.config = Some(config(Some(1), None, false, ""));
    state.proxy_config = Some(config(None, None, false, ""));
    let got = entries(&info_panel_lines(&state, 0));
    assert_eq!(got[1], entry("Mixed: ", "未启用", Color::Yellow));
    assert_eq!(got[2], entry("局域网: ", "关闭 ", Color::Gray));
}

#[test]
fn traffic_peak_is_at_least_one() {
    assert_eq!(traffic_peak(&vec![], true), 1);
    assert_eq!(traffic_peak(&vec![(0, 0)], false), 1);
    assert_eq!(traffic_peak(&vec![(5, 9), (7, 2)], true), 7);
    assert_eq!(traffic_peak(&vec![(5, 9), (7, 2)], false), 9);
}

#[test]
fn header_badges_and_footer() {
    let modes = vec!["Global".to_string(), "Rule".to_string(), "Other".to_string()];
    assert_eq!(mode_badge(&modes, 0), (" Global ".to_string(), Color::Magenta));
    assert_eq!(mode_badge(&modes, 2), (" Other ".to_string(), Color::Gray));
    assert_eq!(mode_badge(&modes, 9), (" Rule ".to_string(), Color::Green));
    assert_eq!(memory_badge(5 * 1024 * 1024 + 10), " 5MB ");
    assert_eq!(search_line("ab"), "/ab█");
    assert_eq!(shortcuts(Tab::Overview), "q退出 r刷新 m模式 F1帮助");
    assert_eq!(shortcuts(Tab::Rules), "↑↓选择 F4排序 /搜索 F1帮助");
}

#[test]
fn toast_prefers_success() {
    let ok = Some("done".to_string());
    let err = Some("bad".to_string());
    assert_eq!(toast_message(&ok, &err), Some(("done".to_string(), true)));
    assert_eq!(toast_message(&None, &err), Some(("bad".to_string(), false)));
    assert_eq!(toast_message(&None, &None), None);
}

#[test]
fn form_field_shows_cursor_only_when_active() {
    assert_eq!(field_text("abc", true, 1), "a|bc");
    assert_eq!(field_text("abc", true, 9), "abc|");
    assert_eq!(field_text("订阅", true, 1), "订|阅");
    assert_eq!(field_text("abc", false, 1), "abc");
}

#[test]
fn node_popup_is_centred_and_bounded() {
    assert_eq!(nodes_popup_area(100, 40, 3), (20, 16, 60, 7));
    assert_eq!(nodes_popup_area(40, 10, 20), (5, 2, 30, 6));
}

#[test]
fn follow_up_closes_search_on_cancel() {
    let state = AppState::new();
    let mut ui = UiState::default();
    ui.search_active = true;
    ui.search_query = "abc".to_string();
    ui.popup = Popup::DeleteConfirm;
    assert!(matches!(follow_up(&state, &mut ui, Command::Cancel), FollowUp::Nothing));
    assert!(!ui.search_active);
    assert!(ui.search_query.is_empty());
    assert!(matches!(ui.popup, Popup::Hidden));
}

#[test]
fn follow_up_switches_to_the_picked_node() {
    let mut state = AppState::new();
    state.proxies = vec![proxy("Proxy", Some("HK"), Some(&["HK", "JP"]), None)];
    let mut ui = UiState::default();
    ui.popup = Popup::ProxyNodes { proxy_name: "Proxy".to_string(), selected: 1 };
    match follow_up(&state, &mut ui, Command::Confirm) {
        FollowUp::SwitchNode(g, n) => {
            assert_eq!(g, "Proxy");
            assert_eq!(n, "JP");
        }
        _ => panic!("expected a switch"),
    }
    assert!(matches!(ui.popup, Popup::Hidden));
}

#[test]
fn follow_up_announces_refresh() {
    let state = AppState::new();
    let mut ui = UiState::default();
    assert!(matches!(follow_up(&state, &mut ui, Command::Refresh), FollowUp::StartRefresh));
    assert_eq!(ui.success_message.as_deref(), Some("正在刷新"));
    assert!(matches!(follow_up(&state, &mut ui, Command::ProxyPrev), FollowUp::StepProxy(-1)));
    assert!(matches!(follow_up(&state, &mut ui, Command::MoveUp), FollowUp::Nothing));
}
