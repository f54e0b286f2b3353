use clash_tui::config::ConfigManager;
use clash_tui::dashboard::begin_speed_tests;
use clash_tui::dashboard::cache_file_to_remove;
use clash_tui::dashboard::finish_refresh;
use clash_tui::dashboard::note_caches_repaired_at;
use clash_tui::dashboard::{report, Outcome};
use clash_tui::updater::{progress_message, Progress};
use clash_tui::commands::registry::AppModeKind;
use clash_tui::config::ProviderConfig;
use clash_tui::context::UiState;
use clash_tui::dashboard::{
    add_log, after_provider_deleted, apply_refresh_result, chosen_node, current_mode, cycle_mode,
    expire_toast, handle_speed_test_result_at, handle_update_event_at, insert_name,
    local_config_to_runtime_config, merge_config_providers_into_state, remove_name,
    submit_form, switch_selected_proxy_by, FormRequest, RefreshData, RefreshResult,
};
use clash_tui::state::{AppState, Config, ConnectionsResponse, Memory, Provider, Proxy, Version};
use clash_tui::ui::Popup;
use clash_tui::updater::UpdateEvent;

fn group(name: &str, now: Option<&str>, all: &[&str]) -> Proxy {
    let mut p = Proxy::placeholder();
    p.name = name.to_string();
    p.now = now.map(|s| s.to_string());
    p.all = Some(all.iter().map(|s| s.to_string()).collect());
    p
}

fn provider(name: &str) -> Provider {
    Provider {
        name: name.to_string(),
        provider_type: "Proxy".to_string(),
        vehicle_type: "HTTP".to_string(),
        proxies: vec![],
        updated_at: None,
        subscription_info: None,
        path: None,
        health_check: None,
    }
}

#[test]
fn mode_follows_search_and_popup() {
    let mut ui = UiState::default();
    assert_eq!(current_mode(&ui), AppModeKind::Normal);
    ui.popup = Popup::EditProvider;
    assert_eq!(current_mode(&ui), AppModeKind::Form);
    ui.popup = Popup::DeleteConfirm;
    assert_eq!(current_mode(&ui), AppModeKind::Popup);
    ui.search_active = true;
    assert_eq!(current_mode(&ui), AppModeKind::Search);
}

#[test]
fn name_sets_keep_one_copy() {
    let mut v: Vec<String> = vec![];
    insert_name(&mut v, "a");
    insert_name(&mut v, "b");
    insert_name(&mut v, "a");
    assert_eq!(v, vec!["a".to_string(), "b".to_string()]);
    remove_name(&mut v, "a");
    assert_eq!(v, vec!["b".to_string()]);
    remove_name(&mut v, "zzz");
    assert_eq!(v, vec!["b".to_string()]);
}

#[test]
fn log_keeps_the_last_lines_shortened() {
    let mut st = AppState::new();
    let long: String = std::iter::repeat('x').take(450).collect();
    add_log(&mut st, &long);
    assert_eq!(st.logs[0].chars().count(), 403);
    assert!(st.logs[0].ends_with("..."));
    for i in 0..505 {
        add_log(&mut st, &format!("line {}", i));
    }
    assert_eq!(st.logs.len(), 500);
    assert_eq!(st.logs[499], "line 504");
    assert_eq!(st.logs[0], "line 5");
}

#[test]
fn toast_expires_after_five_seconds() {
    let mut ui = UiState::default();
    ui.success_message = Some("ok".to_string());
    expire_toast(&mut ui, 1_000);
    assert_eq!(ui.toast_text, Some("ok".to_string()));
    assert_eq!(ui.toast_set_at, Some(1_000));
    expire_toast(&mut ui, 6_000);
    assert_eq!(ui.success_message, Some("ok".to_string()));
    expire_toast(&mut ui, 6_001);
    assert_eq!(ui.success_message, None);
    assert_eq!(ui.toast_text, None);
    // An error takes precedence and restarts the timer.
    ui.success_message = Some("fine".to_string());
    ui.error_message = Some("bad".to_string());
    expire_toast(&mut ui, 7_000);
    assert_eq!(ui.toast_text, Some("bad".to_string()));
}

#[test]
fn speed_test_result_records_delay() {
    let mut st = AppState::new();
    st.proxies.push(group("G", None, &["a"]));
    st.all_proxies.push(("G".to_string(), group("G", None, &["a"])));
    let mut ui = UiState::default();
    ui.testing_proxies.push("G".to_string());
    handle_speed_test_result_at(&mut st, &mut ui, "G", Ok(123), "2024-01-01T00:00:00+00:00");
    assert_eq!(st.proxies[0].history.len(), 1);
    assert_eq!(st.proxies[0].history[0].delay, 123);
    assert_eq!(st.all_proxies[0].1.history[0].delay, 123);
    assert!(ui.testing_proxies.is_empty());
    assert_eq!(ui.success_message, Some("测速完成".to_string()));

    ui.testing_proxies.push("G".to_string());
    handle_speed_test_result_at(&mut st, &mut ui, "G", Err("timeout".to_string()), "t");
    assert_eq!(ui.error_message, Some("测速失败: timeout".to_string()));
    assert_eq!(st.proxies[0].history[0].delay, 123);
}

#[test]
fn update_events_track_running_updates() {
    let mut st = AppState::new();
    let mut ui = UiState::default();
    let refresh = handle_update_event_at(&mut ui, &mut st, UpdateEvent::Started("s".to_string()), "10:00:00");
    assert!(!refresh);
    assert_eq!(ui.updating_providers, vec!["s".to_string()]);
    assert_eq!(st.logs[0], "[10:00:00] 开始更新订阅 's'...");
    let refresh = handle_update_event_at(
        &mut ui,
        &mut st,
        UpdateEvent::Completed("s".to_string(), false, None),
        "10:00:01",
    );
    assert!(refresh);
    assert!(ui.updating_providers.is_empty());
    assert_eq!(ui.error_message, Some("订阅 's' 更新失败: 未知错误".to_string()));
    assert_eq!(st.logs[1], "[10:00:01] 订阅 's' 更新失败: 未知错误");
    handle_update_event_at(
        &mut ui,
        &mut st,
        UpdateEvent::Progress("s".to_string(), "下载完成".to_string()),
        "10:00:02",
    );
    assert_eq!(st.logs[2], "[10:00:02] 订阅 's' - 下载完成");
}

#[test]
fn configured_subscriptions_are_merged_and_sorted() {
    let mut st = AppState::new();
    st.providers.push(provider("zeta"));
    let mut ui = UiState::default();
    ui.provider_selected = 7;
    let mut cfg = ProviderConfig::empty();
    cfg.provider_type = "http".to_string();
    cfg.path = Some("./providers/alpha.yaml".to_string());
    let configured = vec![
        ("alpha".to_string(), cfg),
        ("zeta".to_string(), ProviderConfig::empty()),
    ];
    merge_config_providers_into_state(&mut st, &mut ui, &configured);
    let names: Vec<&str> = st.providers.iter().map(|p| p.name.as_str()).collect();
    assert_eq!(names, vec!["alpha", "zeta"]);
    assert_eq!(st.providers[0].vehicle_type, "http");
    assert_eq!(st.providers[0].provider_type, "Proxy");
    assert_eq!(st.providers[0].path.as_deref(), Some("./providers/alpha.yaml"));
    assert_eq!(ui.provider_selected, 1);
    assert_eq!(ui.provider_expanded, vec![false, false]);
}

#[test]
fn refresh_takes_data_and_reports_disconnection() {
    let mut st = AppState::new();
    let mut ui = UiState::default();
    let mut connected = false;
    let mut config = Config {
        port: None,
        socks_port: None,
        redir_port: None,
        tproxy_port: None,
        mixed_port: Some(7890),
        tun: None,
        mode: "DIRECT".to_string(),
        log_level: "info".to_string(),
        allow_lan: false,
        bind_address: String::new(),
    };
    config.mode = "direct".to_string();
    let result = RefreshResult {
        version: Ok(Version { version: "v1".to_string(), premium: false, meta: None }),
        data: Some(RefreshData {
            config: Ok(config),
            memory: Ok(Memory { inuse: 5, os_limit: 0 }),
            proxies: Ok(vec![group("G", None, &["a"])]),
            all_proxies: Err("x".to_string()),
            providers: Err("boom".to_string()),
            connections: Ok(ConnectionsResponse {
                download_total: 100,
                upload_total: 40,
                connections: vec![],
                memory: None,
            }),
            rules: Ok(vec![]),
        }),
    };
    apply_refresh_result(&mut st, &mut ui, &mut connected, result, None);
    assert!(connected);
    assert_eq!(ui.current_mode_index, 2);
    assert_eq!(st.memory, Some(Memory { inuse: 5, os_limit: 0 }));
    assert_eq!(st.proxies.len(), 1);
    assert_eq!(ui.proxy_expanded, vec![false]);
    assert_eq!(ui.error_message, Some("订阅刷新失败: boom".to_string()));
    assert_eq!(st.traffic.down, 100);
    assert_eq!(st.traffic.up, 40);
    assert_eq!(ui.traffic_history, vec![(40, 100)]);

    let lost = RefreshResult { version: Err("refused".to_string()), data: None };
    apply_refresh_result(&mut st, &mut ui, &mut connected, lost, None);
    assert!(!connected);
    assert_eq!(ui.error_message, Some("与核心断开连接: refused".to_string()));
}

#[test]
fn cycling_mode_wraps_and_lowercases() {
    let mut st = AppState::new();
    let mut ui = UiState::default();
    ui.current_mode_index = 3;
    let m = cycle_mode(&mut st, &mut ui);
    assert_eq!(m, "global");
    assert_eq!(ui.current_mode_index, 0);
    assert_eq!(ui.success_message, Some("正在切换为 Global".to_string()));
}

#[test]
fn stepping_the_selected_group() {
    let mut st = AppState::new();
    st.proxies.push(group("G", Some("b"), &["a", "b", "c"]));
    let mut ui = UiState::default();
    let r = switch_selected_proxy_by(&mut st, &mut ui, 1);
    assert_eq!(r, Some(("G".to_string(), "c".to_string())));
    assert_eq!(st.proxies[0].now.as_deref(), Some("c"));
    assert_eq!(ui.success_message, Some("已切换到 c".to_string()));
    assert_eq!(switch_selected_proxy_by(&mut st, &mut ui, 1), None);
    let r = switch_selected_proxy_by(&mut st, &mut ui, -1);
    assert_eq!(r, Some(("G".to_string(), "b".to_string())));

    ui.proxy_selected = 4;
    assert_eq!(switch_selected_proxy_by(&mut st, &mut ui, 1), None);
    assert_eq!(ui.error_message, Some("没有可切换的代理组".to_string()));

    assert_eq!(chosen_node(&st, "G", 0), Some(("G".to_string(), "a".to_string())));
    assert_eq!(chosen_node(&st, "G", 9), None);
    assert_eq!(chosen_node(&st, "H", 0), None);
}

#[test]
fn form_submission_checks_input() {
    let st = AppState::new();
    let mut ui = UiState::default();
    ui.popup = Popup::AddProvider;
    ui.input_fields = vec!["  name ".to_string(), " https://x ".to_string(), "abc".to_string()];
    match submit_form(&st, &mut ui) {
        FormRequest::Add { name, url, interval } => {
            assert_eq!(name, "name");
            assert_eq!(url, "https://x");
            assert_eq!(interval, 86400);
        }
        other => panic!("unexpected {:?}", other),
    }
    ui.input_fields = vec!["n".to_string(), "ftp://x".to_string(), "60".to_string()];
    assert!(matches!(submit_form(&st, &mut ui), FormRequest::Invalid));
    assert_eq!(ui.error_message, Some("请输入有效的 URL".to_string()));
    ui.input_fields = vec![" ".to_string(), "http://x".to_string(), "60".to_string()];
    assert!(matches!(submit_form(&st, &mut ui), FormRequest::Invalid));
    assert_eq!(ui.error_message, Some("订阅名称不能为空".to_string()));
    ui.popup = Popup::Hidden;
    assert!(matches!(submit_form(&st, &mut ui), FormRequest::Nothing));
}

#[test]
fn local_configuration_defaults() {
    let c = clash_tui::config::ClashConfig::default();
    let r = local_config_to_runtime_config(&c);
    assert_eq!(r.mode, "rule");
    assert!(!r.allow_lan);
    assert_eq!(r.bind_address, "");
}

#[test]
fn deleting_a_provider_updates_the_list() {
    let mut st = AppState::new();
    st.providers.push(provider("a"));
    st.providers.push(provider("b"));
    let mut ui = UiState::default();
    ui.provider_selected = 1;
    ui.popup = Popup::DeleteConfirm;
    after_provider_deleted(&mut st, &mut ui, "b", None);
    assert_eq!(st.providers.len(), 1);
    assert_eq!(ui.provider_selected, 0);
    assert_eq!(ui.provider_expanded, vec![false]);
    assert_eq!(ui.success_message, Some("订阅 'b' 已删除".to_string()));
    assert!(matches!(ui.popup, Popup::Hidden));
}

#[test]
fn outcomes_show_their_messages() {
    let mut ui = UiState::default();
    report(&mut ui, Outcome::UpdateFailed("sub1".to_string(), "timeout".to_string()));
    assert_eq!(ui.error_message.as_deref(), Some("订阅 'sub1' 更新失败: timeout"));
    report(&mut ui, Outcome::CheckStarted("sub1".to_string()));
    assert_eq!(ui.success_message.as_deref(), Some("订阅 'sub1' 健康检查已开始"));
    ui.popup = Popup::AddProvider;
    report(&mut ui, Outcome::Saved("sub2".to_string()));
    assert_eq!(ui.success_message.as_deref(), Some("订阅 'sub2' 已保存，正在更新"));
    assert!(matches!(ui.popup, Popup::Hidden));
    report(&mut ui, Outcome::NothingToUpdate);
    assert_eq!(ui.error_message.as_deref(), Some("没有可更新的订阅"));
    report(&mut ui, Outcome::RepairFailed("bad".to_string()));
    assert_eq!(ui.error_message.as_deref(), Some("配置自动修复失败: bad"));
}

#[test]
fn speed_tests_start_for_the_selection_or_all() {
    let mut state = AppState::new();
    let mut ui = UiState::default();
    assert!(begin_speed_tests(&state, &mut ui, false).is_empty());
    assert_eq!(ui.error_message.as_deref(), Some("没有可测速的代理组"));
    state.proxies = vec![group("A", None, &[]), group("B", None, &[])];
    ui.proxy_selected = 1;
    assert_eq!(begin_speed_tests(&state, &mut ui, false), vec!["B".to_string()]);
    assert_eq!(ui.success_message.as_deref(), Some("正在测速 B"));
    assert_eq!(ui.testing_proxies, vec!["B".to_string()]);
    assert_eq!(begin_speed_tests(&state, &mut ui, true), vec!["A".to_string(), "B".to_string()]);
    assert_eq!(ui.success_message.as_deref(), Some("正在测速 2 个代理组"));
    assert_eq!(ui.testing_proxies, vec!["B".to_string(), "A".to_string()]);
}

#[test]
fn deleted_subscription_cache_prefers_the_configured_path() {
    let manager = ConfigManager::new(Some("/etc/clash/config.yaml".to_string()), String::new());
    let configured = vec![("sub1".to_string(), ProviderConfig {
        provider_type: "http".to_string(),
        url: "https://a".to_string(),
        interval: None,
        path: Some("./providers/sub1.yaml".to_string()),
        health_check: None,
        extra: vec![],
    })];
    let reported = Some("/var/cache/sub1.yaml".to_string());
    assert_eq!(
        cache_file_to_remove(&manager, &configured, &reported, "sub1"),
        Some("/etc/clash/./providers/sub1.yaml".to_string())
    );
    assert_eq!(
        cache_file_to_remove(&manager, &configured, &reported, "other"),
        Some("/var/cache/sub1.yaml".to_string())
    );
    assert_eq!(cache_file_to_remove(&manager, &configured, &None, "other"), None);
}

#[test]
fn finished_refresh_drops_only_its_own_notice() {
    let mut ui = UiState::default();
    ui.success_message = Some("正在刷新".to_string());
    finish_refresh(&mut ui, 42);
    assert_eq!(ui.last_refresh_at, Some(42));
    assert_eq!(ui.success_message, None);
    ui.success_message = Some("已切换到 HK".to_string());
    finish_refresh(&mut ui, 43);
    assert_eq!(ui.success_message.as_deref(), Some("已切换到 HK"));
}

#[test]
fn repaired_caches_are_logged() {
    let mut state = AppState::new();
    note_caches_repaired_at(&mut state, 3, "12:00:00");
    assert_eq!(state.logs, vec!["[12:00:00] 已修复 3 个订阅缓存".to_string()]);
}

#[test]
fn update_steps_are_reported() {
    assert_eq!(progress_message(&Progress::Downloaded(1024)), "下载完成：1024 bytes");
    assert_eq!(progress_message(&Progress::Parsed(7)), "解析完成：发现 7 个节点");
    assert_eq!(progress_message(&Progress::Cached("/tmp/a.yaml".to_string())), "已写入缓存：/tmp/a.yaml");
    assert_eq!(progress_message(&Progress::Reloading), "正在重载核心配置");
}
