use clash_tui::args::log_file_expired;
use clash_tui::args::{Cli, Commands};
use clash_tui::client::ClashClient;
use clash_tui::core_manager::{
    begin_start, core_api_url, default_config_text, expand_tilde, get_default_config_path,
    poll_start, start_outcome, with_log_off, CoreState, StartPoll,
};
use clash_tui::instance::{
    check_pid_file, owns_pid_file, parse_pid, pid_file_text, to_hex, InstanceInfo, InstanceManager,
    InstanceMode, PidCheck, RunningInstance,
};
use clash_tui::view::{api_addr, bind_label, proxy_host, visible_start};
use clash_tui::state::Config;
use clash_tui::yaml::Yaml;

#[test]
fn provider_endpoint_should_percent_encode_reserved_chars_in_name() {
    let client = ClashClient::new("http://127.0.0.1:9090".to_string());
    let url = client
        .provider_endpoint_url("sub?token=abc&flag=true")
        .expect("provider endpoint should be valid");

    let parsed = reqwest::Url::parse(&url).unwrap();
    assert_eq!(parsed.query(), None, "provider name should stay in path");
    assert_eq!(url, "http://127.0.0.1:9090/providers/proxies/sub%3Ftoken=abc&flag=true");
}

#[test]
fn provider_healthcheck_endpoint_should_append_healthcheck_path() {
    let client = ClashClient::new("http://127.0.0.1:9090".to_string());
    let url = client
        .provider_healthcheck_endpoint_url("a/b")
        .expect("healthcheck endpoint should be valid");

    assert_eq!(url, "http://127.0.0.1:9090/providers/proxies/a%2Fb/healthcheck");
}

#[test]
fn client_urls_drop_trailing_slashes() {
    let client = ClashClient::new("http://host:1//".to_string());
    assert_eq!(client.url("/version"), "http://host:1/version");
    assert_eq!(
        client.providers_base_url().unwrap(),
        "http://host:1/providers/proxies"
    );
    let bad = ClashClient::new("not a url".to_string());
    assert!(bad.providers_base_url().unwrap_err().starts_with("构造订阅 API 地址失败: "));
}

#[test]
fn instance_files_are_named_by_md5_of_the_config_path() {
    let m = InstanceManager::new("abc", Some("/data"));
    assert_eq!(m.pid_file(), "/data/clash-tui/clash-tui-900150983cd24fb0d6963f7d28e17f72.pid");
    assert_eq!(m.info_file, "/data/clash-tui/clash-tui-900150983cd24fb0d6963f7d28e17f72.json");
    let local = InstanceManager::new("abc", None);
    assert!(local.pid_file.starts_with(".clash-tui"));
    assert_eq!(to_hex(&vec![0, 15, 16, 255]), "000f10ff");
}

#[test]
fn pid_files_are_judged() {
    assert_eq!(parse_pid(" 1234\n"), Some(1234));
    assert_eq!(parse_pid("x"), None);
    assert_eq!(check_pid_file(None, true), PidCheck::NoInstance);
    assert_eq!(check_pid_file(Some("garbage"), true), PidCheck::NoInstance);
    assert_eq!(check_pid_file(Some("42"), false), PidCheck::Stale);
    assert_eq!(check_pid_file(Some("42\n"), true), PidCheck::Running);
    assert!(owns_pid_file("42\n", 42));
    assert!(!owns_pid_file("43", 42));
    assert_eq!(parse_pid(&pid_file_text(4_000_000_000)), Some(4_000_000_000));
}

#[test]
fn running_instance_reports_status() {
    let info = InstanceInfo {
        pid: 7,
        start_time: 0,
        api_url: "http://127.0.0.1:9090".to_string(),
        mode: InstanceMode::Daemon,
    };
    let r = RunningInstance::new(info);
    assert_eq!(r.api_url, "http://127.0.0.1:9090");
    let s = r.status(Some("v1".to_string()), None, "1s".to_string(), None);
    assert_eq!(s.pid, 7);
    assert_eq!(s.mode, "Daemon");
    assert_eq!(InstanceMode::Tui.name(), "Tui");
}

#[test]
fn core_start_decisions() {
    assert!(begin_start(&CoreState::Running).is_none());
    assert!(matches!(begin_start(&CoreState::Stopped), Some(CoreState::Starting)));
    assert_eq!(poll_start(0, true, true), StartPoll::Ready);
    assert_eq!(poll_start(0, false, false), StartPoll::Wait);
    assert_eq!(poll_start(118, false, false), StartPoll::Wait);
    assert_eq!(poll_start(119, false, false), StartPoll::GiveUp);
    assert_eq!(poll_start(3, false, true), StartPoll::GiveUp);
    assert!(start_outcome(true).is_running());
    assert!(matches!(start_outcome(false), CoreState::Error(ref m) if m == "启动超时"));
    assert_eq!(core_api_url(), "http://127.0.0.1:9090");
    assert!(default_config_text().contains("external-controller: 127.0.0.1:9090"));
}

#[test]
fn core_logging_is_turned_off() {
    let doc = Yaml::Mapping(vec![
        (Yaml::Str("log-level".to_string()), Yaml::Str("info".to_string())),
        (Yaml::Str("mode".to_string()), Yaml::Str("rule".to_string())),
    ]);
    match with_log_off(doc) {
        Yaml::Mapping(m) => {
            assert_eq!(m.len(), 2);
            assert!(matches!(&m[0].1, Yaml::Str(v) if v == "off"));
        }
        _ => panic!("mapping expected"),
    }
    match with_log_off(Yaml::Mapping(vec![])) {
        Yaml::Mapping(m) => assert!(matches!(&m[0].1, Yaml::Str(v) if v == "off")),
        _ => panic!("mapping expected"),
    }
    assert!(matches!(with_log_off(Yaml::Null), Yaml::Null));
}

#[test]
fn paths_of_the_core() {
    assert_eq!(expand_tilde("~/a/b", Some("/home/u")), "/home/u/a/b");
    assert_eq!(expand_tilde("~/a", None), "~/a");
    assert_eq!(expand_tilde("/x", Some("/home/u")), "/x");
    assert_eq!(get_default_config_path(Some("/cfg")), "/cfg/clash-tui/config.yaml");
    assert_eq!(get_default_config_path(None), "config.yaml");
}

#[test]
fn rows_in_view_follow_the_selection() {
    assert_eq!(visible_start(5, 10, 8), 0);
    assert_eq!(visible_start(5, 0, 100), 0);
    assert_eq!(visible_start(3, 10, 100), 0);
    assert_eq!(visible_start(50, 10, 100), 45);
    assert_eq!(visible_start(99, 10, 100), 90);
}

#[test]
fn address_labels() {
    let mut c = Config {
        port: None,
        socks_port: None,
        redir_port: None,
        tproxy_port: None,
        mixed_port: None,
        tun: None,
        mode: "rule".to_string(),
        log_level: String::new(),
        allow_lan: true,
        bind_address: " 192.168.1.2 ".to_string(),
    };
    assert_eq!(proxy_host(&c), "192.168.1.2");
    c.bind_address = "*".to_string();
    assert_eq!(proxy_host(&c), "127.0.0.1");
    c.allow_lan = false;
    c.bind_address = "10.0.0.1".to_string();
    assert_eq!(proxy_host(&c), "127.0.0.1");
    assert_eq!(bind_label("  "), "");
    assert_eq!(bind_label(" 0.0.0.0 "), "bind=0.0.0.0");
    assert_eq!(api_addr("http://127.0.0.1:9090"), "127.0.0.1:9090");
    assert_eq!(api_addr("https://h:1"), "h:1");
    assert_eq!(api_addr("h:2"), "h:2");
}

#[test]
fn command_line_modes() {
    let cli = Cli { command: None, config: None, log_level: "info".to_string() };
    assert!(cli.is_tui_mode());
    assert_eq!(cli.default_log_filter(), "warn,clash_tui=info");
    let cli = Cli { command: Some(Commands::Daemon), config: None, log_level: "debug".to_string() };
    assert!(!cli.is_tui_mode());
    assert_eq!(cli.default_log_filter(), "debug");
}

#[test]
fn log_files_expire_after_seven_days() {
    assert!(!log_file_expired(7 * 24 * 3600 * 1000, true));
    assert!(log_file_expired(7 * 24 * 3600 * 1000 + 1, true));
    assert!(!log_file_expired(u64::MAX, false));
}
