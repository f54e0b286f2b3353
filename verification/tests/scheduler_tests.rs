use clash_tui::config::ProviderConfig;
use clash_tui::scheduler::{format_duration_detailed, format_duration_short, TaskTable, UpdateTask};
use clash_tui::updater::{
    after_load_check, LoadPoll,
    check_loaded, display_path, not_usable_message, update_target, verified_message, LoadCheck,
    UpdateError,
};

#[test]
fn new_task_is_due_after_one_interval() {
    let t = UpdateTask::new("sub".to_string(), "https://a".to_string(), 60, 1_000);
    assert_eq!(t.interval, 60_000);
    assert_eq!(t.next_update, 61_000);
    assert!(!t.should_update(60_999));
    assert!(t.should_update(61_000));
    assert_eq!(t.time_until_next(1_000), 60_000);
    assert_eq!(t.time_until_next(70_000), 0);
}

#[test]
fn running_task_is_not_due_and_completion_reschedules() {
    let mut t = UpdateTask::new("sub".to_string(), "u".to_string(), 10, 0);
    t.mark_updating();
    assert!(!t.should_update(1_000_000));
    t.mark_completed(false, Some("boom".to_string()), 50_000);
    assert!(!t.is_updating);
    assert_eq!(t.last_update, Some(50_000));
    assert_eq!(t.next_update, 60_000);
    assert_eq!(t.last_error, Some("boom".to_string()));
    assert!(!t.should_update(59_999));
    t.mark_completed(true, Some("ignored".to_string()), 60_000);
    assert_eq!(t.last_error, None);
}

#[test]
fn short_durations_use_the_largest_unit() {
    assert_eq!(format_duration_short(0), "0s");
    assert_eq!(format_duration_short(59_999), "59s");
    assert_eq!(format_duration_short(60_000), "1m");
    assert_eq!(format_duration_short(3_599_000), "59m");
    assert_eq!(format_duration_short(3_600_000), "1h");
    assert_eq!(format_duration_short(86_400_000), "1d");
    assert_eq!(format_duration_short(3 * 86_400_000 + 5_000), "3d");
}

#[test]
fn detailed_durations_leave_out_small_parts() {
    assert_eq!(format_duration_detailed(0), "即将");
    assert_eq!(format_duration_detailed(999), "即将");
    assert_eq!(format_duration_detailed(45_000), "45秒");
    assert_eq!(format_duration_detailed(125_000), "2分5秒");
    assert_eq!(format_duration_detailed(3_725_000), "1小时2分");
    assert_eq!(format_duration_detailed(90_061_000), "1天1小时");
    assert_eq!(format_duration_detailed(86_400_000), "1天");
}

#[test]
fn task_table_schedules_and_reports_due_tasks() {
    let mut table = TaskTable::new();
    table.add_task("a", "https://a", 10, 0);
    table.add_task("b", "https://b", 20, 0);
    assert_eq!(table.names(), vec!["a".to_string(), "b".to_string()]);
    assert!(table.due_tasks(9_999).is_empty());
    assert_eq!(table.due_tasks(10_000), vec!["a".to_string()]);
    assert_eq!(table.due_tasks(20_000), vec!["a".to_string(), "b".to_string()]);

    table.mark_updating("a");
    assert_eq!(table.due_tasks(20_000), vec!["b".to_string()]);
    table.mark_completed("a", true, None, 20_000);
    assert_eq!(table.due_tasks(29_999), vec!["b".to_string()]);

    table.force_due("a", 21_000);
    assert_eq!(table.due_tasks(21_000), vec!["a".to_string(), "b".to_string()]);

    table.update_task_interval("b", 100, 21_000);
    assert_eq!(table.due_tasks(21_000), vec!["a".to_string()]);

    table.add_task("a", "https://a2", 5, 30_000);
    assert_eq!(table.names().len(), 2);
    assert_eq!(table.tasks[0].1.url, "https://a2");

    table.remove_task("a");
    assert_eq!(table.names(), vec!["b".to_string()]);
}

#[test]
fn loading_tasks_uses_configured_or_daily_interval() {
    let mut p1 = ProviderConfig::empty();
    p1.url = "https://one".to_string();
    p1.interval = Some(60);
    let mut p2 = ProviderConfig::empty();
    p2.url = "https://two".to_string();
    let providers = vec![("one".to_string(), p1), ("two".to_string(), p2)];
    let mut table = TaskTable::new();
    table.load_tasks(&providers, 0);
    assert_eq!(table.tasks.len(), 2);
    assert_eq!(table.tasks[0].1.interval, 60_000);
    assert_eq!(table.tasks[1].1.interval, 86_400_000);
}

#[test]
fn updater_task_is_due_after_its_interval() {
    let t = clash_tui::updater::UpdateTask::new("s".to_string(), "u".to_string(), 1, 5);
    assert_eq!(t.next_update, 1_005);
    assert!(!t.should_update(1_004));
    assert!(t.should_update(1_005));
}

#[test]
fn update_target_needs_a_known_subscription_with_a_path() {
    let mut with_path = ProviderConfig::empty();
    with_path.url = "https://a".to_string();
    with_path.path = Some("./providers/a.yaml".to_string());
    let mut without_path = ProviderConfig::empty();
    without_path.url = "https://b".to_string();
    let providers = vec![("a".to_string(), with_path), ("b".to_string(), without_path)];

    let (url, path) = update_target(&providers, "a").unwrap();
    assert_eq!(url, "https://a");
    assert_eq!(path, "./providers/a.yaml");

    let e = update_target(&providers, "b").unwrap_err();
    assert!(matches!(e, UpdateError::MissingPath(_)));
    assert_eq!(e.message(), "provider 'b' missing path");

    let e = update_target(&providers, "c").unwrap_err();
    assert_eq!(e.message(), "provider 'c' not found in config");
}

#[test]
fn load_check_reports_what_the_core_has() {
    let counts = vec![("x".to_string(), 3usize), ("y".to_string(), 0usize)];
    assert!(matches!(check_loaded(Ok(counts.clone()), "x"), LoadCheck::Loaded(3)));
    match check_loaded(Ok(counts.clone()), "y") {
        LoadCheck::Waiting(m) => assert_eq!(m, "核心已看到订阅 'y'，但节点数为 0"),
        _ => panic!("should wait"),
    }
    match check_loaded(Ok(counts), "z") {
        LoadCheck::Waiting(m) => assert_eq!(m, "核心当前订阅：x, y"),
        _ => panic!("should wait"),
    }
    match check_loaded(Ok(vec![]), "z") {
        LoadCheck::Waiting(m) => assert_eq!(m, "核心返回的订阅列表为空"),
        _ => panic!("should wait"),
    }
    match check_loaded(Err("timeout".to_string()), "z") {
        LoadCheck::Waiting(m) => assert_eq!(m, "查询核心订阅失败：timeout"),
        _ => panic!("should wait"),
    }
}

#[test]
fn updater_messages() {
    assert_eq!(
        not_usable_message("s", "seen"),
        "provider 's' was not usable after reload: seen"
    );
    assert_eq!(verified_message(12), "验证通过：核心已加载 12 个节点");
    assert_eq!(display_path("/a/b.yaml"), "/a/b.yaml");
}

#[test]
fn load_polls_ask_again_until_the_last_then_give_up() {
    match after_load_check(1, LoadCheck::Loaded(7), "sub") {
        LoadPoll::Ready(n) => assert_eq!(n, 7),
        other => panic!("unexpected {:?}", other),
    }
    match after_load_check(9, LoadCheck::Waiting("seen".to_string()), "sub") {
        LoadPoll::AskAgain(p) => assert_eq!(p, 500),
        other => panic!("unexpected {:?}", other),
    }
    match after_load_check(10, LoadCheck::Waiting("seen".to_string()), "sub") {
        LoadPoll::GiveUp(p, m) => {
            assert_eq!(p, 500);
            assert_eq!(m, "provider 'sub' was not usable after reload: seen");
        }
        other => panic!("unexpected {:?}", other),
    }
    match after_load_check(10, LoadCheck::Loaded(3), "sub") {
        LoadPoll::Ready(n) => assert_eq!(n, 3),
        other => panic!("unexpected {:?}", other),
    }
}
