use clash_tui::json::{delay_answer, provider_counts_answer, providers_answer, proxies_answer, AnswerError};
use clash_tui::ui::{format_duration, format_duration_with};

#[test]
fn providers_are_read_from_answer_text_in_name_order() {
    let body = r#"{"providers": {
        "zeta": {"name": "zeta", "type": "Proxy", "vehicleType": "HTTP", "proxies": []},
        "alpha": {"name": "alpha", "type": "Proxy", "vehicleType": "HTTP", "proxies": [{"name": "n1"}]}
    }}"#;
    let providers = providers_answer(body).unwrap();
    let names: Vec<&str> = providers.iter().map(|p| p.name.as_str()).collect();
    assert_eq!(names, vec!["alpha", "zeta"]);
}

#[test]
fn answers_that_are_not_json_or_lack_the_field_are_refused() {
    assert!(matches!(providers_answer("not json"), Err(AnswerError::NotJson(_))));
    assert!(matches!(providers_answer("{}"), Err(AnswerError::Missing)));
    assert!(matches!(provider_counts_answer("{\"x\": 1}"), Err(AnswerError::Missing)));
    assert!(matches!(proxies_answer("[1, 2"), Err(AnswerError::NotJson(_))));
    assert!(matches!(proxies_answer("{\"providers\": {}}"), Err(AnswerError::Missing)));
}

#[test]
fn provider_counts_are_read_from_answer_text() {
    let body = r#"{"providers": {"a": {"proxies": [{}, {}]}, "b": {}}}"#;
    let counts = provider_counts_answer(body).unwrap();
    assert_eq!(counts, vec![("a".to_string(), 2), ("b".to_string(), 0)]);
}

#[test]
fn proxies_are_read_from_answer_text_by_key() {
    let body = r#"{"proxies": {"GLOBAL": {"type": "Selector", "now": "DIRECT", "all": ["DIRECT"]}}}"#;
    let proxies = proxies_answer(body).unwrap();
    assert_eq!(proxies.len(), 1);
    assert_eq!(proxies[0].0, "GLOBAL");
    assert_eq!(proxies[0].1.name, "GLOBAL");
}

#[test]
fn delay_is_read_from_answer_text() {
    assert_eq!(delay_answer(r#"{"delay": 123}"#).unwrap(), 123);
    assert_eq!(delay_answer(r#"{"message": "timeout"}"#).unwrap(), 0);
    assert_eq!(delay_answer(r#"{"delay": 4294967297}"#).unwrap(), 1);
    assert_eq!(delay_answer(r#"[1]"#).unwrap(), 0);
    assert!(matches!(delay_answer("<html>"), Err(AnswerError::NotJson(_))));
}

#[test]
fn durations_are_shown_against_a_clock_reading_or_as_written() {
    assert_eq!(format_duration_with("", None), "-");
    assert_eq!(format_duration_with("1700000000", None), "1700000000");
    assert_eq!(format_duration_with("1700000000", Some(1700000030)), "刚刚");
    assert_eq!(format_duration_with("1700000000", Some(1700007200)), "2小时前");
    assert_eq!(format_duration_with("soon", Some(5)), "soon");
    assert_eq!(format_duration_with("-9223372036854775808", Some(1)), "-9223372036854775808");
    assert_eq!(format_duration(""), "-");
    assert_eq!(format_duration("0"), format!("{}天前", (std::time::SystemTime::now()
        .duration_since(std::time::UNIX_EPOCH).unwrap().as_secs() / 86400)));
}

#[test]
fn clock_texts_have_their_documented_shape() {
    let clock = clash_tui::clock::local_clock_now();
    assert_eq!(clock.len(), 8);
    let c: Vec<char> = clock.chars().collect();
    assert_eq!((c[2], c[5]), (':', ':'));
    assert!([0, 1, 3, 4, 6, 7].iter().all(|&i| c[i].is_ascii_digit()));
    let stamp = clash_tui::clock::local_timestamp_now();
    let s: Vec<char> = stamp.chars().collect();
    assert!([25, 29, 32, 35].contains(&s.len()));
    assert_eq!((s[4], s[7], s[10], s[13], s[16]), ('-', '-', 'T', ':', ':'));
    assert!(s[s.len() - 6] == '+' || s[s.len() - 6] == '-');
    assert_eq!(s[s.len() - 3], ':');
    assert!(clash_tui::clock::unix_seconds().unwrap() > 1_600_000_000);
}
