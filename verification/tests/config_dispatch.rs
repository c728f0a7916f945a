use indexmap::IndexMap;
use powernotify::config::{build_notification, Config, ConfigRule};
use powernotify::dispatch::{classify_event, EventKey, TestLookup};
use powernotify::parse::parse_i8;
use powernotify::rules::{NotifyAction, NotifyEvent, Urgency};

fn empty_entry() -> ConfigRule {
    ConfigRule {
        cmd: None,
        summary: None,
        body: None,
        icon: None,
        appname: None,
        urgency: None,
        actions: None,
        timeout_secs: None,
    }
}

#[test]
fn parse_i8_accepts_plain_decimals() {
    assert_eq!(parse_i8("0"), Some(0));
    assert_eq!(parse_i8("20"), Some(20));
    assert_eq!(parse_i8("100"), Some(100));
    assert_eq!(parse_i8("127"), Some(127));
    assert_eq!(parse_i8("007"), Some(7));
}

#[test]
fn parse_i8_accepts_signs() {
    assert_eq!(parse_i8("+20"), Some(20));
    assert_eq!(parse_i8("-0"), Some(0));
    assert_eq!(parse_i8("-5"), Some(-5));
    assert_eq!(parse_i8("-128"), Some(-128));
}

#[test]
fn parse_i8_rejects_garbage_and_overflow() {
    assert_eq!(parse_i8(""), None);
    assert_eq!(parse_i8("+"), None);
    assert_eq!(parse_i8("-"), None);
    assert_eq!(parse_i8("abc"), None);
    assert_eq!(parse_i8("20a"), None);
    assert_eq!(parse_i8("128"), None);
    assert_eq!(parse_i8("-129"), None);
    assert_eq!(parse_i8("99999999999999999999"), None);
}

#[test]
fn classify_event_keywords_and_percents() {
    assert_eq!(classify_event("ac"), EventKey::Ac);
    assert_eq!(classify_event("bat"), EventKey::Bat);
    assert_eq!(classify_event("0"), EventKey::Percent(0));
    assert_eq!(classify_event("20"), EventKey::Percent(20));
    assert_eq!(classify_event("100"), EventKey::Percent(100));
    assert_eq!(classify_event("-0"), EventKey::Percent(0));
}

#[test]
fn classify_event_rejects_out_of_range_and_non_numeric() {
    assert_eq!(classify_event("101"), EventKey::Unknown);
    assert_eq!(classify_event("-1"), EventKey::Unknown);
    assert_eq!(classify_event("127"), EventKey::Unknown);
    assert_eq!(classify_event("banana"), EventKey::Unknown);
    assert_eq!(classify_event(""), EventKey::Unknown);
    assert_eq!(classify_event("AC"), EventKey::Unknown);
}

#[test]
fn build_notification_needs_one_template_field() {
    let bare = empty_entry();
    assert!(build_notification(&bare).is_none());

    let mut timeout_only = empty_entry();
    timeout_only.timeout_secs = Some(5);
    let t = build_notification(&timeout_only).unwrap();
    assert_eq!(t.timeout_secs, Some(5));
    assert!(t.summary.is_none());
    assert!(t.body.is_none());
    assert!(t.icon.is_none());
    assert!(t.appname.is_none());
    assert!(t.urgency.is_none());
    assert!(t.actions.is_empty());

    let mut with_summary = empty_entry();
    with_summary.summary = Some("Battery low".to_string());
    with_summary.timeout_secs = Some(5);
    let n = build_notification(&with_summary).unwrap();
    assert_eq!(n.summary.as_deref(), Some("Battery low"));
    assert_eq!(n.timeout_secs, Some(5));
    assert!(n.actions.is_empty());
}

#[test]
fn build_notification_keeps_action_label_order() {
    let mut m: IndexMap<String, String> = IndexMap::new();
    m.insert("later".to_string(), "echo l".to_string());
    m.insert("abort".to_string(), "echo a".to_string());
    let mut entry = empty_entry();
    entry.actions = Some(m);
    entry.urgency = Some(Urgency::Critical);
    let n = build_notification(&entry).unwrap();
    assert_eq!(n.actions, vec!["later".to_string(), "abort".to_string()]);
    assert_eq!(n.urgency, Some(Urgency::Critical));
}

#[test]
fn battery_entry_dispatches_its_command_once() {
    let mut bat = empty_entry();
    bat.cmd = Some("echo low-battery".to_string());
    let config = Config::get(vec![("bat".to_string(), bat)], "/tmp".to_string());

    let rule = config.rule_for_power_state(true).as_ref().unwrap();
    let job = rule.command_branch().unwrap();
    assert_eq!(job.cmd, "echo low-battery");
    assert_eq!(job.working_dir, "/tmp");
    assert!(matches!(
        rule.notify_step(&NotifyEvent::Begin),
        NotifyAction::Finish
    ));

    assert!(config.rule_for_power_state(false).is_none());

    match config.test_lookup("bat") {
        TestLookup::Matched(r) => {
            assert_eq!(r.command_branch().unwrap().cmd, "echo low-battery");
        }
        _ => panic!("expected a match for the battery key"),
    }
    assert!(matches!(config.test_lookup("ac"), TestLookup::NoRule));
    assert!(matches!(config.test_lookup("oops"), TestLookup::UnknownKey));
}

#[test]
fn percentage_entry_is_reached_by_truncated_percent() {
    let mut low = empty_entry();
    low.summary = Some("Battery low".to_string());
    let config = Config::get(vec![("20".to_string(), low)], "/".to_string());

    let raw: f64 = 20.7;
    let percent = raw as i8;
    assert_eq!(percent, 20);

    let rule = config.rule_for_percentage(percent).unwrap();
    match rule.notify_step(&NotifyEvent::Begin) {
        NotifyAction::Display(n) => {
            assert_eq!(n.summary.as_deref(), Some("Battery low"));
        }
        _ => panic!("expected the notification to be displayed"),
    }
    assert!(rule.command_branch().is_none());

    match config.test_lookup("20") {
        TestLookup::Matched(_) => {}
        _ => panic!("expected a match for the percent key"),
    }
    assert!(config.rule_for_percentage(21).is_none());
    assert!(config.rule_for_percentage(-1).is_none());
}

#[test]
fn later_entry_for_same_key_wins() {
    let mut first = empty_entry();
    first.cmd = Some("echo first".to_string());
    let mut second = empty_entry();
    second.cmd = Some("echo second".to_string());
    let config = Config::get(
        vec![
            ("ac".to_string(), first),
            ("ac".to_string(), second),
        ],
        "/tmp".to_string(),
    );
    let rule = config.rule_for_power_state(false).as_ref().unwrap();
    assert_eq!(rule.command_branch().unwrap().cmd, "echo second");
}

#[test]
fn out_of_range_and_unknown_entries_are_dropped() {
    let mut stray = empty_entry();
    stray.cmd = Some("echo stray".to_string());
    let mut stray2 = empty_entry();
    stray2.cmd = Some("echo stray".to_string());
    let config = Config::get(
        vec![
            ("150".to_string(), stray),
            ("banana".to_string(), stray2),
        ],
        "/tmp".to_string(),
    );
    assert!(config.rule_for_power_state(true).is_none());
    assert!(config.rule_for_power_state(false).is_none());
    assert!(matches!(config.test_lookup("150"), TestLookup::UnknownKey));
    assert!(matches!(config.test_lookup("banana"), TestLookup::UnknownKey));
}
