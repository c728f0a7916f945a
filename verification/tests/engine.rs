use indexmap::IndexMap;
use powernotify::rules::{NotifyAction, NotifyEvent, Rule, ShellJob, Urgency};
use powernotify::rules::NotificationSpec;

fn spec_with_summary(summary: &str) -> NotificationSpec {
    NotificationSpec {
        summary: Some(summary.to_string()),
        body: None,
        icon: None,
        appname: None,
        urgency: Some(Urgency::Normal),
        actions: Vec::new(),
        timeout_secs: None,
    }
}

#[test]
fn command_only_rule_never_displays() {
    let rule = Rule::new(
        None,
        Some("echo hello".to_string()),
        None,
        "/tmp".to_string(),
    );
    assert_eq!(
        rule.command_branch(),
        Some(ShellJob {
            working_dir: "/tmp".to_string(),
            cmd: "echo hello".to_string(),
        })
    );
    assert!(matches!(rule.notify_step(&NotifyEvent::Begin), NotifyAction::Finish));
    assert!(matches!(
        rule.notify_step(&NotifyEvent::Displayed(true)),
        NotifyAction::Finish
    ));
    assert!(matches!(
        rule.notify_step(&NotifyEvent::Selected(Some("x".to_string()))),
        NotifyAction::Finish
    ));
}

#[test]
fn notification_without_actions_returns_after_display() {
    let rule = Rule::new(Some(spec_with_summary("hi")), None, None, "/".to_string());
    match rule.notify_step(&NotifyEvent::Begin) {
        NotifyAction::Display(n) => assert_eq!(n.summary.as_deref(), Some("hi")),
        _ => panic!("expected a display action"),
    }
    assert!(matches!(
        rule.notify_step(&NotifyEvent::Displayed(true)),
        NotifyAction::Finish
    ));
    assert!(matches!(
        rule.notify_step(&NotifyEvent::Displayed(false)),
        NotifyAction::Finish
    ));
    assert!(rule.command_branch().is_none());
}

#[test]
fn selection_runs_exactly_the_mapped_command() {
    let mut actions: IndexMap<String, String> = IndexMap::new();
    actions.insert("yes".to_string(), "echo yes".to_string());
    actions.insert("no".to_string(), "echo no".to_string());
    let rule = Rule::new(
        Some(spec_with_summary("pick")),
        None,
        Some(actions),
        "/var".to_string(),
    );

    assert!(matches!(
        rule.notify_step(&NotifyEvent::Displayed(true)),
        NotifyAction::AwaitSelection
    ));
    assert!(matches!(
        rule.notify_step(&NotifyEvent::Displayed(false)),
        NotifyAction::Finish
    ));

    match rule.notify_step(&NotifyEvent::Selected(Some("no".to_string()))) {
        NotifyAction::Run(job) => {
            assert_eq!(job.cmd, "echo no");
            assert_eq!(job.working_dir, "/var");
        }
        _ => panic!("expected the mapped command to run"),
    }
    assert!(matches!(
        rule.notify_step(&NotifyEvent::Selected(Some("maybe".to_string()))),
        NotifyAction::Finish
    ));
    assert!(matches!(
        rule.notify_step(&NotifyEvent::Selected(None)),
        NotifyAction::Finish
    ));
}

#[test]
fn overlapping_executions_of_one_rule_are_independent() {
    let mut actions: IndexMap<String, String> = IndexMap::new();
    actions.insert("go".to_string(), "echo go".to_string());
    let rule = Rule::new(
        Some(spec_with_summary("again")),
        Some("echo main".to_string()),
        Some(actions),
        "/tmp".to_string(),
    );

    // Two in-flight executions read the same shared rule; each drives its own
    // branch pair to completion and sees the same decisions.
    let first_job = rule.command_branch().unwrap();
    let second_job = rule.command_branch().unwrap();
    assert_eq!(first_job, second_job);
    assert_eq!(first_job.cmd, "echo main");

    for _ in 0..2 {
        assert!(matches!(rule.notify_step(&NotifyEvent::Begin), NotifyAction::Display(_)));
        assert!(matches!(
            rule.notify_step(&NotifyEvent::Displayed(true)),
            NotifyAction::AwaitSelection
        ));
        match rule.notify_step(&NotifyEvent::Selected(Some("go".to_string()))) {
            NotifyAction::Run(job) => assert_eq!(job.cmd, "echo go"),
            _ => panic!("expected the action command to run"),
        }
    }
}
