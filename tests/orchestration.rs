use bulkget::collect::{is_success_status, plan_collection, plan_tasks, Disposal, TaskOutcome};

#[test]
fn one_failure_among_three_is_isolated() {
    let outcomes = vec![
        TaskOutcome::Fetched { hint: Some("a.png".to_string()) },
        TaskOutcome::Failed,
        TaskOutcome::Fetched { hint: None },
    ];
    let plan = plan_collection(&outcomes);
    assert_eq!(plan.len(), 3);
    let writes = plan.iter().filter(|d| matches!(d, Disposal::Write { .. })).count();
    let warnings = plan.iter().filter(|d| matches!(d, Disposal::Warn)).count();
    assert_eq!(writes, 2);
    assert_eq!(warnings, 1);
    assert!(matches!(&plan[0], Disposal::Write { name } if name == "a.png"));
    assert!(matches!(&plan[1], Disposal::Warn));
    assert!(matches!(&plan[2], Disposal::Write { name } if name == "file_2"));
}

#[test]
fn same_names_are_planned_twice() {
    let outcomes = vec![
        TaskOutcome::Fetched { hint: Some("same.txt".to_string()) },
        TaskOutcome::Fetched { hint: Some("same.txt".to_string()) },
    ];
    let plan = plan_collection(&outcomes);
    assert!(matches!(&plan[0], Disposal::Write { name } if name == "same.txt"));
    assert!(matches!(&plan[1], Disposal::Write { name } if name == "same.txt"));
}

#[test]
fn empty_outcomes_plan_nothing() {
    assert!(plan_collection(&Vec::new()).is_empty());
}

#[test]
fn tasks_carry_url_and_referer() {
    let referer = Some("https://ref.example/".to_string());
    let tasks = plan_tasks("get http://a.example/1 and https://b.example/2.\n", &referer);
    assert_eq!(tasks.len(), 2);
    assert_eq!(tasks[0].url, "http://a.example/1");
    assert_eq!(tasks[1].url, "https://b.example/2");
    assert_eq!(tasks[0].referer, referer);
    assert_eq!(tasks[1].referer, referer);
    let plain = plan_tasks("https://c.example/3", &None);
    assert_eq!(plain.len(), 1);
    assert_eq!(plain[0].referer, None);
}

#[test]
fn only_2xx_is_success() {
    assert!(is_success_status(200));
    assert!(is_success_status(204));
    assert!(is_success_status(299));
    assert!(!is_success_status(199));
    assert!(!is_success_status(301));
    assert!(!is_success_status(404));
    assert!(!is_success_status(503));
}
