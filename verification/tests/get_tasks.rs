use quest_tasks::endpoints::get_tasks::{handler, project, project_all, GetTasksQuery, UserTask};
use quest_tasks::errors::ErrorKind;
use quest_tasks::records::{
    AggregatedTaskView, CompletionRecord, Quest, StoreFailure, TaskRecord,
};

fn full_task(id: u32, quest_id: u32, kind: &str) -> TaskRecord {
    TaskRecord {
        id: Some(id),
        quest_id: Some(quest_id),
        name: Some("Follow".to_string()),
        href: Some("https://social.example/follow".to_string()),
        cta: Some("Follow".to_string()),
        verify_endpoint: Some("quests/verify_follow".to_string()),
        verify_endpoint_type: Some(kind.to_string()),
        verify_redirect: Some("https://social.example/back".to_string()),
        desc: Some("Follow the account".to_string()),
        quiz_name: Some(12),
        calls: Some(vec!["transfer".to_string(), "approve".to_string()]),
        contracts: Some(vec!["0x1".to_string()]),
        api_url: Some("https://api.example/check".to_string()),
        regex: Some("^ok$".to_string()),
        overwrite_order: Some(3),
    }
}

fn bare_task(id: u32, quest_id: u32, kind: &str) -> TaskRecord {
    TaskRecord {
        id: Some(id),
        quest_id: Some(quest_id),
        name: Some("n".to_string()),
        href: Some("h".to_string()),
        cta: Some("c".to_string()),
        verify_endpoint: Some("v".to_string()),
        verify_endpoint_type: Some(kind.to_string()),
        verify_redirect: None,
        desc: Some("d".to_string()),
        quiz_name: None,
        calls: None,
        contracts: None,
        api_url: None,
        regex: None,
        overwrite_order: None,
    }
}

fn shown(task: TaskRecord, completed: bool, sort_order: u8) -> AggregatedTaskView {
    AggregatedTaskView { task, completed, sort_order }
}

fn query(quest_id: u32, addr: &str) -> GetTasksQuery {
    GetTasksQuery::parse(quest_id, addr).expect("a query")
}

fn open_quest(id: u32) -> Result<Option<Quest>, StoreFailure> {
    Ok(Some(Quest { id, disabled: false }))
}

#[test]
fn projection_passes_every_attribute_through() {
    let task = project(shown(full_task(5, 2, "quiz"), true, 1)).expect("a projection");
    assert_eq!(
        task,
        UserTask {
            id: 5,
            quest_id: 2,
            name: "Follow".to_string(),
            href: "https://social.example/follow".to_string(),
            cta: "Follow".to_string(),
            verify_endpoint: "quests/verify_follow".to_string(),
            verify_endpoint_type: "quiz".to_string(),
            verify_redirect: Some("https://social.example/back".to_string()),
            desc: "Follow the account".to_string(),
            completed: true,
            quiz_name: Some(12),
            calls: Some(vec!["transfer".to_string(), "approve".to_string()]),
            contracts: Some(vec!["0x1".to_string()]),
            api_url: Some("https://api.example/check".to_string()),
            regex: Some("^ok$".to_string()),
        }
    );
}

#[test]
fn projection_leaves_absent_attributes_absent() {
    let task = project(shown(bare_task(1, 1, "default"), false, 2)).expect("a projection");
    assert_eq!(task.verify_redirect, None);
    assert_eq!(task.quiz_name, None);
    assert_eq!(task.calls, None);
    assert_eq!(task.contracts, None);
    assert_eq!(task.api_url, None);
    assert_eq!(task.regex, None);
    assert!(!task.completed);
}

#[test]
fn projection_needs_each_required_attribute() {
    let skipped = Err(ErrorKind::RecordProjectionSkipped);
    let mut record = bare_task(1, 1, "quiz");
    record.id = None;
    assert_eq!(project(shown(record, false, 1)), skipped);
    let mut record = bare_task(1, 1, "quiz");
    record.quest_id = None;
    assert_eq!(project(shown(record, false, 1)), skipped);
    let mut record = bare_task(1, 1, "quiz");
    record.name = None;
    assert_eq!(project(shown(record, false, 1)), skipped);
    let mut record = bare_task(1, 1, "quiz");
    record.href = None;
    assert_eq!(project(shown(record, false, 1)), skipped);
    let mut record = bare_task(1, 1, "quiz");
    record.cta = None;
    assert_eq!(project(shown(record, false, 1)), skipped);
    let mut record = bare_task(1, 1, "quiz");
    record.verify_endpoint = None;
    assert_eq!(project(shown(record, false, 1)), skipped);
    let mut record = bare_task(1, 1, "quiz");
    record.verify_endpoint_type = None;
    assert_eq!(project(shown(record, false, 3)), skipped);
    let mut record = bare_task(1, 1, "quiz");
    record.desc = None;
    assert_eq!(project(shown(record, false, 1)), skipped);
}

#[test]
fn unprojectable_views_are_skipped_and_counted() {
    let mut broken = bare_task(2, 1, "quiz");
    broken.name = None;
    let mut nameless = bare_task(4, 1, "quiz");
    nameless.desc = None;
    let views = vec![
        shown(bare_task(1, 1, "quiz"), true, 1),
        shown(broken, false, 1),
        shown(bare_task(3, 1, "default"), false, 2),
        shown(nameless, true, 1),
    ];
    let kept = project_all(views);
    assert_eq!(kept.skipped, 2);
    let ids: Vec<u32> = kept.tasks.iter().map(|t| t.id).collect();
    assert_eq!(ids, vec![1, 3]);
    assert_eq!(kept.tasks[0].completed, true);
    assert_eq!(kept.tasks[1].completed, false);
    let none = project_all(vec![]);
    assert_eq!(none.skipped, 0);
    assert!(none.tasks.is_empty());
}

#[test]
fn request_is_answered_with_the_tasks_in_display_order() {
    let catalog = vec![bare_task(3, 1, "other"), bare_task(2, 1, "default"), bare_task(1, 1, "quiz")];
    let completions = vec![CompletionRecord { task_id: 2, address: "2748".to_string() }];
    let tasks = handler(&query(1, "0xabc"), Ok(catalog), Ok(completions), open_quest(1))
        .expect("tasks");
    let ids: Vec<u32> = tasks.iter().map(|t| t.id).collect();
    let flags: Vec<bool> = tasks.iter().map(|t| t.completed).collect();
    assert_eq!(ids, vec![1, 2, 3]);
    assert_eq!(flags, vec![false, true, false]);
}

#[test]
fn request_with_nothing_to_show_is_no_match() {
    let nothing = handler(&query(999, "0xabc"), Ok(vec![]), Ok(vec![]), Ok(None));
    assert_eq!(nothing, Err(ErrorKind::NoMatch));
    let disabled = handler(
        &query(2, "0xabc"),
        Ok(vec![bare_task(4, 2, "quiz")]),
        Ok(vec![]),
        Ok(Some(Quest { id: 2, disabled: true })),
    );
    assert_eq!(disabled, Err(ErrorKind::NoMatch));
}

#[test]
fn request_whose_tasks_are_all_unprojectable_is_no_match() {
    let mut broken = bare_task(1, 1, "quiz");
    broken.href = None;
    let answer = handler(&query(1, "0xabc"), Ok(vec![broken]), Ok(vec![]), open_quest(1));
    assert_eq!(answer, Err(ErrorKind::NoMatch));
}

#[test]
fn unprojectable_task_does_not_fail_the_request() {
    let mut broken = bare_task(1, 1, "quiz");
    broken.cta = None;
    let catalog = vec![broken, bare_task(2, 1, "other")];
    let tasks = handler(&query(1, "0xabc"), Ok(catalog), Ok(vec![]), open_quest(1)).expect("tasks");
    assert_eq!(tasks.len(), 1);
    assert_eq!(tasks[0].id, 2);
}

#[test]
fn failed_read_is_never_answered_with_tasks() {
    let failed = Err(ErrorKind::StoreUnavailable);
    let catalog = || Ok(vec![bare_task(1, 1, "quiz")]);
    assert_eq!(handler(&query(1, "0xabc"), Err(StoreFailure {}), Ok(vec![]), open_quest(1)), failed);
    assert_eq!(handler(&query(1, "0xabc"), catalog(), Err(StoreFailure {}), open_quest(1)), failed);
    assert_eq!(handler(&query(1, "0xabc"), catalog(), Ok(vec![]), Err(StoreFailure {})), failed);
    assert_eq!(handler(&query(1, "0xabc"), Err(StoreFailure {}), Ok(vec![]), Ok(None)), failed);
}

#[test]
fn errors_carry_their_texts() {
    assert_eq!(ErrorKind::StoreUnavailable.message(), "Error querying tasks");
    assert_eq!(ErrorKind::NoMatch.message(), "No tasks found for this quest_id");
    assert_eq!(ErrorKind::RecordProjectionSkipped.message(), "Task record is incomplete");
}

#[test]
fn only_a_failed_store_is_worth_a_retry() {
    assert!(ErrorKind::StoreUnavailable.is_retryable());
    assert!(!ErrorKind::NoMatch.is_retryable());
    assert!(!ErrorKind::RecordProjectionSkipped.is_retryable());
}
