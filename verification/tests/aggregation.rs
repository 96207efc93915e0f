use quest_tasks::address::Address;
use quest_tasks::aggregation::{aggregate, endpoint_priority, is_completed, join_tasks};
use quest_tasks::display_order::{find_slot, precedes, sort_views};
use quest_tasks::errors::ErrorKind;
use quest_tasks::records::{
    AggregatedTaskView, CompletionRecord, Quest, StoreFailure, TaskRecord,
};

fn task(id: u32, quest_id: u32, kind: &str) -> TaskRecord {
    TaskRecord {
        id: Some(id),
        quest_id: Some(quest_id),
        name: Some(format!("task {}", id)),
        href: Some(format!("https://quests.example/{}", id)),
        cta: Some("Start".to_string()),
        verify_endpoint: Some(format!("quests/verify/{}", id)),
        verify_endpoint_type: Some(kind.to_string()),
        verify_redirect: None,
        desc: Some(format!("what task {} asks for", id)),
        quiz_name: None,
        calls: None,
        contracts: None,
        api_url: None,
        regex: None,
        overwrite_order: None,
    }
}

fn ordered(id: u32, quest_id: u32, kind: &str, order: i64) -> TaskRecord {
    let mut record = task(id, quest_id, kind);
    record.overwrite_order = Some(order);
    record
}

fn done(task_id: u32, address: &str) -> CompletionRecord {
    CompletionRecord { task_id, address: address.to_string() }
}

fn open_quest(id: u32) -> Result<Option<Quest>, StoreFailure> {
    Ok(Some(Quest { id, disabled: false }))
}

fn ids(views: &Vec<AggregatedTaskView>) -> Vec<u32> {
    let mut out = Vec::new();
    for view in views {
        out.push(view.task.id.expect("an id"));
    }
    out
}

fn flags(views: &Vec<AggregatedTaskView>) -> Vec<bool> {
    let mut out = Vec::new();
    for view in views {
        out.push(view.completed);
    }
    out
}

fn view(id: u32, sort_order: u8, order: Option<i64>) -> AggregatedTaskView {
    let mut record = task(id, 1, "other");
    record.overwrite_order = order;
    AggregatedTaskView { task: record, completed: false, sort_order }
}

#[test]
fn unknown_quest_gives_an_empty_sequence() {
    let address = Address::parse("0xabc").expect("an address");
    let outcome = aggregate(999, &address, Ok(vec![]), Ok(vec![]), Ok(None));
    assert_eq!(outcome, Ok(vec![]));
}

#[test]
fn unknown_quest_among_other_quests_gives_an_empty_sequence() {
    let address = Address::parse("0xabc").expect("an address");
    let catalog = vec![task(1, 1, "quiz"), task(2, 2, "default")];
    let outcome = aggregate(999, &address, Ok(catalog), Ok(vec![done(1, "2748")]), Ok(None));
    assert_eq!(outcome, Ok(vec![]));
}

#[test]
fn tasks_come_by_priority_with_their_completion() {
    let address = Address::parse("0xabc").expect("an address");
    let catalog = vec![task(1, 1, "quiz"), task(2, 1, "default"), task(3, 1, "other")];
    let completions = vec![done(2, "2748")];
    let views = aggregate(1, &address, Ok(catalog), Ok(completions), open_quest(1))
        .expect("an aggregation");
    assert_eq!(ids(&views), vec![1, 2, 3]);
    assert_eq!(flags(&views), vec![false, true, false]);
}

#[test]
fn catalog_order_does_not_show_through_priorities() {
    let address = Address::parse("0xabc").expect("an address");
    let catalog = vec![task(3, 1, "other"), task(2, 1, "default"), task(1, 1, "quiz")];
    let completions = vec![done(2, "2748")];
    let views = aggregate(1, &address, Ok(catalog), Ok(completions), open_quest(1))
        .expect("an aggregation");
    assert_eq!(ids(&views), vec![1, 2, 3]);
    assert_eq!(flags(&views), vec![false, true, false]);
    let orders: Vec<u8> = views.iter().map(|v| v.sort_order).collect();
    assert_eq!(orders, vec![1, 2, 3]);
}

#[test]
fn disabled_quest_gives_an_empty_sequence() {
    let address = Address::parse("0xabc").expect("an address");
    let catalog = vec![task(4, 2, "quiz")];
    let parent = Ok(Some(Quest { id: 2, disabled: true }));
    let outcome = aggregate(2, &address, Ok(catalog), Ok(vec![]), parent);
    assert_eq!(outcome, Ok(vec![]));
}

#[test]
fn disabled_quest_hides_every_task_from_every_address() {
    for raw in ["0x1", "0xabc", "12345678901234567890"] {
        let address = Address::parse(raw).expect("an address");
        let catalog = vec![task(4, 2, "quiz"), task(5, 2, "default"), ordered(6, 2, "x", 1)];
        let completions = vec![done(4, address.as_str()), done(5, "1")];
        let parent = Ok(Some(Quest { id: 2, disabled: true }));
        let outcome = aggregate(2, &address, Ok(catalog), Ok(completions), parent);
        assert_eq!(outcome, Ok(vec![]));
    }
}

#[test]
fn task_without_a_found_parent_is_dropped() {
    let address = Address::parse("0xabc").expect("an address");
    let missing = aggregate(1, &address, Ok(vec![task(1, 1, "quiz")]), Ok(vec![]), Ok(None));
    assert_eq!(missing, Ok(vec![]));
    let other = aggregate(1, &address, Ok(vec![task(1, 1, "quiz")]), Ok(vec![]), open_quest(2));
    assert_eq!(other, Ok(vec![]));
}

#[test]
fn failed_catalog_read_is_store_unavailable() {
    let address = Address::parse("0xabc").expect("an address");
    let outcome = aggregate(1, &address, Err(StoreFailure {}), Ok(vec![]), open_quest(1));
    assert_eq!(outcome, Err(ErrorKind::StoreUnavailable));
    assert_ne!(outcome, Ok(vec![]));
}

#[test]
fn failed_completion_read_is_store_unavailable() {
    let address = Address::parse("0xabc").expect("an address");
    let catalog = vec![task(1, 1, "quiz")];
    let outcome = aggregate(1, &address, Ok(catalog), Err(StoreFailure {}), open_quest(1));
    assert_eq!(outcome, Err(ErrorKind::StoreUnavailable));
}

#[test]
fn failed_quest_read_is_store_unavailable() {
    let address = Address::parse("0xabc").expect("an address");
    let catalog = vec![task(1, 1, "quiz")];
    let outcome = aggregate(1, &address, Ok(catalog), Ok(vec![]), Err(StoreFailure {}));
    assert_eq!(outcome, Err(ErrorKind::StoreUnavailable));
}

#[test]
fn only_tasks_of_the_requested_quest_are_shown() {
    let address = Address::parse("0xabc").expect("an address");
    let mut stray = task(9, 1, "quiz");
    stray.quest_id = None;
    let catalog = vec![task(1, 1, "quiz"), task(2, 2, "quiz"), stray, task(3, 1, "quiz")];
    let views = aggregate(1, &address, Ok(catalog), Ok(vec![]), open_quest(1))
        .expect("an aggregation");
    assert_eq!(ids(&views), vec![1, 3]);
    for view in &views {
        assert_eq!(view.task.quest_id, Some(1));
    }
}

#[test]
fn completion_counts_for_its_task_and_its_address_only() {
    let address = Address::parse("0xabc").expect("an address");
    let catalog = vec![task(1, 1, "quiz"), task(2, 1, "quiz"), task(3, 1, "quiz")];
    let completions = vec![
        done(1, "2749"),
        done(2, "2748"),
        done(2, "2748"),
        done(4, "2748"),
        done(3, "0xabc"),
    ];
    let views = aggregate(1, &address, Ok(catalog), Ok(completions), open_quest(1))
        .expect("an aggregation");
    assert_eq!(ids(&views), vec![1, 2, 3]);
    assert_eq!(flags(&views), vec![false, true, false]);
}

#[test]
fn is_completed_asks_for_one_matching_record() {
    let address = Address::parse("0x10").expect("an address");
    let completions = vec![done(1, "17"), done(2, "16")];
    assert!(is_completed(Some(2), &address, &completions));
    assert!(!is_completed(Some(1), &address, &completions));
    assert!(!is_completed(Some(3), &address, &completions));
    assert!(!is_completed(None, &address, &completions));
    assert!(!is_completed(Some(2), &address, &vec![]));
}

#[test]
fn aggregation_of_one_snapshot_is_repeatable() {
    let address = Address::parse("0xabc").expect("an address");
    let catalog = vec![
        task(5, 1, "other"),
        ordered(4, 1, "default", 2),
        task(3, 1, "quiz"),
        ordered(2, 1, "default", 1),
        task(1, 1, "quiz"),
    ];
    let completions = vec![done(4, "2748"), done(1, "2748")];
    let first = aggregate(1, &address, Ok(catalog.clone()), Ok(completions.clone()), open_quest(1));
    let second = aggregate(1, &address, Ok(catalog), Ok(completions), open_quest(1));
    assert_eq!(first, second);
    assert_eq!(ids(&first.expect("an aggregation")), vec![3, 1, 2, 4, 5]);
}

#[test]
fn lower_priority_rank_always_stands_first() {
    let address = Address::parse("0xabc").expect("an address");
    let catalog = vec![
        task(1, 1, "other"),
        ordered(2, 1, "default", -5),
        ordered(3, 1, "other", -100),
        task(4, 1, "quiz"),
        ordered(5, 1, "quiz", 100),
        task(6, 1, "default"),
    ];
    let views = aggregate(1, &address, Ok(catalog), Ok(vec![]), open_quest(1))
        .expect("an aggregation");
    for i in 0..views.len() {
        for j in 0..views.len() {
            if views[i].sort_order < views[j].sort_order {
                assert!(i < j);
            }
        }
    }
    assert_eq!(ids(&views), vec![5, 4, 2, 6, 3, 1]);
}

#[test]
fn priority_table_has_three_ranks() {
    assert_eq!(endpoint_priority(&Some("quiz".to_string())), 1);
    assert_eq!(endpoint_priority(&Some("default".to_string())), 2);
    assert_eq!(endpoint_priority(&Some("other".to_string())), 3);
    assert_eq!(endpoint_priority(&Some("Quiz".to_string())), 3);
    assert_eq!(endpoint_priority(&Some("".to_string())), 3);
    assert_eq!(endpoint_priority(&None), 3);
}

#[test]
fn override_breaks_ties_within_one_priority() {
    let views = vec![
        view(1, 2, None),
        view(2, 2, Some(7)),
        view(3, 2, Some(-1)),
        view(4, 2, None),
        view(5, 2, Some(7)),
    ];
    let sorted = sort_views(views);
    assert_eq!(ids(&sorted), vec![3, 2, 5, 1, 4]);
}

#[test]
fn override_never_crosses_priorities() {
    let views = vec![view(1, 3, Some(0)), view(2, 1, None), view(3, 2, Some(9))];
    let sorted = sort_views(views);
    assert_eq!(ids(&sorted), vec![2, 3, 1]);
}

#[test]
fn ties_keep_their_input_order() {
    let views = vec![view(8, 1, None), view(3, 1, None), view(5, 1, None)];
    assert_eq!(ids(&sort_views(views)), vec![8, 3, 5]);
    assert_eq!(ids(&sort_views(vec![])), Vec::<u32>::new());
}

#[test]
fn precedes_goes_by_priority_then_override() {
    assert!(precedes(&view(1, 1, None), &view(2, 2, Some(0))));
    assert!(!precedes(&view(2, 2, Some(0)), &view(1, 1, None)));
    assert!(precedes(&view(1, 2, Some(1)), &view(2, 2, Some(2))));
    assert!(precedes(&view(1, 2, Some(1)), &view(2, 2, None)));
    assert!(!precedes(&view(1, 2, None), &view(2, 2, Some(1))));
    assert!(!precedes(&view(1, 2, None), &view(2, 2, None)));
    assert!(!precedes(&view(1, 2, Some(4)), &view(2, 2, Some(4))));
}

#[test]
fn slot_lies_behind_the_last_task_that_is_not_shown_later() {
    let placed = vec![view(1, 1, None), view(2, 2, Some(1)), view(3, 2, None), view(4, 3, None)];
    assert_eq!(find_slot(&placed, &view(9, 1, Some(0))), 0);
    assert_eq!(find_slot(&placed, &view(9, 1, None)), 1);
    assert_eq!(find_slot(&placed, &view(9, 2, Some(1))), 2);
    assert_eq!(find_slot(&placed, &view(9, 2, None)), 3);
    assert_eq!(find_slot(&placed, &view(9, 3, None)), 4);
    assert_eq!(find_slot(&vec![], &view(9, 3, None)), 0);
}

#[test]
fn join_keeps_catalog_order_and_derives_both_attributes() {
    let address = Address::parse("0xabc").expect("an address");
    let catalog = vec![task(3, 1, "other"), task(2, 2, "quiz"), task(1, 1, "quiz")];
    let completions = vec![done(1, "2748")];
    let views = join_tasks(1, &address, catalog, &completions, Some(Quest { id: 1, disabled: false }));
    assert_eq!(ids(&views), vec![3, 1]);
    assert_eq!(flags(&views), vec![false, true]);
    assert_eq!(views[0].sort_order, 3);
    assert_eq!(views[1].sort_order, 1);
    assert_eq!(views[0].task, task(3, 1, "other"));
}
