//! The aggregation engine: which tasks of a quest an address is shown, with what
//! completion flag, and in what order.
//!
//! The engine reads nothing itself. Its caller reads the three stores and hands over
//! what each read gave, as it came; the engine selects, joins and orders.

use vstd::prelude::*;
use crate::address::Address;
use crate::display_order::{
    display_order, display_order_is_ordered, display_order_keeps_tasks, display_order_len,
    in_display_order, priority, shown_before, sort_views,
};
use crate::errors::ErrorKind;
use crate::records::{
    AggregatedTaskModel, AggregatedTaskView, CompletionModel, CompletionRecord, Quest,
    StoreFailure, TaskModel, TaskRecord, completion_models, task_models, view_models,
};

verus! {

/// Whether `completions` holds a record of `address` for the task `task_id`. A task
/// without an id has completed nothing.
pub open spec fn has_completed(
    task_id: Option<u32>,
    address: Seq<char>,
    completions: Seq<CompletionModel>,
) -> bool {
    exists|k: int|
        0 <= k < completions.len() && Some((#[trigger] completions[k]).task_id) == task_id
            && completions[k].address == address
}

/// Whether the quest `quest_id` can be shown: its parent was found, is that quest, and
/// is not disabled.
pub open spec fn quest_is_open(quest_id: u32, parent: Option<Quest>) -> bool {
    parent matches Some(q) && q.id == quest_id && !q.disabled
}

/// Whether `task` is among the tasks shown for `quest_id`.
pub open spec fn is_shown(task: TaskModel, quest_id: u32, parent: Option<Quest>) -> bool {
    task.quest_id == Some(quest_id) && quest_is_open(quest_id, parent)
}

/// `task` with what a request of `address` derives for it.
pub open spec fn joined(
    task: TaskModel,
    address: Seq<char>,
    completions: Seq<CompletionModel>,
) -> AggregatedTaskModel {
    AggregatedTaskModel {
        task,
        completed: has_completed(task.id, address, completions),
        sort_order: priority(task.verify_endpoint_type),
    }
}

/// The shown tasks of `catalog`, each joined, in catalog order.
pub open spec fn joined_tasks(
    quest_id: u32,
    address: Seq<char>,
    catalog: Seq<TaskModel>,
    completions: Seq<CompletionModel>,
    parent: Option<Quest>,
) -> Seq<AggregatedTaskModel> {
    catalog.filter(|t: TaskModel| is_shown(t, quest_id, parent)).map_values(
        |t: TaskModel| joined(t, address, completions),
    )
}

/// What the aggregation of a snapshot of the three stores gives: the shown tasks,
/// joined, in display order.
pub open spec fn aggregated(
    quest_id: u32,
    address: Seq<char>,
    catalog: Seq<TaskModel>,
    completions: Seq<CompletionModel>,
    parent: Option<Quest>,
) -> Seq<AggregatedTaskModel> {
    display_order(joined_tasks(quest_id, address, catalog, completions, parent))
}

/// Joining one more catalog task appends it where it is shown and changes nothing
/// where it is not.
pub proof fn joined_tasks_push(
    quest_id: u32,
    address: Seq<char>,
    catalog: Seq<TaskModel>,
    task: TaskModel,
    completions: Seq<CompletionModel>,
    parent: Option<Quest>,
)
    ensures
        joined_tasks(quest_id, address, catalog.push(task), completions, parent) == if is_shown(
            task,
            quest_id,
            parent,
        ) {
            joined_tasks(quest_id, address, catalog, completions, parent).push(
                joined(task, address, completions),
            )
        } else {
            joined_tasks(quest_id, address, catalog, completions, parent)
        },
{
    reveal(Seq::filter);
    assert(catalog.push(task).drop_last() =~= catalog);
    let shown = |t: TaskModel| is_shown(t, quest_id, parent);
    let join = |t: TaskModel| joined(t, address, completions);
    if is_shown(task, quest_id, parent) {
        assert(catalog.push(task).filter(shown) =~= catalog.filter(shown).push(task));
        assert(catalog.filter(shown).push(task).map_values(join) =~= catalog.filter(shown).map_values(
            join,
        ).push(join(task)));
    }
}

/// Every joined task is a shown catalog task with its derived attributes.
pub proof fn joined_tasks_members(
    quest_id: u32,
    address: Seq<char>,
    catalog: Seq<TaskModel>,
    completions: Seq<CompletionModel>,
    parent: Option<Quest>,
)
    ensures
        forall|v: AggregatedTaskModel|
            #[trigger] joined_tasks(quest_id, address, catalog, completions, parent).contains(v)
                <==> catalog.contains(v.task) && is_shown(v.task, quest_id, parent) && v == joined(
                v.task,
                address,
                completions,
            ),
    decreases catalog.len(),
{
    if catalog.len() == 0 {
        reveal(Seq::filter);
        assert(joined_tasks(quest_id, address, catalog, completions, parent) =~= Seq::empty());
    } else {
        let front = catalog.drop_last();
        let last = catalog.last();
        joined_tasks_members(quest_id, address, front, completions, parent);
        joined_tasks_push(quest_id, address, front, last, completions, parent);
        assert(catalog =~= front.push(last));
        let before = joined_tasks(quest_id, address, front, completions, parent);
        let all = joined_tasks(quest_id, address, catalog, completions, parent);
        assert forall|v: AggregatedTaskModel| #[trigger] all.contains(v) <==> catalog.contains(v.task)
            && is_shown(v.task, quest_id, parent) && v == joined(
            v.task,
            address,
            completions,
        ) by {
            if all.contains(v) {
                let i = choose|i: int| 0 <= i < all.len() && all[i] == v;
                if i < before.len() {
                    assert(before[i] == v);
                    assert(before.contains(v));
                    let k = choose|k: int| 0 <= k < front.len() && front[k] == v.task;
                    assert(catalog[k] == v.task);
                } else {
                    assert(v == joined(last, address, completions));
                    assert(catalog[catalog.len() - 1] == v.task);
                }
            }
            if catalog.contains(v.task) && is_shown(v.task, quest_id, parent) && v == joined(
                v.task,
                address,
                completions,
            ) {
                let k = choose|k: int| 0 <= k < catalog.len() && catalog[k] == v.task;
                if k < front.len() {
                    assert(front[k] == v.task);
                    assert(before.contains(v));
                    let i = choose|i: int| 0 <= i < before.len() && before[i] == v;
                    assert(all[i] == v);
                } else {
                    assert(all[all.len() - 1] == v);
                }
            }
        }
    }
}

/// Whether `completions` holds a record of `address` for the task `task_id`.
pub fn is_completed(
    task_id: Option<u32>,
    address: &Address,
    completions: &Vec<CompletionRecord>,
) -> (done: bool)
    ensures
        done == has_completed(task_id, address@, completion_models(completions@)),
{
    let ghost records = completion_models(completions@);
    match task_id {
        None => false,
        Some(id) => {
            let mut k: usize = 0;
            while k < completions.len()
                invariant
                    k <= completions.len(),
                    task_id == Some(id),
                    records == completion_models(completions@),
                    forall|j: int|
                        0 <= j < k ==> !((#[trigger] records[j]).task_id == id && records[j].address
                            == address@),
                decreases completions.len() - k,
            {
                if completions[k].task_id == id && address.is_stored_as(&completions[k].address) {
                    assert(records[k as int].task_id == id && records[k as int].address == address@);
                    return true;
                }
                k = k + 1;
            }
            false
        },
    }
}

/// The rank of an endpoint type in the priority table.
pub fn endpoint_priority(endpoint_type: &Option<String>) -> (rank: u8)
    ensures
        rank == priority(endpoint_type.deep_view()),
{
    match endpoint_type {
        None => 3,
        Some(name) => {
            if *name == "quiz".to_owned() {
                1
            } else if *name == "default".to_owned() {
                2
            } else {
                3
            }
        },
    }
}

/// Selects the tasks of `catalog` that are shown for `quest_id` and joins each with its
/// completion flag for `address` and with its priority. Catalog order is kept.
pub fn join_tasks(
    quest_id: u32,
    address: &Address,
    catalog: Vec<TaskRecord>,
    completions: &Vec<CompletionRecord>,
    parent: Option<Quest>,
) -> (views: Vec<AggregatedTaskView>)
    ensures
        view_models(views@) == joined_tasks(
            quest_id,
            address@,
            task_models(catalog@),
            completion_models(completions@),
            parent,
        ),
{
    let open = match parent {
        Some(q) => q.id == quest_id && !q.disabled,
        None => false,
    };
    let ghost input = catalog@;
    let ghost records = completion_models(completions@);
    let mut views: Vec<AggregatedTaskView> = Vec::new();
    proof {
        reveal(Seq::filter);
        assert(task_models(input.take(0)) =~= Seq::empty());
        assert(view_models(views@) =~= joined_tasks(
            quest_id,
            address@,
            task_models(input.take(0)),
            records,
            parent,
        ));
    }
    for task in it: catalog
        invariant
            it.seq() == input,
            open == quest_is_open(quest_id, parent),
            records == completion_models(completions@),
            view_models(views@) == joined_tasks(
                quest_id,
                address@,
                task_models(input.take(it.index())),
                records,
                parent,
            ),
    {
        let ghost k = it.index();
        let ghost before = view_models(views@);
        proof {
            assert(task_models(input.take(k + 1)) =~= task_models(input.take(k)).push(task@));
            joined_tasks_push(quest_id, address@, task_models(input.take(k)), task@, records, parent);
        }
        let selected = open && match task.quest_id {
            Some(q) => q == quest_id,
            None => false,
        };
        if selected {
            let completed = is_completed(task.id, address, completions);
            let sort_order = endpoint_priority(&task.verify_endpoint_type);
            views.push(AggregatedTaskView { task, completed, sort_order });
            assert(view_models(views@) =~= before.push(joined(task@, address@, records)));
        }
    }
    assert(input.take(input.len() as int) =~= input);
    views
}

/// What a request for the tasks of `quest_id`, made by `address`, sees of one snapshot of
/// the stores: `Err` where a read failed, the aggregation of what was read otherwise.
pub open spec fn aggregate_outcome(
    quest_id: u32,
    address: Seq<char>,
    catalog: Result<Seq<TaskModel>, StoreFailure>,
    completions: Result<Seq<CompletionModel>, StoreFailure>,
    parent: Result<Option<Quest>, StoreFailure>,
) -> Result<Seq<AggregatedTaskModel>, ErrorKind> {
    match (catalog, completions, parent) {
        (Ok(tasks), Ok(records), Ok(quest)) => Ok(
            aggregated(quest_id, address, tasks, records, quest),
        ),
        _ => Err(ErrorKind::StoreUnavailable),
    }
}

/// What the catalog read gave, as models.
pub open spec fn catalog_model(
    catalog: Result<Vec<TaskRecord>, StoreFailure>,
) -> Result<Seq<TaskModel>, StoreFailure> {
    match catalog {
        Ok(tasks) => Ok(task_models(tasks@)),
        Err(failure) => Err(failure),
    }
}

/// What the completion read gave, as models.
pub open spec fn completions_model(
    completions: Result<Vec<CompletionRecord>, StoreFailure>,
) -> Result<Seq<CompletionModel>, StoreFailure> {
    match completions {
        Ok(records) => Ok(completion_models(records@)),
        Err(failure) => Err(failure),
    }
}

/// What an aggregation returned, as models.
pub open spec fn outcome_model(
    outcome: Result<Vec<AggregatedTaskView>, ErrorKind>,
) -> Result<Seq<AggregatedTaskModel>, ErrorKind> {
    match outcome {
        Ok(views) => Ok(view_models(views@)),
        Err(kind) => Err(kind),
    }
}

/// Aggregates the tasks of `quest_id` for `address` from what the three store reads
/// gave. A failed read fails the aggregation as a whole; an aggregation that shows
/// nothing succeeds with no tasks.
pub fn aggregate(
    quest_id: u32,
    address: &Address,
    catalog: Result<Vec<TaskRecord>, StoreFailure>,
    completions: Result<Vec<CompletionRecord>, StoreFailure>,
    parent: Result<Option<Quest>, StoreFailure>,
) -> (outcome: Result<Vec<AggregatedTaskView>, ErrorKind>)
    ensures
        outcome_model(outcome) == aggregate_outcome(
            quest_id,
            address@,
            catalog_model(catalog),
            completions_model(completions),
            parent,
        ),
        outcome is Err <==> catalog is Err || completions is Err || parent is Err,
        outcome matches Ok(views) ==> {
            let shown = view_models(views@);
            let records = completion_models(completions->Ok_0@);
            &&& !quest_is_open(quest_id, parent->Ok_0) ==> shown.len() == 0
            &&& forall|i: int|
                0 <= i < shown.len() ==> {
                    &&& task_models(catalog->Ok_0@).contains((#[trigger] shown[i]).task)
                    &&& shown[i].task.quest_id == Some(quest_id)
                    &&& shown[i].completed == has_completed(shown[i].task.id, address@, records)
                    &&& shown[i].sort_order == priority(shown[i].task.verify_endpoint_type)
                }
            &&& forall|i: int, j: int|
                0 <= i < shown.len() && 0 <= j < shown.len() && (#[trigger] shown[i]).sort_order < (
                #[trigger] shown[j]).sort_order ==> i < j
            &&& in_display_order(shown)
        },
{
    let tasks = match catalog {
        Ok(tasks) => tasks,
        Err(_) => { return Err(ErrorKind::StoreUnavailable); },
    };
    let records = match completions {
        Ok(records) => records,
        Err(_) => { return Err(ErrorKind::StoreUnavailable); },
    };
    let quest = match parent {
        Ok(quest) => quest,
        Err(_) => { return Err(ErrorKind::StoreUnavailable); },
    };
    let joined_views = join_tasks(quest_id, address, tasks, &records, quest);
    let views = sort_views(joined_views);
    proof {
        let catalog_seq = task_models(tasks@);
        let record_seq = completion_models(records@);
        aggregated_is_sound(quest_id, address@, catalog_seq, record_seq, quest);
    }
    Ok(views)
}

/// What holds of every aggregation of a snapshot: nothing of a quest that is not open
/// is shown; each shown task is a catalog task of the requested quest, with the
/// completion flag and the priority that the snapshot gives it; and the tasks stand in
/// display order, so a task of lower priority rank never stands behind one of higher.
pub proof fn aggregated_is_sound(
    quest_id: u32,
    address: Seq<char>,
    catalog: Seq<TaskModel>,
    completions: Seq<CompletionModel>,
    parent: Option<Quest>,
)
    ensures
        ({
            let shown = aggregated(quest_id, address, catalog, completions, parent);
            &&& !quest_is_open(quest_id, parent) ==> shown.len() == 0
            &&& forall|i: int|
                0 <= i < shown.len() ==> {
                    &&& catalog.contains((#[trigger] shown[i]).task)
                    &&& shown[i].task.quest_id == Some(quest_id)
                    &&& shown[i].completed == has_completed(shown[i].task.id, address, completions)
                    &&& shown[i].sort_order == priority(shown[i].task.verify_endpoint_type)
                }
            &&& forall|i: int, j: int|
                0 <= i < shown.len() && 0 <= j < shown.len() && (#[trigger] shown[i]).sort_order < (
                #[trigger] shown[j]).sort_order ==> i < j
            &&& in_display_order(shown)
        }),
{
    let all = joined_tasks(quest_id, address, catalog, completions, parent);
    let shown = aggregated(quest_id, address, catalog, completions, parent);
    joined_tasks_members(quest_id, address, catalog, completions, parent);
    display_order_keeps_tasks(all);
    display_order_is_ordered(all);
    display_order_len(all);
    assert forall|i: int| 0 <= i < shown.len() implies {
        &&& catalog.contains((#[trigger] shown[i]).task)
        &&& shown[i].task.quest_id == Some(quest_id)
        &&& quest_is_open(quest_id, parent)
        &&& shown[i].completed == has_completed(shown[i].task.id, address, completions)
        &&& shown[i].sort_order == priority(shown[i].task.verify_endpoint_type)
    } by {
        assert(shown.contains(shown[i]));
        assert(all.contains(shown[i]));
    }
    if !quest_is_open(quest_id, parent) && shown.len() > 0 {
        assert(quest_is_open(quest_id, parent)) by {
            assert(shown.contains(shown[0]));
        }
    }
    assert forall|i: int, j: int|
        0 <= i < shown.len() && 0 <= j < shown.len() && (#[trigger] shown[i]).sort_order < (
        #[trigger] shown[j]).sort_order implies i < j by {
        if j < i {
            assert(shown_before(shown[i], shown[j]));
        }
    }
}

/// Aggregation is repeatable: two aggregations for one quest and one address, each of
/// a snapshot that holds what the other holds, return the same tasks in the same order,
/// or fail alike.
pub proof fn aggregate_is_repeatable(
    quest_id: u32,
    address: Seq<char>,
    first_catalog: Result<Vec<TaskRecord>, StoreFailure>,
    first_completions: Result<Vec<CompletionRecord>, StoreFailure>,
    second_catalog: Result<Vec<TaskRecord>, StoreFailure>,
    second_completions: Result<Vec<CompletionRecord>, StoreFailure>,
    parent: Result<Option<Quest>, StoreFailure>,
    first: Result<Vec<AggregatedTaskView>, ErrorKind>,
    second: Result<Vec<AggregatedTaskView>, ErrorKind>,
)
    requires
        catalog_model(first_catalog) == catalog_model(second_catalog),
        completions_model(first_completions) == completions_model(second_completions),
        outcome_model(first) == aggregate_outcome(
            quest_id,
            address,
            catalog_model(first_catalog),
            completions_model(first_completions),
            parent,
        ),
        outcome_model(second) == aggregate_outcome(
            quest_id,
            address,
            catalog_model(second_catalog),
            completions_model(second_completions),
            parent,
        ),
    ensures
        outcome_model(first) == outcome_model(second),
        first matches Ok(views) ==> second matches Ok(again) && views.len() == again.len()
            && forall|i: int| 0 <= i < views.len() ==> (#[trigger] views[i])@ == again[i]@,
{
    if let Ok(views) = first {
        let again = second->Ok_0;
        assert(view_models(views@) == view_models(again@));
        assert forall|i: int| 0 <= i < views.len() implies (#[trigger] views[i])@ == again[i]@ by {
            assert(view_models(views@)[i] == views[i]@);
            assert(view_models(again@)[i] == again[i]@);
        }
    }
}

} // verus!
