//! The tasks of a quest as one address sees them.
//!
//! The operation aggregates what the stores gave, projects each aggregated task to the
//! shape that callers see, and answers with the tasks or with the reason for having none.

use vstd::prelude::*;
use crate::address::{Address, felt_decimal};
use crate::aggregation::{
    aggregate, aggregate_outcome, catalog_model, completions_model, outcome_model,
};
use crate::errors::ErrorKind;
use crate::records::{
    AggregatedTaskModel, AggregatedTaskView, CompletionRecord, Quest, StoreFailure, TaskModel,
    TaskRecord, view_models,
};

verus! {

/// A task as a caller sees it. `completed` is always there; an attribute that the
/// catalog task never had is absent, not empty.
#[derive(Debug, Clone, PartialEq, Eq)]
pub struct UserTask {
    pub id: u32,
    pub quest_id: u32,
    pub name: String,
    pub href: String,
    pub cta: String,
    pub verify_endpoint: String,
    pub verify_endpoint_type: String,
    pub verify_redirect: Option<String>,
    pub desc: String,
    pub completed: bool,
    pub quiz_name: Option<i64>,
    pub calls: Option<Vec<String>>,
    pub contracts: Option<Vec<String>>,
    pub api_url: Option<String>,
    pub regex: Option<String>,
}

/// The model of a [`UserTask`].
pub struct UserTaskModel {
    pub id: u32,
    pub quest_id: u32,
    pub name: Seq<char>,
    pub href: Seq<char>,
    pub cta: Seq<char>,
    pub verify_endpoint: Seq<char>,
    pub verify_endpoint_type: Seq<char>,
    pub verify_redirect: Option<Seq<char>>,
    pub desc: Seq<char>,
    pub completed: bool,
    pub quiz_name: Option<i64>,
    pub calls: Option<Seq<Seq<char>>>,
    pub contracts: Option<Seq<Seq<char>>>,
    pub api_url: Option<Seq<char>>,
    pub regex: Option<Seq<char>>,
}

impl View for UserTask {
    type V = UserTaskModel;

    open spec fn view(&self) -> UserTaskModel {
        UserTaskModel {
            id: self.id,
            quest_id: self.quest_id,
            name: self.name@,
            href: self.href@,
            cta: self.cta@,
            verify_endpoint: self.verify_endpoint@,
            verify_endpoint_type: self.verify_endpoint_type@,
            verify_redirect: self.verify_redirect.deep_view(),
            desc: self.desc@,
            completed: self.completed,
            quiz_name: self.quiz_name,
            calls: self.calls.deep_view(),
            contracts: self.contracts.deep_view(),
            api_url: self.api_url.deep_view(),
            regex: self.regex.deep_view(),
        }
    }
}

/// The models of a sequence of tasks as callers see them, in the same order.
pub open spec fn user_task_models(tasks: Seq<UserTask>) -> Seq<UserTaskModel> {
    tasks.map_values(|t: UserTask| t@)
}

/// What a caller sends to ask for tasks: the quest, and the address that asks.
#[derive(Debug, Clone, PartialEq, Eq)]
pub struct GetTasksQuery {
    pub quest_id: u32,
    pub addr: Address,
}

impl GetTasksQuery {
    /// Reads a query as a request writes it. `None` where `addr` denotes no address.
    pub fn parse(quest_id: u32, addr: &str) -> (query: Option<GetTasksQuery>)
        ensures
            match felt_decimal(addr@) {
                Some(text) => query matches Some(q) && q.quest_id == quest_id && q.addr@ == text,
                None => query is None,
            },
    {
        match Address::parse(addr) {
            Some(addr) => Some(GetTasksQuery { quest_id, addr }),
            None => None,
        }
    }
}

/// Whether `task` has every attribute that a shown task needs.
pub open spec fn is_projectable(task: TaskModel) -> bool {
    &&& task.id is Some
    &&& task.quest_id is Some
    &&& task.name is Some
    &&& task.href is Some
    &&& task.cta is Some
    &&& task.verify_endpoint is Some
    &&& task.verify_endpoint_type is Some
    &&& task.desc is Some
}

/// `view` as a caller sees it, where its task is projectable.
pub open spec fn shown_task(view: AggregatedTaskModel) -> UserTaskModel
    recommends
        is_projectable(view.task),
{
    UserTaskModel {
        id: view.task.id->0,
        quest_id: view.task.quest_id->0,
        name: view.task.name->0,
        href: view.task.href->0,
        cta: view.task.cta->0,
        verify_endpoint: view.task.verify_endpoint->0,
        verify_endpoint_type: view.task.verify_endpoint_type->0,
        verify_redirect: view.task.verify_redirect,
        desc: view.task.desc->0,
        completed: view.completed,
        quiz_name: view.task.quiz_name,
        calls: view.task.calls,
        contracts: view.task.contracts,
        api_url: view.task.api_url,
        regex: view.task.regex,
    }
}

/// The projection of one aggregated task.
pub open spec fn projected(view: AggregatedTaskModel) -> Result<UserTaskModel, ErrorKind> {
    if is_projectable(view.task) {
        Ok(shown_task(view))
    } else {
        Err(ErrorKind::RecordProjectionSkipped)
    }
}

/// The projections of the projectable tasks of `views`, in the same order.
pub open spec fn projected_tasks(views: Seq<AggregatedTaskModel>) -> Seq<UserTaskModel> {
    views.filter(|v: AggregatedTaskModel| is_projectable(v.task)).map_values(
        |v: AggregatedTaskModel| shown_task(v),
    )
}

/// Projecting one more view appends its projection where it has one and changes
/// nothing where it has none.
pub proof fn projected_tasks_push(views: Seq<AggregatedTaskModel>, view: AggregatedTaskModel)
    ensures
        projected_tasks(views.push(view)) == if is_projectable(view.task) {
            projected_tasks(views).push(shown_task(view))
        } else {
            projected_tasks(views)
        },
{
    reveal(Seq::filter);
    assert(views.push(view).drop_last() =~= views);
    let keep = |v: AggregatedTaskModel| is_projectable(v.task);
    let show = |v: AggregatedTaskModel| shown_task(v);
    if is_projectable(view.task) {
        assert(views.push(view).filter(keep) =~= views.filter(keep).push(view));
        assert(views.filter(keep).push(view).map_values(show) =~= views.filter(keep).map_values(
            show,
        ).push(show(view)));
    }
}

/// What a projection returned, as a model.
pub open spec fn projection_model(r: Result<UserTask, ErrorKind>) -> Result<UserTaskModel, ErrorKind> {
    match r {
        Ok(task) => Ok(task@),
        Err(kind) => Err(kind),
    }
}

/// Maps an aggregated task to the shape that callers see. The sort key and the
/// override order stay behind. A task that lacks a needed attribute has no projection.
pub fn project(view: AggregatedTaskView) -> (r: Result<UserTask, ErrorKind>)
    ensures
        projection_model(r) == projected(view@),
{
    let AggregatedTaskView { task, completed, sort_order: _ } = view;
    let id = match task.id {
        Some(id) => id,
        None => { return Err(ErrorKind::RecordProjectionSkipped); },
    };
    let quest_id = match task.quest_id {
        Some(quest_id) => quest_id,
        None => { return Err(ErrorKind::RecordProjectionSkipped); },
    };
    let name = match task.name {
        Some(name) => name,
        None => { return Err(ErrorKind::RecordProjectionSkipped); },
    };
    let href = match task.href {
        Some(href) => href,
        None => { return Err(ErrorKind::RecordProjectionSkipped); },
    };
    let cta = match task.cta {
        Some(cta) => cta,
        None => { return Err(ErrorKind::RecordProjectionSkipped); },
    };
    let verify_endpoint = match task.verify_endpoint {
        Some(verify_endpoint) => verify_endpoint,
        None => { return Err(ErrorKind::RecordProjectionSkipped); },
    };
    let verify_endpoint_type = match task.verify_endpoint_type {
        Some(verify_endpoint_type) => verify_endpoint_type,
        None => { return Err(ErrorKind::RecordProjectionSkipped); },
    };
    let desc = match task.desc {
        Some(desc) => desc,
        None => { return Err(ErrorKind::RecordProjectionSkipped); },
    };
    Ok(
        UserTask {
            id,
            quest_id,
            name,
            href,
            cta,
            verify_endpoint,
            verify_endpoint_type,
            verify_redirect: task.verify_redirect,
            desc,
            completed,
            quiz_name: task.quiz_name,
            calls: task.calls,
            contracts: task.contracts,
            api_url: task.api_url,
            regex: task.regex,
        },
    )
}

/// The tasks that a projection kept, and how many aggregated tasks it left out.
#[derive(Debug, Clone, PartialEq, Eq)]
pub struct Projection {
    pub tasks: Vec<UserTask>,
    pub skipped: usize,
}

/// Projects every view that has a projection, in order, and counts the others.
pub fn project_all(views: Vec<AggregatedTaskView>) -> (kept: Projection)
    ensures
        user_task_models(kept.tasks@) == projected_tasks(view_models(views@)),
        kept.skipped == views.len() - kept.tasks.len(),
{
    let ghost input = views@;
    let total = views.len();
    let mut tasks: Vec<UserTask> = Vec::new();
    let mut skipped: usize = 0;
    proof {
        reveal(Seq::filter);
        assert(view_models(input.take(0)) =~= Seq::empty());
        assert(user_task_models(tasks@) =~= projected_tasks(view_models(input.take(0))));
    }
    for view in it: views
        invariant
            it.seq() == input,
            input.len() == total,
            tasks.len() + skipped == it.index(),
            user_task_models(tasks@) == projected_tasks(view_models(input.take(it.index()))),
    {
        let ghost k = it.index();
        let ghost before = user_task_models(tasks@);
        proof {
            assert(view_models(input.take(k + 1)) =~= view_models(input.take(k)).push(view@));
            projected_tasks_push(view_models(input.take(k)), view@);
        }
        match project(view) {
            Ok(task) => {
                tasks.push(task);
                assert(user_task_models(tasks@) =~= before.push(task@));
            },
            Err(_) => {
                skipped = skipped + 1;
            },
        }
    }
    assert(input.take(input.len() as int) =~= input);
    Projection { tasks, skipped }
}

/// What a request for tasks is answered with, given what the store reads gave: the
/// error of the aggregation where it failed, `NoMatch` where no task is left to show,
/// and the shown tasks otherwise.
pub open spec fn get_tasks_outcome(
    quest_id: u32,
    address: Seq<char>,
    catalog: Result<Seq<TaskModel>, StoreFailure>,
    completions: Result<Seq<crate::records::CompletionModel>, StoreFailure>,
    parent: Result<Option<Quest>, StoreFailure>,
) -> Result<Seq<UserTaskModel>, ErrorKind> {
    match aggregate_outcome(quest_id, address, catalog, completions, parent) {
        Err(kind) => Err(kind),
        Ok(views) => if projected_tasks(views).len() == 0 {
            Err(ErrorKind::NoMatch)
        } else {
            Ok(projected_tasks(views))
        },
    }
}

/// What the operation answered, as a model.
pub open spec fn response_model(
    response: Result<Vec<UserTask>, ErrorKind>,
) -> Result<Seq<UserTaskModel>, ErrorKind> {
    match response {
        Ok(tasks) => Ok(user_task_models(tasks@)),
        Err(kind) => Err(kind),
    }
}

/// Answers a request for the tasks of a quest from what the three store reads gave.
pub fn handler(
    query: &GetTasksQuery,
    catalog: Result<Vec<TaskRecord>, StoreFailure>,
    completions: Result<Vec<CompletionRecord>, StoreFailure>,
    parent: Result<Option<Quest>, StoreFailure>,
) -> (response: Result<Vec<UserTask>, ErrorKind>)
    ensures
        response_model(response) == get_tasks_outcome(
            query.quest_id,
            query.addr@,
            catalog_model(catalog),
            completions_model(completions),
            parent,
        ),
        response matches Ok(tasks) ==> tasks.len() > 0,
        response matches Err(ErrorKind::StoreUnavailable) <==> catalog is Err || completions is Err
            || parent is Err,
        !(response matches Err(ErrorKind::RecordProjectionSkipped)),
{
    match aggregate(query.quest_id, &query.addr, catalog, completions, parent) {
        Err(kind) => Err(kind),
        Ok(views) => {
            let kept = project_all(views);
            if kept.tasks.len() == 0 {
                Err(ErrorKind::NoMatch)
            } else {
                Ok(kept.tasks)
            }
        },
    }
}

} // verus!
