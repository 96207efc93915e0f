//! The records that the three stores hand to the engine, and their mathematical models.
//!
//! A record is plain data. Its model (`@`) replaces every string by the sequence of its
//! characters, so that contracts speak of text and never of allocations.

use vstd::prelude::*;

verus! {

/// A task as the catalog stores it. The store is schemaless: any attribute may be
/// missing from a stored task, also one that a visible task needs.
#[derive(Debug, Clone, PartialEq, Eq)]
pub struct TaskRecord {
    pub id: Option<u32>,
    pub quest_id: Option<u32>,
    pub name: Option<String>,
    pub href: Option<String>,
    pub cta: Option<String>,
    pub verify_endpoint: Option<String>,
    pub verify_endpoint_type: Option<String>,
    pub verify_redirect: Option<String>,
    pub desc: Option<String>,
    pub quiz_name: Option<i64>,
    pub calls: Option<Vec<String>>,
    pub contracts: Option<Vec<String>>,
    pub api_url: Option<String>,
    pub regex: Option<String>,
    pub overwrite_order: Option<i64>,
}

/// The model of a [`TaskRecord`].
pub struct TaskModel {
    pub id: Option<u32>,
    pub quest_id: Option<u32>,
    pub name: Option<Seq<char>>,
    pub href: Option<Seq<char>>,
    pub cta: Option<Seq<char>>,
    pub verify_endpoint: Option<Seq<char>>,
    pub verify_endpoint_type: Option<Seq<char>>,
    pub verify_redirect: Option<Seq<char>>,
    pub desc: Option<Seq<char>>,
    pub quiz_name: Option<i64>,
    pub calls: Option<Seq<Seq<char>>>,
    pub contracts: Option<Seq<Seq<char>>>,
    pub api_url: Option<Seq<char>>,
    pub regex: Option<Seq<char>>,
    pub overwrite_order: Option<i64>,
}

impl View for TaskRecord {
    type V = TaskModel;

    open spec fn view(&self) -> TaskModel {
        TaskModel {
            id: self.id,
            quest_id: self.quest_id,
            name: self.name.deep_view(),
            href: self.href.deep_view(),
            cta: self.cta.deep_view(),
            verify_endpoint: self.verify_endpoint.deep_view(),
            verify_endpoint_type: self.verify_endpoint_type.deep_view(),
            verify_redirect: self.verify_redirect.deep_view(),
            desc: self.desc.deep_view(),
            quiz_name: self.quiz_name,
            calls: self.calls.deep_view(),
            contracts: self.contracts.deep_view(),
            api_url: self.api_url.deep_view(),
            regex: self.regex.deep_view(),
            overwrite_order: self.overwrite_order,
        }
    }
}

/// The fact that an address has completed a task. The engine only asks whether one exists.
#[derive(Debug, Clone, PartialEq, Eq)]
pub struct CompletionRecord {
    pub task_id: u32,
    pub address: String,
}

/// The model of a [`CompletionRecord`].
pub struct CompletionModel {
    pub task_id: u32,
    pub address: Seq<char>,
}

impl View for CompletionRecord {
    type V = CompletionModel;

    open spec fn view(&self) -> CompletionModel {
        CompletionModel { task_id: self.task_id, address: self.address@ }
    }
}

/// A quest as far as visibility goes. It holds no text, so it is its own model.
#[derive(Debug, Clone, Copy, PartialEq, Eq, Structural)]
pub struct Quest {
    pub id: u32,
    pub disabled: bool,
}

/// A store read that did not complete. The engine never retries one.
#[derive(Debug, Clone, Copy, PartialEq, Eq, Structural)]
pub struct StoreFailure {}

/// A task joined with what one request derives for it.
#[derive(Debug, Clone, PartialEq, Eq)]
pub struct AggregatedTaskView {
    pub task: TaskRecord,
    pub completed: bool,
    pub sort_order: u8,
}

/// The model of an [`AggregatedTaskView`].
pub struct AggregatedTaskModel {
    pub task: TaskModel,
    pub completed: bool,
    pub sort_order: u8,
}

impl View for AggregatedTaskView {
    type V = AggregatedTaskModel;

    open spec fn view(&self) -> AggregatedTaskModel {
        AggregatedTaskModel {
            task: self.task@,
            completed: self.completed,
            sort_order: self.sort_order,
        }
    }
}

/// The models of a sequence of tasks, in the same order.
pub open spec fn task_models(tasks: Seq<TaskRecord>) -> Seq<TaskModel> {
    tasks.map_values(|t: TaskRecord| t@)
}

/// The models of a sequence of completion records, in the same order.
pub open spec fn completion_models(records: Seq<CompletionRecord>) -> Seq<CompletionModel> {
    records.map_values(|c: CompletionRecord| c@)
}

/// The models of a sequence of aggregated tasks, in the same order.
pub open spec fn view_models(views: Seq<AggregatedTaskView>) -> Seq<AggregatedTaskModel> {
    views.map_values(|v: AggregatedTaskView| v@)
}

} // verus!
