//! Tasks of the scheduler and the updates the scheduler makes to them.

use crate::clock::Timestamp;
use crate::enums::ProcessTrackerStatus;
use crate::text::clone_text;
use vstd::prelude::*;

verus! {

/// One task: a piece of deferred work, with the workflow that carries it
/// out. `status` is the scheduler's; `business_status` is the workflow's.
#[derive(Debug, PartialEq)]
pub struct ProcessTracker {
    pub id: String,
    /// The name of the workflow that carries the task out.
    pub name: Option<String>,
    pub runner: Option<String>,
    pub retry_count: i32,
    pub schedule_time: Option<Timestamp>,
    pub rule: String,
    /// What the workflow needs to know, uninterpreted by the scheduler.
    pub tracking_data: serde_json::Value,
    pub business_status: String,
    pub status: ProcessTrackerStatus,
    pub created_at: Timestamp,
    pub updated_at: Timestamp,
}

impl Clone for ProcessTracker {
    fn clone(&self) -> (r: Self)
        ensures
            r == *self,
    {
        ProcessTracker {
            id: self.id.clone(),
            name: clone_text(&self.name),
            runner: clone_text(&self.runner),
            retry_count: self.retry_count,
            schedule_time: self.schedule_time,
            rule: self.rule.clone(),
            tracking_data: self.tracking_data.clone(),
            business_status: self.business_status.clone(),
            status: self.status,
            created_at: self.created_at,
            updated_at: self.updated_at,
        }
    }
}

/// A task about to be created.
#[derive(Debug, PartialEq)]
pub struct ProcessTrackerNew {
    pub id: String,
    pub name: Option<String>,
    pub runner: Option<String>,
    pub retry_count: i32,
    pub schedule_time: Option<Timestamp>,
    pub rule: String,
    pub tracking_data: serde_json::Value,
    pub business_status: String,
    pub status: ProcessTrackerStatus,
    pub created_at: Timestamp,
    pub updated_at: Timestamp,
}

/// A batch of tasks as the task queue delivers it to one consumer.
#[derive(Debug, PartialEq)]
pub struct ProcessTrackerBatch {
    pub id: String,
    pub group_name: String,
    pub stream_name: String,
    pub connection_name: String,
    pub created_time: Timestamp,
    pub rule: String,
    pub trackers: Vec<ProcessTracker>,
}

/// An update of tasks in the durable store.
#[derive(Debug, PartialEq)]
pub enum ProcessTrackerUpdate {
    /// The scheduler's status, and the business status if one is given.
    StatusUpdate { status: ProcessTrackerStatus, business_status: Option<String> },
}

/// An update of tasks, with its text as a sequence of characters.
pub enum ProcessTrackerUpdateView {
    StatusUpdate { status: ProcessTrackerStatus, business_status: Option<Seq<char>> },
}

impl View for ProcessTrackerUpdate {
    type V = ProcessTrackerUpdateView;

    open spec fn view(&self) -> ProcessTrackerUpdateView {
        match *self {
            ProcessTrackerUpdate::StatusUpdate {
                status,
                business_status,
            } => ProcessTrackerUpdateView::StatusUpdate {
                status,
                business_status: match business_status {
                    Some(text) => Some(text@),
                    None => None,
                },
            },
        }
    }
}

/// The texts of a list of status names.
pub open spec fn status_names(valid_statuses: Seq<&'static str>) -> Seq<Seq<char>> {
    valid_statuses.map_values(|s: &'static str| s@)
}

impl ProcessTracker {
    /// Whether the task's business status is one of `valid_statuses`.
    pub fn is_valid_business_status(&self, valid_statuses: &Vec<&'static str>) -> (r: bool)
        ensures
            r == status_names(valid_statuses@).contains(self.business_status@),
    {
        let ghost names = status_names(valid_statuses@);
        let mut i: usize = 0;
        while i < valid_statuses.len()
            invariant
                i <= valid_statuses.len(),
                names == status_names(valid_statuses@),
                forall|j: int| 0 <= j < i ==> names[j] != self.business_status@,
            decreases valid_statuses.len() - i,
        {
            if *valid_statuses[i] == *self.business_status.as_str() {
                assert(names[i as int] == self.business_status@);
                return true;
            }
            i += 1;
        }
        false
    }

    /// The task as it is once the scheduler has claimed it for execution.
    pub open spec fn started(self) -> ProcessTracker {
        ProcessTracker { status: ProcessTrackerStatus::ProcessStarted, ..self }
    }
}

} // verus!
