//! The records that the generators produce and the query engine consumes.

use vstd::prelude::*;

verus! {

/// Execution status of one task.
#[derive(Debug, Clone, Copy, PartialEq, Eq, Structural)]
#[allow(non_camel_case_types)]
pub enum TaskStatus {
    PENDING,
    SUCCEEDED,
    QUEUED,
    RUNNING,
    FAILED,
    SKIPPED,
    PAUSED,
}

impl TaskStatus {
    /// The display colour of the status, as `#rrggbb`.
    pub open spec fn color_text(self) -> Seq<char> {
        match self {
            TaskStatus::SUCCEEDED => "#4caf50"@,
            TaskStatus::FAILED => "#f44336"@,
            TaskStatus::RUNNING => "#2196f3"@,
            TaskStatus::PENDING => "#9e9e9e"@,
            TaskStatus::QUEUED => "#ff9800"@,
            TaskStatus::SKIPPED => "#673ab7"@,
            TaskStatus::PAUSED => "#795548"@,
        }
    }

    /// The display label of the status.
    pub open spec fn label_text(self) -> Seq<char> {
        match self {
            TaskStatus::SUCCEEDED => "Succeeded"@,
            TaskStatus::FAILED => "Failed"@,
            TaskStatus::RUNNING => "Running"@,
            TaskStatus::PENDING => "Pending"@,
            TaskStatus::QUEUED => "Queued"@,
            TaskStatus::SKIPPED => "Skipped"@,
            TaskStatus::PAUSED => "Paused"@,
        }
    }

    /// The name under which the status travels: the name of its variant.
    pub open spec fn name_text(self) -> Seq<char> {
        match self {
            TaskStatus::SUCCEEDED => "SUCCEEDED"@,
            TaskStatus::FAILED => "FAILED"@,
            TaskStatus::RUNNING => "RUNNING"@,
            TaskStatus::PENDING => "PENDING"@,
            TaskStatus::QUEUED => "QUEUED"@,
            TaskStatus::SKIPPED => "SKIPPED"@,
            TaskStatus::PAUSED => "PAUSED"@,
        }
    }

    pub fn color(&self) -> (c: &'static str)
        ensures
            c@ == self.color_text(),
    {
        match self {
            TaskStatus::SUCCEEDED => "#4caf50",
            TaskStatus::FAILED => "#f44336",
            TaskStatus::RUNNING => "#2196f3",
            TaskStatus::PENDING => "#9e9e9e",
            TaskStatus::QUEUED => "#ff9800",
            TaskStatus::SKIPPED => "#673ab7",
            TaskStatus::PAUSED => "#795548",
        }
    }

    pub fn label(&self) -> (l: &'static str)
        ensures
            l@ == self.label_text(),
    {
        match self {
            TaskStatus::SUCCEEDED => "Succeeded",
            TaskStatus::FAILED => "Failed",
            TaskStatus::RUNNING => "Running",
            TaskStatus::PENDING => "Pending",
            TaskStatus::QUEUED => "Queued",
            TaskStatus::SKIPPED => "Skipped",
            TaskStatus::PAUSED => "Paused",
        }
    }

    /// The name of the status, the form in which consumers receive it.
    pub fn name(&self) -> (t: &'static str)
        ensures
            t@ == self.name_text(),
    {
        match self {
            TaskStatus::SUCCEEDED => "SUCCEEDED",
            TaskStatus::FAILED => "FAILED",
            TaskStatus::RUNNING => "RUNNING",
            TaskStatus::PENDING => "PENDING",
            TaskStatus::QUEUED => "QUEUED",
            TaskStatus::SKIPPED => "SKIPPED",
            TaskStatus::PAUSED => "PAUSED",
        }
    }
}

/// One unit of work inside a workflow graph.
///
/// Instants are milliseconds since the Unix epoch and `duration` is in
/// milliseconds, so that `end_time - start_time` is the duration exactly.
#[derive(Debug, Clone, PartialEq)]
pub struct Task {
    pub id: String,
    pub name: String,
    pub status: TaskStatus,
    pub duration: Option<u64>,
    pub start_time: Option<i64>,
    pub end_time: Option<i64>,
    pub operator: String,
    pub retries: usize,
    pub max_retries: usize,
}

/// A dependency between two tasks, named by their identifiers.
#[derive(Debug, Clone, PartialEq)]
pub struct Edge {
    pub source: String,
    pub target: String,
}

/// The task graph of one workflow.
#[derive(Debug, Clone, PartialEq)]
pub struct DAGGraph {
    pub dag_id: String,
    pub tasks: Vec<Task>,
    pub edges: Vec<Edge>,
}

/// One catalog entry: the summary of a workflow definition.
///
/// `id` is the 128-bit value of the record's UUID; instants are milliseconds
/// since the Unix epoch.
#[derive(Debug, Clone, PartialEq)]
pub struct DAG {
    pub id: u128,
    pub dag_id: String,
    pub description: Option<String>,
    pub file_path: String,
    pub owner: String,
    pub paused: bool,
    pub last_run: Option<i64>,
    pub next_run: Option<i64>,
    pub runs_count: usize,
    pub success_count: usize,
    pub failed_count: usize,
    pub running_count: usize,
    pub schedule_interval: String,
    pub tags: Vec<String>,
    pub created_at: i64,
    pub updated_at: i64,
}

impl DAG {
    /// The invariants of a catalog entry: a paused workflow has no next run,
    /// and the successful and failed runs together never exceed the runs.
    pub open spec fn well_formed(self) -> bool {
        &&& self.paused ==> self.next_run is None
        &&& self.runs_count >= self.success_count + self.failed_count
    }

    /// The one-word state shown for the workflow. A paused workflow is
    /// `paused` whatever its counters; otherwise the first of running, failed
    /// and success whose counter is positive; `none` when all are zero.
    pub open spec fn status_text(self) -> Seq<char> {
        if self.paused {
            "paused"@
        } else if self.running_count > 0 {
            "running"@
        } else if self.failed_count > 0 {
            "failed"@
        } else if self.success_count > 0 {
            "success"@
        } else {
            "none"@
        }
    }

    pub fn status(&self) -> (s: &'static str)
        ensures
            s@ == self.status_text(),
    {
        if self.paused {
            "paused"
        } else if self.running_count > 0 {
            "running"
        } else if self.failed_count > 0 {
            "failed"
        } else if self.success_count > 0 {
            "success"
        } else {
            "none"
        }
    }
}

/// A page of the catalog together with the catalog's total count.
#[derive(Debug, Clone, PartialEq)]
pub struct DAGsResponse {
    pub dags: Vec<DAG>,
    pub total_count: usize,
}

/// A request for one page of the catalog. Absent fields take their defaults:
/// page 1, 25 records a page, sorted by identifier, ascending.
#[derive(Debug, Clone, Default, PartialEq)]
pub struct DAGsQuery {
    pub page: Option<usize>,
    pub limit: Option<usize>,
    pub search: Option<String>,
    pub status: Option<String>,
    pub tags: Option<String>,
    pub sort_by: Option<String>,
    pub sort_order: Option<String>,
}

impl DAGsQuery {
    /// Pages are counted from 1.
    pub open spec fn well_formed(self) -> bool {
        self.page matches Some(p) ==> p >= 1
    }
}

/// The colour scheme of the dashboard.
#[derive(Debug, Clone, Copy, PartialEq, Eq, Structural)]
pub enum Theme {
    Light,
    Dark,
}

impl Theme {
    pub open spec fn toggled(self) -> Theme {
        match self {
            Theme::Light => Theme::Dark,
            Theme::Dark => Theme::Light,
        }
    }

    pub open spec fn css_class_text(self) -> Seq<char> {
        match self {
            Theme::Light => "light-theme"@,
            Theme::Dark => "dark-theme"@,
        }
    }

    /// The other theme.
    pub fn toggle(&self) -> (t: Theme)
        ensures
            t == self.toggled(),
    {
        match self {
            Theme::Light => Theme::Dark,
            Theme::Dark => Theme::Light,
        }
    }

    /// The CSS class that selects the theme.
    pub fn css_class(&self) -> (c: &'static str)
        ensures
            c@ == self.css_class_text(),
    {
        match self {
            Theme::Light => "light-theme",
            Theme::Dark => "dark-theme",
        }
    }
}

} // verus!
