//! Synthetic data for a workflow-monitoring dashboard.
//!
//! The crate has two independent halves. The first synthesizes the task graph
//! of one workflow: a task count resolved from the workflow identifier, one
//! task per index with a status and matching time fields, and a set of edges
//! that always point from a lower task index to a higher one. The second
//! generates a catalog of workflow summaries and answers queries on it:
//! filters, a stable sort and pagination.
//!
//! Beside them stand the few rules of the dashboard's pages that need no
//! browser: how an input changes the query, and which request a query makes;
//! and the rule by which the service names the embedded file for a path.
//!
//! Randomness is always handed in by the caller as a seedable generator, and
//! the generators take the current time as an instant in milliseconds since
//! the Unix epoch, so that a seed and an instant give the same graph and the
//! same catalog again, but for the record identifiers of the catalog, which
//! are fresh UUIDs. Only `current_instant` and the handlers `get_dags` and
//! `get_dag_graph` read the system clock; what they do with a reading is
//! stated for every reading. Contracts state what holds of every outcome of
//! the random draws.

pub mod assets;
pub mod catalog;
pub mod client;
pub mod graph;
pub mod handlers;
pub mod instant;
pub mod models;
pub mod query;
pub mod random;
pub mod sorting;
pub mod status;
pub mod text;
